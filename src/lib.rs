//! Mesh model handlers for small nodes.
//!
//! - `messages` and `codec`: the application messages of the on/off,
//!   sensor and battery models, and their binary wire codec into opcode and
//!   parameter octets held in fixed-capacity `buffer`s.
//! - `cadence`, `race`, `sensor` and `display`: the publication cadence of a
//!   model, the prioritised two-way race, and the decisions of the sensor and
//!   on/off actuator run loops, as functions from state and event to next
//!   state and action.
//! - `gateway` and `simulator`: what a bridge to the cloud side and a
//!   simulated node compute from wire envelopes.

pub mod buffer;
pub mod cadence;
pub mod codec;
pub mod display;
pub mod gateway;
pub mod messages;
pub mod race;
pub mod sensor;
pub mod simulator;
