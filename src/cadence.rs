use vstd::prelude::*;

use crate::messages::MeshMessage;

verus! {

/// How a model emits unsolicited status messages.
#[derive(Clone, Copy, Debug, PartialEq, Eq, Structural)]
pub enum CadenceMode {
    /// Every `period_ms` milliseconds.
    Periodic(u64),
    /// On a change of value; this library emits nothing on its own for it.
    OnChange,
    /// Never.
    Never,
}

/// An out-of-band instruction to a model.
#[derive(Clone, Copy, Debug, PartialEq, Eq, Structural)]
pub enum ControlEvent {
    PublicationCadence(CadenceMode),
}

/// Where an inbound message came from.
#[derive(Clone, Copy, Debug, PartialEq, Eq, Structural)]
pub struct Metadata {
    pub source: u16,
}

/// What one receive from the context channel yields.
#[derive(Clone, Copy, Debug, PartialEq, Eq, Structural)]
pub enum InboundPayload {
    Message(MeshMessage, Metadata),
    Control(ControlEvent),
}

/// The recurring timer a cadence mode calls for: armed with its period
/// exactly when the mode is periodic.
pub open spec fn timer_for(mode: CadenceMode) -> Option<u64> {
    match mode {
        CadenceMode::Periodic(p) => Some(p),
        _ => None,
    }
}

/// The cadence state of a model: at most one recurring timer.
#[derive(Clone, Copy, Debug, PartialEq, Eq, Structural)]
pub struct CadenceState {
    ticker: Option<u64>,
}

impl CadenceState {
    pub closed spec fn timer(&self) -> Option<u64> {
        self.ticker
    }

    /// The state a model starts in: no timer.
    pub fn new() -> (r: CadenceState)
        ensures
            r.timer() is None,
    {
        CadenceState { ticker: None }
    }

    /// The period of the armed timer, if one is armed.
    pub fn period(&self) -> (r: Option<u64>)
        ensures
            r == self.timer(),
    {
        self.ticker
    }

    /// Replaces the timer wholesale with the one the mode calls for.
    pub fn apply(&mut self, mode: CadenceMode)
        ensures
            final(self).timer() == timer_for(mode),
    {
        match mode {
            CadenceMode::Periodic(p) => {
                self.ticker = Some(p);
            },
            CadenceMode::OnChange | CadenceMode::Never => {
                self.ticker = None;
            },
        }
    }

    /// Applies a publication cadence event; other payloads leave the state alone.
    pub fn process(&mut self, data: &InboundPayload)
        ensures
            final(self).timer() == after_payload(old(self).timer(), *data),
    {
        if let InboundPayload::Control(ControlEvent::PublicationCadence(mode)) = *data {
            self.apply(mode);
        }
    }
}

/// The timer after a payload: a cadence event replaces it, nothing else
/// touches it.
pub open spec fn after_payload(timer: Option<u64>, data: InboundPayload) -> Option<u64> {
    match data {
        InboundPayload::Control(ControlEvent::PublicationCadence(mode)) => timer_for(mode),
        _ => timer,
    }
}

/// Each cadence event replaces the timer, whatever came before: after
/// `Periodic`, then `OnChange`, then `Never`, no timer is left.
pub proof fn lemma_cadence_sequence(start: Option<u64>, period: u64)
    ensures
        after_payload(
            after_payload(
                after_payload(
                    start,
                    InboundPayload::Control(
                        ControlEvent::PublicationCadence(CadenceMode::Periodic(period)),
                    ),
                ),
                InboundPayload::Control(ControlEvent::PublicationCadence(CadenceMode::OnChange)),
            ),
            InboundPayload::Control(ControlEvent::PublicationCadence(CadenceMode::Never)),
        ) is None,
        after_payload(
            start,
            InboundPayload::Control(ControlEvent::PublicationCadence(CadenceMode::Periodic(period))),
        ) == Some(period),
{
}

} // verus!
