use vstd::prelude::*;

use crate::cadence::{InboundPayload, Metadata};
use crate::messages::{MeshMessage, OnOffMessage, OnOffSet};
use crate::race::{select, select_spec, Either};

verus! {

/// Length of the brightness ramp up, in milliseconds.
pub const RAMP_UP_MS: u64 = 600;

/// Length of the brightness ramp down, in milliseconds.
pub const RAMP_DOWN_MS: u64 = 400;

/// How long each frame of a ramp is shown, in milliseconds.
pub const FRAME_MS: u64 = 50;

/// The dark pause between two blinks, in milliseconds.
pub const PAUSE_MS: u64 = 1000;

/// Where a blink stands; each ramp carries its deadline in milliseconds.
#[derive(Clone, Copy, Debug, PartialEq, Eq, Structural)]
pub enum BlinkPhase {
    Start,
    RampUp(u64),
    RampDown(u64),
}

/// What the display does next.
#[derive(Clone, Copy, Debug, PartialEq, Eq, Structural)]
pub enum DisplayOp {
    /// Set the minimum brightness and light every LED.
    Reset,
    /// Raise the brightness one step and show the frame for this long.
    Brighter(u64),
    /// Lower the brightness one step and show the frame for this long.
    Dimmer(u64),
    /// Clear the display and stay dark for this long.
    ClearAndPause(u64),
}

/// `now + d`, or the largest instant where that does not fit.
pub open spec fn deadline(now: u64, d: u64) -> u64 {
    if now <= u64::MAX - d {
        (now + d) as u64
    } else {
        u64::MAX
    }
}

/// The blink choreography, driven by the time alone: light all at minimum
/// brightness, ramp up until its deadline, ramp down until its deadline,
/// clear and pause, then start over.
pub open spec fn blink_next(phase: BlinkPhase, now: u64) -> (BlinkPhase, DisplayOp) {
    match phase {
        BlinkPhase::Start => (BlinkPhase::RampUp(deadline(now, RAMP_UP_MS)), DisplayOp::Reset),
        BlinkPhase::RampUp(end) => if now < end {
            (BlinkPhase::RampUp(end), DisplayOp::Brighter(FRAME_MS))
        } else {
            (BlinkPhase::RampDown(deadline(now, RAMP_DOWN_MS)), DisplayOp::Dimmer(FRAME_MS))
        },
        BlinkPhase::RampDown(end) => if now < end {
            (BlinkPhase::RampDown(end), DisplayOp::Dimmer(FRAME_MS))
        } else {
            (BlinkPhase::Start, DisplayOp::ClearAndPause(PAUSE_MS))
        },
    }
}

fn deadline_after(now: u64, d: u64) -> (r: u64)
    ensures
        r == deadline(now, d),
{
    if now <= u64::MAX - d {
        now + d
    } else {
        u64::MAX
    }
}

/// The looping blink animation of the on/off display.
#[derive(Clone, Copy, Debug)]
pub struct Blinker {
    phase: BlinkPhase,
}

impl Blinker {
    pub closed spec fn phase(&self) -> BlinkPhase {
        self.phase
    }

    pub fn new() -> (r: Blinker)
        ensures
            r.phase() == BlinkPhase::Start,
    {
        Blinker { phase: BlinkPhase::Start }
    }

    /// The next display operation at time `now`, in milliseconds.
    pub fn next(&mut self, now: u64) -> (r: DisplayOp)
        ensures
            (final(self).phase(), r) == blink_next(old(self).phase(), now),
    {
        match self.phase {
            BlinkPhase::Start => {
                self.phase = BlinkPhase::RampUp(deadline_after(now, RAMP_UP_MS));
                DisplayOp::Reset
            },
            BlinkPhase::RampUp(end) => {
                if now < end {
                    DisplayOp::Brighter(FRAME_MS)
                } else {
                    self.phase = BlinkPhase::RampDown(deadline_after(now, RAMP_DOWN_MS));
                    DisplayOp::Dimmer(FRAME_MS)
                }
            },
            BlinkPhase::RampDown(end) => {
                if now < end {
                    DisplayOp::Dimmer(FRAME_MS)
                } else {
                    self.phase = BlinkPhase::Start;
                    DisplayOp::ClearAndPause(PAUSE_MS)
                }
            },
        }
    }
}

/// What happened to the display loop.
#[derive(Clone, Copy, Debug, PartialEq, Eq, Structural)]
pub enum DisplayEvent {
    /// The animation branch of the race finished.
    AnimationEnded,
    Inbound(InboundPayload),
}

/// What the display loop does next.
#[derive(Clone, Copy, Debug, PartialEq, Eq, Structural)]
pub enum DisplayAction {
    /// Stop animating, if it was, and await inbound messages only.
    Wait,
    /// Start the animation afresh, raced against inbound messages.
    Animate,
    /// Keep the running animation and keep awaiting inbound messages.
    Continue,
}

/// The on/off intent a payload carries: `Set` and `SetUnacknowledged`
/// carry one, anything else none.
pub open spec fn intent_spec(data: InboundPayload) -> Option<bool> {
    match data {
        InboundPayload::Message(MeshMessage::OnOff(OnOffMessage::SetAcknowledged(s)), _) => Some(
            s.on_off != 0,
        ),
        InboundPayload::Message(MeshMessage::OnOff(OnOffMessage::SetUnacknowledged(s)), _) => Some(
            s.on_off != 0,
        ),
        _ => None,
    }
}

/// One decision of the display loop: the active flag after the event, and
/// the action.
pub open spec fn display_step(active: bool, event: DisplayEvent) -> (bool, DisplayAction) {
    match event {
        DisplayEvent::AnimationEnded => (
            active,
            if active {
                DisplayAction::Animate
            } else {
                DisplayAction::Wait
            },
        ),
        DisplayEvent::Inbound(data) => match intent_spec(data) {
            Some(on) => (
                on,
                if on {
                    DisplayAction::Animate
                } else {
                    DisplayAction::Wait
                },
            ),
            None => (
                active,
                if active {
                    DisplayAction::Continue
                } else {
                    DisplayAction::Wait
                },
            ),
        },
    }
}

/// How a race of the display loop ends: while active, the animation is
/// checked before the inbound message; while inactive only messages count.
pub open spec fn display_race(active: bool, animation_ended: bool, inbound: Option<InboundPayload>) -> Option<
    DisplayEvent,
> {
    match select_spec(
        if active && animation_ended {
            Some(())
        } else {
            None
        },
        inbound,
    ) {
        Some(Either::First(_)) => Some(DisplayEvent::AnimationEnded),
        Some(Either::Second(p)) => Some(DisplayEvent::Inbound(p)),
        None => None,
    }
}

/// The on/off actuator model: blinks the display while active.
pub struct DisplayOnOff {
    active: bool,
    blinker: Blinker,
}

impl DisplayOnOff {
    pub closed spec fn active(&self) -> bool {
        self.active
    }

    pub closed spec fn phase(&self) -> BlinkPhase {
        self.blinker.phase()
    }

    /// An inactive display.
    pub fn new() -> (r: DisplayOnOff)
        ensures
            !r.active(),
            r.phase() == BlinkPhase::Start,
    {
        DisplayOnOff { active: false, blinker: Blinker::new() }
    }

    /// Whether the display is blinking.
    pub fn is_active(&self) -> (r: bool)
        ensures
            r == self.active(),
    {
        self.active
    }

    /// The intent of an inbound payload, if it carries one.
    pub fn process(data: &InboundPayload) -> (r: Option<bool>)
        ensures
            r == intent_spec(*data),
    {
        match *data {
            InboundPayload::Message(MeshMessage::OnOff(OnOffMessage::SetAcknowledged(s)), _) => Some(
                s.on_off != 0,
            ),
            InboundPayload::Message(MeshMessage::OnOff(OnOffMessage::SetUnacknowledged(s)), _) => {
                Some(s.on_off != 0)
            },
            _ => None,
        }
    }

    /// Resolves a race between the animation and the next inbound payload.
    pub fn race(&self, animation_ended: bool, inbound: Option<InboundPayload>) -> (r: Option<
        DisplayEvent,
    >)
        ensures
            r == display_race(self.active(), animation_ended, inbound),
    {
        let ended: Option<()> = if self.active && animation_ended {
            Some(())
        } else {
            None
        };
        match select(ended, inbound) {
            Some(Either::First(_)) => Some(DisplayEvent::AnimationEnded),
            Some(Either::Second(p)) => Some(DisplayEvent::Inbound(p)),
            None => None,
        }
    }

    /// Decides what the loop does on an event. Starting the animation
    /// starts the blink from its beginning.
    pub fn step(&mut self, event: DisplayEvent) -> (r: DisplayAction)
        ensures
            (final(self).active(), r) == display_step(old(self).active(), event),
            r == DisplayAction::Animate ==> final(self).phase() == BlinkPhase::Start,
            r != DisplayAction::Animate ==> final(self).phase() == old(self).phase(),
    {
        let action = match event {
            DisplayEvent::AnimationEnded => if self.active {
                DisplayAction::Animate
            } else {
                DisplayAction::Wait
            },
            DisplayEvent::Inbound(data) => match DisplayOnOff::process(&data) {
                Some(on) => {
                    self.active = on;
                    if on {
                        DisplayAction::Animate
                    } else {
                        DisplayAction::Wait
                    }
                },
                None => if self.active {
                    DisplayAction::Continue
                } else {
                    DisplayAction::Wait
                },
            },
        };
        if action == DisplayAction::Animate {
            self.blinker = Blinker::new();
        }
        action
    }

    /// The next operation of the animation at time `now`, in milliseconds.
    pub fn next_frame(&mut self, now: u64) -> (r: DisplayOp)
        ensures
            (final(self).phase(), r) == blink_next(old(self).phase(), now),
            final(self).active() == old(self).active(),
    {
        self.blinker.next(now)
    }
}

/// While active, an ended animation is checked before a ready message;
/// otherwise the message wins; while inactive only messages count.
pub proof fn lemma_animation_checked_first(data: InboundPayload)
    ensures
        display_race(true, true, Some(data)) == Some(DisplayEvent::AnimationEnded),
        display_race(true, false, Some(data)) == Some(DisplayEvent::Inbound(data)),
        display_race(false, true, Some(data)) == Some(DisplayEvent::Inbound(data)),
        display_race(false, true, None) is None,
{
}

/// An unacknowledged `Set` to on, while inactive, activates the display
/// and starts the animation; a later `Set` to off, arriving while the
/// animation runs, wins the race, deactivates the display and leaves the
/// loop waiting on messages alone.
pub proof fn lemma_on_then_off(on: OnOffSet, off: OnOffSet, m1: Metadata, m2: Metadata)
    requires
        on.on_off != 0,
        off.on_off == 0,
    ensures
        ({
            let first = InboundPayload::Message(
                MeshMessage::OnOff(OnOffMessage::SetUnacknowledged(on)),
                m1,
            );
            let second = InboundPayload::Message(
                MeshMessage::OnOff(OnOffMessage::SetAcknowledged(off)),
                m2,
            );
            &&& display_race(false, false, Some(first)) == Some(DisplayEvent::Inbound(first))
            &&& display_step(false, DisplayEvent::Inbound(first)) == (true, DisplayAction::Animate)
            &&& display_race(true, false, Some(second)) == Some(DisplayEvent::Inbound(second))
            &&& display_step(true, DisplayEvent::Inbound(second)) == (false, DisplayAction::Wait)
        }),
{
}

} // verus!
