//! The interactive gate: the caller is held until enough left clicks of the
//! pointer were seen.
//!
//! A `ClickGate` is the state that the listener and the waiting caller share. The
//! listener hands every event to `observe`; the caller asks `poll` and, told
//! to wait, sleeps for the interval and asks again. A listener that could not
//! be started says so, and the caller is told to give up instead of waiting
//! for clicks that nobody counts.

use vstd::prelude::*;

verus! {

/// The time between two polls of the counter, in milliseconds.
pub const POLL_INTERVAL_MILLIS: u64 = 100;

/// A button of the pointer.
#[derive(Clone, Copy, Debug, PartialEq, Eq, Structural)]
pub enum Button {
    Left,
    Right,
    Middle,
    Other,
}

/// An input event, as far as a click gate tells events apart.
#[derive(Clone, Copy, Debug, PartialEq, Eq, Structural)]
pub enum InputEvent {
    ButtonPress(Button),
    ButtonRelease(Button),
    Other,
}

/// What the waiting caller does next.
#[derive(Clone, Copy, Debug, PartialEq, Eq, Structural)]
pub enum GateAction {
    /// Enough clicks were seen: the wait is over.
    Proceed,
    /// Sleep for so many milliseconds, then poll again.
    Wait { millis: u64 },
    /// The listener is lost and too few clicks were counted: give up.
    Abort,
}

/// Whether an event is the press of the left button.
pub open spec fn is_left_press(event: InputEvent) -> bool {
    event == InputEvent::ButtonPress(Button::Left)
}

/// How many of the events are presses of the left button.
pub open spec fn left_presses(events: Seq<InputEvent>) -> nat
    decreases events.len(),
{
    if events.len() == 0 {
        0
    } else {
        left_presses(events.drop_last()) + (if is_left_press(events.last()) {
            1nat
        } else {
            0nat
        })
    }
}

/// The counter after `presses` more left presses: it stops at the largest
/// value that it can hold.
pub open spec fn counted(clicks: u64, presses: nat) -> u64 {
    if clicks + presses <= u64::MAX {
        (clicks + presses) as u64
    } else {
        u64::MAX
    }
}

/// The counter of left clicks and the number of clicks at which it opens.
#[derive(Clone, Copy, Debug, PartialEq, Eq, Structural)]
pub struct ClickGate {
    pub min_clicks: u64,
    pub clicks: u64,
    /// Whether the listener reported that it cannot deliver events.
    pub listener_lost: bool,
}

impl ClickGate {
    /// Whether enough clicks were counted.
    pub open spec fn is_open(self) -> bool {
        self.clicks >= self.min_clicks
    }

    /// What the waiting caller is told: to go on where enough clicks were
    /// counted, else to give up where the listener is lost, else to wait for
    /// the poll interval.
    pub open spec fn action(self) -> GateAction {
        if self.is_open() {
            GateAction::Proceed
        } else if self.listener_lost {
            GateAction::Abort
        } else {
            (GateAction::Wait { millis: POLL_INTERVAL_MILLIS })
        }
    }

    /// A gate that opens after `min_clicks` left clicks, with none counted.
    pub fn new(min_clicks: u64) -> (gate: ClickGate)
        ensures
            gate == (ClickGate { min_clicks, clicks: 0, listener_lost: false }),
    {
        ClickGate { min_clicks, clicks: 0, listener_lost: false }
    }

    /// Takes the listener's report that it cannot deliver events. What was
    /// counted stays counted.
    pub fn listener_failed(&mut self)
        ensures
            *final(self) == (ClickGate { listener_lost: true, ..*old(self) }),
    {
        self.listener_lost = true;
    }

    /// Takes one event: a press of the left button is counted once, any other
    /// event leaves the counter as it is.
    pub fn observe(&mut self, event: InputEvent)
        ensures
            final(self).min_clicks == old(self).min_clicks,
            final(self).listener_lost == old(self).listener_lost,
            final(self).clicks == counted(
                old(self).clicks,
                if is_left_press(event) {
                    1nat
                } else {
                    0nat
                },
            ),
    {
        match event {
            InputEvent::ButtonPress(Button::Left) => {
                if self.clicks < u64::MAX {
                    self.clicks = self.clicks + 1;
                }
            },
            _ => {},
        }
    }

    /// Takes the events of a list in their order.
    pub fn observe_all(&mut self, events: &Vec<InputEvent>)
        ensures
            final(self).min_clicks == old(self).min_clicks,
            final(self).listener_lost == old(self).listener_lost,
            final(self).clicks == counted(old(self).clicks, left_presses(events@)),
    {
        let mut i: usize = 0;
        proof {
            assert(events@.take(0) =~= Seq::<InputEvent>::empty());
        }
        while i < events.len()
            invariant
                0 <= i <= events.len(),
                self.min_clicks == old(self).min_clicks,
                self.listener_lost == old(self).listener_lost,
                self.clicks == counted(old(self).clicks, left_presses(events@.take(i as int))),
            decreases events.len() - i,
        {
            proof {
                let next = events@.take(i as int + 1);
                assert(next.drop_last() =~= events@.take(i as int));
                assert(next.last() == events@[i as int]);
            }
            self.observe(events[i]);
            i += 1;
        }
        proof {
            assert(events@.take(events@.len() as int) =~= events@);
        }
    }

    /// What the waiting caller does now.
    pub fn poll(&self) -> (action: GateAction)
        ensures
            action == self.action(),
    {
        if self.clicks >= self.min_clicks {
            GateAction::Proceed
        } else if self.listener_lost {
            GateAction::Abort
        } else {
            GateAction::Wait { millis: POLL_INTERVAL_MILLIS }
        }
    }
}

/// Once open, a gate stays open whatever events follow, and a gate that has
/// counted from zero is open exactly where at least `min_clicks` left presses
/// were seen. An open gate lets the caller go on even where the listener is
/// lost.
pub proof fn lemma_gate_opens(gate: ClickGate, presses: nat)
    ensures
        gate.is_open() ==> (ClickGate { clicks: counted(gate.clicks, presses), ..gate }).is_open(),
        gate.clicks == 0 ==> ((ClickGate {
            clicks: counted(gate.clicks, presses),
            ..gate
        }).is_open() <==> presses >= gate.min_clicks),
        gate.is_open() <==> gate.action() == GateAction::Proceed,
{
}

} // verus!
