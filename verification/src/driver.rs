//! The decisions of the frame loop.
//!
//! The loop itself runs outside this library: it performs what the driver
//! asks for and reports back. The driver holds the order of a frame's steps,
//! the animated offset, and the one rule that ends the loop: a poll that
//! brought a request to close the window.

use vstd::prelude::*;
use crate::oscillator::Oscillator;

verus! {

/// Milliseconds to sleep in every frame, which keeps the loop near sixty
/// frames a second.
pub const FRAME_PAUSE_MILLIS: u64 = 17;

/// What the driver is waiting for.
#[derive(Clone, Copy, Debug, PartialEq, Eq, Structural)]
pub enum Stage {
    Clearing,
    Drawing,
    Presenting,
    Sleeping,
    Polling,
    Stopped,
}

/// What the loop is asked to do next.
#[derive(Clone, Copy, Debug, PartialEq, Eq, Structural)]
pub enum Action {
    /// Clear the frame to the background colour.
    Clear,
    /// Submit the one draw call; `offset` is the animated offset in steps,
    /// where there is an animation.
    Draw { offset: Option<i64> },
    /// Present the frame.
    Present,
    /// Sleep for `millis` milliseconds.
    Sleep { millis: u64 },
    /// Drain the input events that are pending and report them.
    Poll,
    /// Leave the loop.
    Stop,
}

/// One input event, as far as the loop cares.
#[derive(Clone, Copy, Debug, PartialEq, Eq, Structural)]
pub enum WindowEvent {
    CloseRequested,
    Other,
}

/// What the loop reports back.
#[derive(Clone, Debug)]
pub enum Event {
    /// The action asked for was performed.
    Completed,
    /// The pending input events were drained; here they are, oldest first.
    Polled(Vec<WindowEvent>),
}

/// The state of the frame loop.
#[derive(Clone, Copy, Debug, PartialEq, Eq, Structural)]
pub struct Driver {
    pub stage: Stage,
    /// The animated offset, for the demos that have one.
    pub animation: Option<Oscillator>,
}

impl Event {
    /// The report says that the window was asked to close.
    pub open spec fn asks_to_close(self) -> bool {
        self matches Event::Polled(events) && events@.contains(WindowEvent::CloseRequested)
    }

    /// The report is one that a driver in `stage` is waiting for.
    pub open spec fn answers(self, stage: Stage) -> bool {
        match stage {
            Stage::Stopped => false,
            Stage::Polling => self is Polled,
            _ => self is Completed,
        }
    }
}

impl Driver {
    /// The animation, if there is one, is within its bounds.
    pub open spec fn wf(self) -> bool {
        self.animation matches Some(o) ==> o.wf()
    }

    /// The animated offset in steps, where there is an animation.
    pub open spec fn offset(self) -> Option<i64> {
        match self.animation {
            Some(o) => Some(o.position),
            None => None,
        }
    }

    /// The action that a driver in this state is waiting to see performed.
    pub open spec fn pending(self) -> Action {
        match self.stage {
            Stage::Clearing => Action::Clear,
            Stage::Drawing => Action::Draw { offset: self.offset() },
            Stage::Presenting => Action::Present,
            Stage::Sleeping => Action::Sleep { millis: FRAME_PAUSE_MILLIS },
            Stage::Polling => Action::Poll,
            Stage::Stopped => Action::Stop,
        }
    }

    /// The driver at the start of a frame: the animation one step on, the
    /// frame about to be cleared.
    pub open spec fn next_frame(self) -> Driver {
        Driver {
            stage: Stage::Clearing,
            animation: match self.animation {
                Some(o) => Some(o.advanced()),
                None => None,
            },
        }
    }

    /// The driver after `event` was reported to it.
    ///
    /// A report that the driver is not waiting for changes nothing.
    pub open spec fn after(self, event: Event) -> Driver {
        if !event.answers(self.stage) {
            self
        } else {
            match self.stage {
                Stage::Clearing => Driver { stage: Stage::Drawing, ..self },
                Stage::Drawing => Driver { stage: Stage::Presenting, ..self },
                Stage::Presenting => Driver { stage: Stage::Sleeping, ..self },
                Stage::Sleeping => Driver { stage: Stage::Polling, ..self },
                Stage::Polling => if event.asks_to_close() {
                    Driver { stage: Stage::Stopped, ..self }
                } else {
                    self.next_frame()
                },
                Stage::Stopped => self,
            }
        }
    }

    /// The driver after each report of `events` in turn.
    pub open spec fn after_all(self, events: Seq<Event>) -> Driver
        decreases events.len(),
    {
        if events.len() == 0 {
            self
        } else {
            self.after_all(events.drop_last()).after(events.last())
        }
    }

    /// A driver at the start of its first frame, and the first action.
    pub fn launch(animation: Option<Oscillator>) -> (r: (Driver, Action))
        requires
            animation matches Some(o) ==> o.wf(),
        ensures
            r.0 == (Driver { stage: Stage::Clearing, animation }).next_frame(),
            r.1 == Action::Clear,
            r.0.wf(),
    {
        let mut driver = Driver { stage: Stage::Clearing, animation };
        driver.begin_frame();
        (driver, Action::Clear)
    }

    /// Steps the animation and sets the stage for a new frame.
    fn begin_frame(&mut self)
        requires
            old(self).wf(),
        ensures
            *final(self) == old(self).next_frame(),
            final(self).wf(),
    {
        self.stage = Stage::Clearing;
        match self.animation {
            Some(mut o) => {
                o.advance();
                self.animation = Some(o);
            },
            None => {},
        }
    }

    /// Whether the loop has been told to stop.
    pub fn is_stopped(&self) -> (r: bool)
        ensures
            r == (self.stage == Stage::Stopped),
    {
        match self.stage {
            Stage::Stopped => true,
            _ => false,
        }
    }

    /// The action that the driver is waiting to see performed.
    pub fn pending_action(&self) -> (a: Action)
        ensures
            a == self.pending(),
    {
        match self.stage {
            Stage::Clearing => Action::Clear,
            Stage::Drawing => Action::Draw {
                offset: match self.animation {
                    Some(o) => Some(o.position),
                    None => None,
                },
            },
            Stage::Presenting => Action::Present,
            Stage::Sleeping => Action::Sleep { millis: FRAME_PAUSE_MILLIS },
            Stage::Polling => Action::Poll,
            Stage::Stopped => Action::Stop,
        }
    }

    /// Takes one report from the loop and says what to do next.
    ///
    /// The steps of a frame follow one another: clear, draw, present, sleep,
    /// poll. A poll that brought a request to close stops the loop; any other
    /// poll starts the next frame. Once stopped, the driver stays stopped.
    pub fn step(&mut self, event: &Event) -> (action: Action)
        requires
            old(self).wf(),
        ensures
            *final(self) == old(self).after(*event),
            action == final(self).pending(),
            final(self).wf(),
    {
        match self.stage {
            Stage::Clearing => {
                if let Event::Completed = event {
                    self.stage = Stage::Drawing;
                }
            },
            Stage::Drawing => {
                if let Event::Completed = event {
                    self.stage = Stage::Presenting;
                }
            },
            Stage::Presenting => {
                if let Event::Completed = event {
                    self.stage = Stage::Sleeping;
                }
            },
            Stage::Sleeping => {
                if let Event::Completed = event {
                    self.stage = Stage::Polling;
                }
            },
            Stage::Polling => {
                if let Event::Polled(events) = event {
                    if close_requested(events) {
                        self.stage = Stage::Stopped;
                    } else {
                        self.begin_frame();
                    }
                }
            },
            Stage::Stopped => {},
        }
        self.pending_action()
    }
}

/// The report that an action was performed, four times over: what a loop
/// hands back between the clearing of a frame and its poll.
pub open spec fn four_completed() -> Seq<Event> {
    seq![Event::Completed, Event::Completed, Event::Completed, Event::Completed]
}

/// Within a frame the steps come in one order: after the clear the draw,
/// then the present, then the fixed sleep, then the poll. The animation
/// stands still meanwhile.
pub proof fn law_frame_order(driver: Driver)
    requires
        driver.stage == Stage::Clearing,
    ensures
        driver.pending() == Action::Clear,
        driver.after(Event::Completed).pending() == (Action::Draw { offset: driver.offset() }),
        driver.after(Event::Completed).after(Event::Completed).pending() == Action::Present,
        driver.after(Event::Completed).after(Event::Completed).after(Event::Completed).pending()
            == (Action::Sleep { millis: FRAME_PAUSE_MILLIS }),
        driver.after_all(four_completed()) == (Driver { stage: Stage::Polling, ..driver }),
        driver.after_all(four_completed()).pending() == Action::Poll,
{
    let reports = four_completed();
    let three = reports.drop_last();
    let two = three.drop_last();
    let one = two.drop_last();
    assert(one.drop_last().len() == 0);
    assert(driver.after_all(one.drop_last()) == driver);
    assert(driver.after_all(one) == driver.after(Event::Completed));
    assert(driver.after_all(two) == driver.after_all(one).after(Event::Completed));
    assert(driver.after_all(three) == driver.after_all(two).after(Event::Completed));
    assert(driver.after_all(reports) == driver.after_all(three).after(Event::Completed));
}

/// The loop stops on one occasion only: a poll that brought a request to
/// close the window. And on that occasion it does stop.
pub proof fn law_stops_exactly_on_close(driver: Driver, event: Event)
    requires
        driver.stage != Stage::Stopped,
    ensures
        driver.after(event).stage == Stage::Stopped <==> driver.stage == Stage::Polling
            && event.asks_to_close(),
{
}

/// A poll that brought no request to close starts the next frame, with the
/// animation one step on; every other report leaves the animation alone.
pub proof fn law_animation_steps_once_a_frame(driver: Driver, event: Event)
    ensures
        driver.stage == Stage::Polling && event is Polled && !event.asks_to_close()
            ==> driver.after(event) == driver.next_frame(),
        !(driver.stage == Stage::Polling && event is Polled && !event.asks_to_close())
            ==> driver.after(event).animation == driver.animation,
{
}

/// Whatever is reported, the animation stays within its bounds.
pub proof fn law_after_keeps_wf(driver: Driver, event: Event)
    requires
        driver.wf(),
    ensures
        driver.after(event).wf(),
{
    if let Some(o) = driver.animation {
        o.law_advanced_within();
    }
}

/// Once stopped, the driver stays stopped and keeps asking to leave the
/// loop, whatever is reported to it and however often.
pub proof fn law_stopped_for_good(driver: Driver, events: Seq<Event>)
    requires
        driver.stage == Stage::Stopped,
    ensures
        driver.after_all(events) == driver,
        driver.after_all(events).pending() == Action::Stop,
    decreases events.len(),
{
    if events.len() > 0 {
        law_stopped_for_good(driver, events.drop_last());
    }
}

/// Whether any of the drained events asks to close the window.
pub fn close_requested(events: &Vec<WindowEvent>) -> (r: bool)
    ensures
        r == events@.contains(WindowEvent::CloseRequested),
{
    let mut i: usize = 0;
    while i < events.len()
        invariant
            i <= events@.len(),
            forall|k: int| 0 <= k < i ==> events@[k] != WindowEvent::CloseRequested,
        decreases events@.len() - i,
    {
        match events[i] {
            WindowEvent::CloseRequested => {
                return true;
            },
            WindowEvent::Other => {},
        }
        i += 1;
    }
    false
}

} // verus!
