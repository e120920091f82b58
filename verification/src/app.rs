//! The render loop: what to do next, given what has just happened.
//!
//! The loop itself runs outside this library, where the terminal, the event
//! source and the clock live. After each thing it has done it reports a
//! `Signal`, and is told the next `Action`. One cycle of the loop waits for
//! an event, gathers the events that follow within the frame budget, and
//! redraws once. The budget runs from the arrival of the event that began
//! the cycle; the events gathered after it do not renew it.
//!
//! Time is read from a clock that never runs backwards, in nanoseconds since
//! a moment of the loop's choosing.

use vstd::prelude::*;
use tui::buffer::Buffer;
use crate::buffer::canvas;
use crate::clock::Clock;
use crate::event::{Event, Input, Key};
use crate::frame::{Edges, Frame};
use crate::geometry::Rect;
use crate::layout::{spans, split_rows, top_rows};
use crate::style::{Colour, Hue, Style};
use crate::time::Timestamp;

verus! {

/// The time after the arrival of the first event of a cycle during which
/// further events are gathered before the redraw, in nanoseconds: 16
/// milliseconds.
pub const FRAME_BUDGET: u64 = 16_000_000;

/// The rows at the top of the screen that the clock asks for.
pub const CLOCK_ROWS: u16 = 10;

/// Whether the loop goes on.
#[derive(Clone, Copy, Debug, PartialEq, Eq, Structural)]
pub enum State {
    Running,
    ShuttingDown,
}

/// What the loop is to do next.
#[derive(Clone, Copy, Debug, PartialEq, Eq, Structural)]
pub enum Action {
    /// Redraw the screen, then report `Signal::Drawn`.
    Draw,
    /// Wait for the next event, however long it takes. Report
    /// `Signal::Received`, or `Signal::Closed` if the source has ended.
    Receive,
    /// Read the clock, and report the reading as `Signal::Clock`.
    ReadClock,
    /// Wait for the next event, at most this many nanoseconds. Report
    /// `Signal::Received`, `Signal::TimedOut`, or `Signal::Closed`.
    ReceiveWithin(u64),
    /// Leave the loop.
    Exit,
}

/// What the loop has just done or seen.
#[derive(Clone, Copy, Debug, PartialEq, Eq, Structural)]
pub enum Signal {
    /// The screen has been redrawn.
    Drawn,
    /// An event has arrived, when the clock showed this reading.
    Received(Event, u64),
    /// The event source has ended.
    Closed,
    /// The clock shows this reading.
    Clock(u64),
    /// No event arrived in the time allowed.
    TimedOut,
}

/// The state of the application: whether shutdown has been asked for, what
/// the loop is to do next, and what the clock showed when the event arrived
/// that began the cycle now under way (or the last one, between cycles).
#[derive(Clone, Copy, Debug, PartialEq, Eq, Structural)]
pub struct App {
    pub shutdown: bool,
    pub pending: Action,
    pub begun: u64,
}

/// The time that has passed between two readings of the clock. A reading
/// that lies before the earlier one counts as no time at all.
pub open spec fn spec_elapsed(begun: u64, now: u64) -> u64 {
    if now >= begun {
        (now - begun) as u64
    } else {
        0
    }
}

/// The time that has passed between two readings of the clock.
#[verifier::when_used_as_spec(spec_elapsed)]
pub fn elapsed(begun: u64, now: u64) -> (elapsed: u64)
    ensures
        elapsed == spec_elapsed(begun, now),
{
    now.saturating_sub(begun)
}

/// What is left of the frame budget once `elapsed` nanoseconds have passed:
/// nothing once more than the budget has passed.
pub open spec fn spec_remaining_budget(elapsed: u64) -> Option<u64> {
    if elapsed <= FRAME_BUDGET {
        Some((FRAME_BUDGET - elapsed) as u64)
    } else {
        None
    }
}

/// What is left of the frame budget once `elapsed` nanoseconds have passed.
#[verifier::when_used_as_spec(spec_remaining_budget)]
pub fn remaining_budget(elapsed: u64) -> (remaining: Option<u64>)
    ensures
        remaining == spec_remaining_budget(elapsed),
{
    FRAME_BUDGET.checked_sub(elapsed)
}

impl App {
    /// The state after `event` has been handled: a press of the quit key
    /// asks for shutdown, nothing else has any effect.
    pub open spec fn handled(self, event: Event) -> App {
        App { shutdown: self.shutdown || event.is_quit(), ..self }
    }

    /// The state after `signal`. A signal that does not answer the pending
    /// action changes nothing.
    ///
    /// The event that ends the unlimited wait begins a cycle, and the
    /// reading at its arrival is kept. Every later reading of the clock in
    /// that cycle is measured against it: while the budget has not run out
    /// the loop waits for what is left of it, else it redraws.
    pub open spec fn spec_step(self, signal: Signal) -> App {
        match (self.pending, signal) {
            (Action::Draw, Signal::Drawn) => App {
                pending: if self.shutdown {
                    Action::Exit
                } else {
                    Action::Receive
                },
                ..self
            },
            (Action::Receive, Signal::Received(event, at)) => App {
                pending: Action::ReadClock,
                begun: at,
                ..self.handled(event)
            },
            (Action::Receive, Signal::Closed) => App {
                shutdown: true,
                pending: Action::Exit,
                ..self
            },
            (Action::ReadClock, Signal::Clock(now)) => App {
                pending: match remaining_budget(elapsed(self.begun, now)) {
                    Some(remaining) => Action::ReceiveWithin(remaining),
                    None => Action::Draw,
                },
                ..self
            },
            (Action::ReceiveWithin(_), Signal::Received(event, _)) => App {
                pending: Action::ReadClock,
                ..self.handled(event)
            },
            (Action::ReceiveWithin(_), Signal::TimedOut) => App { pending: Action::Draw, ..self },
            (Action::ReceiveWithin(_), Signal::Closed) => App {
                shutdown: true,
                pending: Action::Draw,
                ..self
            },
            _ => self,
        }
    }

    /// Whether the loop goes on.
    pub open spec fn spec_state(&self) -> State {
        if self.shutdown {
            State::ShuttingDown
        } else {
            State::Running
        }
    }

    /// The application as it starts: running, with the first draw to do.
    pub fn new() -> (app: App)
        ensures
            app == (App { shutdown: false, pending: Action::Draw, begun: 0 }),
    {
        App { shutdown: false, pending: Action::Draw, begun: 0 }
    }

    /// Whether the loop goes on.
    #[verifier::when_used_as_spec(spec_state)]
    pub fn state(&self) -> (state: State)
        ensures
            state == self.spec_state(),
    {
        if self.shutdown {
            State::ShuttingDown
        } else {
            State::Running
        }
    }

    /// Handles input: the quit key asks for shutdown, every other input is
    /// ignored.
    pub fn handle_input(&mut self, input: Input)
        ensures
            final(self).shutdown == (old(self).shutdown || input.is_quit()),
            final(self).pending == old(self).pending,
            final(self).begun == old(self).begun,
    {
        match input {
            Input::Key(Key::Char('q')) => {
                self.shutdown = true;
            },
            _ => {},
        }
    }

    /// Handles a tick: there is nothing to do, the redraw that follows reads
    /// the time anew.
    pub fn handle_tick(&self) {
    }

    /// Handles one event.
    pub fn handle_event(&mut self, event: Event)
        ensures
            *final(self) == old(self).handled(event),
    {
        match event {
            Event::Input(input) => self.handle_input(input),
            Event::Tick => self.handle_tick(),
        }
    }

    /// Takes in what the loop has just done or seen, and says what it is to
    /// do next.
    pub fn step(&mut self, signal: Signal) -> (action: Action)
        ensures
            *final(self) == old(self).spec_step(signal),
            action == final(self).pending,
    {
        match (self.pending, signal) {
            (Action::Draw, Signal::Drawn) => {
                self.pending = if self.shutdown {
                    Action::Exit
                } else {
                    Action::Receive
                };
            },
            (Action::Receive, Signal::Received(event, at)) => {
                self.handle_event(event);
                self.begun = at;
                self.pending = Action::ReadClock;
            },
            (Action::Receive, Signal::Closed) => {
                self.shutdown = true;
                self.pending = Action::Exit;
            },
            (Action::ReadClock, Signal::Clock(now)) => {
                self.pending = match remaining_budget(elapsed(self.begun, now)) {
                    Some(remaining) => Action::ReceiveWithin(remaining),
                    None => Action::Draw,
                };
            },
            (Action::ReceiveWithin(_), Signal::Received(event, _)) => {
                self.handle_event(event);
                self.pending = Action::ReadClock;
            },
            (Action::ReceiveWithin(_), Signal::TimedOut) => {
                self.pending = Action::Draw;
            },
            (Action::ReceiveWithin(_), Signal::Closed) => {
                self.shutdown = true;
                self.pending = Action::Draw;
            },
            _ => {},
        }
        self.pending
    }
}

impl App {
    /// The state after all of `signals`, in order.
    pub open spec fn replay(self, signals: Seq<Signal>) -> App
        decreases signals.len(),
    {
        if signals.len() == 0 {
            self
        } else {
            self.replay(signals.drop_last()).spec_step(signals.last())
        }
    }

    /// The number of redraws among `signals`: the reports `Signal::Drawn`
    /// that answer a pending `Action::Draw`.
    pub open spec fn redraws(self, signals: Seq<Signal>) -> nat
        decreases signals.len(),
    {
        if signals.len() == 0 {
            0
        } else {
            let before = self.replay(signals.drop_last());
            let drawn: nat = if before.pending == Action::Draw && signals.last() == Signal::Drawn {
                1
            } else {
                0
            };
            self.redraws(signals.drop_last()) + drawn
        }
    }

    /// The redraws that the loop still has to do before it can leave, once
    /// shutdown has been asked for.
    pub open spec fn owed(self) -> nat {
        if self.pending == Action::Exit {
            0
        } else {
            1
        }
    }

    /// What holds of every state that the loop reaches from its start: it
    /// waits without limit only while running, it leaves only once shutdown
    /// has been asked for, and a limited wait is never longer than the frame
    /// budget.
    pub open spec fn sound(self) -> bool {
        &&& self.pending == Action::Receive ==> !self.shutdown
        &&& self.pending == Action::Exit ==> self.shutdown
        &&& self.pending matches Action::ReceiveWithin(wait) ==> wait <= FRAME_BUDGET
    }

    /// The signals of one gathering: the event `first` that ended the wait
    /// when the clock showed `at`, then for each of `events` a reading of the
    /// clock, from `readings`, and the event itself with the reading at its
    /// arrival, from `arrivals`.
    pub open spec fn gathered(
        first: Event,
        at: u64,
        events: Seq<Event>,
        arrivals: Seq<u64>,
        readings: Seq<u64>,
    ) -> Seq<Signal>
        decreases events.len(),
    {
        if events.len() == 0 || arrivals.len() == 0 || readings.len() == 0 {
            seq![Signal::Received(first, at)]
        } else {
            Self::gathered(
                first,
                at,
                events.drop_last(),
                arrivals.drop_last(),
                readings.drop_last(),
            ).push(Signal::Clock(readings.last())).push(
                Signal::Received(events.last(), arrivals.last()),
            )
        }
    }

    /// One more signal: the state steps once more, and the redraws grow by
    /// one if the signal reports a redraw that was pending.
    pub proof fn lemma_push(self, signals: Seq<Signal>, signal: Signal)
        ensures
            self.replay(signals.push(signal)) == self.replay(signals).spec_step(signal),
            self.redraws(signals.push(signal)) == self.redraws(signals) + if self.replay(
                signals,
            ).pending == Action::Draw && signal == Signal::Drawn {
                1nat
            } else {
                0nat
            },
    {
        assert(signals.push(signal).drop_last() =~= signals);
    }

    /// The loop starts in a sound state, and every signal leads from a sound
    /// state to a sound state.
    pub proof fn lemma_sound(self, signals: Seq<Signal>)
        requires
            self.sound(),
        ensures
            (App { shutdown: false, pending: Action::Draw, begun: 0 }).sound(),
            self.replay(signals).sound(),
        decreases signals.len(),
    {
        if signals.len() > 0 {
            self.lemma_sound(signals.drop_last());
        }
    }

    /// Shutdown, once asked for, stays asked for: no signal leads from
    /// `State::ShuttingDown` back to `State::Running`.
    pub proof fn lemma_shutdown_stays(self, signals: Seq<Signal>)
        requires
            self.state() == State::ShuttingDown,
        ensures
            self.replay(signals).state() == State::ShuttingDown,
        decreases signals.len(),
    {
        if signals.len() > 0 {
            self.lemma_shutdown_stays(signals.drop_last());
        }
    }

    /// Once the loop has been told to leave, nothing happens any more: no
    /// signal changes the state, and no redraw is done.
    pub proof fn lemma_exit_stays(self, signals: Seq<Signal>)
        requires
            self.pending == Action::Exit,
        ensures
            self.replay(signals) == self,
            self.redraws(signals) == 0,
        decreases signals.len(),
    {
        if signals.len() > 0 {
            self.lemma_exit_stays(signals.drop_last());
        }
    }

    /// When the event source ends while the loop waits for the event that
    /// begins a cycle, the loop shuts down and leaves at once, without
    /// another redraw.
    pub proof fn lemma_closed_while_waiting(self, signals: Seq<Signal>)
        requires
            self.pending == Action::Receive,
        ensures
            self.spec_step(Signal::Closed) == (App {
                shutdown: true,
                pending: Action::Exit,
                begun: self.begun,
            }),
            self.redraws(seq![Signal::Closed] + signals) == 0,
            self.replay(seq![Signal::Closed] + signals).pending == Action::Exit,
        decreases signals.len(),
    {
        if signals.len() == 0 {
            assert(seq![Signal::Closed] + signals =~= Seq::<Signal>::empty().push(Signal::Closed));
            self.lemma_push(Seq::empty(), Signal::Closed);
        } else {
            self.lemma_closed_while_waiting(signals.drop_last());
            assert(seq![Signal::Closed] + signals =~= (seq![Signal::Closed]
                + signals.drop_last()).push(signals.last()));
            self.lemma_push(seq![Signal::Closed] + signals.drop_last(), signals.last());
        }
    }

    /// Once shutdown has been asked for in the middle of a cycle, the
    /// redraws done and the redraw still owed always add up to what was
    /// owed: the loop redraws once more, and leaves.
    pub proof fn lemma_shutdown_redraws(self, signals: Seq<Signal>)
        requires
            self.shutdown,
            self.pending != Action::Receive,
        ensures
            self.replay(signals).shutdown,
            self.replay(signals).pending != Action::Receive,
            self.redraws(signals) + self.replay(signals).owed() == self.owed(),
        decreases signals.len(),
    {
        if signals.len() > 0 {
            self.lemma_shutdown_redraws(signals.drop_last());
        }
    }

    /// A press of the quit key, received at the start of a cycle or while
    /// events are gathered, takes the loop to `State::ShuttingDown`. Whatever
    /// follows, the loop redraws at most once more, and exactly once by the
    /// time it leaves.
    pub proof fn lemma_quit(self, event: Event, at: u64, signals: Seq<Signal>)
        requires
            self.pending == Action::Receive || self.pending is ReceiveWithin,
            event.is_quit(),
        ensures
            ({
                let quit = self.spec_step(Signal::Received(event, at));
                &&& quit.state() == State::ShuttingDown
                &&& quit.replay(signals).state() == State::ShuttingDown
                &&& quit.redraws(signals) <= 1
                &&& quit.replay(signals).pending == Action::Exit ==> quit.redraws(signals) == 1
            }),
    {
        let quit = self.spec_step(Signal::Received(event, at));
        quit.lemma_shutdown_redraws(signals);
    }

    /// While events are gathered within the frame budget nothing is redrawn,
    /// and the budget is not renewed. After any number of events, each
    /// preceded by a reading of the clock within the budget of the first
    /// event's arrival: the loop is about to read the clock again, the
    /// reading it measures against is still that of the first event's
    /// arrival, and shutdown has been asked for if one of the events was a
    /// press of the quit key.
    pub proof fn lemma_gathering(
        self,
        first: Event,
        at: u64,
        events: Seq<Event>,
        arrivals: Seq<u64>,
        readings: Seq<u64>,
    )
        requires
            self.pending == Action::Receive,
            events.len() == arrivals.len(),
            events.len() == readings.len(),
            forall|i: int| 0 <= i < readings.len() ==> elapsed(at, readings[i]) <= FRAME_BUDGET,
        ensures
            ({
                let signals = Self::gathered(first, at, events, arrivals, readings);
                &&& self.redraws(signals) == 0
                &&& self.replay(signals).pending == Action::ReadClock
                &&& self.replay(signals).begun == at
                &&& self.replay(signals).shutdown == (self.shutdown || first.is_quit() || exists|
                    i: int,
                | 0 <= i < events.len() && #[trigger] events[i].is_quit())
            }),
        decreases events.len(),
    {
        if events.len() == 0 {
            assert(Self::gathered(first, at, events, arrivals, readings) =~= Seq::<
                Signal,
            >::empty().push(Signal::Received(first, at)));
            self.lemma_push(Seq::empty(), Signal::Received(first, at));
        } else {
            let earlier = Self::gathered(
                first,
                at,
                events.drop_last(),
                arrivals.drop_last(),
                readings.drop_last(),
            );
            self.lemma_gathering(
                first,
                at,
                events.drop_last(),
                arrivals.drop_last(),
                readings.drop_last(),
            );
            assert(elapsed(at, readings[readings.len() - 1]) <= FRAME_BUDGET);
            self.lemma_push(earlier, Signal::Clock(readings.last()));
            self.lemma_push(
                earlier.push(Signal::Clock(readings.last())),
                Signal::Received(events.last(), arrivals.last()),
            );
            let before = exists|i: int|
                0 <= i < events.drop_last().len() && #[trigger] events.drop_last()[i].is_quit();
            let now = exists|i: int| 0 <= i < events.len() && #[trigger] events[i].is_quit();
            if before {
                let i = choose|i: int|
                    0 <= i < events.drop_last().len() && #[trigger] events.drop_last()[i].is_quit();
                assert(events[i].is_quit());
            }
            if events.last().is_quit() {
                assert(events[events.len() - 1].is_quit());
            }
            if now {
                let i = choose|i: int| 0 <= i < events.len() && #[trigger] events[i].is_quit();
                if i < events.len() - 1 {
                    assert(events.drop_last()[i].is_quit());
                }
            }
            assert(now == (before || events.last().is_quit()));
        }
    }

    /// A burst of events costs one redraw, not one for each event. From the
    /// wait that begins a cycle: an event, then any number of further events
    /// within the frame budget, then the end of the budget, and the redraw.
    /// That redraw is the only one, and it comes last. The budget ends with a
    /// reading of the clock, `late`, past the budget of the first event's
    /// arrival, or with a wait that times out after a reading within it.
    pub proof fn lemma_burst_redraws_once(
        self,
        first: Event,
        at: u64,
        events: Seq<Event>,
        arrivals: Seq<u64>,
        readings: Seq<u64>,
        late: u64,
        timed_out: bool,
    )
        requires
            self.pending == Action::Receive,
            events.len() == arrivals.len(),
            events.len() == readings.len(),
            forall|i: int| 0 <= i < readings.len() ==> elapsed(at, readings[i]) <= FRAME_BUDGET,
            timed_out <==> elapsed(at, late) <= FRAME_BUDGET,
        ensures
            ({
                let gathered = Self::gathered(first, at, events, arrivals, readings);
                let ended = if timed_out {
                    gathered.push(Signal::Clock(late)).push(Signal::TimedOut)
                } else {
                    gathered.push(Signal::Clock(late))
                };
                let quit = self.shutdown || first.is_quit() || exists|i: int|
                    0 <= i < events.len() && #[trigger] events[i].is_quit();
                &&& self.redraws(ended) == 0
                &&& self.replay(ended).pending == Action::Draw
                &&& self.redraws(ended.push(Signal::Drawn)) == 1
                &&& self.replay(ended.push(Signal::Drawn)) == (App {
                    shutdown: quit,
                    pending: if quit {
                        Action::Exit
                    } else {
                        Action::Receive
                    },
                    begun: at,
                })
            }),
    {
        let gathered = Self::gathered(first, at, events, arrivals, readings);
        self.lemma_gathering(first, at, events, arrivals, readings);
        self.lemma_push(gathered, Signal::Clock(late));
        if timed_out {
            self.lemma_push(gathered.push(Signal::Clock(late)), Signal::TimedOut);
            self.lemma_push(
                gathered.push(Signal::Clock(late)).push(Signal::TimedOut),
                Signal::Drawn,
            );
        } else {
            self.lemma_push(gathered.push(Signal::Clock(late)), Signal::Drawn);
        }
    }

    /// The wait that follows a reading of the clock is what is left of the
    /// budget of the first event's arrival, whatever has been received since:
    /// the budget less the time from that arrival to the reading. Once that
    /// time exceeds the budget the loop redraws.
    pub proof fn lemma_wait(self, now: u64)
        requires
            self.pending == Action::ReadClock,
        ensures
            now <= self.begun + FRAME_BUDGET ==> self.spec_step(Signal::Clock(now)).pending
                == Action::ReceiveWithin(
                if now >= self.begun {
                    (self.begun + FRAME_BUDGET - now) as u64
                } else {
                    FRAME_BUDGET
                },
            ),
            now > self.begun + FRAME_BUDGET ==> self.spec_step(Signal::Clock(now)).pending
                == Action::Draw,
    {
    }

    /// Runs the loop over a record of signals, and returns the action that
    /// each of them led to.
    pub fn run(&mut self, signals: &Vec<Signal>) -> (actions: Vec<Action>)
        ensures
            *final(self) == old(self).replay(signals@),
            actions@.len() == signals@.len(),
            forall|i: int|
                0 <= i < signals@.len() ==> #[trigger] actions@[i] == old(self).replay(
                    signals@.take(i + 1),
                ).pending,
    {
        let ghost start = *self;
        let mut actions: Vec<Action> = Vec::new();
        let mut done: usize = 0;
        while done < signals.len()
            invariant
                done <= signals@.len(),
                actions@.len() == done,
                *self == start.replay(signals@.take(done as int)),
                forall|i: int|
                    0 <= i < done ==> #[trigger] actions@[i] == start.replay(
                        signals@.take(i + 1),
                    ).pending,
            decreases signals@.len() - done,
        {
            proof {
                assert(signals@.take(done + 1).drop_last() =~= signals@.take(done as int));
            }
            let action = self.step(signals[done]);
            actions.push(action);
            done = done + 1;
        }
        proof {
            assert(signals@.take(done as int) =~= signals@);
        }
        actions
    }
}

impl App {
    /// The clock as the application shows it: green and centred, above a
    /// dark gray rule.
    pub open spec fn spec_widget(time: Timestamp) -> Clock {
        Clock {
            block: Some(
                Frame {
                    borders: Edges { top: false, right: false, bottom: true, left: false },
                    border_style: Style { fg: Colour::Bright(Hue::Black), bg: Colour::Reset },
                },
            ),
            center: true,
            datetime: time,
            style: Style { fg: Colour::Plain(Hue::Green), bg: Colour::Reset },
        }
    }

    /// The clock as the application shows it, at `time`.
    pub fn widget(time: Timestamp) -> (clock: Clock)
        ensures
            clock == Self::spec_widget(time),
    {
        let rule = Style::default().fg(Colour::Bright(Hue::Black));
        Clock::with_datetime(time).block(
            Frame::default().borders(Edges::none().bottom()).border_style(rule),
        ).center(true).style(Style::default().fg(Colour::Plain(Hue::Green)))
    }

    /// Draws one frame of the application into the buffer of a screen of
    /// `size`: the clock, showing the local time of this moment, in the band
    /// that the layout gives it at the top of the screen. Says whether the
    /// clock could be drawn; if not, the buffer is left as it is.
    ///
    /// The clock is drawn whenever `size` is a proper rectangle inside a
    /// sound buffer. On a screen of ten rows or more it is drawn into the top
    /// ten rows; on a smaller one into some band of rows that begins at the
    /// top of `size`. Which time is shown is not known beforehand: for some
    /// time, the buffer is what `Clock::render` makes of it.
    pub fn draw(&self, size: Rect, buf: &mut Buffer) -> (done: bool)
        ensures
            size.wf() && size.height >= CLOCK_ROWS ==> exists|time: Timestamp|
                time.wf() && #[trigger] Self::spec_widget(time).rendered(
                    top_rows(size, CLOCK_ROWS),
                    *old(buf),
                    *final(buf),
                    done,
                ),
            size.wf() ==> exists|time: Timestamp, band: Rect|
                time.wf() && spans(size, band) && band.y == size.y && #[trigger] Self::spec_widget(
                    time,
                ).rendered(band, *old(buf), *final(buf), done),
            Clock::drawable(size, canvas(*old(buf))) ==> done,
            !size.wf() || !canvas(*old(buf)).wf() ==> !done && *final(buf) == *old(buf),
    {
        if !size.is_wf() {
            return false;
        }
        let rows = split_rows(size, CLOCK_ROWS, 0);
        let clock = Self::widget(Timestamp::now());
        clock.render(rows[0], buf)
    }
}

} // verus!
