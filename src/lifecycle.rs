use vstd::prelude::*;

verus! {

/// Where the clock is in its life.
#[derive(PartialEq, Eq, Structural, Clone, Copy, Debug)]
pub enum Phase {
    /// Terminal, signals and first layout are being set up.
    Initializing,
    /// Frames are drawn on the redraw cadence.
    Running,
    /// The terminal is being restored.
    Terminating,
    /// Nothing is left to do; the process may exit.
    Stopped,
}

/// What the driver of the loop reports.
#[derive(PartialEq, Eq, Structural, Clone, Copy, Debug)]
pub enum Event {
    /// Setup succeeded.
    Ready,
    /// Setup, a paint or a refresh failed: the run ends with an error.
    Failed,
    /// A frame was drawn and the delay slept; `shutdown` is the shared flag
    /// as read afterwards and `key` tells whether a key was pressed.
    Tick { shutdown: bool, key: bool },
    /// Teardown was attempted.
    TornDown,
}

/// What the driver of the loop does next.
#[derive(PartialEq, Eq, Structural, Clone, Copy, Debug)]
pub enum Action {
    /// Sample the time, compose and paint a frame, sleep the delay, then
    /// report a `Tick`.
    Render,
    /// Restore the terminal, then report `TornDown`.
    Teardown,
    /// Exit the process.
    Exit,
}

/// The phase and action that follow `event` in `phase`.
pub open spec fn next(phase: Phase, quit_on_key: bool, event: Event) -> (Phase, Action) {
    match phase {
        Phase::Initializing => match event {
            Event::Ready => (Phase::Running, Action::Render),
            _ => (Phase::Terminating, Action::Teardown),
        },
        Phase::Running => match event {
            Event::Tick { shutdown, key } => if shutdown || (key && quit_on_key) {
                (Phase::Terminating, Action::Teardown)
            } else {
                (Phase::Running, Action::Render)
            },
            _ => (Phase::Terminating, Action::Teardown),
        },
        Phase::Terminating => (Phase::Stopped, Action::Exit),
        Phase::Stopped => (Phase::Stopped, Action::Exit),
    }
}

/// The actions that the events `es` draw from a controller in `phase`.
pub open spec fn actions(phase: Phase, quit_on_key: bool, es: Seq<Event>) -> Seq<Action>
    decreases es.len(),
{
    if es.len() == 0 {
        Seq::empty()
    } else {
        let (p, a) = next(phase, quit_on_key, es[0]);
        seq![a] + actions(p, quit_on_key, es.drop_first())
    }
}

/// The redraw loop's decisions.
pub struct Controller {
    pub phase: Phase,
    /// A key press ends the run.
    pub quit_on_key: bool,
    /// A failure was reported: the run ends with an error indication.
    pub failed: bool,
}

impl Controller {
    /// A controller about to set up.
    pub fn new(quit_on_key: bool) -> (c: Controller)
        ensures
            c.phase == Phase::Initializing,
            c.quit_on_key == quit_on_key,
            !c.failed,
    {
        Controller { phase: Phase::Initializing, quit_on_key, failed: false }
    }

    /// Takes in `event` and says what to do next; remembers a failure.
    pub fn step(&mut self, event: Event) -> (a: Action)
        ensures
            (final(self).phase, a) == next(old(self).phase, old(self).quit_on_key, event),
            final(self).quit_on_key == old(self).quit_on_key,
            final(self).failed == (old(self).failed || event == Event::Failed),
    {
        if let Event::Failed = event {
            self.failed = true;
        }
        let (p, a) = match self.phase {
            Phase::Initializing => match event {
                Event::Ready => (Phase::Running, Action::Render),
                _ => (Phase::Terminating, Action::Teardown),
            },
            Phase::Running => match event {
                Event::Tick { shutdown, key } => if shutdown || (key && self.quit_on_key) {
                    (Phase::Terminating, Action::Teardown)
                } else {
                    (Phase::Running, Action::Render)
                },
                _ => (Phase::Terminating, Action::Teardown),
            },
            Phase::Terminating => (Phase::Stopped, Action::Exit),
            Phase::Stopped => (Phase::Stopped, Action::Exit),
        };
        self.phase = p;
        a
    }
}

/// Takes in a key press seen while the shutdown flag was clear.
pub fn _key_event(ctl: &mut Controller) -> (a: Action)
    ensures
        (final(ctl).phase, a) == next(
            old(ctl).phase,
            old(ctl).quit_on_key,
            Event::Tick { shutdown: false, key: true },
        ),
        final(ctl).quit_on_key == old(ctl).quit_on_key,
        final(ctl).failed == old(ctl).failed,
{
    ctl.step(Event::Tick { shutdown: false, key: true })
}

/// Once the loop reads the shutdown flag set, it renders no further frame:
/// the controller turns to teardown, and every later action is an exit.
pub proof fn lemma_shutdown_stops_rendering(quit_on_key: bool, key: bool, rest: Seq<Event>)
    ensures
        next(Phase::Running, quit_on_key, Event::Tick { shutdown: true, key })
            == (Phase::Terminating, Action::Teardown),
        forall|j: int|
            0 <= j < rest.len() ==> #[trigger] actions(Phase::Terminating, quit_on_key, rest)[j]
                == Action::Exit,
{
    lemma_only_exits_after_teardown(Phase::Terminating, quit_on_key, rest);
}

/// From teardown on, every action is an exit.
proof fn lemma_only_exits_after_teardown(phase: Phase, quit_on_key: bool, es: Seq<Event>)
    requires
        phase == Phase::Terminating || phase == Phase::Stopped,
    ensures
        actions(phase, quit_on_key, es).len() == es.len(),
        forall|j: int|
            0 <= j < es.len() ==> #[trigger] actions(phase, quit_on_key, es)[j] == Action::Exit,
    decreases es.len(),
{
    if es.len() > 0 {
        lemma_only_exits_after_teardown(Phase::Stopped, quit_on_key, es.drop_first());
        let rest = actions(Phase::Stopped, quit_on_key, es.drop_first());
        assert forall|j: int| 0 <= j < es.len() implies #[trigger] actions(
            phase,
            quit_on_key,
            es,
        )[j] == Action::Exit by {
            if j > 0 {
                assert(actions(phase, quit_on_key, es)[j] == rest[j - 1]);
            }
        }
    }
}

/// A run that starts by setting up (or while running) asks for teardown
/// before it asks to exit: each exit comes after a teardown.
pub proof fn lemma_teardown_before_exit(phase: Phase, quit_on_key: bool, es: Seq<Event>)
    requires
        phase == Phase::Initializing || phase == Phase::Running,
    ensures
        actions(phase, quit_on_key, es).len() == es.len(),
        forall|i: int|
            0 <= i < es.len() && #[trigger] actions(phase, quit_on_key, es)[i] == Action::Exit
                ==> exists|j: int|
                0 <= j < i && #[trigger] actions(phase, quit_on_key, es)[j] == Action::Teardown,
    decreases es.len(),
{
    if es.len() > 0 {
        let (p, a) = next(phase, quit_on_key, es[0]);
        let all = actions(phase, quit_on_key, es);
        let rest = actions(p, quit_on_key, es.drop_first());
        assert(all == seq![a] + rest);
        if a == Action::Teardown {
            lemma_only_exits_after_teardown(p, quit_on_key, es.drop_first());
            assert forall|i: int|
                0 <= i < es.len() && #[trigger] all[i] == Action::Exit implies exists|j: int|
                0 <= j < i && #[trigger] all[j] == Action::Teardown by {
                assert(all[0] == Action::Teardown);
            }
        } else {
            lemma_teardown_before_exit(p, quit_on_key, es.drop_first());
            assert forall|i: int|
                0 <= i < es.len() && #[trigger] all[i] == Action::Exit implies exists|j: int|
                0 <= j < i && #[trigger] all[j] == Action::Teardown by {
                assert(i > 0);
                assert(all[i] == rest[i - 1]);
                let j0 = choose|j: int| 0 <= j < i - 1 && #[trigger] rest[j] == Action::Teardown;
                assert(all[j0 + 1] == Action::Teardown);
            }
        }
    }
}

} // verus!
