use crate::flag::{InitSignal, PlayFlag};
use crate::talker::{Command, Selection, Talker, is_toggle_of, selection_after, byte_len};
use vstd::prelude::*;

verus! {

/// The highest attempt number that a failure may still be retried from:
/// attempts 0 to 3 are made, and a failure of the last one is final.
pub const MAX_RETRY: usize = 3;

/// The fixed text shown once start-up has given up.
pub const GAVE_UP_MESSAGE: &'static str = "Failed to load TTS after every attempt, giving up.";

/// The whole reader: starting the engine, a terminal failure, or a session.
pub enum Main {
    /// Attempt number `attempt` to construct the engine runs in the
    /// background and raises `signal` when it has resolved.
    Init { attempt: usize, signal: InitSignal },
    /// Construction failed on every attempt: start-up gave up, and the
    /// reader shows only a fixed give-up message.
    GaveUp,
    /// A start-up thread failed abnormally on the last attempt, callback
    /// registration failed, or an engine command failed.
    Panicked,
    /// The engine is ready and its callbacks drive the session's flag.
    Running(Talker),
}

/// How one start-up attempt resolved, as the interactive loop found out by
/// joining its thread and, on success, registering the engine's callbacks.
pub enum Attempt {
    /// The thread terminated abnormally.
    TaskFailed,
    /// The engine could not be constructed. Its message is not shown: a
    /// failure is retried, and the last one ends in a fixed message.
    ConstructFailed,
    /// The engine was constructed but refused a callback.
    RegistrationFailed,
    /// The engine was constructed and all three callbacks write `flag`.
    Ready(PlayFlag),
}

/// What the interactive loop does after a transition.
#[derive(Clone, Copy, Debug, PartialEq, Eq, Structural)]
pub enum Action {
    /// Nothing.
    Wait,
    /// Launch the attempt that the `Init` state now names, on its signal.
    StartAttempt,
    /// Redraw at once: the displayed state changed.
    Repaint,
}

/// The answer of a non-blocking poll of a start-up attempt.
#[derive(Clone, Copy, Debug, PartialEq, Eq, Structural)]
pub enum Poll {
    /// The attempt has not signalled yet: its thread must not be joined.
    NotReady,
    /// The attempt has signalled: its thread may be joined without blocking.
    Ready,
}

/// The shape of a `Main`, without the values it carries.
#[derive(Clone, Copy, Debug, PartialEq, Eq, Structural)]
pub enum Phase {
    Attempting(usize),
    GaveUp,
    Panicked,
    Running,
}

impl Main {
    pub open spec fn phase(&self) -> Phase {
        match self {
            Main::Init { attempt, .. } => Phase::Attempting(*attempt),
            Main::GaveUp => Phase::GaveUp,
            Main::Panicked => Phase::Panicked,
            Main::Running(_) => Phase::Running,
        }
    }
}

/// Whether `o` is a failure that a later attempt might not meet.
pub open spec fn is_transient(o: Attempt) -> bool {
    match o {
        Attempt::TaskFailed => true,
        Attempt::ConstructFailed => true,
        _ => false,
    }
}

/// The phase after attempt outcome `o` in phase `p`.
pub open spec fn step(p: Phase, o: Attempt) -> Phase {
    match p {
        Phase::Attempting(n) => match o {
            Attempt::TaskFailed => if n < MAX_RETRY {
                Phase::Attempting((n + 1) as usize)
            } else {
                Phase::Panicked
            },
            Attempt::ConstructFailed => if n < MAX_RETRY {
                Phase::Attempting((n + 1) as usize)
            } else {
                Phase::GaveUp
            },
            Attempt::RegistrationFailed => Phase::Panicked,
            Attempt::Ready(_) => Phase::Running,
        },
        _ => p,
    }
}

/// The action after attempt outcome `o` in phase `p`.
pub open spec fn step_action(p: Phase, o: Attempt) -> Action {
    match p {
        Phase::Attempting(n) => if is_transient(o) && n < MAX_RETRY {
            Action::StartAttempt
        } else {
            Action::Repaint
        },
        _ => Action::Wait,
    }
}

/// The phase after the outcomes `os`, in order, from phase `p`.
pub open spec fn run(p: Phase, os: Seq<Attempt>) -> Phase
    decreases os.len(),
{
    if os.len() == 0 {
        p
    } else {
        step(run(p, os.drop_last()), os.last())
    }
}

/// How many attempts the outcomes `os` launch, in order, from phase `p`.
pub open spec fn launched(p: Phase, os: Seq<Attempt>) -> nat
    decreases os.len(),
{
    if os.len() == 0 {
        0
    } else {
        let q = run(p, os.drop_last());
        launched(p, os.drop_last()) + if step_action(q, os.last()) == Action::StartAttempt {
            1nat
        } else {
            0nat
        }
    }
}

/// The answer of a poll when the attempt's signal reads `raised`.
pub fn poll_signal(raised: bool) -> (r: Poll)
    ensures
        r == Poll::NotReady <==> !raised,
        r == Poll::Ready <==> raised,
{
    if raised {
        Poll::Ready
    } else {
        Poll::NotReady
    }
}

impl Main {
    /// The reader at process start: attempt 0, whose thread is still to be
    /// launched on the returned signal.
    pub fn new() -> (r: Main)
        ensures
            r.phase() == Phase::Attempting(0),
    {
        Main::Init { attempt: 0, signal: InitSignal::new() }
    }

    /// Non-blocking poll of the running attempt; `NotReady` in any other state.
    pub fn poll(&self) -> (r: Poll)
        ensures
            !(self.phase() is Attempting) ==> r == Poll::NotReady,
    {
        match self {
            Main::Init { signal, .. } => poll_signal(signal.is_raised()),
            _ => Poll::NotReady,
        }
    }

    /// Takes in how the running attempt resolved. A transient failure is
    /// retried on a fresh signal while the attempt number is below
    /// `MAX_RETRY`, and is final after that; a registration failure is final
    /// at once; a ready engine starts a session with empty text. Outside the
    /// `Init` state nothing changes.
    pub fn finish_attempt(&mut self, outcome: Attempt) -> (a: Action)
        ensures
            final(self).phase() == step(old(self).phase(), outcome),
            a == step_action(old(self).phase(), outcome),
            !(old(self).phase() is Attempting) ==> *final(self) == *old(self),
            match (*old(self), outcome) {
                (Main::Init { attempt, .. }, Attempt::ConstructFailed) => attempt >= MAX_RETRY
                    ==> *final(self) == Main::GaveUp,
                (Main::Init { attempt, .. }, Attempt::TaskFailed) => attempt >= MAX_RETRY
                    ==> *final(self) == Main::Panicked,
                (Main::Init { .. }, Attempt::RegistrationFailed) => *final(self) == Main::Panicked,
                _ => true,
            },
            old(self).phase() is Attempting ==> match outcome {
                Attempt::Ready(flag) => {
                    &&& *final(self) is Running
                    &&& (*final(self))->Running_0.text@.len() == 0
                    &&& (*final(self))->Running_0.position == (Selection { start: 0, end: 0 })
                    &&& (*final(self))->Running_0.flag == flag
                },
                _ => true,
            },
    {
        let attempt: usize = match self {
            Main::Init { attempt, .. } => *attempt,
            _ => {
                return Action::Wait;
            },
        };
        match outcome {
            Attempt::TaskFailed => {
                if attempt < MAX_RETRY {
                    *self = Main::Init { attempt: attempt + 1, signal: InitSignal::new() };
                    Action::StartAttempt
                } else {
                    *self = Main::Panicked;
                    Action::Repaint
                }
            },
            Attempt::ConstructFailed => {
                if attempt < MAX_RETRY {
                    *self = Main::Init { attempt: attempt + 1, signal: InitSignal::new() };
                    Action::StartAttempt
                } else {
                    *self = Main::GaveUp;
                    Action::Repaint
                }
            },
            Attempt::RegistrationFailed => {
                *self = Main::Panicked;
                Action::Repaint
            },
            Attempt::Ready(flag) => {
                *self = Main::Running(Talker::new(flag));
                Action::Repaint
            },
        }
    }
}

impl Main {
    /// The command for a press of play/pause while the session's flag reads
    /// `playing`; `None` outside a session.
    pub fn toggle_with(&self, playing: bool) -> (r: Option<Command>)
        ensures
            !(*self is Running) ==> r is None,
            *self is Running ==> r is Some && is_toggle_of(r->Some_0, playing, self->Running_0.text@),
    {
        match self {
            Main::Running(talker) => Some(talker.toggle_command(playing)),
            _ => None,
        }
    }

    /// The command for a press of play/pause, reading the session's flag
    /// once; `None` outside a session. The flag is left to the callbacks.
    pub fn toggle(&self) -> (r: Option<Command>)
        ensures
            !(*self is Running) ==> r is None,
            *self is Running ==> r is Some && (is_toggle_of(r->Some_0, true, self->Running_0.text@)
                || is_toggle_of(r->Some_0, false, self->Running_0.text@)),
    {
        match self {
            Main::Running(talker) => Some(talker.toggle()),
            _ => None,
        }
    }

    /// Takes in whether the engine accepted the command of a toggle. A
    /// refused command ends the session: the reader is then `Panicked`.
    pub fn command_done(&mut self, ok: bool) -> (a: Action)
        ensures
            *old(self) is Running && !ok ==> *final(self) == Main::Panicked && a == Action::Repaint,
            *old(self) is Running && ok ==> *final(self) == *old(self) && a == Action::Repaint,
            !(*old(self) is Running) ==> *final(self) == *old(self) && a == Action::Wait,
    {
        if let Main::Running(_) = self {
            if !ok {
                *self = Main::Panicked;
            }
            Action::Repaint
        } else {
            Action::Wait
        }
    }

    /// Takes in the text after an edit; the selection is reset. Outside a
    /// session nothing changes.
    pub fn edit(&mut self, new_text: String)
        ensures
            !(*old(self) is Running) ==> *final(self) == *old(self),
            *old(self) is Running ==> {
                &&& *final(self) is Running
                &&& (*final(self))->Running_0.text@ == new_text@
                &&& ((*final(self))->Running_0.position.start as nat,
                    (*final(self))->Running_0.position.end as nat)
                    == selection_after(byte_len(new_text@))
                &&& (*final(self))->Running_0.flag == (*old(self))->Running_0.flag
            },
    {
        if let Main::Running(talker) = self {
            talker.set_text(new_text);
        }
    }

    /// Whether speech is playing; `false` outside a session.
    pub fn is_playing(&self) -> (r: bool)
        ensures
            !(*self is Running) ==> !r,
    {
        match self {
            Main::Running(talker) => talker.running(),
            _ => false,
        }
    }
}

/// Whether every outcome in `os` is a transient failure.
pub open spec fn all_transient(os: Seq<Attempt>) -> bool {
    forall|i: int| 0 <= i < os.len() ==> is_transient(#[trigger] os[i])
}

/// A transient failure of an attempt numbered below `MAX_RETRY` launches
/// exactly one new attempt, numbered one higher; the same failure of attempt
/// `MAX_RETRY` or later ends start-up (gave up, or panicked for a failed
/// thread) and launches none.
pub proof fn lemma_retry_step(n: usize, o: Attempt)
    requires
        is_transient(o),
    ensures
        n < MAX_RETRY ==> step(Phase::Attempting(n), o) == Phase::Attempting((n + 1) as usize),
        n < MAX_RETRY ==> step_action(Phase::Attempting(n), o) == Action::StartAttempt,
        n >= MAX_RETRY ==> step_action(Phase::Attempting(n), o) == Action::Repaint,
        n >= MAX_RETRY && o is ConstructFailed ==> step(Phase::Attempting(n), o) == Phase::GaveUp,
        n >= MAX_RETRY && o is TaskFailed ==> step(Phase::Attempting(n), o) == Phase::Panicked,
{
}

/// From the first attempt, any run of transient failures launches at most
/// `MAX_RETRY` further attempts: after `k <= MAX_RETRY` failures attempt `k`
/// runs and `k` were launched; after more, start-up has ended and no more
/// were launched.
pub proof fn lemma_retry_bounded(os: Seq<Attempt>)
    requires
        all_transient(os),
    ensures
        os.len() <= MAX_RETRY ==> run(Phase::Attempting(0), os) == Phase::Attempting(os.len() as usize),
        os.len() > MAX_RETRY ==> run(Phase::Attempting(0), os) == Phase::GaveUp
            || run(Phase::Attempting(0), os) == Phase::Panicked,
        launched(Phase::Attempting(0), os) == if os.len() <= MAX_RETRY {
            os.len()
        } else {
            MAX_RETRY as nat
        },
        launched(Phase::Attempting(0), os) <= MAX_RETRY,
    decreases os.len(),
{
    if os.len() > 0 {
        let init = os.drop_last();
        assert(all_transient(init)) by {
            assert forall|i: int| 0 <= i < init.len() implies is_transient(#[trigger] init[i]) by {
                assert(init[i] == os[i]);
            }
        }
        lemma_retry_bounded(init);
        assert(is_transient(os[os.len() - 1]));
        if init.len() > MAX_RETRY {
            lemma_ended_stays(run(Phase::Attempting(0), init), os.last());
        }
    }
}

proof fn lemma_ended_stays(p: Phase, o: Attempt)
    requires
        !(p is Attempting),
    ensures
        step(p, o) == p,
        step_action(p, o) == Action::Wait,
{
}

/// Once start-up has ended (gave up, panicked, or a session runs), no
/// outcome changes the phase or launches an attempt.
pub proof fn lemma_terminal_absorbs(p: Phase, os: Seq<Attempt>)
    requires
        !(p is Attempting),
    ensures
        run(p, os) == p,
        launched(p, os) == 0,
    decreases os.len(),
{
    if os.len() > 0 {
        lemma_terminal_absorbs(p, os.drop_last());
    }
}

/// A constructed engine that refuses a callback ends start-up in `Panicked`
/// on any attempt, and is never retried: no later outcome launches anything.
pub proof fn lemma_registration_failure_final(n: usize, os: Seq<Attempt>)
    ensures
        step(Phase::Attempting(n), Attempt::RegistrationFailed) == Phase::Panicked,
        step_action(Phase::Attempting(n), Attempt::RegistrationFailed) == Action::Repaint,
        run(Phase::Attempting(n), seq![Attempt::RegistrationFailed] + os) == Phase::Panicked,
        launched(Phase::Attempting(n), seq![Attempt::RegistrationFailed] + os) == 0,
    decreases os.len(),
{
    let s = seq![Attempt::RegistrationFailed] + os;
    if os.len() > 0 {
        lemma_registration_failure_final(n, os.drop_last());
        assert(s.drop_last() =~= seq![Attempt::RegistrationFailed] + os.drop_last());
        assert(s.last() == os.last());
        lemma_ended_stays(Phase::Panicked, os.last());
    } else {
        assert(s.drop_last() =~= Seq::<Attempt>::empty());
        assert(s.last() == Attempt::RegistrationFailed);
        assert(run(Phase::Attempting(n), s.drop_last()) == Phase::Attempting(n));
        assert(launched(Phase::Attempting(n), s.drop_last()) == 0);
    }
}

} // verus!
