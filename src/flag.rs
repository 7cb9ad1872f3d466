use std::sync::atomic::{AtomicBool, Ordering};
use std::sync::Arc;
use vstd::prelude::*;

verus! {

/// A notification that the speech engine sends about an utterance.
#[derive(Clone, Copy, Debug, PartialEq, Eq, Structural)]
pub enum Utterance {
    /// The utterance started to be heard.
    Begin,
    /// The utterance was interrupted.
    Stop,
    /// The utterance finished on its own.
    End,
}

/// Whether speech is audible right after the engine reported `u`.
pub open spec fn playing_after(u: Utterance) -> bool {
    u == Utterance::Begin
}

/// The flag after one notification `u` arrived on a flag that held
/// `before`: the notification's callback writes `playing_after(u)` over it.
pub open spec fn after_notify(before: bool, u: Utterance) -> bool {
    playing_after(u)
}

/// The flag after the notifications `us` arrived, in order, on a flag that
/// held `start`: one write per notification.
pub open spec fn flag_after_all(start: bool, us: Seq<Utterance>) -> bool
    decreases us.len(),
{
    if us.len() == 0 {
        start
    } else {
        after_notify(flag_after_all(start, us.drop_last()), us.last())
    }
}

/// The value that a notification writes into the flag.
pub fn playing_value(u: Utterance) -> (r: bool)
    ensures
        r == playing_after(u),
{
    match u {
        Utterance::Begin => true,
        Utterance::Stop => false,
        Utterance::End => false,
    }
}

/// After any non-empty run of notifications, the flag is true exactly when
/// the last one was a begin: every value it takes is one that the sequence
/// begin, stop, end could leave, whatever it held before.
pub proof fn lemma_flag_follows_last(start: bool, us: Seq<Utterance>)
    requires
        us.len() > 0,
    ensures
        flag_after_all(start, us) == (us.last() == Utterance::Begin),
        flag_after_all(start, us) == flag_after_all(!start, us),
        flag_after_all(start, us.push(Utterance::Begin)),
        !flag_after_all(start, us.push(Utterance::Stop)),
        !flag_after_all(start, us.push(Utterance::End)),
{
    assert(us.push(Utterance::Begin).drop_last() =~= us);
    assert(us.push(Utterance::Stop).drop_last() =~= us);
    assert(us.push(Utterance::End).drop_last() =~= us);
}

/// The "is speech playing" flag, shared between the interactive loop and the
/// threads on which the engine delivers its notifications.
///
/// Each write stores a whole `bool` atomically, so no reader can see a torn
/// value; which of two racing writes lands last is up to the scheduler.
pub struct PlayFlag {
    cell: Arc<AtomicBool>,
}

impl PlayFlag {
    /// A flag that starts out as "not playing".
    pub fn new() -> (r: PlayFlag) {
        PlayFlag { cell: Arc::new(AtomicBool::new(false)) }
    }

    /// A second handle on the same flag, for a notification callback.
    pub fn share(&self) -> (r: PlayFlag) {
        PlayFlag { cell: Arc::clone(&self.cell) }
    }

    /// Records a notification from the engine; returns the value stored,
    /// which is `true` for a begin and `false` for a stop or an end.
    pub fn notify(&self, u: Utterance) -> (stored: bool)
        ensures
            stored == playing_after(u),
            forall|before: bool| #[trigger] after_notify(before, u) == stored,
    {
        let v = playing_value(u);
        self.cell.store(v, Ordering::Relaxed);
        v
    }

    /// Non-blocking read of the flag. Another thread may write it at any
    /// moment, so nothing is known of the value beyond its being a `bool`.
    pub fn is_playing(&self) -> (r: bool) {
        self.cell.load(Ordering::Relaxed)
    }
}

/// The completion signal of one start-up attempt, written once by the thread
/// that constructs the engine and read on every frame by the interactive loop.
pub struct InitSignal {
    cell: Arc<AtomicBool>,
}

impl InitSignal {
    /// A signal that is not yet raised.
    pub fn new() -> (r: InitSignal) {
        InitSignal { cell: Arc::new(AtomicBool::new(false)) }
    }

    /// A second handle on the same signal, for the attempt's thread.
    pub fn share(&self) -> (r: InitSignal) {
        InitSignal { cell: Arc::clone(&self.cell) }
    }

    /// Raised by the attempt as its last action, once construction resolved.
    pub fn raise(&self) {
        self.cell.store(true, Ordering::Relaxed);
    }

    /// Non-blocking read of the signal.
    pub fn is_raised(&self) -> (r: bool) {
        self.cell.load(Ordering::Relaxed)
    }
}

} // verus!
