use gui_reader::flag::{InitSignal, PlayFlag, Utterance};
use gui_reader::reader::{poll_signal, Action, Attempt, Main, Poll, GAVE_UP_MESSAGE, MAX_RETRY};
use gui_reader::talker::{selection_for_len, Command, Selection};

fn running_main() -> (Main, PlayFlag) {
    let mut m = Main::new();
    let flag = PlayFlag::new();
    let a = m.finish_attempt(Attempt::Ready(flag.share()));
    assert_eq!(a, Action::Repaint);
    (m, flag)
}

fn attempt_of(m: &Main) -> Option<usize> {
    match m {
        Main::Init { attempt, .. } => Some(*attempt),
        _ => None,
    }
}

#[test]
fn new_starts_at_attempt_zero() {
    let m = Main::new();
    assert_eq!(attempt_of(&m), Some(0));
}

#[test]
fn construction_failures_retry_then_give_up() {
    let mut m = Main::new();
    for n in 0..3usize {
        let a = m.finish_attempt(Attempt::ConstructFailed);
        assert_eq!(a, Action::StartAttempt);
        assert_eq!(attempt_of(&m), Some(n + 1));
    }
    assert_eq!(attempt_of(&m), Some(MAX_RETRY));
    let a = m.finish_attempt(Attempt::ConstructFailed);
    assert_eq!(a, Action::Repaint);
    assert!(matches!(m, Main::GaveUp));
    assert_eq!(m.poll(), Poll::NotReady);
    let a = m.finish_attempt(Attempt::ConstructFailed);
    assert_eq!(a, Action::Wait);
    assert!(matches!(m, Main::GaveUp));
    assert!(!GAVE_UP_MESSAGE.is_empty());
}

#[test]
fn task_failure_on_last_attempt_panics() {
    let mut m = Main::new();
    for n in 0..3usize {
        assert_eq!(m.finish_attempt(Attempt::TaskFailed), Action::StartAttempt);
        assert_eq!(attempt_of(&m), Some(n + 1));
    }
    assert_eq!(m.finish_attempt(Attempt::TaskFailed), Action::Repaint);
    assert!(matches!(m, Main::Panicked));
    assert_eq!(m.finish_attempt(Attempt::TaskFailed), Action::Wait);
    assert!(matches!(m, Main::Panicked));
}

#[test]
fn mixed_failures_then_success_runs() {
    let mut m = Main::new();
    assert_eq!(m.finish_attempt(Attempt::TaskFailed), Action::StartAttempt);
    assert_eq!(m.finish_attempt(Attempt::ConstructFailed), Action::StartAttempt);
    assert_eq!(m.finish_attempt(Attempt::Ready(PlayFlag::new())), Action::Repaint);
    match &m {
        Main::Running(t) => {
            assert_eq!(t.text, "");
            assert_eq!(t.position, Selection { start: 0, end: 0 });
        }
        _ => panic!("expected a session"),
    }
}

#[test]
fn poll_before_signal_is_not_ready() {
    assert_eq!(poll_signal(false), Poll::NotReady);
    assert_eq!(poll_signal(true), Poll::Ready);
    let m = Main::new();
    for _ in 0..10 {
        assert_eq!(m.poll(), Poll::NotReady);
    }
    if let Main::Init { signal, .. } = &m {
        signal.share().raise();
    }
    assert_eq!(m.poll(), Poll::Ready);
}

#[test]
fn retry_uses_a_fresh_signal() {
    let mut m = Main::new();
    if let Main::Init { signal, .. } = &m {
        signal.raise();
    }
    assert_eq!(m.poll(), Poll::Ready);
    m.finish_attempt(Attempt::TaskFailed);
    assert_eq!(m.poll(), Poll::NotReady);
}

#[test]
fn init_signal_starts_lowered() {
    let s = InitSignal::new();
    let t = s.share();
    assert!(!s.is_raised());
    t.raise();
    assert!(s.is_raised());
}

#[test]
fn registration_failure_is_final() {
    let mut m = Main::new();
    assert_eq!(m.finish_attempt(Attempt::RegistrationFailed), Action::Repaint);
    assert!(matches!(m, Main::Panicked));
    assert_eq!(m.finish_attempt(Attempt::Ready(PlayFlag::new())), Action::Wait);
    assert!(matches!(m, Main::Panicked));
    assert_eq!(m.poll(), Poll::NotReady);
}

#[test]
fn toggle_while_paused_speaks_text_and_leaves_flag() {
    let (mut m, flag) = running_main();
    m.edit("read me".to_string());
    let c = m.toggle();
    assert_eq!(c, Some(Command::Speak { text: "read me".to_string(), interrupt: true }));
    assert!(!m.is_playing());
    assert_eq!(m.command_done(true), Action::Repaint);
    assert!(!m.is_playing());
    assert!(flag.notify(Utterance::Begin));
    assert!(m.is_playing());
    assert_eq!(m.toggle(), Some(Command::Stop));
    assert!(m.is_playing());
    assert!(!flag.notify(Utterance::Stop));
    assert!(!m.is_playing());
}

#[test]
fn toggle_with_decides_on_given_flag() {
    let (mut m, _flag) = running_main();
    m.edit("abc".to_string());
    assert_eq!(m.toggle_with(true), Some(Command::Stop));
    assert_eq!(m.toggle_with(false), Some(Command::Speak { text: "abc".to_string(), interrupt: true }));
    let idle = Main::new();
    assert_eq!(idle.toggle_with(false), None);
    assert_eq!(idle.toggle(), None);
    assert!(!idle.is_playing());
}

#[test]
fn end_notification_clears_flag() {
    let (m, flag) = running_main();
    flag.notify(Utterance::Begin);
    assert!(m.is_playing());
    assert!(!flag.notify(Utterance::End));
    assert!(!m.is_playing());
}

#[test]
fn flag_follows_last_notification() {
    let flag = PlayFlag::new();
    let events = [Utterance::Begin, Utterance::Stop, Utterance::End];
    let mut last = Utterance::End;
    for i in 0..100usize {
        let u = events[(i * 7 + i / 3) % 3];
        flag.notify(u);
        last = u;
        assert_eq!(flag.is_playing(), last == Utterance::Begin);
    }
    assert_eq!(flag.is_playing(), last == Utterance::Begin);
}

#[test]
fn interleaved_notifications_leave_a_legal_value() {
    let flag = PlayFlag::new();
    let writers: Vec<PlayFlag> = (0..4).map(|_| flag.share()).collect();
    let mut last: Option<Utterance> = None;
    for i in 0..100usize {
        let t = (i * 5 + i / 4) % 4;
        let u = match (t + i) % 3 {
            0 => Utterance::Begin,
            1 => Utterance::Stop,
            _ => Utterance::End,
        };
        let stored = writers[t].notify(u);
        assert_eq!(stored, u == Utterance::Begin);
        last = Some(u);
        assert_eq!(flag.is_playing(), last == Some(Utterance::Begin));
    }
    writers[2].notify(Utterance::End);
    assert!(!flag.is_playing());
    writers[3].notify(Utterance::Begin);
    assert!(flag.is_playing());
}

#[test]
fn edit_resets_selection_by_clamp_formula() {
    let (mut m, _flag) = running_main();
    m.edit("hello".to_string());
    match &m {
        Main::Running(t) => assert_eq!(t.position, Selection { start: 0, end: 4 }),
        _ => panic!("expected a session"),
    }
    m.edit("hello world".to_string());
    match &m {
        Main::Running(t) => {
            assert_eq!(t.text, "hello world");
            assert_eq!(t.position, Selection { start: 0, end: 10 });
        }
        _ => panic!("expected a session"),
    }
    m.edit(String::new());
    match &m {
        Main::Running(t) => assert_eq!(t.position, Selection { start: 0, end: 0 }),
        _ => panic!("expected a session"),
    }
}

#[test]
fn selection_counts_bytes() {
    assert_eq!(selection_for_len(0), Selection { start: 0, end: 0 });
    assert_eq!(selection_for_len(1), Selection { start: 0, end: 0 });
    assert_eq!(selection_for_len(11), Selection { start: 0, end: 10 });
    assert_eq!(selection_for_len(usize::MAX), Selection { start: 0, end: usize::MAX - 1 });
    let (mut m, _flag) = running_main();
    m.edit("h\u{e9}".to_string());
    match &m {
        Main::Running(t) => assert_eq!(t.position, Selection { start: 0, end: 2 }),
        _ => panic!("expected a session"),
    }
}

#[test]
fn failed_stop_while_playing_panics() {
    let (mut m, flag) = running_main();
    flag.notify(Utterance::Begin);
    assert_eq!(m.toggle(), Some(Command::Stop));
    assert_eq!(m.command_done(false), Action::Repaint);
    assert!(matches!(m, Main::Panicked));
    assert!(!m.is_playing());
    assert_eq!(m.toggle(), None);
}

#[test]
fn failed_speak_panics() {
    let (mut m, _flag) = running_main();
    m.edit("x".to_string());
    assert!(matches!(m.toggle(), Some(Command::Speak { .. })));
    m.command_done(false);
    assert!(matches!(m, Main::Panicked));
}

#[test]
fn edit_outside_session_is_ignored() {
    let mut m = Main::new();
    m.edit("text".to_string());
    assert_eq!(attempt_of(&m), Some(0));
    assert_eq!(m.command_done(false), Action::Wait);
    assert_eq!(attempt_of(&m), Some(0));
}
