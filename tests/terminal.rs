use termsup::supervisor::{Action, Event};
use termsup::terminal::{perform, query_foreground, set_foreground};

#[test]
fn setting_group_in_effect_is_noop() {
    // No call reaches the terminal, so this holds without one too.
    assert_eq!(set_foreground(4200, 4200), Ok(()));
}

#[test]
fn query_gives_nonzero_group_or_error() {
    match query_foreground() {
        Event::Foreground(Ok(g)) => assert_ne!(g, 0),
        Event::Foreground(Err(n)) => assert_ne!(n, 0),
        other => panic!("unexpected answer {:?}", other),
    }
}

#[test]
fn perform_answers_terminal_actions_only() {
    assert!(matches!(perform(&Action::QueryForeground), Some(Event::Foreground(_))));
    assert_eq!(
        perform(&Action::SetForeground { pgid: 77, current: 77 }),
        Some(Event::ForegroundSet(Ok(())))
    );
    assert_eq!(perform(&Action::Launch { new_session: true }), None);
    assert_eq!(perform(&Action::WaitChild { pid: 3 }), None);
}
