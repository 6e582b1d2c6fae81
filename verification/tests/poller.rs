use hyprclock::poller::Poller;

#[test]
fn window_starts_presented() {
    let poller = Poller::new();
    assert!(poller.visible);
}

#[test]
fn fullscreen_signal_hides_the_window() {
    let mut poller = Poller::new();
    let action = poller.tick(Some(true), true);
    assert_eq!(action, Some(false));
    assert!(!poller.visible);
}

#[test]
fn leaving_fullscreen_shows_the_window() {
    let mut poller = Poller::new();
    poller.tick(Some(true), true);
    let action = poller.tick(Some(false), true);
    assert_eq!(action, Some(true));
    assert!(poller.visible);
}

#[test]
fn empty_tick_does_nothing() {
    let mut poller = Poller::new();
    let action = poller.tick(None, true);
    assert_eq!(action, None);
    assert!(poller.visible);
}

#[test]
fn signal_after_window_is_gone_is_a_no_op() {
    let mut poller = Poller::new();
    let action = poller.tick(Some(true), false);
    assert_eq!(action, None);
    assert!(poller.visible);
}

#[test]
fn queued_signals_apply_in_emission_order() {
    let mut poller = Poller::new();
    poller.drain(&vec![true, false, true], true);
    assert!(!poller.visible);

    let mut poller = Poller::new();
    poller.drain(&vec![true, true, false], true);
    assert!(poller.visible);
}

#[test]
fn draining_without_a_window_changes_nothing() {
    let mut poller = Poller::new();
    poller.drain(&vec![true, false, true], false);
    assert!(poller.visible);
}

#[test]
fn draining_nothing_changes_nothing() {
    let mut poller = Poller::new();
    poller.drain(&vec![], true);
    assert!(poller.visible);
}
