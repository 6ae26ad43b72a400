use anythrow::{Diagnostics, Reporter};

#[test]
fn new_diagnostics_are_not_suppressed() {
    let d = Diagnostics::new(Reporter::Live(7u8));
    assert_eq!(d, Diagnostics { active: Reporter::Live(7u8), saved: None });
    assert!(!d.is_suppressed());
}

#[test]
fn suppress_saves_the_active_reporter() {
    let mut d = Diagnostics::new(Reporter::Live(7u8));
    d.suppress();
    assert_eq!(d, Diagnostics { active: Reporter::Silent, saved: Some(Reporter::Live(7u8)) });
    assert!(d.is_suppressed());
}

#[test]
fn suppress_on_a_full_slot_changes_nothing() {
    let mut d = Diagnostics { active: Reporter::Live(2u8), saved: Some(Reporter::Live(1u8)) };
    d.suppress();
    assert_eq!(d, Diagnostics { active: Reporter::Live(2u8), saved: Some(Reporter::Live(1u8)) });
    let mut twice = Diagnostics::new(Reporter::Live(7u8));
    twice.suppress();
    twice.suppress();
    assert_eq!(twice, Diagnostics { active: Reporter::Silent, saved: Some(Reporter::Live(7u8)) });
}

#[test]
fn restore_puts_the_saved_reporter_back() {
    let mut d = Diagnostics::new(Reporter::Live(7u8));
    d.suppress();
    d.restore();
    assert_eq!(d, Diagnostics { active: Reporter::Live(7u8), saved: None });
}

#[test]
fn restore_on_an_empty_slot_changes_nothing() {
    let mut d = Diagnostics::new(Reporter::Live(7u8));
    d.restore();
    assert_eq!(d, Diagnostics { active: Reporter::Live(7u8), saved: None });
    let mut twice = Diagnostics { active: Reporter::Silent, saved: Some(Reporter::Live(3u8)) };
    twice.restore();
    twice.restore();
    assert_eq!(twice, Diagnostics { active: Reporter::Live(3u8), saved: None });
}

#[test]
fn a_silent_reporter_is_saved_and_restored_like_any_other() {
    let mut d: Diagnostics<u8> = Diagnostics::new(Reporter::Silent);
    d.suppress();
    assert_eq!(d, Diagnostics { active: Reporter::Silent, saved: Some(Reporter::Silent) });
    d.restore();
    assert_eq!(d, Diagnostics { active: Reporter::Silent, saved: None });
}
