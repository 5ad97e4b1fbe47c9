use stagerun::ticker::{ProgressTicker, PROGRESS_CAP};

#[test]
fn ticks_once_per_wake_until_return() {
    let mut t = ProgressTicker::new(PROGRESS_CAP);
    assert!(t.wake(false));
    assert!(t.wake(false));
    assert!(t.wake(false));
    assert_eq!(t.ticks(), 3);
    assert!(!t.wake(true));
    assert!(t.is_stopped());
    assert!(!t.wake(false));
    assert_eq!(t.ticks(), 3);
}

#[test]
fn never_passes_cap() {
    let mut t = ProgressTicker::new(PROGRESS_CAP);
    let mut shown = 0;
    for _ in 0..250 {
        if t.wake(false) {
            shown += 1;
        }
    }
    assert_eq!(shown, 100);
    assert_eq!(t.ticks(), 100);
    assert!(t.is_stopped());
}

#[test]
fn returned_before_first_tick() {
    let mut t = ProgressTicker::new(PROGRESS_CAP);
    assert!(!t.wake(true));
    assert_eq!(t.ticks(), 0);
    assert!(t.is_stopped());
}

#[test]
fn zero_cap_never_ticks() {
    let mut t = ProgressTicker::new(0);
    assert!(!t.wake(false));
    assert_eq!(t.ticks(), 0);
}
