use argon_one_up_daemon::activation::{
    is_ic_active, Activation, ActivationAction, POLL_PAUSE_MS, WAKE_PAUSE_MS,
};
use argon_one_up_daemon::button::{LongPress, PressAction};
use argon_one_up_daemon::registers::{CONTROL_RUN, CONTROL_WAKE};

/// Drives an activation with the given status bytes (one per read);
/// returns the actions issued and the outcome.
fn drive(statuses: &[u8]) -> (Vec<ActivationAction>, bool) {
    let mut act = Activation::new();
    let mut actions = Vec::new();
    let mut next = act.completed();
    let mut reads = 0usize;
    loop {
        actions.push(next);
        match next {
            ActivationAction::Finished(ok) => return (actions, ok),
            ActivationAction::ReadIcState => {
                let s = statuses.get(reads).copied().unwrap_or(0);
                reads += 1;
                next = act.status_read(s);
            }
            _ => next = act.completed(),
        }
    }
}

#[test]
fn ic_state_activity() {
    assert!(is_ic_active(0x04));
    assert!(is_ic_active(0x08));
    assert!(is_ic_active(0x0c));
    assert!(is_ic_active(0xf4));
    assert!(!is_ic_active(0x03));
    assert!(!is_ic_active(0xf3));
    assert!(!is_ic_active(0));
    assert!(!is_ic_active(255));
}

#[test]
fn activation_gives_up_after_three_attempts() {
    let (actions, ok) = drive(&[]);
    assert!(!ok);
    let reads = actions.iter().filter(|a| **a == ActivationAction::ReadIcState).count();
    assert_eq!(reads, 15);
    let wakes = actions.iter().filter(|a| **a == ActivationAction::WriteControl(CONTROL_WAKE)).count();
    assert_eq!(wakes, 3);
    assert!(actions.len() <= 45);
    assert_eq!(
        &actions[..5],
        &[
            ActivationAction::WriteControl(CONTROL_WAKE),
            ActivationAction::PauseMillis(WAKE_PAUSE_MS),
            ActivationAction::WriteControl(CONTROL_RUN),
            ActivationAction::PauseMillis(WAKE_PAUSE_MS),
            ActivationAction::ReadIcState,
        ]
    );
    assert_eq!(actions[5], ActivationAction::PauseMillis(POLL_PAUSE_MS));
}

#[test]
fn activation_succeeds_on_active_read() {
    // attempt 1: five inactive reads; attempt 2: inactive, then active
    let (actions, ok) = drive(&[0, 255, 0x03, 0, 0, 0, 0x0c]);
    assert!(ok);
    let reads = actions.iter().filter(|a| **a == ActivationAction::ReadIcState).count();
    assert_eq!(reads, 7);
    assert_eq!(*actions.last().unwrap(), ActivationAction::Finished(true));
    let (actions, ok) = drive(&[0x04]);
    assert!(ok);
    assert_eq!(actions.len(), 6);
}

#[test]
fn finished_activation_stays_finished() {
    let mut act = Activation::new();
    let mut next = act.completed();
    while next != ActivationAction::ReadIcState {
        next = act.completed();
    }
    assert!(act.awaiting_status());
    assert_eq!(act.completed(), ActivationAction::ReadIcState);
    assert!(act.awaiting_status());
    assert_eq!(act.status_read(0x08), ActivationAction::Finished(true));
    assert_eq!(act.completed(), ActivationAction::Finished(true));
    assert!(!act.awaiting_status());
}

fn press(samples: &[bool]) -> (usize, PressAction) {
    let mut p = LongPress::new();
    let mut waits = 0;
    for &s in samples {
        match p.sample(s) {
            PressAction::Wait => waits += 1,
            other => return (waits, other),
        }
    }
    (waits, PressAction::Wait)
}

#[test]
fn long_press_shuts_down() {
    let mut samples = vec![true; 30];
    samples.push(false);
    assert_eq!(press(&samples), (30, PressAction::Shutdown));
}

#[test]
fn short_press_is_ignored() {
    let mut samples = vec![true; 29];
    samples.push(false);
    assert_eq!(press(&samples), (29, PressAction::Ignore));
    assert_eq!(press(&[false]), (0, PressAction::Ignore));
}

#[test]
fn held_button_is_judged_after_five_seconds() {
    let samples = vec![true; 80];
    assert_eq!(press(&samples), (50, PressAction::Shutdown));
    let mut p = LongPress::new();
    for _ in 0..50 {
        assert_eq!(p.sample(true), PressAction::Wait);
    }
    assert_eq!(p.held_ticks(), 50);
    assert_eq!(p.sample(false), PressAction::Shutdown);
}
