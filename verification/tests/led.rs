use rtc_calendar::led::{heartbeat, key_update, KeyAction, KeyEvent, KeyTask, Level};

fn press(task: &mut KeyTask) -> u8 {
    assert_eq!(task.request(), KeyAction::WaitForFallingEdge);
    assert_eq!(key_update(task, KeyEvent::Fell), KeyAction::WaitForDebounce);
    assert_eq!(key_update(task, KeyEvent::Settled), KeyAction::ReadLevel);
    let sent = match key_update(task, KeyEvent::Sampled(Level::Low)) {
        KeyAction::Send(mode) => mode,
        other => panic!("{:?}", other),
    };
    assert_eq!(key_update(task, KeyEvent::Sent), KeyAction::WaitForRisingEdge);
    assert_eq!(key_update(task, KeyEvent::Rose), KeyAction::WaitForFallingEdge);
    sent
}

#[test]
fn presses_go_round_the_seven_modes() {
    let mut task = KeyTask::start();
    let mut sent: Vec<u8> = Vec::new();
    for _ in 0..9 {
        sent.push(press(&mut task));
    }
    assert_eq!(sent, vec![1, 2, 3, 4, 5, 6, 0, 1, 2]);
}

#[test]
fn a_bounce_is_no_press() {
    let mut task = KeyTask::start();
    press(&mut task);
    let before = task;
    key_update(&mut task, KeyEvent::Fell);
    key_update(&mut task, KeyEvent::Settled);
    let action = key_update(&mut task, KeyEvent::Sampled(Level::High));
    assert_eq!(action, KeyAction::WaitForFallingEdge);
    assert_eq!(task, before);
}

#[test]
fn the_light_goes_low_first() {
    assert_eq!(heartbeat(Level::High), Level::Low);
    assert_eq!(heartbeat(Level::Low), Level::High);
}

#[test]
fn bounces_between_presses_do_not_count() {
    let mut task = KeyTask::start();
    let mut presses: u8 = 0;
    for round in 0..30 {
        if round % 3 == 1 {
            presses += 1;
            assert_eq!(press(&mut task), presses % 7);
        } else {
            key_update(&mut task, KeyEvent::Fell);
            key_update(&mut task, KeyEvent::Settled);
            let action = key_update(&mut task, KeyEvent::Sampled(Level::High));
            assert_eq!(action, KeyAction::WaitForFallingEdge);
        }
    }
    assert_eq!(presses, 10);
}
