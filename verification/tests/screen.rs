use rtc_calendar::datetime::DateTime;
use rtc_calendar::screen::{
    chinese_weekdays, cursor_positions, english_weekdays, oled_display, render_display, Font,
    Point, ScreenAction, ScreenEvent, ScreenTask,
};

const MILLI: u64 = 1000;

fn time(year: i32, month: u32, day: u32, hour: u32, minute: u32, second: u32) -> DateTime {
    DateTime { year, month, day, hour, minute, second, nanosecond: 0 }
}

/// Gives an event to the task, in English.
fn tell(task: &mut ScreenTask, event: ScreenEvent) -> ScreenAction<'static> {
    assert!(task.accepts(&event));
    oled_display(task, &english_weekdays(), event)
}

/// A task that has drawn its first frame, with the cursor counted from 0.
fn running(now: DateTime) -> ScreenTask {
    let mut task = ScreenTask::start();
    tell(&mut task, ScreenEvent::Ticked);
    tell(&mut task, ScreenEvent::Initialised(true));
    tell(&mut task, ScreenEvent::Clock(0));
    assert!(matches!(tell(&mut task, ScreenEvent::Time(now)), ScreenAction::Draw(_)));
    assert!(matches!(tell(&mut task, ScreenEvent::Drawn), ScreenAction::PollTime));
    task
}

/// One pass; returns the cursor that was drawn, or `None` where nothing was drawn.
fn pass(
    task: &mut ScreenTask,
    new_time: Option<DateTime>,
    key: Option<u8>,
    clock: u64,
) -> Option<Option<(Point, Point)>> {
    assert!(matches!(tell(task, ScreenEvent::TimePolled(new_time)), ScreenAction::PollKey));
    assert!(matches!(tell(task, ScreenEvent::KeyPolled(key)), ScreenAction::ReadClock));
    let mut action = tell(task, ScreenEvent::Clock(clock));
    if matches!(action, ScreenAction::ReadClock) {
        action = tell(task, ScreenEvent::Clock(clock));
    }
    let mut drawn = None;
    if let ScreenAction::Draw(frame) = action {
        drawn = Some(frame.cursor);
        action = tell(task, ScreenEvent::Drawn);
    }
    assert!(matches!(action, ScreenAction::WaitForTick));
    assert!(matches!(tell(task, ScreenEvent::Ticked), ScreenAction::PollTime));
    drawn
}

#[test]
fn a_frame_shows_the_time_and_the_weekday() {
    let frame = render_display(
        &time(2025, 10, 22, 19, 5, 7),
        0,
        true,
        &cursor_positions(),
        Font::Font8x13,
        Font::Font10x20,
        Font::Font8x13,
        &english_weekdays(),
    );
    assert_eq!(frame.date.as_str(), "2025-10-22");
    assert_eq!(frame.date_at, Point { x: 24, y: 4 });
    assert_eq!(frame.date_font, Font::Font8x13);
    assert_eq!(frame.time.as_str(), "19:05:07");
    assert_eq!(frame.time_at, Point { x: 24, y: 21 });
    assert_eq!(frame.time_font, Font::Font10x20);
    assert_eq!(frame.weekday, "Wednesday");
    assert_eq!(frame.weekday_at, Point { x: 28, y: 46 });
    assert_eq!(frame.weekday_font, Font::Font8x13);
    assert_eq!(frame.cursor, None);
}

#[test]
fn a_weekday_is_placed_by_the_bytes_of_its_name() {
    let placed = |day: u32, chinese: bool| {
        let names = if chinese { chinese_weekdays() } else { english_weekdays() };
        let frame = render_display(
            &time(2025, 10, day, 0, 0, 0),
            0,
            false,
            &cursor_positions(),
            Font::Font8x13,
            Font::Font10x20,
            Font::Font8x13,
            &names,
        );
        (frame.weekday, frame.weekday_at.x)
    };
    assert_eq!(placed(20, false), ("Monday", 40));
    assert_eq!(placed(21, false), ("Tuesday", 36));
    assert_eq!(placed(23, false), ("Thursday", 32));
    assert_eq!(placed(24, false), ("Friday", 40));
    assert_eq!(placed(25, false), ("Saturday", 32));
    assert_eq!(placed(26, false), ("Sunday", 40));
    assert_eq!(placed(20, true), ("星期一", 28));
    assert_eq!(placed(26, true), ("星期日", 28));
}

#[test]
fn the_cursor_stands_under_the_selected_field() {
    let lines = cursor_positions();
    let line = |from: i32, to: i32, y: i32| (Point { x: from, y }, Point { x: to, y });
    assert_eq!(lines[0], line(24, 56, 18));
    assert_eq!(lines[1], line(64, 80, 18));
    assert_eq!(lines[2], line(88, 104, 18));
    assert_eq!(lines[3], line(24, 44, 40));
    assert_eq!(lines[4], line(54, 74, 40));
    assert_eq!(lines[5], line(84, 104, 40));
    for set_pos in 0..=255 {
        for visible in [false, true] {
            let frame = render_display(
                &time(2025, 10, 22, 19, 5, 7),
                set_pos,
                visible,
                &lines,
                Font::Font8x13,
                Font::Font10x20,
                Font::Font8x13,
                &english_weekdays(),
            );
            if visible && (1..=6).contains(&set_pos) {
                assert_eq!(frame.cursor, Some(lines[set_pos as usize - 1]));
            } else {
                assert_eq!(frame.cursor, None);
            }
        }
    }
}

#[test]
fn what_a_frame_shows_lies_within_the_display() {
    for year in [-262143, -1, 0, 2025, 9999, 262142] {
        let frame = render_display(
            &time(year, 12, 31, 23, 59, 59),
            6,
            true,
            &cursor_positions(),
            Font::Font8x13,
            Font::Font10x20,
            Font::Font8x13,
            &english_weekdays(),
        );
        assert!(frame.date_at.x + 8 * frame.date.len() as i32 <= 128);
        assert!(frame.time_at.x + 10 * frame.time.len() as i32 <= 128);
        assert!(frame.weekday_at.x + 8 * frame.weekday.len() as i32 <= 128);
        assert!(frame.cursor.unwrap().1.x < 128);
    }
}

#[test]
fn the_display_is_initialised_in_three_tries() {
    let mut task = ScreenTask::start();
    assert!(matches!(task.request(&english_weekdays()), ScreenAction::WaitForTick));
    assert!(matches!(tell(&mut task, ScreenEvent::Ticked), ScreenAction::Initialise));
    for _ in 0..2 {
        let action = tell(&mut task, ScreenEvent::Initialised(false));
        assert!(matches!(action, ScreenAction::Pause(100)));
        assert!(matches!(tell(&mut task, ScreenEvent::Paused), ScreenAction::Initialise));
    }
    let action = tell(&mut task, ScreenEvent::Initialised(false));
    assert!(matches!(action, ScreenAction::Pause(100)));
    assert!(matches!(tell(&mut task, ScreenEvent::Paused), ScreenAction::ReadClock));
    assert!(matches!(tell(&mut task, ScreenEvent::Clock(9)), ScreenAction::ReceiveTime));
}

#[test]
fn a_display_that_answers_is_not_tried_again() {
    let mut task = ScreenTask::start();
    tell(&mut task, ScreenEvent::Ticked);
    tell(&mut task, ScreenEvent::Initialised(false));
    tell(&mut task, ScreenEvent::Paused);
    assert!(matches!(tell(&mut task, ScreenEvent::Initialised(true)), ScreenAction::ReadClock));
}

#[test]
fn the_first_frame_shows_the_first_time_without_a_cursor() {
    let mut task = ScreenTask::start();
    tell(&mut task, ScreenEvent::Ticked);
    tell(&mut task, ScreenEvent::Initialised(true));
    tell(&mut task, ScreenEvent::Clock(0));
    match tell(&mut task, ScreenEvent::Time(time(2025, 7, 20, 18, 0, 0))) {
        ScreenAction::Draw(frame) => {
            assert_eq!(frame.date.as_str(), "2025-07-20");
            assert_eq!(frame.time.as_str(), "18:00:00");
            assert_eq!(frame.weekday, "Sunday");
            assert_eq!(frame.cursor, None);
            assert_eq!(
                (frame.date_font, frame.time_font, frame.weekday_font),
                (Font::Font8x13, Font::Font10x20, Font::Font8x13)
            );
        }
        other => panic!("{:?}", other),
    }
}

#[test]
fn a_pass_without_a_change_draws_nothing() {
    let mut task = running(time(2025, 7, 20, 18, 0, 0));
    assert_eq!(pass(&mut task, None, None, 499 * MILLI), None);
}

#[test]
fn a_time_is_drawn_also_where_it_is_the_same() {
    let now = time(2025, 7, 20, 18, 0, 0);
    let mut task = running(now);
    assert_eq!(pass(&mut task, Some(now), None, 0), Some(None));
    assert_eq!(pass(&mut task, Some(now.advance()), None, 0), Some(None));
}

#[test]
fn the_cursor_blinks_under_the_selected_field() {
    let mut task = running(time(2025, 7, 20, 18, 0, 0));
    let lines = cursor_positions();
    assert_eq!(pass(&mut task, None, Some(2), 100 * MILLI), Some(None));
    assert_eq!(pass(&mut task, None, None, 500 * MILLI), Some(Some(lines[1])));
    assert_eq!(pass(&mut task, None, None, 999 * MILLI), None);
    assert_eq!(pass(&mut task, None, Some(6), 999 * MILLI), Some(Some(lines[5])));
    assert_eq!(pass(&mut task, None, None, 1000 * MILLI), Some(None));
    assert_eq!(pass(&mut task, None, None, 1500 * MILLI), Some(Some(lines[5])));
    assert_eq!(pass(&mut task, None, Some(0), 1500 * MILLI), Some(None));
}

#[test]
fn only_answers_to_the_request_are_accepted() {
    let mut task = ScreenTask::start();
    assert!(task.accepts(&ScreenEvent::Ticked));
    assert!(!task.accepts(&ScreenEvent::Drawn));
    tell(&mut task, ScreenEvent::Ticked);
    tell(&mut task, ScreenEvent::Initialised(true));
    tell(&mut task, ScreenEvent::Clock(7));
    assert!(!task.accepts(&ScreenEvent::Time(time(2025, 2, 29, 0, 0, 0))));
    tell(&mut task, ScreenEvent::Time(time(2025, 7, 20, 18, 0, 0)));
    tell(&mut task, ScreenEvent::Drawn);
    assert!(!task.accepts(&ScreenEvent::TimePolled(Some(time(2025, 13, 1, 0, 0, 0)))));
    tell(&mut task, ScreenEvent::TimePolled(None));
    tell(&mut task, ScreenEvent::KeyPolled(None));
    assert!(!task.accepts(&ScreenEvent::Clock(6)));
    assert!(task.accepts(&ScreenEvent::Clock(7)));
}

#[test]
fn messages_do_not_move_the_blink() {
    let now = time(2025, 7, 20, 18, 0, 0);
    let mut quiet = running(now);
    let mut busy = running(now);
    for step in 0..40 {
        let clock = step * 200 * MILLI;
        pass(&mut quiet, None, None, clock);
        pass(&mut busy, Some(now.advance()), Some((step % 7) as u8), clock);
        match (quiet, busy) {
            (ScreenTask::Running(a), ScreenTask::Running(b)) => {
                assert_eq!((a.cursor_visible, a.last_blink), (b.cursor_visible, b.last_blink));
            }
            other => panic!("{:?}", other),
        }
    }
}

#[test]
fn a_frame_shows_the_latest_of_all_passes() {
    let first = time(2025, 7, 20, 18, 0, 0);
    let mut task = running(first);
    pass(&mut task, Some(first.advance()), Some(3), 0);
    pass(&mut task, None, Some(4), 100 * MILLI);
    pass(&mut task, None, None, 200 * MILLI);
    tell(&mut task, ScreenEvent::TimePolled(None));
    tell(&mut task, ScreenEvent::KeyPolled(None));
    assert!(matches!(tell(&mut task, ScreenEvent::Clock(500 * MILLI)), ScreenAction::ReadClock));
    match tell(&mut task, ScreenEvent::Clock(501 * MILLI)) {
        ScreenAction::Draw(frame) => {
            assert_eq!(frame.time.as_str(), "18:00:01");
            assert_eq!(frame.cursor, Some(cursor_positions()[3]));
        }
        other => panic!("{:?}", other),
    }
}
