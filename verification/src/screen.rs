//! The display task: what the display shows, and when it is drawn anew.
//!
//! The display is 128 pixels wide and 64 high. It shows the date, the time of
//! day below it and the weekday at the bottom; a line under a field marks the
//! field that is selected, and blinks.
use vstd::prelude::*;
#[allow(unused_imports)]
use vstd::utf8::{encode_utf8, is_ascii_chars_encode_utf8};

use crate::datetime::DateTime;
#[allow(unused_imports)]
use crate::led::KeyTask;
use crate::text::{date_text, time_text};
#[allow(unused_imports)]
use crate::text::{
    all_digits, date_characters, digits_value, law_fields_can_be_read_off, law_text_lengths,
    lemma_padded_pair, text_of, time_characters, zero_padded,
};
use crate::ticks::millis_passed;
#[allow(unused_imports)]
use crate::ticks::TICK_HZ;

verus! {

pub const SCREEN_WIDTH: usize = 128;

pub const SCREEN_HEIGHT: usize = 64;

/// The width of a character of the font that the weekday is written in.
pub const WEEKDAY_CHARACTER_WIDTH: usize = 8;

/// The cursor changes between shown and hidden when so much time has passed.
pub const BLINK_INTERVAL_MILLIS: u64 = 500;

/// How often the display task runs.
pub const SCREEN_PERIOD_MILLIS: u64 = 200;

/// How long to wait after the display could not be initialised.
pub const INIT_PAUSE_MILLIS: u64 = 100;

/// How often the display is to be initialised at most.
pub const INIT_TRIES: u8 = 3;

/// The clock rate of the bus to the display.
pub const DISPLAY_BUS_HZ: u32 = 400_000;

/// A point of the display, counted from the upper left corner.
#[derive(Clone, Copy, Debug, PartialEq, Eq, Structural)]
pub struct Point {
    pub x: i32,
    pub y: i32,
}

/// The fonts of the display, named by the size of their characters.
#[derive(Clone, Copy, Debug, PartialEq, Eq, Structural)]
pub enum Font {
    Font8x13,
    Font10x20,
}

/// What the display shows. The points are the upper left corners of the texts.
#[derive(Debug)]
pub struct Frame<'a> {
    pub date: heapless::String<16>,
    pub date_at: Point,
    pub date_font: Font,
    pub time: heapless::String<16>,
    pub time_at: Point,
    pub time_font: Font,
    pub weekday: &'a str,
    pub weekday_at: Point,
    pub weekday_font: Font,
    /// The ends of the line under the selected field, where it is shown.
    pub cursor: Option<(Point, Point)>,
}

/// The width of a weekday on the display: eight pixels for each byte of its name.
pub open spec fn weekday_width(name: &str) -> int {
    encode_utf8(name@).len() * WEEKDAY_CHARACTER_WIDTH
}

/// Where the cursor stands for a selected position: under the field that it
/// counts, from the year as 1 to the second as 6.
pub open spec fn cursor_at(
    set_pos: u8,
    cursor_visible: bool,
    cursor_positions: Seq<(Point, Point)>,
) -> Option<(Point, Point)> {
    if cursor_visible && 1 <= set_pos <= 6 {
        Some(cursor_positions[set_pos - 1])
    } else {
        None
    }
}

/// The line under the characters from `first` up to `end` of a text that begins
/// 24 pixels from the left edge, at the height `y`.
pub open spec fn text_line(first: int, end: int, character_width: int, y: int) -> (Point, Point) {
    (
        Point { x: (24 + first * character_width) as i32, y: y as i32 },
        Point { x: (24 + end * character_width) as i32, y: y as i32 },
    )
}

/// The characters of a field within its text, from the year as 1 to the second as 6.
pub open spec fn field_characters(field: int) -> (int, int) {
    if field == 1 {
        (0, 4)
    } else if field == 2 {
        (5, 7)
    } else if field == 3 {
        (8, 10)
    } else if field == 4 {
        (0, 2)
    } else if field == 5 {
        (3, 5)
    } else {
        (6, 8)
    }
}

/// The line under a field, from the year as 1 to the second as 6.
pub open spec fn field_line(field: int) -> (Point, Point) {
    let (first, end) = field_characters(field);
    if field <= 3 {
        text_line(first, end, 8, 18)
    } else {
        text_line(first, end, 10, 40)
    }
}

impl<'a> Frame<'a> {
    /// Whether the frame shows a time, with its texts in their places and its
    /// weekday in the middle, and the cursor where `cursor` says.
    pub open spec fn shows(
        self,
        now: DateTime,
        weekdays: Seq<&'a str>,
        cursor: Option<(Point, Point)>,
    ) -> bool {
        let name = weekdays[now.weekday()];
        &&& text_of(self.date) == date_characters(now)
        &&& self.date_at == (Point { x: 24, y: 4 })
        &&& text_of(self.time) == time_characters(now)
        &&& self.time_at == (Point { x: 24, y: 21 })
        &&& self.weekday == name
        &&& self.weekday_at.x * 2 + weekday_width(name) == SCREEN_WIDTH
        &&& self.weekday_at.y == 46
        &&& self.cursor == cursor
    }

    /// Whether the texts of the frame are in the given fonts.
    pub open spec fn in_fonts(self, date: Font, time: Font, weekday: Font) -> bool {
        self.date_font == date && self.time_font == time && self.weekday_font == weekday
    }
}

/// Whether there are seven weekdays, and each fits on the display.
pub open spec fn fit(weekdays: Seq<&str>) -> bool {
    weekdays.len() == 7 && forall|i: int|
        0 <= i < 7 ==> weekday_width(#[trigger] weekdays[i]) <= SCREEN_WIDTH
}

/// The weekdays in English, from Monday on.
pub fn english_weekdays() -> (names: [&'static str; 7])
    ensures
        names@ == seq![
            "Monday",
            "Tuesday",
            "Wednesday",
            "Thursday",
            "Friday",
            "Saturday",
            "Sunday",
        ],
        fit(names@),
{
    let names = ["Monday", "Tuesday", "Wednesday", "Thursday", "Friday", "Saturday", "Sunday"];
    proof {
        reveal_strlit("Monday");
        reveal_strlit("Tuesday");
        reveal_strlit("Wednesday");
        reveal_strlit("Thursday");
        reveal_strlit("Friday");
        reveal_strlit("Saturday");
        reveal_strlit("Sunday");
        assert forall|i: int| 0 <= i < 7 implies weekday_width(#[trigger] names@[i])
            <= SCREEN_WIDTH by {
            is_ascii_chars_encode_utf8(names@[i]@);
        }
    }
    names
}

/// The weekdays in Chinese, from Monday on.
pub fn chinese_weekdays() -> (names: [&'static str; 7])
    ensures
        names@ == seq![
            "星期一",
            "星期二",
            "星期三",
            "星期四",
            "星期五",
            "星期六",
            "星期日",
        ],
        fit(names@),
{
    let names = [
        "星期一",
        "星期二",
        "星期三",
        "星期四",
        "星期五",
        "星期六",
        "星期日",
    ];
    proof {
        reveal_strlit("星期一");
        reveal_strlit("星期二");
        reveal_strlit("星期三");
        reveal_strlit("星期四");
        reveal_strlit("星期五");
        reveal_strlit("星期六");
        reveal_strlit("星期日");
        assert forall|i: int| 0 <= i < 7 implies weekday_width(#[trigger] names@[i])
            <= SCREEN_WIDTH by {
            lemma_encoding_is_short(names@[i]@);
        }
    }
    names
}

/// The lines under the six fields, from the year to the second.
pub fn cursor_positions() -> (lines: [(Point, Point); 6])
    ensures
        forall|i: int| 0 <= i < 6 ==> #[trigger] lines@[i] == field_line(i + 1),
{
    [
        (Point { x: 24, y: 18 }, Point { x: 24 + 4 * 8, y: 18 }),
        (Point { x: 24 + 5 * 8, y: 18 }, Point { x: 24 + 7 * 8, y: 18 }),
        (Point { x: 24 + 8 * 8, y: 18 }, Point { x: 24 + 10 * 8, y: 18 }),
        (Point { x: 24, y: 40 }, Point { x: 24 + 2 * 10, y: 40 }),
        (Point { x: 24 + 3 * 10, y: 40 }, Point { x: 24 + 5 * 10, y: 40 }),
        (Point { x: 24 + 6 * 10, y: 40 }, Point { x: 24 + 8 * 10, y: 40 }),
    ]
}

/// What the display shows at a time: the date, the time of day and the weekday,
/// and the cursor under the selected field while it is visible. A position of 0
/// or above 6 selects no field.
pub fn render_display<'a>(
    now: &DateTime,
    set_pos: u8,
    cursor_visible: bool,
    cursor_positions: &[(Point, Point); 6],
    date_font: Font,
    time_font: Font,
    weekday_font: Font,
    weekdays: &[&'a str; 7],
) -> (frame: Frame<'a>)
    requires
        now.valid(),
        weekday_width(weekdays@[now.weekday()]) <= SCREEN_WIDTH,
    ensures
        frame.shows(*now, weekdays@, cursor_at(set_pos, cursor_visible, cursor_positions@)),
        frame.in_fonts(date_font, time_font, weekday_font),
{
    let weekday: &'a str = weekdays[now.days_from_monday() as usize];
    let text_width: usize = weekday.len() * WEEKDAY_CHARACTER_WIDTH;
    let x_pos: usize = (SCREEN_WIDTH - text_width) / 2;
    let cursor = if cursor_visible && set_pos != 0 && set_pos <= 6 {
        Some(cursor_positions[set_pos as usize - 1])
    } else {
        None
    };
    Frame {
        date: date_text(now),
        date_at: Point { x: 24, y: 4 },
        date_font,
        time: time_text(now),
        time_at: Point { x: 24, y: 21 },
        time_font,
        weekday,
        weekday_at: Point { x: x_pos as i32, y: 46 },
        weekday_font,
        cursor,
    }
}

/// What the display task is waiting for while it runs.
#[derive(Clone, Copy, Debug, PartialEq, Eq, Structural)]
pub enum ScreenPhase {
    /// The first frame to be drawn.
    FirstDraw,
    /// A new time, if there is one.
    PollTime,
    /// A new position, if there is one.
    PollKey,
    /// A reading of the clock, to see whether the cursor is to change.
    CheckBlink,
    /// A reading of the clock, from which the next change is counted.
    MarkBlink,
    /// A frame to be drawn.
    Drawing,
    /// The start of the next pass.
    Waiting,
}

/// The display task while it runs.
#[derive(Clone, Copy, Debug, PartialEq, Eq, Structural)]
pub struct Screen {
    pub now: DateTime,
    /// The time that was last drawn.
    pub prev_time: DateTime,
    /// The selected position.
    pub set_pos: u8,
    pub cursor_visible: bool,
    /// The reading of the clock at the last change of the cursor.
    pub last_blink: u64,
    /// Whether something has changed in this pass.
    pub needs_redraw: bool,
    pub phase: ScreenPhase,
}

/// The display task.
#[derive(Clone, Copy, Debug, PartialEq, Eq, Structural)]
pub enum ScreenTask {
    /// It waits before the display is initialised.
    FirstTick,
    /// It waits for the display to be initialised, with so many tries to come.
    Initialising { tries_left: u8 },
    /// It waits after the display could not be initialised.
    Pausing { tries_left: u8 },
    /// It waits for the reading of the clock from which the cursor blinks.
    FirstClock,
    /// It waits for the first time.
    FirstTime { last_blink: u64 },
    Running(Screen),
}

/// What the display task asks for.
#[derive(Debug)]
pub enum ScreenAction<'a> {
    WaitForTick,
    /// Initialise the display.
    Initialise,
    /// Wait for so many milliseconds.
    Pause(u64),
    ReadClock,
    /// Wait for a time.
    ReceiveTime,
    /// Take a time if there is one.
    PollTime,
    /// Take a position if there is one.
    PollKey,
    /// Clear the display and draw a frame.
    Draw(Frame<'a>),
}

/// What the display task is told.
#[derive(Clone, Copy, Debug, PartialEq, Eq, Structural)]
pub enum ScreenEvent {
    Ticked,
    /// Whether the display was initialised.
    Initialised(bool),
    Paused,
    Clock(u64),
    Time(DateTime),
    TimePolled(Option<DateTime>),
    KeyPolled(Option<u8>),
    Drawn,
}

/// Whether it is time for the cursor to change.
pub open spec fn blink_due(clock: u64, since: u64) -> bool {
    clock - since >= BLINK_INTERVAL_MILLIS * (TICK_HZ / 1000)
}

impl Screen {
    /// Whether the task is one that can come about: the times are valid, a time
    /// that was not drawn yet is to be drawn, and nothing is left to be drawn
    /// between passes.
    pub open spec fn valid(self) -> bool {
        &&& self.now.valid()
        &&& self.prev_time.valid()
        &&& self.now != self.prev_time ==> self.needs_redraw
        &&& match self.phase {
            ScreenPhase::FirstDraw => self.now == self.prev_time && !self.needs_redraw,
            ScreenPhase::PollTime => self.now == self.prev_time && !self.needs_redraw,
            ScreenPhase::Drawing => self.needs_redraw,
            ScreenPhase::Waiting => self.now == self.prev_time,
            other => true,
        }
    }

    /// Where the cursor stands.
    pub open spec fn cursor(self) -> Option<(Point, Point)> {
        if self.cursor_visible && 1 <= self.set_pos <= 6 {
            Some(field_line(self.set_pos as int))
        } else {
            None
        }
    }

    /// Whether a frame shows the state of the task.
    pub open spec fn is_shown_by(self, frame: Frame, weekdays: Seq<&str>) -> bool {
        &&& frame.shows(self.now, weekdays, self.cursor())
        &&& frame.in_fonts(Font::Font8x13, Font::Font10x20, Font::Font8x13)
    }

    /// The task when it has looked for changes: it draws if there is any.
    pub open spec fn looked(self) -> Screen {
        if self.needs_redraw || self.now != self.prev_time {
            Screen { phase: ScreenPhase::Drawing, ..self }
        } else {
            Screen { phase: ScreenPhase::Waiting, ..self }
        }
    }

    /// Whether an event answers what the task asks for. The clock does not go
    /// back behind the last change of the cursor.
    pub open spec fn awaits(self, event: ScreenEvent) -> bool {
        match self.phase {
            ScreenPhase::FirstDraw => event is Drawn,
            ScreenPhase::PollTime => event matches ScreenEvent::TimePolled(time) && (
            time matches Some(t) ==> t.valid()),
            ScreenPhase::PollKey => event is KeyPolled,
            ScreenPhase::CheckBlink => event matches ScreenEvent::Clock(clock) && clock
                >= self.last_blink,
            ScreenPhase::MarkBlink => event is Clock,
            ScreenPhase::Drawing => event is Drawn,
            ScreenPhase::Waiting => event is Ticked,
        }
    }

    /// The task after an event.
    pub open spec fn after(self, event: ScreenEvent) -> Screen {
        match (self.phase, event) {
            (ScreenPhase::FirstDraw, other) => Screen { phase: ScreenPhase::PollTime, ..self },
            (ScreenPhase::PollTime, ScreenEvent::TimePolled(Some(time))) => Screen {
                now: time,
                needs_redraw: true,
                phase: ScreenPhase::PollKey,
                ..self
            },
            (ScreenPhase::PollTime, other) => Screen { phase: ScreenPhase::PollKey, ..self },
            (ScreenPhase::PollKey, ScreenEvent::KeyPolled(Some(set_pos))) => Screen {
                set_pos,
                needs_redraw: true,
                phase: ScreenPhase::CheckBlink,
                ..self
            },
            (ScreenPhase::PollKey, other) => Screen { phase: ScreenPhase::CheckBlink, ..self },
            (ScreenPhase::CheckBlink, ScreenEvent::Clock(clock)) => if blink_due(
                clock,
                self.last_blink,
            ) {
                Screen {
                    cursor_visible: !self.cursor_visible,
                    needs_redraw: true,
                    phase: ScreenPhase::MarkBlink,
                    ..self
                }
            } else {
                self.looked()
            },
            (ScreenPhase::MarkBlink, ScreenEvent::Clock(clock)) => (Screen {
                last_blink: clock,
                ..self
            }).looked(),
            (ScreenPhase::Drawing, other) => Screen {
                prev_time: self.now,
                phase: ScreenPhase::Waiting,
                ..self
            },
            (ScreenPhase::Waiting, other) => Screen {
                needs_redraw: false,
                phase: ScreenPhase::PollTime,
                ..self
            },
            (phase, other) => self,
        }
    }

    /// The frame that shows the state of the task.
    fn frame<'a>(&self, weekdays: &[&'a str; 7]) -> (frame: Frame<'a>)
        requires
            self.valid(),
            fit(weekdays@),
        ensures
            self.is_shown_by(frame, weekdays@),
    {
        render_display(
            &self.now,
            self.set_pos,
            self.cursor_visible,
            &cursor_positions(),
            Font::Font8x13,
            Font::Font10x20,
            Font::Font8x13,
            weekdays,
        )
    }

    /// Goes on when the task has looked for changes.
    fn go_on_looked(&mut self)
        ensures
            *final(self) == old(self).looked(),
    {
        self.phase = if self.needs_redraw || self.now != self.prev_time {
            ScreenPhase::Drawing
        } else {
            ScreenPhase::Waiting
        };
    }

    /// Takes in the answer to what the task asks for.
    fn take(&mut self, event: ScreenEvent)
        requires
            old(self).valid(),
            old(self).awaits(event),
        ensures
            *final(self) == old(self).after(event),
            final(self).valid(),
    {
        match (self.phase, event) {
            (ScreenPhase::FirstDraw, _) => {
                self.phase = ScreenPhase::PollTime;
            },
            (ScreenPhase::PollTime, ScreenEvent::TimePolled(polled)) => {
                if let Some(time) = polled {
                    self.now = time;
                    self.needs_redraw = true;
                }
                self.phase = ScreenPhase::PollKey;
            },
            (ScreenPhase::PollKey, ScreenEvent::KeyPolled(polled)) => {
                if let Some(set_pos) = polled {
                    self.set_pos = set_pos;
                    self.needs_redraw = true;
                }
                self.phase = ScreenPhase::CheckBlink;
            },
            (ScreenPhase::CheckBlink, ScreenEvent::Clock(clock)) => {
                if millis_passed(clock, self.last_blink, BLINK_INTERVAL_MILLIS) {
                    self.cursor_visible = !self.cursor_visible;
                    self.needs_redraw = true;
                    self.phase = ScreenPhase::MarkBlink;
                } else {
                    self.go_on_looked();
                }
            },
            (ScreenPhase::MarkBlink, ScreenEvent::Clock(clock)) => {
                self.last_blink = clock;
                self.go_on_looked();
            },
            (ScreenPhase::Drawing, _) => {
                self.prev_time = self.now;
                self.phase = ScreenPhase::Waiting;
            },
            (ScreenPhase::Waiting, _) => {
                self.needs_redraw = false;
                self.phase = ScreenPhase::PollTime;
            },
            _ => {},
        }
    }
}

impl ScreenTask {
    /// Whether the task is one that can come about.
    pub open spec fn valid(self) -> bool {
        self matches ScreenTask::Running(screen) ==> screen.valid()
    }

    /// Whether an action is what the task asks for.
    pub open spec fn wants(self, action: ScreenAction, weekdays: Seq<&str>) -> bool {
        match self {
            ScreenTask::FirstTick => action is WaitForTick,
            ScreenTask::Initialising { tries_left } => action is Initialise,
            ScreenTask::Pausing { tries_left } => action == ScreenAction::Pause(INIT_PAUSE_MILLIS),
            ScreenTask::FirstClock => action is ReadClock,
            ScreenTask::FirstTime { last_blink } => action is ReceiveTime,
            ScreenTask::Running(screen) => match screen.phase {
                ScreenPhase::PollTime => action is PollTime,
                ScreenPhase::PollKey => action is PollKey,
                ScreenPhase::CheckBlink => action is ReadClock,
                ScreenPhase::MarkBlink => action is ReadClock,
                ScreenPhase::Waiting => action is WaitForTick,
                other => action matches ScreenAction::Draw(frame) && screen.is_shown_by(
                    frame,
                    weekdays,
                ),
            },
        }
    }

    /// Whether an event answers what the task asks for.
    pub open spec fn awaits(self, event: ScreenEvent) -> bool {
        match self {
            ScreenTask::FirstTick => event is Ticked,
            ScreenTask::Initialising { tries_left } => event is Initialised,
            ScreenTask::Pausing { tries_left } => event is Paused,
            ScreenTask::FirstClock => event is Clock,
            ScreenTask::FirstTime { last_blink } => event matches ScreenEvent::Time(time)
                && time.valid(),
            ScreenTask::Running(screen) => screen.awaits(event),
        }
    }

    /// The task after an event. A display that cannot be initialised is tried
    /// again, and in the end used all the same.
    pub open spec fn after(self, event: ScreenEvent) -> ScreenTask {
        match (self, event) {
            (ScreenTask::FirstTick, other) => ScreenTask::Initialising {
                tries_left: (INIT_TRIES - 1) as u8,
            },
            (ScreenTask::Initialising { tries_left }, ScreenEvent::Initialised(ok)) => if ok {
                ScreenTask::FirstClock
            } else {
                ScreenTask::Pausing { tries_left }
            },
            (ScreenTask::Pausing { tries_left }, other) => if tries_left > 0 {
                ScreenTask::Initialising { tries_left: (tries_left - 1) as u8 }
            } else {
                ScreenTask::FirstClock
            },
            (ScreenTask::FirstClock, ScreenEvent::Clock(clock)) => ScreenTask::FirstTime {
                last_blink: clock,
            },
            (ScreenTask::FirstTime { last_blink }, ScreenEvent::Time(time)) => ScreenTask::Running(
                Screen {
                    now: time,
                    prev_time: time,
                    set_pos: 0,
                    cursor_visible: false,
                    last_blink,
                    needs_redraw: false,
                    phase: ScreenPhase::FirstDraw,
                },
            ),
            (ScreenTask::Running(screen), other) => ScreenTask::Running(screen.after(event)),
            (task, other) => task,
        }
    }

    /// The task at power-on.
    pub fn start() -> (task: ScreenTask)
        ensures
            task == ScreenTask::FirstTick,
            task.valid(),
    {
        ScreenTask::FirstTick
    }

    /// Whether an event answers what the task asks for.
    pub fn accepts(&self, event: &ScreenEvent) -> (accepted: bool)
        ensures
            accepted == self.awaits(*event),
    {
        match (*self, *event) {
            (ScreenTask::FirstTick, ScreenEvent::Ticked) => true,
            (ScreenTask::Initialising { .. }, ScreenEvent::Initialised(_)) => true,
            (ScreenTask::Pausing { .. }, ScreenEvent::Paused) => true,
            (ScreenTask::FirstClock, ScreenEvent::Clock(_)) => true,
            (ScreenTask::FirstTime { .. }, ScreenEvent::Time(time)) => time.is_valid(),
            (ScreenTask::Running(screen), _) => match (screen.phase, *event) {
                (ScreenPhase::FirstDraw, ScreenEvent::Drawn) => true,
                (ScreenPhase::PollTime, ScreenEvent::TimePolled(Some(time))) => time.is_valid(),
                (ScreenPhase::PollTime, ScreenEvent::TimePolled(None)) => true,
                (ScreenPhase::PollKey, ScreenEvent::KeyPolled(_)) => true,
                (ScreenPhase::CheckBlink, ScreenEvent::Clock(clock)) => clock >= screen.last_blink,
                (ScreenPhase::MarkBlink, ScreenEvent::Clock(_)) => true,
                (ScreenPhase::Drawing, ScreenEvent::Drawn) => true,
                (ScreenPhase::Waiting, ScreenEvent::Ticked) => true,
                _ => false,
            },
            _ => false,
        }
    }

    /// What the task asks for.
    pub fn request<'a>(&self, weekdays: &[&'a str; 7]) -> (action: ScreenAction<'a>)
        requires
            self.valid(),
            fit(weekdays@),
        ensures
            self.wants(action, weekdays@),
    {
        match self {
            ScreenTask::FirstTick => ScreenAction::WaitForTick,
            ScreenTask::Initialising { .. } => ScreenAction::Initialise,
            ScreenTask::Pausing { .. } => ScreenAction::Pause(INIT_PAUSE_MILLIS),
            ScreenTask::FirstClock => ScreenAction::ReadClock,
            ScreenTask::FirstTime { .. } => ScreenAction::ReceiveTime,
            ScreenTask::Running(screen) => match screen.phase {
                ScreenPhase::PollTime => ScreenAction::PollTime,
                ScreenPhase::PollKey => ScreenAction::PollKey,
                ScreenPhase::CheckBlink => ScreenAction::ReadClock,
                ScreenPhase::MarkBlink => ScreenAction::ReadClock,
                ScreenPhase::Waiting => ScreenAction::WaitForTick,
                ScreenPhase::FirstDraw => ScreenAction::Draw(screen.frame(weekdays)),
                ScreenPhase::Drawing => ScreenAction::Draw(screen.frame(weekdays)),
            },
        }
    }
}

/// Takes in the answer to what the display task asks for, and returns what it
/// asks for next. The weekdays are named from Monday on.
pub fn oled_display<'a>(
    task: &mut ScreenTask,
    weekdays: &[&'a str; 7],
    event: ScreenEvent,
) -> (action: ScreenAction<'a>)
    requires
        old(task).valid(),
        old(task).awaits(event),
        fit(weekdays@),
    ensures
        *final(task) == old(task).after(event),
        final(task).valid(),
        final(task).wants(action, weekdays@),
{
    match (*task, event) {
        (ScreenTask::FirstTick, _) => {
            *task = ScreenTask::Initialising { tries_left: INIT_TRIES - 1 };
        },
        (ScreenTask::Initialising { tries_left }, ScreenEvent::Initialised(ok)) => {
            *task = if ok {
                ScreenTask::FirstClock
            } else {
                ScreenTask::Pausing { tries_left }
            };
        },
        (ScreenTask::Pausing { tries_left }, _) => {
            *task = if tries_left > 0 {
                ScreenTask::Initialising { tries_left: tries_left - 1 }
            } else {
                ScreenTask::FirstClock
            };
        },
        (ScreenTask::FirstClock, ScreenEvent::Clock(clock)) => {
            *task = ScreenTask::FirstTime { last_blink: clock };
        },
        (ScreenTask::FirstTime { last_blink }, ScreenEvent::Time(time)) => {
            *task = ScreenTask::Running(
                Screen {
                    now: time,
                    prev_time: time,
                    set_pos: 0,
                    cursor_visible: false,
                    last_blink,
                    needs_redraw: false,
                    phase: ScreenPhase::FirstDraw,
                },
            );
        },
        (ScreenTask::Running(running), _) => {
            let mut screen = running;
            screen.take(event);
            *task = ScreenTask::Running(screen);
        },
        _ => {},
    }
    task.request(weekdays)
}

/// A character takes at most four bytes.
proof fn lemma_encoding_is_short(characters: Seq<char>)
    ensures
        encode_utf8(characters).len() <= 4 * characters.len(),
    decreases characters.len(),
{
    if characters.len() > 0 {
        lemma_encoding_is_short(characters.drop_first());
    }
}

/// The text that a field of the clock is shown in, from the year as 1 to the
/// second as 6: the date or the time of day.
pub open spec fn field_text(time: DateTime, field: int) -> Seq<char> {
    if field <= 3 {
        date_characters(time)
    } else {
        time_characters(time)
    }
}

/// A field of the clock in characters, from the year as 1 to the second as 6.
pub open spec fn field_value(time: DateTime, field: int) -> Seq<char> {
    if field == 1 {
        zero_padded(time.year as int, 4)
    } else if field == 2 {
        zero_padded(time.month as int, 2)
    } else if field == 3 {
        zero_padded(time.day as int, 2)
    } else if field == 4 {
        zero_padded(time.hour as int, 2)
    } else if field == 5 {
        zero_padded(time.minute as int, 2)
    } else {
        zero_padded(time.second as int, 2)
    }
}

/// The line of a field stands under the characters that show the field, in the
/// years from 0 to 9999.
#[verifier::rlimit(40)]
pub proof fn law_cursor_underlines_field(time: DateTime, field: int)
    requires
        time.valid(),
        0 <= time.year <= 9999,
        1 <= field <= 6,
    ensures
        ({
            let (first, end) = field_characters(field);
            let width: int = if field <= 3 {
                8
            } else {
                10
            };
            &&& 0 <= first <= end <= field_text(time, field).len()
            &&& field_text(time, field).subrange(first, end) == field_value(time, field)
            &&& field_line(field).0.x == 24 + first * width
            &&& field_line(field).1.x == 24 + end * width
        }),
{
    law_text_lengths(time);
    lemma_padded_pair(time.month as int);
    lemma_padded_pair(time.day as int);
    lemma_padded_pair(time.hour as int);
    lemma_padded_pair(time.minute as int);
    lemma_padded_pair(time.second as int);
    let (first, end) = field_characters(field);
    assert(field_text(time, field).subrange(first, end) =~= field_value(time, field));
}

/// What a frame shows lies within the display.
pub proof fn law_frame_fits_display(
    frame: Frame,
    screen: Screen,
    weekdays: Seq<&str>,
)
    requires
        screen.valid(),
        fit(weekdays),
        screen.is_shown_by(frame, weekdays),
    ensures
        0 <= frame.date_at.x,
        frame.date_at.x + 8 * text_of(frame.date).len() <= SCREEN_WIDTH,
        0 <= frame.date_at.y,
        frame.date_at.y + 13 <= SCREEN_HEIGHT,
        0 <= frame.time_at.x,
        frame.time_at.x + 10 * text_of(frame.time).len() <= SCREEN_WIDTH,
        0 <= frame.time_at.y,
        frame.time_at.y + 20 <= SCREEN_HEIGHT,
        0 <= frame.weekday_at.x,
        frame.weekday_at.x + weekday_width(frame.weekday) <= SCREEN_WIDTH,
        0 <= frame.weekday_at.y,
        frame.weekday_at.y + 13 <= SCREEN_HEIGHT,
        frame.cursor matches Some((start, end)) ==> 0 <= start.x < end.x < SCREEN_WIDTH && 0
            <= start.y == end.y < SCREEN_HEIGHT,
{
    law_text_lengths(screen.now);
    assert(weekday_width(weekdays[screen.now.weekday()]) <= SCREEN_WIDTH);
}

/// The task stays valid, whatever it is told.
pub proof fn law_screen_stays_valid(task: ScreenTask, event: ScreenEvent)
    requires
        task.valid(),
        task.awaits(event),
    ensures
        task.after(event).valid(),
{
}

/// A pass draws exactly where a time or a position came in or the cursor
/// changed, and the state that it draws is the latest.
pub proof fn law_redraws_exactly_on_change(
    screen: Screen,
    time: Option<DateTime>,
    key: Option<u8>,
    check: u64,
    mark: u64,
)
    requires
        screen.valid(),
        screen.phase is PollTime,
        time matches Some(t) ==> t.valid(),
        screen.last_blink <= check,
    ensures
        ({
            let polled = screen.after(ScreenEvent::TimePolled(time));
            let keyed = polled.after(ScreenEvent::KeyPolled(key));
            let checked = keyed.after(ScreenEvent::Clock(check));
            let blinks = check - screen.last_blink >= 500_000;
            let end = if blinks {
                checked.after(ScreenEvent::Clock(mark))
            } else {
                checked
            };
            &&& screen.awaits(ScreenEvent::TimePolled(time))
            &&& polled.awaits(ScreenEvent::KeyPolled(key))
            &&& keyed.awaits(ScreenEvent::Clock(check))
            &&& blinks ==> checked.awaits(ScreenEvent::Clock(mark))
            &&& end.phase == if time is Some || key is Some || blinks {
                ScreenPhase::Drawing
            } else {
                ScreenPhase::Waiting
            }
            &&& end.now == match time {
                Some(t) => t,
                None => screen.now,
            }
            &&& end.set_pos == match key {
                Some(k) => k,
                None => screen.set_pos,
            }
            &&& end.cursor_visible == (screen.cursor_visible != blinks)
            &&& end.last_blink == if blinks {
                mark
            } else {
                screen.last_blink
            }
        }),
{
}

/// What comes in during a pass of the display task: a time and a position, if
/// there are any, and the readings of the clock. The second reading is taken only
/// where the cursor changes.
pub struct ScreenPass {
    pub time: Option<DateTime>,
    pub key: Option<u8>,
    pub check: u64,
    pub mark: u64,
}

impl ScreenPass {
    /// Whether the cursor changes in the pass, where it last changed at `since`.
    pub open spec fn blinks(self, since: u64) -> bool {
        self.check - since >= 500_000
    }
}

/// The task when it has looked for changes in a pass.
pub open spec fn looked_pass(screen: Screen, pass: ScreenPass) -> Screen {
    let checked = screen.after(ScreenEvent::TimePolled(pass.time)).after(
        ScreenEvent::KeyPolled(pass.key),
    ).after(ScreenEvent::Clock(pass.check));
    if pass.blinks(screen.last_blink) {
        checked.after(ScreenEvent::Clock(pass.mark))
    } else {
        checked
    }
}

/// The task after a pass, at the start of the next one.
pub open spec fn after_pass(screen: Screen, pass: ScreenPass) -> Screen {
    let looked = looked_pass(screen, pass);
    if looked.phase is Drawing {
        looked.after(ScreenEvent::Drawn).after(ScreenEvent::Ticked)
    } else {
        looked.after(ScreenEvent::Ticked)
    }
}

/// The task after a sequence of passes.
pub open spec fn run_passes(screen: Screen, passes: Seq<ScreenPass>) -> Screen
    decreases passes.len(),
{
    if passes.len() == 0 {
        screen
    } else {
        after_pass(run_passes(screen, passes.drop_last()), passes.last())
    }
}

/// The reading of the clock at the last change of the cursor, where it had last
/// changed at `since` before the passes.
pub open spec fn latest_blink(passes: Seq<ScreenPass>, since: u64) -> u64
    decreases passes.len(),
{
    if passes.len() == 0 {
        since
    } else {
        let before = latest_blink(passes.drop_last(), since);
        if passes.last().blinks(before) {
            passes.last().mark
        } else {
            before
        }
    }
}

/// How often the cursor changes, where it had last changed at `since` before the
/// passes.
pub open spec fn blink_count(passes: Seq<ScreenPass>, since: u64) -> nat
    decreases passes.len(),
{
    if passes.len() == 0 {
        0
    } else {
        let before = passes.drop_last();
        blink_count(before, since) + if passes.last().blinks(latest_blink(before, since)) {
            1nat
        } else {
            0nat
        }
    }
}

/// The last time that came in, or else `start`.
pub open spec fn latest_time(passes: Seq<ScreenPass>, start: DateTime) -> DateTime
    decreases passes.len(),
{
    if passes.len() == 0 {
        start
    } else {
        match passes.last().time {
            Some(time) => time,
            None => latest_time(passes.drop_last(), start),
        }
    }
}

/// The last position that came in, or else `start`.
pub open spec fn latest_key(passes: Seq<ScreenPass>, start: u8) -> u8
    decreases passes.len(),
{
    if passes.len() == 0 {
        start
    } else {
        match passes.last().key {
            Some(key) => key,
            None => latest_key(passes.drop_last(), start),
        }
    }
}

/// Whether the times that come in are valid, and no reading of the clock lies
/// before the last change of the cursor.
pub open spec fn possible_passes(passes: Seq<ScreenPass>, since: u64) -> bool
    decreases passes.len(),
{
    passes.len() == 0 || {
        let pass = passes.last();
        &&& possible_passes(passes.drop_last(), since)
        &&& pass.time matches Some(time) ==> time.valid()
        &&& pass.check >= latest_blink(passes.drop_last(), since)
    }
}

/// Over any sequence of passes the task has the last time and the last position
/// that came in, and the cursor is the other way round than at first exactly where
/// the number of its changes is odd.
#[verifier::rlimit(40)]
pub proof fn law_run_keeps_the_latest(screen: Screen, passes: Seq<ScreenPass>)
    requires
        screen.valid(),
        screen.phase is PollTime,
        possible_passes(passes, screen.last_blink),
    ensures
        ({
            let end = run_passes(screen, passes);
            &&& end.valid()
            &&& end.phase is PollTime
            &&& end.now == latest_time(passes, screen.now)
            &&& end.set_pos == latest_key(passes, screen.set_pos)
            &&& end.cursor_visible == (screen.cursor_visible != (blink_count(
                passes,
                screen.last_blink,
            ) % 2 == 1))
            &&& end.last_blink == latest_blink(passes, screen.last_blink)
        }),
    decreases passes.len(),
{
    if passes.len() > 0 {
        let before = run_passes(screen, passes.drop_last());
        let pass = passes.last();
        law_run_keeps_the_latest(screen, passes.drop_last());
        law_redraws_exactly_on_change(before, pass.time, pass.key, pass.check, pass.mark);
    }
}

/// Whatever passes went before, a frame that is drawn shows the last time that
/// came in, and the cursor under the field of the last position that came in while
/// the number of its changes is odd, where it was hidden at first. A pass draws
/// exactly where something came in or the cursor changed.
pub proof fn law_run_draws_the_latest(
    screen: Screen,
    passes: Seq<ScreenPass>,
    frame: Frame,
    weekdays: Seq<&str>,
)
    requires
        screen.valid(),
        screen.phase is PollTime,
        passes.len() > 0,
        possible_passes(passes, screen.last_blink),
    ensures
        ({
            let pass = passes.last();
            let before = run_passes(screen, passes.drop_last());
            let looked = looked_pass(before, pass);
            let visible = screen.cursor_visible != (blink_count(passes, screen.last_blink) % 2
                == 1);
            let position = latest_key(passes, screen.set_pos);
            let cursor = if visible && 1 <= position <= 6 {
                Some(field_line(position as int))
            } else {
                None
            };
            &&& looked.phase is Drawing <==> pass.time is Some || pass.key is Some || pass.blinks(
                latest_blink(passes.drop_last(), screen.last_blink),
            )
            &&& looked.phase is Drawing && ScreenTask::Running(looked).wants(
                ScreenAction::Draw(frame),
                weekdays,
            ) ==> {
                &&& frame.shows(latest_time(passes, screen.now), weekdays, cursor)
                &&& frame.date_font == Font::Font8x13
                &&& frame.time_font == Font::Font10x20
                &&& frame.weekday_font == Font::Font8x13
            }
        }),
{
    let before = run_passes(screen, passes.drop_last());
    let pass = passes.last();
    law_run_keeps_the_latest(screen, passes.drop_last());
    law_redraws_exactly_on_change(before, pass.time, pass.key, pass.check, pass.mark);
}

/// What comes in never moves the cursor's changes: two runs with the same readings
/// of the clock change the cursor alike, whatever times and positions come in.
pub proof fn law_messages_do_not_move_the_blink(
    a: Screen,
    b: Screen,
    a_passes: Seq<ScreenPass>,
    b_passes: Seq<ScreenPass>,
)
    requires
        a.valid(),
        b.valid(),
        a.phase is PollTime,
        b.phase is PollTime,
        a.cursor_visible == b.cursor_visible,
        a.last_blink == b.last_blink,
        possible_passes(a_passes, a.last_blink),
        possible_passes(b_passes, b.last_blink),
        a_passes.len() == b_passes.len(),
        forall|i: int|
            0 <= i < a_passes.len() ==> (#[trigger] a_passes[i]).check == b_passes[i].check
                && a_passes[i].mark == b_passes[i].mark,
    ensures
        run_passes(a, a_passes).cursor_visible == run_passes(b, b_passes).cursor_visible,
        run_passes(a, a_passes).last_blink == run_passes(b, b_passes).last_blink,
{
    lemma_same_readings_blink_alike(a_passes, b_passes, a.last_blink);
    law_run_keeps_the_latest(a, a_passes);
    law_run_keeps_the_latest(b, b_passes);
}

proof fn lemma_same_readings_blink_alike(a: Seq<ScreenPass>, b: Seq<ScreenPass>, since: u64)
    requires
        a.len() == b.len(),
        forall|i: int|
            0 <= i < a.len() ==> (#[trigger] a[i]).check == b[i].check && a[i].mark == b[i].mark,
    ensures
        latest_blink(a, since) == latest_blink(b, since),
        blink_count(a, since) == blink_count(b, since),
    decreases a.len(),
{
    if a.len() > 0 {
        assert forall|i: int| 0 <= i < a.len() - 1 implies (#[trigger] a.drop_last()[i]).check
            == b.drop_last()[i].check && a.drop_last()[i].mark == b.drop_last()[i].mark by {
            assert(a.drop_last()[i] == a[i]);
        }
        lemma_same_readings_blink_alike(a.drop_last(), b.drop_last(), since);
        assert(a.last() == a[a.len() - 1]);
    }
}

/// The cursor changes between shown and hidden only when at least half a second
/// has passed on the clock since it last did.
pub proof fn law_cursor_keeps_its_time(screen: Screen, event: ScreenEvent)
    requires
        screen.valid(),
        screen.awaits(event),
        screen.after(event).cursor_visible != screen.cursor_visible,
    ensures
        screen.phase is CheckBlink,
        event matches ScreenEvent::Clock(clock) && clock - screen.last_blink >= 500_000,
{
}

/// The cursor is under a field exactly while it is visible and a field is
/// selected, and the seven modes of the button select no field and each of the
/// six fields.
pub proof fn law_modes_select_fields(screen: Screen, key: KeyTask)
    requires
        screen.valid(),
        key.valid(),
        screen.set_pos == key.mode,
    ensures
        screen.cursor() is Some <==> screen.cursor_visible && key.mode != 0,
        screen.cursor() matches Some(line) ==> line == field_line(key.mode as int),
{
}

/// The display is tried to be initialised three times at most; after that the
/// task goes on without.
pub proof fn law_display_is_tried_three_times()
    ensures
        ({
            let failed = ScreenEvent::Initialised(false);
            let first = ScreenTask::FirstTick.after(ScreenEvent::Ticked);
            let second = first.after(failed).after(ScreenEvent::Paused);
            let third = second.after(failed).after(ScreenEvent::Paused);
            &&& first is Initialising
            &&& second is Initialising
            &&& third is Initialising
            &&& third.after(failed) is Pausing
            &&& third.after(failed).after(ScreenEvent::Paused) is FirstClock
            &&& first.after(ScreenEvent::Initialised(true)) is FirstClock
            &&& second.after(ScreenEvent::Initialised(true)) is FirstClock
            &&& third.after(ScreenEvent::Initialised(true)) is FirstClock
        }),
{
}

/// The events that are left at most until a pass of the task ends.
pub open spec fn screen_steps_left(task: ScreenTask) -> nat {
    match task {
        ScreenTask::FirstTick => 15,
        ScreenTask::Initialising { tries_left } => 10 + 2 * tries_left as nat,
        ScreenTask::Pausing { tries_left } => 9 + 2 * tries_left as nat,
        ScreenTask::FirstClock => 8,
        ScreenTask::FirstTime { last_blink } => 7,
        ScreenTask::Running(screen) => match screen.phase {
            ScreenPhase::FirstDraw => 6,
            ScreenPhase::PollTime => 5,
            ScreenPhase::PollKey => 4,
            ScreenPhase::CheckBlink => 3,
            ScreenPhase::MarkBlink => 2,
            ScreenPhase::Drawing => 1,
            ScreenPhase::Waiting => 0,
        },
    }
}

/// Each pass ends: every event brings it nearer to the point where the task
/// waits for the next pass.
pub proof fn law_screen_pass_progresses(task: ScreenTask, event: ScreenEvent)
    requires
        task.valid(),
        task.awaits(event),
        !(task matches ScreenTask::Running(screen) && screen.phase is Waiting),
    ensures
        screen_steps_left(task.after(event)) < screen_steps_left(task),
{
}

/// What a rendered frame holds: the texts of the date and the time of day in their
/// places, the name of the weekday, which is that of the days since a Monday, with
/// as many pixels to its left as to its right where each byte of the name takes
/// eight, the fonts that were given, and the line of the position that is selected,
/// counted from 1 to 6, while the cursor is visible.
pub proof fn law_rendered_frame(
    frame: Frame,
    now: DateTime,
    set_pos: u8,
    cursor_visible: bool,
    cursor_positions: Seq<(Point, Point)>,
    fonts: (Font, Font, Font),
    weekdays: Seq<&str>,
)
    requires
        now.valid(),
        weekdays.len() == 7,
        cursor_positions.len() == 6,
        frame.shows(now, weekdays, cursor_at(set_pos, cursor_visible, cursor_positions)),
        frame.in_fonts(fonts.0, fonts.1, fonts.2),
    ensures
        text_of(frame.date) == date_characters(now),
        text_of(frame.time) == time_characters(now),
        frame.date_at.x == 24,
        frame.date_at.y == 4,
        frame.time_at.x == 24,
        frame.time_at.y == 21,
        frame.weekday == weekdays[(now.day_number() - 1) % 7],
        frame.weekday_at.x == 128 - frame.weekday_at.x - 8 * encode_utf8(frame.weekday@).len(),
        frame.weekday_at.y == 46,
        frame.date_font == fonts.0,
        frame.time_font == fonts.1,
        frame.weekday_font == fonts.2,
        frame.cursor == if cursor_visible && set_pos >= 1 && set_pos <= 6 {
            Some(cursor_positions[set_pos - 1])
        } else {
            None
        },
{
}

/// What the display shows, in the first frame as in every other: the date of the
/// task's time in the font of 8 by 13 pixels, its time of day in that of 10 by 20,
/// and its weekday, in the middle, in that of 8 by 13. A cursor shows exactly while
/// it is visible and one of the six fields is selected.
pub proof fn law_drawn_frame(screen: Screen, action: ScreenAction, weekdays: Seq<&str>)
    requires
        screen.valid(),
        fit(weekdays),
        screen.phase is FirstDraw || screen.phase is Drawing,
        ScreenTask::Running(screen).wants(action, weekdays),
    ensures
        action is Draw,
        action matches ScreenAction::Draw(frame) ==> {
            &&& text_of(frame.date) == date_characters(screen.now)
            &&& text_of(frame.time) == time_characters(screen.now)
            &&& frame.weekday == weekdays[(screen.now.day_number() - 1) % 7]
            &&& frame.date_at == (Point { x: 24, y: 4 })
            &&& frame.time_at == (Point { x: 24, y: 21 })
            &&& frame.weekday_at.x * 2 + 8 * encode_utf8(frame.weekday@).len() == 128
            &&& frame.weekday_at.y == 46
            &&& frame.date_font == Font::Font8x13
            &&& frame.time_font == Font::Font10x20
            &&& frame.weekday_font == Font::Font8x13
            &&& frame.cursor is Some <==> screen.cursor_visible && 1 <= screen.set_pos <= 6
        },
{
}

/// The cursor stands under the digits of the field that the position selects, the
/// year, the month, the day, the hour, the minute and the second from 1 to 6: where
/// its ends are measured in characters of the font that the text is drawn in, the
/// characters between them are the digits of that field. It lies at the height of
/// 18 below the date, and of 40 below the time of day. This is for the years from
/// 0 to 9999, whose dates have their fields in fixed places.
#[verifier::rlimit(40)]
pub proof fn law_cursor_is_under_its_digits(
    screen: Screen,
    frame: Frame,
    weekdays: Seq<&str>,
)
    requires
        screen.valid(),
        fit(weekdays),
        screen.phase is FirstDraw || screen.phase is Drawing,
        ScreenTask::Running(screen).wants(ScreenAction::Draw(frame), weekdays),
        screen.cursor_visible,
        1 <= screen.set_pos <= 6,
        0 <= screen.now.year <= 9999,
    ensures
        frame.cursor matches Some((start, end)) && {
            let dated = screen.set_pos <= 3;
            let text = if dated {
                text_of(frame.date)
            } else {
                text_of(frame.time)
            };
            let at = if dated {
                frame.date_at
            } else {
                frame.time_at
            };
            let font = if dated {
                frame.date_font
            } else {
                frame.time_font
            };
            let width: int = if font == Font::Font8x13 {
                8
            } else {
                10
            };
            let first = (start.x - at.x) / width;
            let last = (end.x - at.x) / width;
            let field: int = if screen.set_pos == 1 {
                screen.now.year as int
            } else if screen.set_pos == 2 {
                screen.now.month as int
            } else if screen.set_pos == 3 {
                screen.now.day as int
            } else if screen.set_pos == 4 {
                screen.now.hour as int
            } else if screen.set_pos == 5 {
                screen.now.minute as int
            } else {
                screen.now.second as int
            };
            &&& (start.x - at.x) % width == 0
            &&& (end.x - at.x) % width == 0
            &&& 0 <= first < last <= text.len()
            &&& all_digits(text.subrange(first, last))
            &&& digits_value(text.subrange(first, last)) == field
            &&& last - first == if screen.set_pos == 1 {
                4int
            } else {
                2
            }
            &&& start.y == end.y
            &&& start.y == if dated {
                18int
            } else {
                40
            }
        },
{
    law_text_lengths(screen.now);
    law_fields_can_be_read_off(screen.now);
    let date = date_characters(screen.now);
    assert(date.take(4) =~= date.subrange(0, 4));
}

/// Any seven names of at most sixteen bytes each will do for the weekdays.
pub proof fn law_short_names_fit(weekdays: Seq<&str>)
    requires
        weekdays.len() == 7,
        forall|i: int| 0 <= i < 7 ==> encode_utf8((#[trigger] weekdays[i])@).len() <= 16,
    ensures
        fit(weekdays),
{
}

/// What the task asks for before the first frame.
pub proof fn law_start_requests(
    action: ScreenAction,
    weekdays: Seq<&str>,
    tries_left: u8,
    last_blink: u64,
)
    ensures
        ScreenTask::FirstTick.wants(action, weekdays) ==> action is WaitForTick,
        (ScreenTask::Initialising { tries_left }).wants(action, weekdays) ==> action is Initialise,
        (ScreenTask::Pausing { tries_left }).wants(action, weekdays) ==> (
        action matches ScreenAction::Pause(millis) && millis == 100),
        ScreenTask::FirstClock.wants(action, weekdays) ==> action is ReadClock,
        (ScreenTask::FirstTime { last_blink }).wants(action, weekdays) ==> action is ReceiveTime,
{
}

/// The task begins with the first time that comes in: it shows that time, no field
/// is selected and no cursor is shown, and the cursor is counted from the reading
/// of the clock before. When the first frame is drawn nothing else has changed.
pub proof fn law_first_frame(clock: u64, time: DateTime)
    requires
        time.valid(),
    ensures
        ({
            let waiting = ScreenTask::FirstClock.after(ScreenEvent::Clock(clock));
            let first = waiting.after(ScreenEvent::Time(time));
            &&& waiting.awaits(ScreenEvent::Time(time))
            &&& first.valid()
            &&& first matches ScreenTask::Running(screen) && {
                let drawn = screen.after(ScreenEvent::Drawn);
                &&& screen.phase is FirstDraw
                &&& screen.awaits(ScreenEvent::Drawn)
                &&& screen.now == time
                &&& screen.set_pos == 0
                &&& !screen.cursor_visible
                &&& screen.last_blink == clock
                &&& first.after(ScreenEvent::Drawn) == ScreenTask::Running(drawn)
                &&& drawn.valid()
                &&& drawn.phase is PollTime
                &&& drawn.now == time
                &&& drawn.set_pos == 0
                &&& !drawn.cursor_visible
                &&& drawn.last_blink == clock
            }
        }),
{
}

/// A pass in full. The task asks for a time and a position that may have come in,
/// then for the clock, and once more for the clock where half a second has passed
/// since the cursor last changed. It takes over what came in, changes the cursor
/// exactly in that case, and counts it on from the second reading. Where anything
/// came in or the cursor changed it draws, and otherwise it does not; then it waits
/// for the next pass, which finds the same state.
#[verifier::rlimit(40)]
pub proof fn law_pass_in_full(
    screen: Screen,
    pass: ScreenPass,
    action: ScreenAction,
    weekdays: Seq<&str>,
)
    requires
        screen.valid(),
        screen.phase is PollTime,
        pass.time matches Some(t) ==> t.valid(),
        screen.last_blink <= pass.check,
    ensures
        ({
            let polled = screen.after(ScreenEvent::TimePolled(pass.time));
            let keyed = polled.after(ScreenEvent::KeyPolled(pass.key));
            let checked = keyed.after(ScreenEvent::Clock(pass.check));
            let blinks = pass.check - screen.last_blink >= 500_000;
            let looked = if blinks {
                checked.after(ScreenEvent::Clock(pass.mark))
            } else {
                checked
            };
            let draws = pass.time is Some || pass.key is Some || blinks;
            let rested = if draws {
                looked.after(ScreenEvent::Drawn)
            } else {
                looked
            };
            let next = rested.after(ScreenEvent::Ticked);
            &&& ScreenTask::Running(screen).wants(action, weekdays) ==> action is PollTime
            &&& ScreenTask::Running(polled).wants(action, weekdays) ==> action is PollKey
            &&& ScreenTask::Running(keyed).wants(action, weekdays) ==> action is ReadClock
            &&& blinks && ScreenTask::Running(checked).wants(action, weekdays)
                ==> action is ReadClock
            &&& ScreenTask::Running(looked).wants(action, weekdays) ==> if draws {
                action is Draw
            } else {
                action is WaitForTick
            }
            &&& ScreenTask::Running(rested).wants(action, weekdays) ==> action is WaitForTick
            &&& ScreenTask::Running(next).wants(action, weekdays) ==> action is PollTime
            &&& screen.awaits(ScreenEvent::TimePolled(pass.time))
            &&& polled.awaits(ScreenEvent::KeyPolled(pass.key))
            &&& keyed.awaits(ScreenEvent::Clock(pass.check))
            &&& blinks ==> checked.awaits(ScreenEvent::Clock(pass.mark))
            &&& draws ==> looked.awaits(ScreenEvent::Drawn)
            &&& rested.awaits(ScreenEvent::Ticked)
            &&& looked.valid()
            &&& draws ==> looked.phase is Drawing
            &&& looked.now == match pass.time {
                Some(t) => t,
                None => screen.now,
            }
            &&& looked.set_pos == match pass.key {
                Some(k) => k,
                None => screen.set_pos,
            }
            &&& looked.cursor_visible == if blinks {
                !screen.cursor_visible
            } else {
                screen.cursor_visible
            }
            &&& looked.last_blink == if blinks {
                pass.mark
            } else {
                screen.last_blink
            }
            &&& next.valid()
            &&& next.phase is PollTime
            &&& next.now == looked.now
            &&& next.set_pos == looked.set_pos
            &&& next.cursor_visible == looked.cursor_visible
            &&& next.last_blink == looked.last_blink
            &&& looked_pass(screen, pass) == looked
            &&& after_pass(screen, pass) == next
        }),
{
}

/// The running task hands each event to its state.
pub proof fn law_running_task_steps(screen: Screen, event: ScreenEvent)
    ensures
        ScreenTask::Running(screen).after(event) == ScreenTask::Running(screen.after(event)),
        ScreenTask::Running(screen).awaits(event) <==> screen.awaits(event),
        ScreenTask::Running(screen).valid() <==> screen.valid(),
{
}

/// From power-on and over any sequence of passes in which no position comes in, no
/// frame has a cursor: neither the first one nor any other.
#[verifier::rlimit(40)]
pub proof fn law_no_cursor_until_pressed(
    clock: u64,
    time: DateTime,
    passes: Seq<ScreenPass>,
    pass: ScreenPass,
    frame: Frame,
    weekdays: Seq<&str>,
)
    requires
        time.valid(),
        fit(weekdays),
        possible_passes(passes.push(pass), clock),
        forall|i: int| 0 <= i < passes.len() ==> (#[trigger] passes[i]).key is None,
        pass.key is None,
    ensures
        ScreenTask::FirstClock.after(ScreenEvent::Clock(clock)).after(
            ScreenEvent::Time(time),
        ) matches ScreenTask::Running(first) && {
            let looked = looked_pass(
                run_passes(first.after(ScreenEvent::Drawn), passes),
                pass,
            );
            &&& ScreenTask::Running(first).wants(ScreenAction::Draw(frame), weekdays)
                ==> frame.cursor is None && text_of(frame.time) == time_characters(time)
            &&& ScreenTask::Running(looked).wants(ScreenAction::Draw(frame), weekdays)
                ==> frame.cursor is None
        },
{
    law_first_frame(clock, time);
    if let ScreenTask::Running(first) = ScreenTask::FirstClock.after(
        ScreenEvent::Clock(clock),
    ).after(ScreenEvent::Time(time)) {
        let start = first.after(ScreenEvent::Drawn);
        let before = run_passes(start, passes);
        assert(passes.push(pass).drop_last() =~= passes);
        law_run_keeps_the_latest(start, passes);
        lemma_no_key(passes, 0);
        law_pass_in_full(before, pass, ScreenAction::Draw(frame), weekdays);
        let looked = looked_pass(before, pass);
        if ScreenTask::Running(looked).wants(ScreenAction::Draw(frame), weekdays) {
            law_drawn_frame(looked, ScreenAction::Draw(frame), weekdays);
        }
        if ScreenTask::Running(first).wants(ScreenAction::Draw(frame), weekdays) {
            law_drawn_frame(first, ScreenAction::Draw(frame), weekdays);
        }
    }
}

proof fn lemma_no_key(passes: Seq<ScreenPass>, start: u8)
    requires
        forall|i: int| 0 <= i < passes.len() ==> (#[trigger] passes[i]).key is None,
    ensures
        latest_key(passes, start) == start,
    decreases passes.len(),
{
    if passes.len() > 0 {
        assert(passes[passes.len() - 1].key is None);
        assert forall|i: int| 0 <= i < passes.len() - 1 implies (
        #[trigger] passes.drop_last()[i]).key is None by {
            assert(passes.drop_last()[i] == passes[i]);
        }
        lemma_no_key(passes.drop_last(), start);
    }
}

/// The fonts are the same in every frame of a run, from the first one on.
#[verifier::rlimit(40)]
pub proof fn law_fonts_never_change(
    clock: u64,
    time: DateTime,
    passes: Seq<ScreenPass>,
    pass: ScreenPass,
    frame: Frame,
    weekdays: Seq<&str>,
)
    requires
        time.valid(),
        fit(weekdays),
        possible_passes(passes.push(pass), clock),
    ensures
        ScreenTask::FirstClock.after(ScreenEvent::Clock(clock)).after(
            ScreenEvent::Time(time),
        ) matches ScreenTask::Running(first) && {
            let looked = looked_pass(
                run_passes(first.after(ScreenEvent::Drawn), passes),
                pass,
            );
            ScreenTask::Running(first).wants(ScreenAction::Draw(frame), weekdays)
                || ScreenTask::Running(looked).wants(ScreenAction::Draw(frame), weekdays) ==> {
                &&& frame.date_font == Font::Font8x13
                &&& frame.time_font == Font::Font10x20
                &&& frame.weekday_font == Font::Font8x13
            }
        },
{
    law_first_frame(clock, time);
    if let ScreenTask::Running(first) = ScreenTask::FirstClock.after(
        ScreenEvent::Clock(clock),
    ).after(ScreenEvent::Time(time)) {
        let start = first.after(ScreenEvent::Drawn);
        let before = run_passes(start, passes);
        assert(passes.push(pass).drop_last() =~= passes);
        law_run_keeps_the_latest(start, passes);
        law_pass_in_full(before, pass, ScreenAction::Draw(frame), weekdays);
        let looked = looked_pass(before, pass);
        if ScreenTask::Running(looked).wants(ScreenAction::Draw(frame), weekdays) {
            law_drawn_frame(looked, ScreenAction::Draw(frame), weekdays);
        }
        if ScreenTask::Running(first).wants(ScreenAction::Draw(frame), weekdays) {
            law_drawn_frame(first, ScreenAction::Draw(frame), weekdays);
        }
    }
}

/// The task takes in what answers its request, and nothing else: a time has to be
/// valid, and a reading of the clock that lies before the last change of the cursor
/// is not taken in where it is measured against it.
#[verifier::rlimit(40)]
pub proof fn law_screen_takes_its_answer(
    task: ScreenTask,
    action: ScreenAction,
    event: ScreenEvent,
    weekdays: Seq<&str>,
)
    requires
        task.valid(),
        task.wants(action, weekdays),
    ensures
        task.awaits(event) ==> match action {
            ScreenAction::WaitForTick => event is Ticked,
            ScreenAction::Initialise => event is Initialised,
            ScreenAction::Pause(millis) => event is Paused,
            ScreenAction::ReadClock => event is Clock,
            ScreenAction::ReceiveTime => event matches ScreenEvent::Time(time) && time.valid(),
            ScreenAction::PollTime => event matches ScreenEvent::TimePolled(polled) && (
            polled matches Some(time) ==> time.valid()),
            ScreenAction::PollKey => event is KeyPolled,
            ScreenAction::Draw(frame) => event is Drawn,
        },
        match (action, event) {
            (ScreenAction::WaitForTick, ScreenEvent::Ticked) => true,
            (ScreenAction::Initialise, ScreenEvent::Initialised(ok)) => true,
            (ScreenAction::Pause(millis), ScreenEvent::Paused) => true,
            (ScreenAction::ReadClock, ScreenEvent::Clock(clock)) => (
            task matches ScreenTask::Running(screen) ==> clock >= screen.last_blink),
            (ScreenAction::ReceiveTime, ScreenEvent::Time(time)) => time.valid(),
            (ScreenAction::PollTime, ScreenEvent::TimePolled(polled)) => (
            polled matches Some(time) ==> time.valid()),
            (ScreenAction::PollKey, ScreenEvent::KeyPolled(key)) => true,
            (ScreenAction::Draw(frame), ScreenEvent::Drawn) => true,
            (other, told) => false,
        } ==> task.awaits(event),
        task matches ScreenTask::Running(screen) && screen.phase is CheckBlink ==> (task.awaits(
            event,
        ) <==> (event matches ScreenEvent::Clock(clock) && clock
            >= task->Running_0.last_blink)),
{
}

/// The display is 128 by 64 pixels on a bus of 400 kHz, and the task runs five times
/// a second.
pub proof fn law_display_settings()
    ensures
        SCREEN_WIDTH == 128,
        SCREEN_HEIGHT == 64,
        DISPLAY_BUS_HZ == 400_000,
        SCREEN_PERIOD_MILLIS * 5 == 1000,
        BLINK_INTERVAL_MILLIS * 2 == 1000,
        INIT_PAUSE_MILLIS == 100,
        INIT_TRIES == 3,
{
}

} // verus!
