use rtc_calendar::datetime::DateTime;
use rtc_calendar::flash::{FlashOp, FlashReply};
use rtc_calendar::rtc::{
    rtc_update, RtcAction, RtcEvent, RtcTask, FLASH_END, FLASH_STORAGE_ADDR,
};

const SECOND: u64 = 1_000_000;

fn time(year: i32, month: u32, day: u32, hour: u32, minute: u32, second: u32) -> DateTime {
    DateTime { year, month, day, hour, minute, second, nanosecond: 0 }
}

/// A board with a clock that stands still within a pass, and a flash memory.
struct Board {
    clock: u64,
    memory: [u8; 12],
    erases: bool,
    erased: usize,
}

impl Board {
    fn new() -> Board {
        Board { clock: 0, memory: [0xff; 12], erases: true, erased: 0 }
    }

    fn flash(&mut self, op: FlashOp) -> FlashReply {
        match op {
            FlashOp::ReadWord { addr } => {
                let at = (addr - FLASH_STORAGE_ADDR) as usize;
                let bytes = [
                    self.memory[at],
                    self.memory[at + 1],
                    self.memory[at + 2],
                    self.memory[at + 3],
                ];
                FlashReply::Word(u32::from_le_bytes(bytes))
            }
            FlashOp::ReadByte { addr } => {
                FlashReply::Byte(self.memory[(addr - FLASH_STORAGE_ADDR) as usize])
            }
            FlashOp::Erase { from, to } => {
                assert_eq!((from, to), (FLASH_STORAGE_ADDR, FLASH_STORAGE_ADDR + 1024));
                self.erased += 1;
                if self.erases {
                    self.memory = [0xff; 12];
                }
                FlashReply::Erased(self.erases)
            }
            FlashOp::Write { addr, record } => {
                assert_eq!(addr, FLASH_STORAGE_ADDR);
                self.memory = record;
                FlashReply::Written(true)
            }
        }
    }

    /// Runs the task until it has sent a time, and returns that time.
    fn pass(&mut self, task: &mut RtcTask) -> DateTime {
        let mut sent: Option<DateTime> = None;
        let mut action = task.request();
        loop {
            let event = match action {
                RtcAction::Flash(op) => RtcEvent::Flash(self.flash(op)),
                RtcAction::ReadClock => RtcEvent::Clock(self.clock),
                RtcAction::Send(now) => {
                    sent = Some(now);
                    RtcEvent::Sent
                }
                RtcAction::WaitForTick => match sent {
                    Some(now) => return now,
                    None => RtcEvent::Ticked,
                },
            };
            assert!(task.accepts(&event));
            action = rtc_update(task, event);
        }
    }
}

#[test]
fn without_a_record_the_clock_starts_at_its_default() {
    let mut board = Board::new();
    let mut task = RtcTask::start();
    assert_eq!(board.pass(&mut task), time(2025, 10, 23, 19, 0, 0));
}

#[test]
fn without_storage_the_clock_starts_at_its_own_default() {
    let mut board = Board::new();
    let mut task = RtcTask::start_unsaved();
    assert_eq!(board.pass(&mut task), time(2025, 7, 20, 18, 0, 0));
}

#[test]
fn a_second_is_counted_when_it_has_passed() {
    let mut board = Board::new();
    let mut task = RtcTask::start();
    board.pass(&mut task);
    board.clock = SECOND - 1;
    assert_eq!(board.pass(&mut task), time(2025, 10, 23, 19, 0, 0));
    board.clock = SECOND;
    assert_eq!(board.pass(&mut task), time(2025, 10, 23, 19, 0, 1));
    assert_eq!(board.pass(&mut task), time(2025, 10, 23, 19, 0, 1));
    board.clock = 2 * SECOND;
    assert_eq!(board.pass(&mut task), time(2025, 10, 23, 19, 0, 2));
}

#[test]
fn a_long_gap_counts_as_one_second() {
    let mut board = Board::new();
    let mut task = RtcTask::start_unsaved();
    board.pass(&mut task);
    board.clock = 10 * SECOND;
    assert_eq!(board.pass(&mut task), time(2025, 7, 20, 18, 0, 1));
    board.clock = 11 * SECOND - 1;
    assert_eq!(board.pass(&mut task), time(2025, 7, 20, 18, 0, 1));
}

#[test]
fn the_time_is_saved_every_minute_and_found_again() {
    let mut board = Board::new();
    let mut task = RtcTask::start();
    board.pass(&mut task);
    for second in 1..60 {
        board.clock = second * SECOND;
        board.pass(&mut task);
    }
    assert_eq!(board.erased, 0);
    board.clock = 60 * SECOND;
    assert_eq!(board.pass(&mut task), time(2025, 10, 23, 19, 1, 0));
    assert_eq!(board.erased, 1);
    board.clock = 61 * SECOND;
    assert_eq!(board.pass(&mut task), time(2025, 10, 23, 19, 1, 1));
    assert_eq!(board.erased, 1);
    board.clock = 120 * SECOND - 1;
    board.pass(&mut task);
    assert_eq!(board.erased, 1);

    let mut restarted = RtcTask::start();
    assert_eq!(board.pass(&mut restarted), time(2025, 10, 23, 19, 1, 0));
}

#[test]
fn a_save_that_fails_is_tried_again_in_the_next_pass() {
    let mut board = Board::new();
    board.erases = false;
    let mut task = RtcTask::start();
    board.pass(&mut task);
    board.clock = 60 * SECOND;
    board.pass(&mut task);
    assert_eq!(board.erased, 1);
    board.pass(&mut task);
    assert_eq!(board.erased, 2);
    board.erases = true;
    board.pass(&mut task);
    assert_eq!(board.erased, 3);
    board.pass(&mut task);
    assert_eq!(board.erased, 3);
}

#[test]
fn without_storage_nothing_is_saved() {
    let mut board = Board::new();
    let mut task = RtcTask::start_unsaved();
    board.pass(&mut task);
    board.clock = 1000 * SECOND;
    board.pass(&mut task);
    assert_eq!(board.erased, 0);
    assert_eq!(board.memory, [0xff; 12]);
}

#[test]
fn a_clock_that_goes_back_is_not_accepted() {
    let mut board = Board::new();
    board.clock = 5 * SECOND;
    let mut task = RtcTask::start_unsaved();
    board.pass(&mut task);
    let action = rtc_update(&mut task, RtcEvent::Ticked);
    assert!(matches!(action, RtcAction::ReadClock));
    assert!(!task.accepts(&RtcEvent::Clock(5 * SECOND - 1)));
    assert!(task.accepts(&RtcEvent::Clock(5 * SECOND)));
    assert!(!task.accepts(&RtcEvent::Sent));
}

#[test]
fn the_record_is_in_the_last_page_of_the_flash_memory() {
    assert_eq!(FLASH_STORAGE_ADDR, 0x0800_fc00);
    assert_eq!(FLASH_END, 0x0801_0000);
    let task = RtcTask::start();
    assert_eq!(task.storage, Some(0x0800_fc00));
    assert!(matches!(task.request(), RtcAction::Flash(FlashOp::ReadWord { addr: 0x0800_fc00 })));
}

#[test]
fn a_restarted_clock_sends_the_very_time_that_was_saved() {
    let mut board = Board::new();
    let mut task = RtcTask::start();
    board.pass(&mut task);
    board.clock = 75 * SECOND;
    let sent = board.pass(&mut task);
    assert_eq!(board.erased, 1);
    assert_eq!(sent.nanosecond, 0);
    let mut restarted = RtcTask::start();
    assert_eq!(board.pass(&mut restarted), sent);
}
