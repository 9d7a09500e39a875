//! The clock task: it counts the seconds, saves the time now and then, and hands
//! it to the display.
//!
//! The task asks for one thing at a time, such as a reading of the clock or an
//! operation on the flash memory, is told what came of it, and goes on.
use vstd::prelude::*;

use crate::datetime::DateTime;
#[allow(unused_imports)]
use crate::civil::{first_second, last_second};
#[allow(unused_imports)]
use crate::datetime::{
    law_advance_counts_one_second, law_advance_is_one_second_later, law_every_second_has_a_time,
    lemma_seconds_bounds,
};
use crate::flash::{read_time_from_flash, save_time_to_flash};
use crate::flash::{FlashOp, FlashRead, FlashReply, FlashSave, ReadPhase, SavePhase};
#[allow(unused_imports)]
use crate::flash::{
    end_of_save, found_in, joined_seconds, law_read_finds_the_record, law_read_outcome,
    law_save_is_verified_by_address, law_save_progresses, law_saved_time_is_read_back,
    lemma_record_of, record_bytes, recorded_time, reply_to, save_outcome, save_steps_left, word_at,
    word_in, MAGIC_NUMBER, PAGE_SIZE, RECORD_SIZE,
};
use crate::ticks::seconds_passed;
#[allow(unused_imports)]
use crate::ticks::TICK_HZ;

verus! {

/// The address behind the last byte of the flash memory, which has 64 pages.
pub const FLASH_END: u32 = 0x0801_0000;

/// Where the time is saved: the last page of the flash memory.
pub const FLASH_STORAGE_ADDR: u32 = 0x0800_fc00;

/// The clock is moved on by one second when so many seconds have passed.
pub const UPDATE_INTERVAL_SECONDS: u64 = 1;

/// The time is saved when so many seconds have passed since it was last saved.
pub const SAVE_INTERVAL_SECONDS: u64 = 60;

/// How often the clock task runs.
pub const RTC_PERIOD_MILLIS: u64 = 20;

/// What the clock task is waiting for.
#[derive(Clone, Copy)]
pub enum RtcPhase {
    /// The saved time, at power-on.
    Reading(FlashRead),
    /// The first reading of the clock, from which updates are counted.
    FirstUpdate,
    /// The reading of the clock from which saves are counted.
    FirstSave,
    /// A reading of the clock, to see whether a second has passed.
    CheckUpdate,
    /// A reading of the clock, from which the next second is counted.
    MarkUpdate,
    /// A reading of the clock, to see whether a save is due.
    CheckSave,
    /// The time to be saved.
    Saving(FlashSave),
    /// A reading of the clock, from which the next save is counted.
    MarkSave,
    /// The time to be taken by the display.
    Sending,
    /// The start of the next pass.
    Waiting,
}

/// The clock task.
#[derive(Clone, Copy)]
pub struct RtcTask {
    /// Where the time is saved; `None` where it is not saved at all.
    pub storage: Option<u32>,
    pub now: DateTime,
    /// The reading of the clock at the last update.
    pub last_update: u64,
    /// The reading of the clock at the last save.
    pub last_save: u64,
    pub phase: RtcPhase,
}

/// What the clock task asks for.
#[derive(Clone, Copy)]
pub enum RtcAction {
    Flash(FlashOp),
    ReadClock,
    Send(DateTime),
    WaitForTick,
}

/// What the clock task is told.
#[derive(Clone, Copy, Debug, PartialEq, Eq, Structural)]
pub enum RtcEvent {
    Flash(FlashReply),
    Clock(u64),
    Sent,
    Ticked,
}

/// Whether so many seconds have passed from one reading of the clock to another.
pub open spec fn due(clock: u64, since: u64, seconds: u64) -> bool {
    clock - since >= seconds * TICK_HZ
}

impl RtcTask {
    /// Whether the task is one that can come about: the time is valid, the memory
    /// for saving has addresses, and only a task that saves waits for the memory.
    pub open spec fn valid(self) -> bool {
        &&& self.now.valid()
        &&& self.storage matches Some(addr) ==> addr + PAGE_SIZE <= u32::MAX
        &&& match self.phase {
            RtcPhase::Reading(read) => {
                &&& self.storage == Some(read.addr)
                &&& read.valid()
                &&& read.wanted() is Some
            },
            RtcPhase::Saving(save) => {
                &&& self.storage == Some(save.addr)
                &&& save.valid()
                &&& save.wanted() is Some
                &&& save.record@ == record_bytes(self.now)
            },
            RtcPhase::FirstSave => self.storage is Some,
            RtcPhase::CheckSave => self.storage is Some,
            RtcPhase::MarkSave => self.storage is Some,
            other => true,
        }
    }

    /// What the task asks for.
    pub open spec fn wanted(self) -> RtcAction {
        match self.phase {
            RtcPhase::Reading(read) => RtcAction::Flash(read.wanted()->0),
            RtcPhase::Saving(save) => RtcAction::Flash(save.wanted()->0),
            RtcPhase::Sending => RtcAction::Send(self.now),
            RtcPhase::Waiting => RtcAction::WaitForTick,
            other => RtcAction::ReadClock,
        }
    }

    /// Whether an event answers what the task asks for. The clock does not go
    /// back behind a reading that is counted from.
    pub open spec fn awaits(self, event: RtcEvent) -> bool {
        match self.phase {
            RtcPhase::Reading(read) => event matches RtcEvent::Flash(reply) && reply is Word,
            RtcPhase::Saving(save) => event matches RtcEvent::Flash(reply) && save.awaits(reply),
            RtcPhase::CheckUpdate => event matches RtcEvent::Clock(clock) && clock
                >= self.last_update,
            RtcPhase::CheckSave => event matches RtcEvent::Clock(clock) && clock
                >= self.last_save,
            RtcPhase::Sending => event is Sent,
            RtcPhase::Waiting => event is Ticked,
            other => event is Clock,
        }
    }

    /// The task in another phase.
    pub open spec fn in_phase(self, phase: RtcPhase) -> RtcTask {
        RtcTask { phase, ..self }
    }

    /// The task when the time is up to date: where the time is saved it goes on
    /// to see whether a save is due, and otherwise it sends the time.
    pub open spec fn updated(self) -> RtcTask {
        if self.storage is Some {
            self.in_phase(RtcPhase::CheckSave)
        } else {
            self.in_phase(RtcPhase::Sending)
        }
    }

    /// The task after a word of the saved time was read.
    pub open spec fn after_word(self, read: FlashRead, word: u32) -> RtcTask {
        match read.after(word).phase {
            ReadPhase::Finished(Some(found)) => RtcTask {
                now: found,
                phase: RtcPhase::FirstUpdate,
                ..self
            },
            ReadPhase::Finished(None) => self.in_phase(RtcPhase::FirstUpdate),
            other => self.in_phase(RtcPhase::Reading(read.after(word))),
        }
    }

    /// The task after the flash memory replied to a save. A save that failed is
    /// let go; it is due again at the next pass.
    pub open spec fn after_reply(self, save: FlashSave, reply: FlashReply) -> RtcTask {
        match save.after(reply).phase {
            SavePhase::Finished(Ok(done)) => self.in_phase(RtcPhase::MarkSave),
            SavePhase::Finished(Err(error)) => self.in_phase(RtcPhase::Sending),
            other => self.in_phase(RtcPhase::Saving(save.after(reply))),
        }
    }

    /// The task after a reading of the clock.
    pub open spec fn after_clock(self, clock: u64) -> RtcTask {
        match self.phase {
            RtcPhase::FirstUpdate => RtcTask {
                last_update: clock,
                phase: if self.storage is Some {
                    RtcPhase::FirstSave
                } else {
                    RtcPhase::CheckUpdate
                },
                ..self
            },
            RtcPhase::FirstSave => RtcTask {
                last_save: clock,
                phase: RtcPhase::CheckUpdate,
                ..self
            },
            RtcPhase::CheckUpdate => if due(clock, self.last_update, UPDATE_INTERVAL_SECONDS) {
                RtcTask { now: self.now.advanced(), phase: RtcPhase::MarkUpdate, ..self }
            } else {
                self.updated()
            },
            RtcPhase::MarkUpdate => (RtcTask { last_update: clock, ..self }).updated(),
            RtcPhase::CheckSave => if due(clock, self.last_save, SAVE_INTERVAL_SECONDS) {
                self.in_phase(RtcPhase::Saving(FlashSave::begun(self.storage->0, self.now)))
            } else {
                self.in_phase(RtcPhase::Sending)
            },
            RtcPhase::MarkSave => RtcTask { last_save: clock, phase: RtcPhase::Sending, ..self },
            other => self,
        }
    }

    /// The task after an event.
    pub open spec fn after(self, event: RtcEvent) -> RtcTask {
        match (event, self.phase) {
            (RtcEvent::Flash(FlashReply::Word(word)), RtcPhase::Reading(read)) => self.after_word(
                read,
                word,
            ),
            (RtcEvent::Flash(reply), RtcPhase::Saving(save)) => self.after_reply(save, reply),
            (RtcEvent::Clock(clock), phase) => self.after_clock(clock),
            (RtcEvent::Sent, phase) => self.in_phase(RtcPhase::Waiting),
            (RtcEvent::Ticked, phase) => self.in_phase(RtcPhase::CheckUpdate),
            (other, phase) => self,
        }
    }

    /// The task at power-on, with a time that is saved.
    pub open spec fn started() -> RtcTask {
        RtcTask {
            storage: Some(FLASH_STORAGE_ADDR),
            now: DateTime {
                year: 2025,
                month: 10,
                day: 23,
                hour: 19,
                minute: 0,
                second: 0,
                nanosecond: 0,
            },
            last_update: 0,
            last_save: 0,
            phase: RtcPhase::Reading(
                FlashRead { addr: FLASH_STORAGE_ADDR, phase: ReadPhase::Magic },
            ),
        }
    }

    /// The task at power-on, with a time that is not saved.
    pub open spec fn started_unsaved() -> RtcTask {
        RtcTask {
            storage: None,
            now: DateTime {
                year: 2025,
                month: 7,
                day: 20,
                hour: 18,
                minute: 0,
                second: 0,
                nanosecond: 0,
            },
            last_update: 0,
            last_save: 0,
            phase: RtcPhase::FirstUpdate,
        }
    }

    /// The task at power-on, with a time that is saved in the last page of the
    /// flash memory. It begins by reading the saved time; where there is none, it
    /// counts from October 23, 2025, 19:00:00.
    pub fn start() -> (task: RtcTask)
        ensures
            task == RtcTask::started(),
            task.valid(),
    {
        let now = DateTime::from_ymd_hms_opt(2025, 10, 23, 19, 0, 0).unwrap();
        RtcTask {
            storage: Some(FLASH_STORAGE_ADDR),
            now,
            last_update: 0,
            last_save: 0,
            phase: RtcPhase::Reading(FlashRead::start(FLASH_STORAGE_ADDR)),
        }
    }

    /// The task at power-on, with a time that is not saved. It counts from
    /// July 20, 2025, 18:00:00.
    pub fn start_unsaved() -> (task: RtcTask)
        ensures
            task == RtcTask::started_unsaved(),
            task.valid(),
    {
        let now = DateTime::from_ymd_hms_opt(2025, 7, 20, 18, 0, 0).unwrap();
        RtcTask { storage: None, now, last_update: 0, last_save: 0, phase: RtcPhase::FirstUpdate }
    }

    /// What the task asks for.
    pub fn request(&self) -> (action: RtcAction)
        requires
            self.valid(),
        ensures
            action == self.wanted(),
    {
        match self.phase {
            RtcPhase::Reading(read) => RtcAction::Flash(read.next_op().unwrap()),
            RtcPhase::Saving(save) => RtcAction::Flash(save.next_op().unwrap()),
            RtcPhase::Sending => RtcAction::Send(self.now),
            RtcPhase::Waiting => RtcAction::WaitForTick,
            _ => RtcAction::ReadClock,
        }
    }

    /// Whether an event answers what the task asks for.
    pub fn accepts(&self, event: &RtcEvent) -> (accepted: bool)
        ensures
            accepted == self.awaits(*event),
    {
        match (self.phase, *event) {
            (RtcPhase::Reading(_), RtcEvent::Flash(FlashReply::Word(_))) => true,
            (RtcPhase::Saving(save), RtcEvent::Flash(reply)) => save.accepts(&reply),
            (RtcPhase::CheckUpdate, RtcEvent::Clock(clock)) => clock >= self.last_update,
            (RtcPhase::CheckSave, RtcEvent::Clock(clock)) => clock >= self.last_save,
            (RtcPhase::FirstUpdate, RtcEvent::Clock(_)) => true,
            (RtcPhase::FirstSave, RtcEvent::Clock(_)) => true,
            (RtcPhase::MarkUpdate, RtcEvent::Clock(_)) => true,
            (RtcPhase::MarkSave, RtcEvent::Clock(_)) => true,
            (RtcPhase::Sending, RtcEvent::Sent) => true,
            (RtcPhase::Waiting, RtcEvent::Ticked) => true,
            _ => false,
        }
    }

    /// Goes on when the time is up to date.
    fn go_on_updated(&mut self)
        ensures
            *final(self) == old(self).updated(),
    {
        self.phase = match self.storage {
            Some(_) => RtcPhase::CheckSave,
            None => RtcPhase::Sending,
        };
    }

    /// Takes in a word of the saved time.
    fn take_word(&mut self, read: FlashRead, word: u32)
        requires
            old(self).valid(),
            old(self).phase == RtcPhase::Reading(read),
        ensures
            *final(self) == old(self).after_word(read, word),
            final(self).valid(),
    {
        let mut read = read;
        let _ = read_time_from_flash(&mut read, word);
        match read.phase {
            ReadPhase::Finished(found) => {
                if let Some(time) = found {
                    self.now = time;
                }
                self.phase = RtcPhase::FirstUpdate;
            },
            _ => {
                self.phase = RtcPhase::Reading(read);
            },
        }
    }

    /// Takes in the reply of the flash memory to a save.
    fn take_reply(&mut self, save: FlashSave, reply: FlashReply)
        requires
            old(self).valid(),
            old(self).phase == RtcPhase::Saving(save),
            save.awaits(reply),
        ensures
            *final(self) == old(self).after_reply(save, reply),
            final(self).valid(),
    {
        let mut save = save;
        let _ = save_time_to_flash(&mut save, reply);
        match save.phase {
            SavePhase::Finished(Ok(_)) => {
                self.phase = RtcPhase::MarkSave;
            },
            SavePhase::Finished(Err(_)) => {
                self.phase = RtcPhase::Sending;
            },
            _ => {
                self.phase = RtcPhase::Saving(save);
            },
        }
    }

    /// Takes in a reading of the clock.
    fn take_clock(&mut self, clock: u64)
        requires
            old(self).valid(),
            old(self).awaits(RtcEvent::Clock(clock)),
        ensures
            *final(self) == old(self).after_clock(clock),
            final(self).valid(),
    {
        match self.phase {
            RtcPhase::FirstUpdate => {
                self.last_update = clock;
                self.phase = match self.storage {
                    Some(_) => RtcPhase::FirstSave,
                    None => RtcPhase::CheckUpdate,
                };
            },
            RtcPhase::FirstSave => {
                self.last_save = clock;
                self.phase = RtcPhase::CheckUpdate;
            },
            RtcPhase::CheckUpdate => {
                if seconds_passed(clock, self.last_update, UPDATE_INTERVAL_SECONDS) {
                    self.now = self.now.advance();
                    self.phase = RtcPhase::MarkUpdate;
                } else {
                    self.go_on_updated();
                }
            },
            RtcPhase::MarkUpdate => {
                self.last_update = clock;
                self.go_on_updated();
            },
            RtcPhase::CheckSave => {
                if seconds_passed(clock, self.last_save, SAVE_INTERVAL_SECONDS) {
                    let save = FlashSave::start(self.storage.unwrap(), self.now);
                    self.phase = RtcPhase::Saving(save);
                } else {
                    self.phase = RtcPhase::Sending;
                }
            },
            RtcPhase::MarkSave => {
                self.last_save = clock;
                self.phase = RtcPhase::Sending;
            },
            _ => {},
        }
    }
}

/// Takes in the answer to what the clock task asks for, and returns what it asks
/// for next.
pub fn rtc_update(task: &mut RtcTask, event: RtcEvent) -> (action: RtcAction)
    requires
        old(task).valid(),
        old(task).awaits(event),
    ensures
        *final(task) == old(task).after(event),
        final(task).valid(),
        action == final(task).wanted(),
{
    match (event, task.phase) {
        (RtcEvent::Flash(FlashReply::Word(word)), RtcPhase::Reading(read)) => {
            task.take_word(read, word);
        },
        (RtcEvent::Flash(reply), RtcPhase::Saving(save)) => {
            task.take_reply(save, reply);
        },
        (RtcEvent::Clock(clock), _) => {
            task.take_clock(clock);
        },
        (RtcEvent::Sent, _) => {
            task.phase = RtcPhase::Waiting;
        },
        (RtcEvent::Ticked, _) => {
            task.phase = RtcPhase::CheckUpdate;
        },
        _ => {},
    }
    task.request()
}

/// The task after a sequence of events.
pub open spec fn run(task: RtcTask, events: Seq<RtcEvent>) -> RtcTask
    decreases events.len(),
{
    if events.len() == 0 {
        task
    } else {
        run(task, events.drop_last()).after(events.last())
    }
}

/// The last reading of the clock among the events, or else `start`.
pub open spec fn latest_clock(events: Seq<RtcEvent>, start: u64) -> u64
    decreases events.len(),
{
    if events.len() == 0 {
        start
    } else {
        match events.last() {
            RtcEvent::Clock(clock) => clock,
            other => latest_clock(events.drop_last(), start),
        }
    }
}

/// Whether each event answers what the task asks for when it comes, and the
/// clock never goes back, beginning with the reading `start`.
pub open spec fn possible(task: RtcTask, events: Seq<RtcEvent>, start: u64) -> bool
    decreases events.len(),
{
    events.len() == 0 || {
        let before = events.drop_last();
        &&& possible(task, before, start)
        &&& run(task, before).awaits(events.last())
        &&& events.last() matches RtcEvent::Clock(clock) ==> clock >= latest_clock(before, start)
    }
}

/// The events that are left at most until a pass of the task ends.
pub open spec fn pass_steps_left(task: RtcTask) -> nat {
    match task.phase {
        RtcPhase::Reading(read) => match read.phase {
            ReadPhase::Magic => 25,
            ReadPhase::Low => 24,
            other => 23,
        },
        RtcPhase::FirstUpdate => 22,
        RtcPhase::FirstSave => 21,
        RtcPhase::CheckUpdate => 20,
        RtcPhase::MarkUpdate => 19,
        RtcPhase::CheckSave => 18,
        RtcPhase::Saving(save) => save_steps_left(save) + 2,
        RtcPhase::MarkSave => 2,
        RtcPhase::Sending => 1,
        RtcPhase::Waiting => 0,
    }
}

/// The task stays valid, whatever it is told.
pub proof fn law_task_stays_valid(task: RtcTask, event: RtcEvent)
    requires
        task.valid(),
        task.awaits(event),
    ensures
        task.after(event).valid(),
        task.after(event).storage == task.storage,
{
    law_advance_counts_one_second(task.now);
    lemma_record_of(task.now);
    match (event, task.phase) {
        (RtcEvent::Flash(FlashReply::Word(word)), RtcPhase::Reading(read)) => {
            if let ReadPhase::High { low } = read.phase {
                let seconds = joined_seconds(low, word);
                if first_second() <= seconds <= last_second() {
                    law_every_second_has_a_time(seconds);
                }
            }
        },
        _ => {},
    }
}

/// Once the saved time was looked for, the time changes only by moving on one
/// second, and only when at least a second has passed on the clock since it last
/// did.
pub proof fn law_time_moves_by_one_second(task: RtcTask, event: RtcEvent)
    requires
        task.valid(),
        task.awaits(event),
        task.phase !is Reading,
        task.after(event).now != task.now,
    ensures
        task.phase is CheckUpdate,
        task.after(event).now == task.now.next_second(),
        event matches RtcEvent::Clock(clock) && clock - task.last_update >= TICK_HZ,
{
}

/// A second that is due is counted: the time moves on, and the next second is
/// counted from the reading of the clock that follows.
pub proof fn law_due_second_is_counted(task: RtcTask, check: u64, mark: u64)
    requires
        task.valid(),
        task.phase is CheckUpdate,
        check - task.last_update >= TICK_HZ,
    ensures
        ({
            let counted = task.after(RtcEvent::Clock(check));
            let marked = counted.after(RtcEvent::Clock(mark));
            &&& counted.awaits(RtcEvent::Clock(mark))
            &&& counted.wanted() is ReadClock
            &&& marked.now == task.now.advanced()
            &&& marked.last_update == mark
            &&& marked.last_save == task.last_save
        }),
{
}

/// The time never runs ahead of the clock and never goes back: over any course
/// of events it moves on by no more seconds than pass on the clock.
pub proof fn law_time_never_runs_ahead(task: RtcTask, events: Seq<RtcEvent>, start: u64)
    requires
        task.valid(),
        task.phase is CheckUpdate,
        task.last_update <= start,
        possible(task, events, start),
    ensures
        task.now.seconds() <= run(task, events).now.seconds(),
        (run(task, events).now.seconds() - task.now.seconds()) * TICK_HZ <= latest_clock(
            events,
            start,
        ) - task.last_update,
{
    lemma_time_follows_clock(task, events, start);
}

proof fn lemma_time_follows_clock(task: RtcTask, events: Seq<RtcEvent>, start: u64)
    requires
        task.valid(),
        task.phase is CheckUpdate,
        task.last_update <= start,
        possible(task, events, start),
    ensures
        ({
            let end = run(task, events);
            let moved = end.now.seconds() - task.now.seconds();
            let clock = latest_clock(events, start);
            &&& end.valid()
            &&& end.phase !is Reading
            &&& end.phase !is FirstUpdate
            &&& end.phase !is FirstSave
            &&& moved >= 0
            &&& end.last_update <= clock
            &&& if end.phase is MarkUpdate {
                &&& (moved - 1) * TICK_HZ <= end.last_update - task.last_update
                &&& end.last_update + TICK_HZ <= clock
            } else {
                moved * TICK_HZ <= end.last_update - task.last_update
            }
        }),
    decreases events.len(),
{
    if events.len() > 0 {
        let before = run(task, events.drop_last());
        lemma_time_follows_clock(task, events.drop_last(), start);
        law_task_stays_valid(before, events.last());
        law_advance_counts_one_second(before.now);
    }
}

/// Each pass ends: every event brings it nearer to the point where the task has
/// sent the time and waits for the next pass.
pub proof fn law_pass_progresses(task: RtcTask, event: RtcEvent)
    requires
        task.valid(),
        task.awaits(event),
        task.phase !is Waiting,
    ensures
        pass_steps_left(task.after(event)) < pass_steps_left(task),
        task.after(event).phase is Waiting ==> task.wanted() == RtcAction::Send(task.now),
{
}

/// The memory is erased only to save, when at least sixty seconds have passed on
/// the clock since the time was last saved, and only the page of the record.
pub proof fn law_erase_only_when_due(task: RtcTask, event: RtcEvent)
    requires
        task.valid(),
        task.awaits(event),
        task.after(event).wanted() matches RtcAction::Flash(op) && op is Erase,
    ensures
        task.phase is CheckSave,
        event matches RtcEvent::Clock(clock) && clock - task.last_save >= 60 * TICK_HZ,
        task.storage matches Some(addr) && task.after(event).wanted() == RtcAction::Flash(
            FlashOp::Erase { from: addr, to: (addr + PAGE_SIZE) as u32 },
        ),
{
}

/// A save that is due begins: the memory is to be erased, and the record to be
/// written is that of the current time.
pub proof fn law_due_save_begins(task: RtcTask, clock: u64)
    requires
        task.valid(),
        task.phase is CheckSave,
        clock - task.last_save >= 60 * TICK_HZ,
    ensures
        task.after(RtcEvent::Clock(clock)).phase matches RtcPhase::Saving(save) && save.record@
            == record_bytes(task.now) && save.phase == SavePhase::Erasing,
{
    lemma_record_of(task.now);
}

/// A save that fails does not count as one: the interval goes on from the last
/// save that went well, and the time is sent without another try in this pass.
pub proof fn law_failed_save_is_still_due(task: RtcTask, save: FlashSave, reply: FlashReply)
    requires
        task.valid(),
        task.phase == RtcPhase::Saving(save),
        save.awaits(reply),
    ensures
        ({
            let after = task.after(RtcEvent::Flash(reply));
            &&& after.last_save == task.last_save
            &&& save.after(reply).phase matches SavePhase::Finished(outcome) ==> if outcome is Ok {
                after.phase is MarkSave
            } else {
                after.phase is Sending
            }
        }),
{
}

/// A save that failed is tried again in the next pass: the memory is to be erased
/// anew, and the record to be written is that of the time then.
#[verifier::rlimit(40)]
pub proof fn law_failed_save_is_tried_again(
    task: RtcTask,
    save: FlashSave,
    reply: FlashReply,
    check_update: u64,
    mark_update: u64,
    check_save: u64,
)
    requires
        task.valid(),
        task.phase == RtcPhase::Saving(save),
        save.awaits(reply),
        save.after(reply).phase matches SavePhase::Finished(outcome) && outcome is Err,
        task.last_update <= check_update,
        check_save - task.last_save >= 60 * TICK_HZ,
    ensures
        ({
            let sending = task.after(RtcEvent::Flash(reply));
            let next = sending.after(RtcEvent::Sent).after(RtcEvent::Ticked);
            let checked = next.after(RtcEvent::Clock(check_update));
            let updated = if checked.phase is MarkUpdate {
                checked.after(RtcEvent::Clock(mark_update))
            } else {
                checked
            };
            let again = updated.after(RtcEvent::Clock(check_save));
            &&& sending.awaits(RtcEvent::Sent)
            &&& next.awaits(RtcEvent::Clock(check_update))
            &&& updated.awaits(RtcEvent::Clock(check_save))
            &&& again.phase matches RtcPhase::Saving(retry) && retry.phase == SavePhase::Erasing
                && retry.record@ == record_bytes(updated.now)
        }),
{
    lemma_record_of(task.now);
    lemma_record_of(task.now.advanced());
}

/// The interval between saves is counted anew only from a save that went well,
/// or at power-on.
pub proof fn law_save_interval_restarts_after_success(task: RtcTask, event: RtcEvent)
    requires
        task.valid(),
        task.awaits(event),
        task.after(event).last_save != task.last_save,
    ensures
        task.phase is MarkSave || task.phase is FirstSave,
{
}

/// A task without storage never touches the flash memory.
pub proof fn law_unsaved_time_leaves_flash_alone(task: RtcTask)
    requires
        task.valid(),
        task.storage is None,
    ensures
        task.wanted() !is Flash,
{
}

/// The record is kept in the last page of the flash memory.
pub proof fn law_record_is_in_last_page()
    ensures
        FLASH_STORAGE_ADDR + PAGE_SIZE == FLASH_END,
        RtcTask::started().storage == Some(FLASH_STORAGE_ADDR),
{
}

/// Over any course of events a started task touches the last page of the flash
/// memory only: it reads the record at the start of the page, erases the page as
/// a whole, and writes the record at the start of the page.
pub proof fn law_only_last_page_is_touched(events: Seq<RtcEvent>, start: u64, op: FlashOp)
    requires
        possible(RtcTask::started(), events, start),
        run(RtcTask::started(), events).wanted() == RtcAction::Flash(op),
    ensures
        match op {
            FlashOp::ReadWord { addr } => addr == FLASH_STORAGE_ADDR || addr == FLASH_STORAGE_ADDR
                + 4 || addr == FLASH_STORAGE_ADDR + 8,
            FlashOp::ReadByte { addr } => FLASH_STORAGE_ADDR <= addr < FLASH_STORAGE_ADDR
                + RECORD_SIZE,
            FlashOp::Erase { from, to } => from == FLASH_STORAGE_ADDR && to == FLASH_END,
            FlashOp::Write { addr, record } => addr == FLASH_STORAGE_ADDR,
        },
{
    lemma_run_stays_valid(RtcTask::started(), events, start);
}

proof fn lemma_run_stays_valid(task: RtcTask, events: Seq<RtcEvent>, start: u64)
    requires
        task.valid(),
        possible(task, events, start),
    ensures
        run(task, events).valid(),
        run(task, events).storage == task.storage,
    decreases events.len(),
{
    if events.len() > 0 {
        lemma_run_stays_valid(task, events.drop_last(), start);
        law_task_stays_valid(run(task, events.drop_last()), events.last());
    }
}

/// A clock that stands on a whole second stays on whole seconds, over any course
/// of events. A started clock does.
pub proof fn law_clock_keeps_whole_seconds(task: RtcTask, events: Seq<RtcEvent>, start: u64)
    requires
        task.valid(),
        task.now.nanosecond == 0,
        possible(task, events, start),
    ensures
        run(task, events).now.nanosecond == 0,
        RtcTask::started().now.nanosecond == 0,
        RtcTask::started_unsaved().now.nanosecond == 0,
    decreases events.len(),
{
    if events.len() > 0 {
        law_clock_keeps_whole_seconds(task, events.drop_last(), start);
        lemma_run_stays_valid(task, events.drop_last(), start);
        lemma_step_keeps_whole_seconds(run(task, events.drop_last()), events.last());
    }
}

proof fn lemma_step_keeps_whole_seconds(task: RtcTask, event: RtcEvent)
    requires
        task.valid(),
        task.awaits(event),
        task.now.nanosecond == 0,
    ensures
        task.after(event).now.nanosecond == 0,
{
    match (event, task.phase) {
        (RtcEvent::Flash(FlashReply::Word(word)), RtcPhase::Reading(read)) => {
            if let ReadPhase::High { low } = read.phase {
                let seconds = joined_seconds(low, word);
                if first_second() <= seconds <= last_second() {
                    law_every_second_has_a_time(seconds);
                }
            }
        },
        _ => {},
    }
}

/// A saved time survives: after a save that ended well, a task that is started
/// on the same memory counts on from the saved time, on the whole second.
pub proof fn law_restart_resumes_saved_time(
    task: RtcTask,
    addr: u32,
    time: DateTime,
    erased: bool,
    written: bool,
    memory: Seq<u8>,
)
    requires
        task.valid(),
        task.phase == RtcPhase::Reading(FlashRead { addr, phase: ReadPhase::Magic }),
        time.valid(),
        memory.len() == RECORD_SIZE,
        save_outcome(FlashSave::begun(addr, time), erased, written, memory) is Ok,
    ensures
        ({
            let magic = RtcEvent::Flash(FlashReply::Word(word_at(memory, 0)));
            let low = RtcEvent::Flash(FlashReply::Word(word_at(memory, 4)));
            let high = RtcEvent::Flash(FlashReply::Word(word_at(memory, 8)));
            task.after(magic).after(low).after(high) == (RtcTask {
                now: time.whole_second(),
                phase: RtcPhase::FirstUpdate,
                ..task
            })
        }),
{
    law_saved_time_is_read_back(addr, time, erased, written, memory);
    law_read_outcome(addr, memory);
    law_power_on_takes_saved_time(
        task,
        word_at(memory, 0),
        word_at(memory, 4),
        word_at(memory, 8),
    );
}

/// A restarted clock sends the very time that was saved and sent: where a started
/// clock has come to save its time and the save ends well, that time is sent next,
/// and a clock that is started on the same memory sends it first, unless a second
/// passes while it starts.
#[verifier::rlimit(40)]
pub proof fn law_restart_sends_saved_time(
    events: Seq<RtcEvent>,
    start: u64,
    save: FlashSave,
    reply: FlashReply,
    saved: u64,
    erased: bool,
    written: bool,
    memory: Seq<u8>,
    first_update: u64,
    first_save: u64,
    check_update: u64,
    check_save: u64,
)
    requires
        possible(RtcTask::started(), events, start),
        run(RtcTask::started(), events).phase == RtcPhase::Saving(save),
        save.awaits(reply),
        save.after(reply).phase == SavePhase::Finished(Ok(())),
        memory.len() == RECORD_SIZE,
        save_outcome(
            FlashSave::begun(FLASH_STORAGE_ADDR, run(RtcTask::started(), events).now),
            erased,
            written,
            memory,
        ) is Ok,
        first_update <= check_update < first_update + TICK_HZ,
        first_save <= check_save < first_save + 60 * TICK_HZ,
    ensures
        ({
            let saving = run(RtcTask::started(), events);
            let sent = saving.after(RtcEvent::Flash(reply)).after(RtcEvent::Clock(saved));
            let magic = RtcEvent::Flash(FlashReply::Word(word_at(memory, 0)));
            let low = RtcEvent::Flash(FlashReply::Word(word_at(memory, 4)));
            let high = RtcEvent::Flash(FlashReply::Word(word_at(memory, 8)));
            let found = RtcTask::started().after(magic).after(low).after(high);
            let counting = found.after(RtcEvent::Clock(first_update)).after(
                RtcEvent::Clock(first_save),
            );
            let first = counting.after(RtcEvent::Clock(check_update)).after(
                RtcEvent::Clock(check_save),
            );
            &&& sent.wanted() == RtcAction::Send(saving.now)
            &&& first.wanted() == RtcAction::Send(saving.now)
        }),
{
    let saving = run(RtcTask::started(), events);
    law_clock_keeps_whole_seconds(RtcTask::started(), events, start);
    lemma_run_stays_valid(RtcTask::started(), events, start);
    law_restart_resumes_saved_time(
        RtcTask::started(),
        FLASH_STORAGE_ADDR,
        saving.now,
        erased,
        written,
        memory,
    );
    assert(saving.now.whole_second() == saving.now);
}

/// At power-on the task takes the time of the record, where there is one, and
/// otherwise keeps the time that it started with.
pub proof fn law_power_on_takes_saved_time(task: RtcTask, magic: u32, low: u32, high: u32)
    requires
        task.valid(),
        task.phase matches RtcPhase::Reading(read) && read.phase == ReadPhase::Magic,
    ensures
        ({
            let first = task.after(RtcEvent::Flash(FlashReply::Word(magic)));
            let second = first.after(RtcEvent::Flash(FlashReply::Word(low)));
            let third = second.after(RtcEvent::Flash(FlashReply::Word(high)));
            if magic != MAGIC_NUMBER {
                first == task.in_phase(RtcPhase::FirstUpdate)
            } else {
                &&& first.phase is Reading
                &&& second.phase is Reading
                &&& third.phase is FirstUpdate
                &&& third.now == match recorded_time(magic, low, high) {
                    Some(time) => time,
                    None => task.now,
                }
            }
        }),
{
}

/// The task when the flash memory has done what the task asks of it, where it
/// answers by address.
pub open spec fn flashed(
    task: RtcTask,
    erased: bool,
    written: bool,
    memory: spec_fn(int) -> u8,
) -> RtcTask
    decreases pass_steps_left(task),
        when task.valid()
{
    match task.wanted() {
        RtcAction::Flash(op) => flashed(
            task.after(RtcEvent::Flash(reply_to(op, erased, written, memory))),
            erased,
            written,
            memory,
        ),
        other => task,
    }
}

/// What a pass of the clock task meets: readings of the clock, to see whether a
/// second has passed and, where one has, to count on from; then to see whether a
/// save is due and, after a save that went well, to count on from; and how the
/// flash memory answers.
pub struct RtcPass {
    pub check_update: u64,
    pub mark_update: u64,
    pub check_save: u64,
    pub mark_save: u64,
    pub erased: bool,
    pub written: bool,
    pub memory: spec_fn(int) -> u8,
}

impl RtcPass {
    /// Whether a second is counted in the pass.
    pub open spec fn counts(self, task: RtcTask) -> bool {
        self.check_update - task.last_update >= 1_000_000
    }

    /// Whether a save is begun in the pass.
    pub open spec fn saves(self, task: RtcTask) -> bool {
        task.storage is Some && self.check_save - task.last_save >= 60_000_000
    }

    /// Whether the memory erases and writes, and then holds the record of a time.
    pub open spec fn keeps(self, addr: u32, time: DateTime) -> bool {
        &&& self.erased
        &&& self.written
        &&& forall|i: int| 0 <= i < 12 ==> #[trigger] (self.memory)(addr + i) == record_bytes(time)[i]
    }

    /// Whether the readings of the clock do not lie before those that they are
    /// measured against.
    pub open spec fn possible(self, task: RtcTask) -> bool {
        task.last_update <= self.check_update && (task.storage is Some ==> task.last_save
            <= self.check_save)
    }
}

/// The task in a pass when the time is up to date.
pub open spec fn pass_updated(task: RtcTask, pass: RtcPass) -> RtcTask {
    let checked = task.after(RtcEvent::Clock(pass.check_update));
    if pass.counts(task) {
        checked.after(RtcEvent::Clock(pass.mark_update))
    } else {
        checked
    }
}

/// Whether the time is saved well in a pass.
pub open spec fn pass_saves_well(task: RtcTask, pass: RtcPass) -> bool {
    pass.saves(task) && pass.keeps(task.storage->0, pass_updated(task, pass).now)
}

/// The task in a pass when it comes to send the time.
pub open spec fn pass_ready(task: RtcTask, pass: RtcPass) -> RtcTask {
    let updated = pass_updated(task, pass);
    let checked = updated.after(RtcEvent::Clock(pass.check_save));
    let ended = flashed(checked, pass.erased, pass.written, pass.memory);
    if task.storage is None {
        updated
    } else if !pass.saves(task) {
        checked
    } else if pass_saves_well(task, pass) {
        ended.after(RtcEvent::Clock(pass.mark_save))
    } else {
        ended
    }
}

/// The task after a pass, at the start of the next one.
#[verifier::opaque]
pub open spec fn after_rtc_pass(task: RtcTask, pass: RtcPass) -> RtcTask {
    pass_ready(task, pass).after(RtcEvent::Sent).after(RtcEvent::Ticked)
}

/// The task after a sequence of passes.
pub open spec fn run_rtc_passes(task: RtcTask, passes: Seq<RtcPass>) -> RtcTask
    decreases passes.len(),
{
    if passes.len() == 0 {
        task
    } else {
        after_rtc_pass(run_rtc_passes(task, passes.drop_last()), passes.last())
    }
}

/// Whether each pass is possible where it comes.
pub open spec fn possible_rtc_passes(task: RtcTask, passes: Seq<RtcPass>) -> bool
    decreases passes.len(),
{
    passes.len() == 0 || {
        &&& possible_rtc_passes(task, passes.drop_last())
        &&& passes.last().possible(run_rtc_passes(task, passes.drop_last()))
    }
}

#[verifier::rlimit(40)]
proof fn lemma_flashed_save(
    task: RtcTask,
    save: FlashSave,
    erased: bool,
    written: bool,
    memory: spec_fn(int) -> u8,
)
    requires
        task.valid(),
        task.phase == RtcPhase::Saving(save),
    ensures
        end_of_save(save, erased, written, memory) is Finished,
        flashed(task, erased, written, memory) == if end_of_save(save, erased, written, memory)
            == SavePhase::Finished(Ok(())) {
            task.in_phase(RtcPhase::MarkSave)
        } else {
            task.in_phase(RtcPhase::Sending)
        },
    decreases save_steps_left(save),
{
    reveal_with_fuel(flashed, 2);
    reveal_with_fuel(end_of_save, 2);
    let reply = reply_to(save.wanted()->0, erased, written, memory);
    let next = task.after(RtcEvent::Flash(reply));
    law_save_progresses(save, reply);
    law_task_stays_valid(task, RtcEvent::Flash(reply));
    if save.after(reply).wanted() is Some {
        lemma_flashed_save(next, save.after(reply), erased, written, memory);
    }
}

/// What a pass does. It reads the clock; where at least a second, a million ticks,
/// has passed since the last one was counted, the time moves on by one second, and
/// the next one is counted from the reading that follows; otherwise neither the
/// time nor the start of the count changes.
#[verifier::rlimit(40)]
pub proof fn law_pass_counts_a_second(task: RtcTask, pass: RtcPass)
    requires
        task.valid(),
        task.phase is CheckUpdate,
        pass.possible(task),
    ensures
        ({
            let due = pass.check_update - task.last_update >= 1_000_000;
            let checked = task.after(RtcEvent::Clock(pass.check_update));
            let updated = pass_updated(task, pass);
            &&& task.wanted() is ReadClock
            &&& task.awaits(RtcEvent::Clock(pass.check_update))
            &&& due ==> checked.wanted() is ReadClock && checked.awaits(
                RtcEvent::Clock(pass.mark_update),
            )
            &&& updated == if due {
                checked.after(RtcEvent::Clock(pass.mark_update))
            } else {
                checked
            }
            &&& updated.valid()
            &&& updated.storage == task.storage
            &&& updated.last_save == task.last_save
            &&& updated.last_update == if due {
                pass.mark_update
            } else {
                task.last_update
            }
            &&& updated.now.seconds() == if due && task.now.seconds() < last_second() {
                task.now.seconds() + 1
            } else {
                task.now.seconds()
            }
            &&& !due ==> updated.now == task.now
            &&& due && task.now.seconds() < last_second() ==> updated.now.nanosecond
                == task.now.nanosecond % 1_000_000_000
        }),
{
    law_advance_is_one_second_later(task.now);
    lemma_seconds_bounds(task.now);
}

/// How a pass goes on. With storage it reads the clock again; where at least a
/// minute, sixty million ticks, has passed since the last save, it erases the page
/// and saves the time. After a save that went well the next minute is counted from
/// the reading of the clock that follows; otherwise the start of the count does
/// not change. Then the time is sent, and nothing else changes up to the next pass.
#[verifier::rlimit(40)]
pub proof fn law_pass_saves_and_sends(task: RtcTask, pass: RtcPass)
    requires
        task.valid(),
        task.phase is CheckUpdate,
        pass.possible(task),
    ensures
        ({
            let updated = pass_updated(task, pass);
            let checked = updated.after(RtcEvent::Clock(pass.check_save));
            let ready = pass_ready(task, pass);
            let next = after_rtc_pass(task, pass);
            let due = pass.check_save - task.last_save >= 60_000_000;
            &&& match task.storage {
                Some(addr) => {
                    let ended = flashed(checked, pass.erased, pass.written, pass.memory);
                    let well = due && pass.erased && pass.written && forall|i: int|
                        0 <= i < 12 ==> #[trigger] (pass.memory)(addr + i) == record_bytes(
                            updated.now,
                        )[i];
                    &&& updated.wanted() is ReadClock
                    &&& updated.awaits(RtcEvent::Clock(pass.check_save))
                    &&& checked.wanted() == if due {
                        RtcAction::Flash(
                            FlashOp::Erase { from: addr, to: (addr + 1024) as u32 },
                        )
                    } else {
                        RtcAction::Send(updated.now)
                    }
                    &&& due && !well ==> ended.wanted() == RtcAction::Send(updated.now)
                    &&& well ==> ended.wanted() is ReadClock && ended.awaits(
                        RtcEvent::Clock(pass.mark_save),
                    )
                    &&& ready.last_save == if well {
                        pass.mark_save
                    } else {
                        task.last_save
                    }
                },
                None => ready == updated,
            }
            &&& ready.wanted() == RtcAction::Send(updated.now)
            &&& ready.awaits(RtcEvent::Sent)
            &&& ready.after(RtcEvent::Sent).wanted() is WaitForTick
            &&& ready.after(RtcEvent::Sent).awaits(RtcEvent::Ticked)
            &&& next == (RtcTask { phase: RtcPhase::CheckUpdate, ..ready })
            &&& next.valid()
            &&& next.storage == task.storage
            &&& next.now == updated.now
            &&& next.last_update == updated.last_update
        }),
{
    reveal(after_rtc_pass);
    law_pass_counts_a_second(task, pass);
    let updated = pass_updated(task, pass);
    if task.storage is Some {
        let addr = task.storage->0;
        let checked = updated.after(RtcEvent::Clock(pass.check_save));
        law_task_stays_valid(updated, RtcEvent::Clock(pass.check_save));
        if pass.check_save - task.last_save >= 60_000_000 {
            let save = FlashSave::begun(addr, updated.now);
            lemma_flashed_save(checked, save, pass.erased, pass.written, pass.memory);
            law_save_is_verified_by_address(
                addr,
                updated.now,
                pass.erased,
                pass.written,
                pass.memory,
            );
        }
    }
}

/// At power-on the task reads the record by its addresses in the last page, and
/// then the clock twice. It counts on from the time whose seconds stand there, as
/// a signed number; where the magic number is not there or the seconds are out of
/// range it starts on October 23, 2025, at 19:00:00. Seconds and saves are counted
/// from the two readings of the clock.
#[verifier::rlimit(40)]
pub proof fn law_power_on(memory: spec_fn(int) -> u8, first_update: u64, first_save: u64)
    ensures
        ({
            let addr = 0x0800_fc00int;
            let high = word_in(memory, addr + 8);
            let number = word_in(memory, addr + 4) + high * 0x1_0000_0000;
            let seconds = if high < 0x8000_0000 {
                number
            } else {
                number - 0x1_0000_0000_0000_0000
            };
            let read = flashed(RtcTask::started(), true, true, memory);
            let marked = read.after(RtcEvent::Clock(first_update));
            let ready = marked.after(RtcEvent::Clock(first_save));
            &&& read.wanted() is ReadClock
            &&& read.awaits(RtcEvent::Clock(first_update))
            &&& marked.wanted() is ReadClock
            &&& marked.awaits(RtcEvent::Clock(first_save))
            &&& ready.valid()
            &&& ready.phase is CheckUpdate
            &&& ready.storage == Some(0x0800_fc00u32)
            &&& ready.last_update == first_update
            &&& ready.last_save == first_save
            &&& ready.now.nanosecond == 0
            &&& if word_in(memory, addr) == 0xaa55_aa55 && first_second() <= seconds
                <= last_second() {
                ready.now.seconds() == seconds
            } else {
                &&& ready.now.year == 2025
                &&& ready.now.month == 10
                &&& ready.now.day == 23
                &&& ready.now.hour == 19
                &&& ready.now.minute == 0
                &&& ready.now.second == 0
            }
        }),
{
    let start = RtcTask::started();
    let addr = 0x0800_fc00u32;
    let magic = RtcEvent::Flash(FlashReply::Word(word_in(memory, addr as int) as u32));
    let low = RtcEvent::Flash(FlashReply::Word(word_in(memory, addr + 4) as u32));
    let high = RtcEvent::Flash(FlashReply::Word(word_in(memory, addr + 8) as u32));
    reveal_with_fuel(flashed, 4);
    reveal_with_fuel(found_in, 4);
    law_read_finds_the_record(addr, memory);
    law_task_stays_valid(start, magic);
    if word_in(memory, addr as int) == 0xaa55_aa55 {
        law_task_stays_valid(start.after(magic), low);
        law_task_stays_valid(start.after(magic).after(low), high);
    }
}

/// At power-on without storage the task reads the clock once, from which it counts
/// the seconds, and starts on July 20, 2025, at 18:00:00.
pub proof fn law_power_on_unsaved(first_update: u64)
    ensures
        ({
            let start = RtcTask::started_unsaved();
            let ready = start.after(RtcEvent::Clock(first_update));
            &&& start.wanted() is ReadClock
            &&& start.awaits(RtcEvent::Clock(first_update))
            &&& ready.valid()
            &&& ready.phase is CheckUpdate
            &&& ready.storage is None
            &&& ready.last_update == first_update
            &&& ready.now == (DateTime {
                year: 2025,
                month: 7,
                day: 20,
                hour: 18,
                minute: 0,
                second: 0,
                nanosecond: 0,
            })
        }),
{
}

/// A second is counted from a reading of the clock only: the start of the count
/// changes only at power-on and where a second was counted, and then to the
/// reading that came in.
pub proof fn law_count_starts_at_a_reading(task: RtcTask, event: RtcEvent)
    requires
        task.valid(),
        task.awaits(event),
    ensures
        task.phase is CheckUpdate ==> task.after(event).last_update == task.last_update,
        task.after(event).last_update != task.last_update ==> {
            &&& task.phase is FirstUpdate || task.phase is MarkUpdate
            &&& event == RtcEvent::Clock(task.after(event).last_update)
        },
        task.phase is FirstUpdate || task.phase is MarkUpdate ==> event == RtcEvent::Clock(
            task.after(event).last_update,
        ),
        task.after(event).phase is MarkUpdate ==> task.phase is CheckUpdate && (
        event matches RtcEvent::Clock(clock) && clock - task.last_update >= 1_000_000),
{
}

/// After a save that went well the interval is counted from the reading of the
/// clock that follows, and from no other.
pub proof fn law_minute_starts_at_a_reading(task: RtcTask, event: RtcEvent)
    requires
        task.valid(),
        task.awaits(event),
    ensures
        task.phase is FirstSave || task.phase is MarkSave ==> event == RtcEvent::Clock(
            task.after(event).last_save,
        ),
        !(task.phase is FirstSave || task.phase is MarkSave) ==> task.after(event).last_save
            == task.last_save,
        task.after(event).phase is MarkSave ==> (task.phase matches RtcPhase::Saving(save) && (
        event matches RtcEvent::Flash(reply) && save.after(reply).phase == SavePhase::Finished(
            Ok(()),
        ))),
{
}

/// The task takes in what answers its request, and nothing else. A reading of the
/// clock that lies before the start of the count that it is measured against is
/// not taken in.
#[verifier::rlimit(40)]
pub proof fn law_clock_task_takes_its_answer(task: RtcTask, event: RtcEvent)
    requires
        task.valid(),
    ensures
        task.awaits(event) ==> match task.wanted() {
            RtcAction::ReadClock => event is Clock,
            RtcAction::Send(now) => event == RtcEvent::Sent,
            RtcAction::WaitForTick => event == RtcEvent::Ticked,
            RtcAction::Flash(op) => event matches RtcEvent::Flash(reply) && match op {
                FlashOp::ReadWord { addr } => reply is Word,
                FlashOp::ReadByte { addr } => reply is Byte,
                FlashOp::Erase { from, to } => reply is Erased,
                FlashOp::Write { addr, record } => reply is Written,
            },
        },
        match (task.wanted(), event) {
            (RtcAction::ReadClock, RtcEvent::Clock(clock)) => clock >= task.last_update && clock
                >= task.last_save,
            (RtcAction::Send(now), RtcEvent::Sent) => true,
            (RtcAction::WaitForTick, RtcEvent::Ticked) => true,
            (
                RtcAction::Flash(FlashOp::ReadWord { addr }),
                RtcEvent::Flash(FlashReply::Word(word)),
            ) => true,
            (
                RtcAction::Flash(FlashOp::ReadByte { addr }),
                RtcEvent::Flash(FlashReply::Byte(byte)),
            ) => true,
            (
                RtcAction::Flash(FlashOp::Erase { from, to }),
                RtcEvent::Flash(FlashReply::Erased(ok)),
            ) => true,
            (
                RtcAction::Flash(FlashOp::Write { addr, record }),
                RtcEvent::Flash(FlashReply::Written(ok)),
            ) => true,
            (action, other) => false,
        } ==> task.awaits(event),
        task.phase is CheckUpdate ==> (task.awaits(event) <==> (
        event matches RtcEvent::Clock(clock) && clock >= task.last_update)),
        task.phase is CheckSave ==> (task.awaits(event) <==> (event matches RtcEvent::Clock(clock)
            && clock >= task.last_save)),
{
}

/// The readings with which a pass sees to the seconds: they do not go back, and
/// the last of them follows the first of the pass before by at most so many ticks.
pub open spec fn passes_follow(passes: Seq<RtcPass>, first: u64, ticks: nat) -> bool {
    forall|i: int|
        0 <= i < passes.len() ==> {
            let before = if i == 0 {
                first
            } else {
                passes[i - 1].check_update
            };
            before <= (#[trigger] passes[i]).check_update <= passes[i].mark_update <= before + ticks
        }
}

/// The time does not fall behind: where each pass follows the one before within so
/// many ticks, at least one second is counted for every second and so many ticks
/// on the clock, up to the end of the supported range. It does not run ahead
/// either: no more seconds are counted than pass on the clock.
pub proof fn law_time_keeps_up(task: RtcTask, passes: Seq<RtcPass>, ticks: nat)
    requires
        task.valid(),
        task.phase is CheckUpdate,
        passes.len() > 0,
        possible_rtc_passes(task, passes),
        passes_follow(passes, task.last_update, ticks),
    ensures
        ({
            let end = run_rtc_passes(task, passes);
            let counted = end.now.seconds() - task.now.seconds();
            let passed = passes.last().check_update - task.last_update;
            &&& counted >= passed / (1_000_000int + ticks) || end.now.seconds()
                == last_second()
            &&& 0 <= counted <= passed / 1_000_000
        }),
{
    lemma_time_keeps_up(task, passes, ticks);
    let end = run_rtc_passes(task, passes);
    let counted = end.now.seconds() - task.now.seconds();
    let passed = passes.last().check_update - task.last_update;
    let step = 1_000_000int + ticks;
    if end.now.seconds() != last_second() {
        assert(counted >= passed / step) by (nonlinear_arith)
            requires
                0 <= passed < counted * step + 1_000_000,
                step >= 1_000_000,
        ;
    }
}

/// What a pass does to the count of the seconds.
#[verifier::rlimit(40)]
proof fn lemma_pass_count(task: RtcTask, pass: RtcPass)
    requires
        task.valid(),
        task.phase is CheckUpdate,
        pass.possible(task),
    ensures
        ({
            let next = after_rtc_pass(task, pass);
            let due = pass.check_update - task.last_update >= 1_000_000;
            &&& next.valid()
            &&& next.phase is CheckUpdate
            &&& next.storage == task.storage
            &&& task.now.seconds() <= last_second()
            &&& next.last_update == if due {
                pass.mark_update
            } else {
                task.last_update
            }
            &&& next.now.seconds() == if due && task.now.seconds() < last_second() {
                task.now.seconds() + 1
            } else {
                task.now.seconds()
            }
            &&& next.last_save == if pass_saves_well(task, pass) {
                pass.mark_save
            } else {
                task.last_save
            }
        }),
{
    law_pass_counts_a_second(task, pass);
    law_pass_saves_and_sends(task, pass);
    lemma_seconds_bounds(task.now);
}

#[verifier::spinoff_prover]
#[verifier::rlimit(40)]
proof fn lemma_time_keeps_up(task: RtcTask, passes: Seq<RtcPass>, ticks: nat)
    requires
        task.valid(),
        task.phase is CheckUpdate,
        possible_rtc_passes(task, passes),
        passes_follow(passes, task.last_update, ticks),
    ensures
        ({
            let end = run_rtc_passes(task, passes);
            let counted = end.now.seconds() - task.now.seconds();
            let reading = if passes.len() == 0 {
                task.last_update
            } else {
                passes.last().check_update
            };
            let step = 1_000_000int + ticks;
            &&& end.valid()
            &&& end.phase is CheckUpdate
            &&& end.storage == task.storage
            &&& counted >= 0
            &&& reading >= task.last_update
            &&& reading < end.last_update + 1_000_000
            &&& counted * 1_000_000 <= reading - task.last_update
            &&& counted * 1_000_000 <= end.last_update - task.last_update
            &&& end.now.seconds() == last_second() || end.last_update - task.last_update
                <= counted * step
            &&& end.now.seconds() == last_second() || reading - task.last_update < counted * step
                + 1_000_000
        }),
    decreases passes.len(),
{
    if passes.len() > 0 {
        let earlier = passes.drop_last();
        let before = run_rtc_passes(task, earlier);
        let pass = passes.last();
        let step = 1_000_000int + ticks;
        assert(passes_follow(earlier, task.last_update, ticks)) by {
            assert forall|i: int| 0 <= i < earlier.len() implies ({
                let prior = if i == 0 {
                    task.last_update
                } else {
                    earlier[i - 1].check_update
                };
                prior <= (#[trigger] earlier[i]).check_update <= earlier[i].mark_update <= prior
                    + ticks
            }) by {
                assert(earlier[i] == passes[i]);
            }
        }
        lemma_time_keeps_up(task, earlier, ticks);
        lemma_pass_count(before, pass);
        assert(passes[passes.len() - 1] == pass);
        if passes.len() > 1 {
            assert(passes[passes.len() - 2] == earlier.last());
        }
        let counted = before.now.seconds() - task.now.seconds();
        assert((counted + 1) * step == counted * step + step) by (nonlinear_arith);
    }
}

/// Two saves that went well are begun at least a minute apart, over any sequence
/// of passes.
pub proof fn law_saves_are_a_minute_apart(task: RtcTask, passes: Seq<RtcPass>, i: int, j: int)
    requires
        task.valid(),
        task.phase is CheckUpdate,
        possible_rtc_passes(task, passes),
        0 <= i < j < passes.len(),
        forall|k: int|
            0 <= k < passes.len() ==> (#[trigger] passes[k]).check_save <= passes[k].mark_save,
        pass_saves_well(run_rtc_passes(task, passes.take(i)), passes[i]),
        pass_saves_well(run_rtc_passes(task, passes.take(j)), passes[j]),
    ensures
        passes[j].check_save - passes[i].check_save >= 60_000_000,
{
    lemma_save_count_starts_later(task, passes, i, j);
}

proof fn lemma_save_count_starts_later(task: RtcTask, passes: Seq<RtcPass>, i: int, j: int)
    requires
        task.valid(),
        task.phase is CheckUpdate,
        possible_rtc_passes(task, passes),
        0 <= i < j <= passes.len(),
        forall|k: int|
            0 <= k < passes.len() ==> (#[trigger] passes[k]).check_save <= passes[k].mark_save,
        pass_saves_well(run_rtc_passes(task, passes.take(i)), passes[i]),
    ensures
        run_rtc_passes(task, passes.take(j)).last_save >= passes[i].check_save,
    decreases j,
{
    let before = run_rtc_passes(task, passes.take(j - 1));
    lemma_passes_stay_valid(task, passes, j - 1);
    assert(passes.take(j).drop_last() =~= passes.take(j - 1));
    assert(passes.take(j).last() == passes[j - 1]);
    lemma_pass_count(before, passes[j - 1]);
    if j - 1 > i {
        lemma_save_count_starts_later(task, passes, i, j - 1);
    }
}

proof fn lemma_passes_stay_valid(task: RtcTask, passes: Seq<RtcPass>, count: int)
    requires
        task.valid(),
        task.phase is CheckUpdate,
        possible_rtc_passes(task, passes),
        0 <= count <= passes.len(),
    ensures
        run_rtc_passes(task, passes.take(count)).valid(),
        run_rtc_passes(task, passes.take(count)).phase is CheckUpdate,
        run_rtc_passes(task, passes.take(count)).storage == task.storage,
        count < passes.len() ==> passes[count].possible(run_rtc_passes(task, passes.take(count))),
    decreases passes.len(), count,
{
    if count < passes.len() {
        assert(passes.drop_last().take(count) =~= passes.take(count));
        lemma_passes_stay_valid(task, passes.drop_last(), count);
        if count < passes.len() - 1 {
            assert(passes.drop_last()[count] == passes[count]);
        } else {
            assert(passes.drop_last() =~= passes.take(count));
        }
    } else if count > 0 {
        lemma_passes_stay_valid(task, passes.drop_last(), count - 1);
        assert(passes.drop_last().take(count - 1) =~= passes.drop_last());
        assert(passes.take(count) =~= passes);
        let before = run_rtc_passes(task, passes.drop_last());
        lemma_pass_count(before, passes.last());
    } else {
        assert(passes.take(0) =~= Seq::<RtcPass>::empty());
    }
}

/// The clock task runs fifty times a second, counts seconds and saves every minute.
pub proof fn law_clock_periods()
    ensures
        RTC_PERIOD_MILLIS * 50 == 1000,
        UPDATE_INTERVAL_SECONDS == 1,
        SAVE_INTERVAL_SECONDS == 60,
        TICK_HZ == 1_000_000,
{
}

} // verus!
