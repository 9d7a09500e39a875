//! The time record in flash memory, and how it is read and saved.
//!
//! The record is three words, the lowest byte first: a magic number, then the
//! low and the high word of the seconds since the start of 1970. Reading and
//! saving take turns with the flash memory: each asks for one operation, is
//! told what came of it, and goes on from there.
use vstd::prelude::*;

use crate::datetime::DateTime;
#[allow(unused_imports)]
use crate::datetime::{
    law_at_gives_back, law_every_second_has_a_time, law_second_is_unique, lemma_seconds_bounds,
};
#[allow(unused_imports)]
use crate::civil::{first_second, last_second, lemma_range_fits};

verus! {

/// Marks a record: memory that does not begin with it holds no saved time.
pub const MAGIC_NUMBER: u32 = 0xaa55aa55;

/// The bytes that are erased before a record is written.
pub const PAGE_SIZE: u32 = 1024;

/// The bytes of a record.
pub const RECORD_SIZE: u32 = 12;

/// Why a save failed.
#[derive(Clone, Copy, Debug, PartialEq, Eq, Structural)]
pub enum FlashError {
    EraseFailed,
    WriteFailed,
    VerificationFailed,
    InvalidData,
}

/// An operation on the flash memory.
#[derive(Clone, Copy)]
pub enum FlashOp {
    /// Read the word at an address.
    ReadWord { addr: u32 },
    /// Read the byte at an address.
    ReadByte { addr: u32 },
    /// Erase the bytes from an address up to another.
    Erase { from: u32, to: u32 },
    /// Write a record at an address.
    Write { addr: u32, record: [u8; 12] },
}

/// What came of an operation on the flash memory.
#[derive(Clone, Copy, Debug, PartialEq, Eq, Structural)]
pub enum FlashReply {
    Word(u32),
    Byte(u8),
    /// Whether the erase went well.
    Erased(bool),
    /// Whether the write went well.
    Written(bool),
}

/// Seconds as the 64-bit number that is stored: two's complement.
pub open spec fn stored_number(seconds: int) -> int {
    if seconds < 0 {
        seconds + 0x1_0000_0000_0000_0000
    } else {
        seconds
    }
}

pub open spec fn low_word(seconds: int) -> u32 {
    (stored_number(seconds) % 0x1_0000_0000) as u32
}

pub open spec fn high_word(seconds: int) -> u32 {
    (stored_number(seconds) / 0x1_0000_0000) as u32
}

/// The seconds that two stored words stand for.
pub open spec fn joined_seconds(low: u32, high: u32) -> int {
    let number = low + high * 0x1_0000_0000;
    if number < 0x8000_0000_0000_0000 {
        number
    } else {
        number - 0x1_0000_0000_0000_0000
    }
}

/// The bytes of a word, the lowest first.
pub open spec fn word_bytes(word: u32) -> Seq<u8> {
    seq![
        (word % 256) as u8,
        (word / 256 % 256) as u8,
        (word / 65_536 % 256) as u8,
        (word / 16_777_216) as u8,
    ]
}

/// The word whose bytes begin at `at`, the lowest first.
pub open spec fn word_at(bytes: Seq<u8>, at: int) -> u32 {
    (bytes[at] + bytes[at + 1] * 256 + bytes[at + 2] * 65_536 + bytes[at + 3] * 16_777_216) as u32
}

/// The record that saves a time.
#[verifier::opaque]
pub open spec fn record_bytes(time: DateTime) -> Seq<u8> {
    word_bytes(MAGIC_NUMBER) + word_bytes(low_word(time.seconds())) + word_bytes(
        high_word(time.seconds()),
    )
}

/// The time that the three words of a record stand for, if they stand for one.
pub open spec fn recorded_time(magic: u32, low: u32, high: u32) -> Option<DateTime> {
    let seconds = joined_seconds(low, high);
    if magic == MAGIC_NUMBER && first_second() <= seconds <= last_second() {
        Some(DateTime::at(seconds))
    } else {
        None
    }
}

/// The record that saves a time, as it is held in an array.
pub open spec fn record_of(time: DateTime) -> [u8; 12] {
    choose|record: [u8; 12]| record@ == record_bytes(time)
}

/// The bytes of a word, the lowest first.
fn split_word(word: u32) -> (bytes: [u8; 4])
    ensures
        bytes@ == word_bytes(word),
{
    let bytes = [
        (word % 256) as u8,
        (word / 256 % 256) as u8,
        (word / 65_536 % 256) as u8,
        (word / 16_777_216) as u8,
    ];
    assert(bytes@ =~= word_bytes(word));
    bytes
}

/// The record that saves a time: its whole seconds, without the part of a second.
pub fn encode_record(time: DateTime) -> (record: [u8; 12])
    requires
        time.valid(),
    ensures
        record@ == record_bytes(time),
        record@ == word_bytes(MAGIC_NUMBER) + word_bytes(low_word(time.seconds())) + word_bytes(
            high_word(time.seconds()),
        ),
        record == record_of(time),
{
    proof {
        reveal(record_bytes);
    }
    let seconds: i64 = time.timestamp();
    let number: u64 = seconds as u64;
    let low: u32 = (number & 0xffff_ffff) as u32;
    let high: u32 = ((number >> 32) & 0xffff_ffff) as u32;
    proof {
        lemma_stored_number(seconds);
        assert((number & 0xffff_ffff) == number % 0x1_0000_0000) by (bit_vector);
        assert(((number >> 32) & 0xffff_ffff) == number / 0x1_0000_0000) by (bit_vector);
    }
    let m = split_word(MAGIC_NUMBER);
    let l = split_word(low);
    let h = split_word(high);
    let record = [
        m[0],
        m[1],
        m[2],
        m[3],
        l[0],
        l[1],
        l[2],
        l[3],
        h[0],
        h[1],
        h[2],
        h[3],
    ];
    assert(record@ =~= record_bytes(time));
    assert(record =~= record_of(time));
    record
}

/// The time that the words of a record stand for. `None` where the magic number
/// is not there, or the seconds are out of the supported range.
pub fn decode_record(magic: u32, low: u32, high: u32) -> (time: Option<DateTime>)
    ensures
        time == recorded_time(magic, low, high),
        time matches Some(t) ==> t.valid(),
{
    if magic != MAGIC_NUMBER {
        return None;
    }
    let number: u64 = (low as u64) | ((high as u64) << 32);
    let seconds: i64 = number as i64;
    proof {
        lemma_joined_number(low, high);
    }
    DateTime::from_timestamp(seconds)
}

/// How far the reading of a record has come.
#[derive(Clone, Copy, Debug, PartialEq, Eq, Structural)]
pub enum ReadPhase {
    /// The magic number is being read.
    Magic,
    /// The low word of the seconds is being read.
    Low,
    /// The high word of the seconds is being read.
    High { low: u32 },
    /// The reading has ended, with a time if the record holds one.
    Finished(Option<DateTime>),
}

/// The reading of a record.
#[derive(Clone, Copy, Debug, PartialEq, Eq, Structural)]
pub struct FlashRead {
    pub addr: u32,
    pub phase: ReadPhase,
}

impl FlashRead {
    /// Whether the words of the record have addresses, and a time that was read
    /// is valid.
    pub open spec fn valid(self) -> bool {
        &&& self.addr + 8 <= u32::MAX
        &&& self.phase matches ReadPhase::Finished(Some(time)) ==> time.valid()
    }

    /// The operation that the reading waits for; `None` when it has ended.
    pub open spec fn wanted(self) -> Option<FlashOp> {
        match self.phase {
            ReadPhase::Magic => Some(FlashOp::ReadWord { addr: self.addr }),
            ReadPhase::Low => Some(FlashOp::ReadWord { addr: (self.addr + 4) as u32 }),
            ReadPhase::High { low } => Some(FlashOp::ReadWord { addr: (self.addr + 8) as u32 }),
            ReadPhase::Finished(found) => None,
        }
    }

    /// The reading after a word has come in. Without the magic number no other
    /// word is read.
    pub open spec fn after(self, word: u32) -> FlashRead {
        let phase = match self.phase {
            ReadPhase::Magic => if word == MAGIC_NUMBER {
                ReadPhase::Low
            } else {
                ReadPhase::Finished(None)
            },
            ReadPhase::Low => ReadPhase::High { low: word },
            ReadPhase::High { low } => ReadPhase::Finished(recorded_time(MAGIC_NUMBER, low, word)),
            ReadPhase::Finished(found) => ReadPhase::Finished(found),
        };
        FlashRead { phase, ..self }
    }

    /// Begins to read the record at an address.
    pub fn start(addr: u32) -> (read: FlashRead)
        requires
            addr + 8 <= u32::MAX,
        ensures
            read == (FlashRead { addr, phase: ReadPhase::Magic }),
            read.valid(),
    {
        FlashRead { addr, phase: ReadPhase::Magic }
    }

    /// The operation that the reading waits for; `None` when it has ended.
    pub fn next_op(&self) -> (op: Option<FlashOp>)
        requires
            self.valid(),
        ensures
            op == self.wanted(),
    {
        match self.phase {
            ReadPhase::Magic => Some(FlashOp::ReadWord { addr: self.addr }),
            ReadPhase::Low => Some(FlashOp::ReadWord { addr: self.addr + 4 }),
            ReadPhase::High { .. } => Some(FlashOp::ReadWord { addr: self.addr + 8 }),
            ReadPhase::Finished(_) => None,
        }
    }
}

/// Takes in a word of the record that is being read, and returns the next
/// operation; `None` when the reading has ended.
pub fn read_time_from_flash(read: &mut FlashRead, word: u32) -> (op: Option<FlashOp>)
    requires
        old(read).valid(),
        old(read).wanted() is Some,
    ensures
        *final(read) == old(read).after(word),
        final(read).valid(),
        op == final(read).wanted(),
{
    match read.phase {
        ReadPhase::Magic => {
            if word != MAGIC_NUMBER {
                read.phase = ReadPhase::Finished(None);
            } else {
                read.phase = ReadPhase::Low;
            }
        },
        ReadPhase::Low => {
            read.phase = ReadPhase::High { low: word };
        },
        ReadPhase::High { low } => {
            read.phase = ReadPhase::Finished(decode_record(MAGIC_NUMBER, low, word));
        },
        ReadPhase::Finished(_) => {},
    }
    read.next_op()
}

/// How far the saving of a record has come.
#[derive(Clone, Copy, Debug, PartialEq, Eq)]
pub enum SavePhase {
    Erasing,
    Writing,
    /// The record is being read back; so many bytes were as they should be.
    Verifying { index: u32 },
    Finished(Result<(), FlashError>),
}

/// The saving of a record: erase, write, then read back every byte.
#[derive(Clone, Copy)]
pub struct FlashSave {
    pub addr: u32,
    pub record: [u8; 12],
    pub phase: SavePhase,
}

impl FlashSave {
    /// Whether the page lies in the address space, and a byte is left to be
    /// read back while the record is verified.
    pub open spec fn valid(self) -> bool {
        &&& self.addr + PAGE_SIZE <= u32::MAX
        &&& self.phase matches SavePhase::Verifying { index } ==> index < RECORD_SIZE
    }

    /// The operation that the saving waits for; `None` when it has ended.
    pub open spec fn wanted(self) -> Option<FlashOp> {
        match self.phase {
            SavePhase::Erasing => Some(
                FlashOp::Erase { from: self.addr, to: (self.addr + PAGE_SIZE) as u32 },
            ),
            SavePhase::Writing => Some(FlashOp::Write { addr: self.addr, record: self.record }),
            SavePhase::Verifying { index } => Some(
                FlashOp::ReadByte { addr: (self.addr + index) as u32 },
            ),
            SavePhase::Finished(outcome) => None,
        }
    }

    /// Whether a reply answers the operation that the saving waits for.
    pub open spec fn awaits(self, reply: FlashReply) -> bool {
        match self.phase {
            SavePhase::Erasing => reply is Erased,
            SavePhase::Writing => reply is Written,
            SavePhase::Verifying { index } => reply is Byte,
            SavePhase::Finished(outcome) => false,
        }
    }

    /// The saving after a reply.
    pub open spec fn after(self, reply: FlashReply) -> FlashSave {
        let phase = match (self.phase, reply) {
            (SavePhase::Erasing, FlashReply::Erased(ok)) => if ok {
                SavePhase::Writing
            } else {
                SavePhase::Finished(Err(FlashError::EraseFailed))
            },
            (SavePhase::Writing, FlashReply::Written(ok)) => if ok {
                SavePhase::Verifying { index: 0 }
            } else {
                SavePhase::Finished(Err(FlashError::WriteFailed))
            },
            (SavePhase::Verifying { index }, FlashReply::Byte(byte)) => if byte
                != self.record@[index as int] {
                SavePhase::Finished(Err(FlashError::VerificationFailed))
            } else if index + 1 == RECORD_SIZE {
                SavePhase::Finished(Ok(()))
            } else {
                SavePhase::Verifying { index: (index + 1) as u32 }
            },
            (phase, other) => phase,
        };
        FlashSave { phase, ..self }
    }

    /// A saving that has not begun to change the memory.
    pub open spec fn begun(addr: u32, time: DateTime) -> FlashSave {
        FlashSave { addr, record: record_of(time), phase: SavePhase::Erasing }
    }

    /// Begins to save a time at an address.
    pub fn start(addr: u32, time: DateTime) -> (save: FlashSave)
        requires
            addr + PAGE_SIZE <= u32::MAX,
            time.valid(),
        ensures
            save == FlashSave::begun(addr, time),
            save.record@ == record_bytes(time),
            save.valid(),
    {
        proof {
            lemma_record_of(time);
        }
        FlashSave { addr, record: encode_record(time), phase: SavePhase::Erasing }
    }

    /// Whether a reply answers the operation that the saving waits for.
    pub fn accepts(&self, reply: &FlashReply) -> (accepted: bool)
        ensures
            accepted == self.awaits(*reply),
    {
        match (self.phase, *reply) {
            (SavePhase::Erasing, FlashReply::Erased(_)) => true,
            (SavePhase::Writing, FlashReply::Written(_)) => true,
            (SavePhase::Verifying { .. }, FlashReply::Byte(_)) => true,
            _ => false,
        }
    }

    /// The operation that the saving waits for; `None` when it has ended.
    pub fn next_op(&self) -> (op: Option<FlashOp>)
        requires
            self.valid(),
        ensures
            op == self.wanted(),
    {
        match self.phase {
            SavePhase::Erasing => Some(
                FlashOp::Erase { from: self.addr, to: self.addr + PAGE_SIZE },
            ),
            SavePhase::Writing => Some(FlashOp::Write { addr: self.addr, record: self.record }),
            SavePhase::Verifying { index } => Some(FlashOp::ReadByte { addr: self.addr + index }),
            SavePhase::Finished(_) => None,
        }
    }
}

/// Takes in the reply to the operation that a saving waits for, and returns the
/// next operation; `None` when the saving has ended.
pub fn save_time_to_flash(save: &mut FlashSave, reply: FlashReply) -> (op: Option<FlashOp>)
    requires
        old(save).valid(),
        old(save).awaits(reply),
    ensures
        *final(save) == old(save).after(reply),
        final(save).valid(),
        op == final(save).wanted(),
{
    match (save.phase, reply) {
        (SavePhase::Erasing, FlashReply::Erased(ok)) => {
            save.phase = if ok {
                SavePhase::Writing
            } else {
                SavePhase::Finished(Err(FlashError::EraseFailed))
            };
        },
        (SavePhase::Writing, FlashReply::Written(ok)) => {
            save.phase = if ok {
                SavePhase::Verifying { index: 0 }
            } else {
                SavePhase::Finished(Err(FlashError::WriteFailed))
            };
        },
        (SavePhase::Verifying { index }, FlashReply::Byte(byte)) => {
            save.phase = if byte != save.record[index as usize] {
                SavePhase::Finished(Err(FlashError::VerificationFailed))
            } else if index + 1 == RECORD_SIZE {
                SavePhase::Finished(Ok(()))
            } else {
                SavePhase::Verifying { index: index + 1 }
            };
        },
        _ => {},
    }
    save.next_op()
}

/// The replies that a saving still waits for at most.
pub open spec fn save_steps_left(save: FlashSave) -> nat {
    match save.phase {
        SavePhase::Erasing => 14,
        SavePhase::Writing => 13,
        SavePhase::Verifying { index } => if index < RECORD_SIZE {
            (RECORD_SIZE - index) as nat
        } else {
            0
        },
        SavePhase::Finished(outcome) => 0,
    }
}

/// The reply of a flash memory that erases and writes with the given success, and
/// that holds the bytes `memory` from the address of the record on when they are
/// read back.
pub open spec fn save_answer(
    save: FlashSave,
    erased: bool,
    written: bool,
    memory: Seq<u8>,
) -> FlashReply {
    match save.phase {
        SavePhase::Writing => FlashReply::Written(written),
        SavePhase::Verifying { index } => FlashReply::Byte(memory[index as int]),
        other => FlashReply::Erased(erased),
    }
}

/// How a saving ends when the flash memory answers as in [`save_answer`].
pub open spec fn save_outcome(
    save: FlashSave,
    erased: bool,
    written: bool,
    memory: Seq<u8>,
) -> Result<(), FlashError>
    decreases save_steps_left(save),
        when save.valid()
{
    match save.phase {
        SavePhase::Finished(outcome) => outcome,
        other => save_outcome(
            save.after(save_answer(save, erased, written, memory)),
            erased,
            written,
            memory,
        ),
    }
}

/// What a reading finds when the flash memory holds the bytes `memory` from the
/// address of the record on.
pub open spec fn read_outcome(read: FlashRead, memory: Seq<u8>) -> Option<DateTime>
    decreases
            (match read.phase {
                ReadPhase::Magic => 3int,
                ReadPhase::Low => 2,
                ReadPhase::High { low } => 1,
                ReadPhase::Finished(found) => 0,
            }),
{
    match read.phase {
        ReadPhase::Magic => read_outcome(read.after(word_at(memory, 0)), memory),
        ReadPhase::Low => read_outcome(read.after(word_at(memory, 4)), memory),
        ReadPhase::High { low } => read_outcome(read.after(word_at(memory, 8)), memory),
        ReadPhase::Finished(found) => found,
    }
}

/// Each reply brings a saving nearer to its end.
pub proof fn law_save_progresses(save: FlashSave, reply: FlashReply)
    requires
        save.valid(),
        save.awaits(reply),
    ensures
        save.after(reply).valid(),
        save_steps_left(save.after(reply)) < save_steps_left(save),
{
}

/// A saving ends well exactly where the erase and the write go well and the
/// memory then holds the record byte for byte. Otherwise it ends with the error
/// of the first step that failed.
pub proof fn law_save_outcome(save: FlashSave, erased: bool, written: bool, memory: Seq<u8>)
    requires
        save.valid(),
        save.phase == SavePhase::Erasing,
        memory.len() == RECORD_SIZE,
    ensures
        save_outcome(save, erased, written, memory) == if !erased {
            Err::<(), FlashError>(FlashError::EraseFailed)
        } else if !written {
            Err(FlashError::WriteFailed)
        } else if memory != save.record@ {
            Err(FlashError::VerificationFailed)
        } else {
            Ok(())
        },
{
    reveal_with_fuel(save_outcome, 3);
    let verifying = FlashSave { phase: SavePhase::Verifying { index: 0 }, ..save };
    lemma_verify_outcome(verifying, erased, written, memory, 0);
    if forall|i: int| 0 <= i < RECORD_SIZE ==> memory[i] == save.record@[i] {
        assert(memory =~= save.record@);
    }
}

proof fn lemma_verify_outcome(
    save: FlashSave,
    erased: bool,
    written: bool,
    memory: Seq<u8>,
    index: u32,
)
    requires
        save.valid(),
        save.phase == (SavePhase::Verifying { index }),
    ensures
        save_outcome(save, erased, written, memory) == if forall|i: int|
            index <= i < RECORD_SIZE ==> memory[i] == save.record@[i] {
            Ok::<(), FlashError>(())
        } else {
            Err(FlashError::VerificationFailed)
        },
    decreases RECORD_SIZE - index,
{
    reveal_with_fuel(save_outcome, 2);
    if memory[index as int] == save.record@[index as int] && index + 1 < RECORD_SIZE {
        let next = save.after(FlashReply::Byte(memory[index as int]));
        lemma_verify_outcome(next, erased, written, memory, (index + 1) as u32);
    }
}

/// Without the magic number nothing is found; with it, the time that the other
/// two words stand for, if it is in the supported range.
pub proof fn law_read_outcome(addr: u32, memory: Seq<u8>)
    ensures
        read_outcome(FlashRead { addr, phase: ReadPhase::Magic }, memory) == recorded_time(
            word_at(memory, 0),
            word_at(memory, 4),
            word_at(memory, 8),
        ),
{
    reveal_with_fuel(read_outcome, 4);
}

/// A record stands for the time that it saves, on the whole second.
#[verifier::rlimit(40)]
pub proof fn law_record_keeps_time(time: DateTime)
    requires
        time.valid(),
    ensures
        ({
            let record = record_bytes(time);
            recorded_time(word_at(record, 0), word_at(record, 4), word_at(record, 8)) == Some(
                time.whole_second(),
            )
        }),
{
    reveal(record_bytes);
    let seconds = time.seconds();
    let record = record_bytes(time);
    lemma_word_round_trip(MAGIC_NUMBER);
    lemma_word_round_trip(low_word(seconds));
    lemma_word_round_trip(high_word(seconds));
    assert(word_at(record, 0) == word_at(word_bytes(MAGIC_NUMBER), 0));
    assert(word_at(record, 4) == word_at(word_bytes(low_word(seconds)), 0));
    assert(word_at(record, 8) == word_at(word_bytes(high_word(seconds)), 0));
    lemma_seconds_bounds(time);
    lemma_range_fits();
    lemma_seconds_round_trip(seconds);
    law_at_gives_back(time);
}

/// What was saved is read back: after a saving that ended well, a reading of the
/// same memory finds the time that was saved, on the whole second.
pub proof fn law_saved_time_is_read_back(
    addr: u32,
    time: DateTime,
    erased: bool,
    written: bool,
    memory: Seq<u8>,
)
    requires
        addr + PAGE_SIZE <= u32::MAX,
        time.valid(),
        memory.len() == RECORD_SIZE,
        save_outcome(FlashSave::begun(addr, time), erased, written, memory) is Ok,
    ensures
        read_outcome(FlashRead { addr, phase: ReadPhase::Magic }, memory) == Some(
            time.whole_second(),
        ),
{
    lemma_record_of(time);
    law_save_outcome(FlashSave::begun(addr, time), erased, written, memory);
    law_read_outcome(addr, memory);
    law_record_keeps_time(time);
}

/// The word in a memory at an address, the lowest byte first.
pub open spec fn word_in(memory: spec_fn(int) -> u8, addr: int) -> int {
    memory(addr) + memory(addr + 1) * 0x100 + memory(addr + 2) * 0x1_0000 + memory(addr + 3)
        * 0x100_0000
}

/// How a memory answers an operation: what is read is what stands at the address
/// that was asked for, and erasing and writing have the given success.
pub open spec fn reply_to(
    op: FlashOp,
    erased: bool,
    written: bool,
    memory: spec_fn(int) -> u8,
) -> FlashReply {
    match op {
        FlashOp::ReadWord { addr } => FlashReply::Word(word_in(memory, addr as int) as u32),
        FlashOp::ReadByte { addr } => FlashReply::Byte(memory(addr as int)),
        FlashOp::Erase { from, to } => FlashReply::Erased(erased),
        FlashOp::Write { addr, record } => FlashReply::Written(written),
    }
}

/// What an operation that goes well does to a flash memory: erased bytes have all
/// bits set, and writing can only clear bits.
pub open spec fn memory_after(op: FlashOp, memory: spec_fn(int) -> u8) -> spec_fn(int) -> u8 {
    match op {
        FlashOp::Erase { from, to } => |a: int|
            if from <= a < to {
                0xffu8
            } else {
                memory(a)
            },
        FlashOp::Write { addr, record } => |a: int|
            if addr <= a < addr + 12 {
                memory(a) & record@[a - addr]
            } else {
                memory(a)
            },
        other => memory,
    }
}

/// What a reading finds in a memory that answers by address.
pub open spec fn found_in(read: FlashRead, memory: spec_fn(int) -> u8) -> Option<DateTime>
    decreases
            (match read.phase {
                ReadPhase::Magic => 3int,
                ReadPhase::Low => 2,
                ReadPhase::High { low } => 1,
                ReadPhase::Finished(found) => 0,
            }),
{
    match (read.wanted(), read.phase) {
        (Some(op), phase) => match reply_to(op, true, true, memory) {
            FlashReply::Word(word) => found_in(read.after(word), memory),
            other => None,
        },
        (None, ReadPhase::Finished(found)) => found,
        (None, phase) => None,
    }
}

/// How a saving ends on a memory that answers by address, and that holds the bytes
/// of `memory` when they are read back.
pub open spec fn end_of_save(
    save: FlashSave,
    erased: bool,
    written: bool,
    memory: spec_fn(int) -> u8,
) -> SavePhase
    decreases save_steps_left(save),
        when save.valid()
{
    match save.wanted() {
        Some(op) => end_of_save(
            save.after(reply_to(op, erased, written, memory)),
            erased,
            written,
            memory,
        ),
        None => save.phase,
    }
}

/// The end of a saving on a flash memory that works, and what the memory then holds.
pub open spec fn saved_in(save: FlashSave, memory: spec_fn(int) -> u8) -> (
    SavePhase,
    spec_fn(int) -> u8,
)
    decreases save_steps_left(save),
        when save.valid()
{
    match save.wanted() {
        Some(op) => saved_in(save.after(reply_to(op, true, true, memory)), memory_after(op, memory)),
        None => (save.phase, memory),
    }
}

/// A record is twelve bytes: 55 AA 55 AA, then the seconds since the start of 1970
/// in 64 bits, the lowest byte first, where negative seconds are taken modulo 2^64.
#[verifier::rlimit(40)]
pub proof fn law_record_layout(time: DateTime)
    requires
        time.valid(),
    ensures
        ({
            let b = record_bytes(time);
            let number = b[4] + b[5] * 0x100 + b[6] * 0x1_0000 + b[7] * 0x100_0000 + b[8]
                * 0x1_0000_0000 + b[9] * 0x100_0000_0000 + b[10] * 0x1_0000_0000_0000 + b[11]
                * 0x100_0000_0000_0000;
            &&& b.len() == 12
            &&& b[0] == 0x55
            &&& b[1] == 0xaa
            &&& b[2] == 0x55
            &&& b[3] == 0xaa
            &&& number == if time.seconds() < 0 {
                time.seconds() + 0x1_0000_0000_0000_0000
            } else {
                time.seconds()
            }
        }),
{
    reveal(record_bytes);
    lemma_seconds_bounds(time);
    lemma_range_fits();
    lemma_layout_of_seconds(time.seconds());
}

/// The layout of a record, in terms of its seconds alone.
proof fn lemma_layout_of_seconds(seconds: int)
    requires
        i64::MIN <= seconds <= i64::MAX,
    ensures
        ({
            let b = word_bytes(MAGIC_NUMBER) + word_bytes(low_word(seconds)) + word_bytes(
                high_word(seconds),
            );
            let number = b[4] + b[5] * 0x100 + b[6] * 0x1_0000 + b[7] * 0x100_0000 + b[8]
                * 0x1_0000_0000 + b[9] * 0x100_0000_0000 + b[10] * 0x1_0000_0000_0000 + b[11]
                * 0x100_0000_0000_0000;
            &&& b.len() == 12
            &&& b[0] == 0x55
            &&& b[1] == 0xaa
            &&& b[2] == 0x55
            &&& b[3] == 0xaa
            &&& number == stored_number(seconds)
        }),
{
    let number = stored_number(seconds);
    let low = low_word(seconds);
    let high = high_word(seconds);
    assert(low + high * 0x1_0000_0000 == number) by {
        assert(0 <= number % 0x1_0000_0000 < 0x1_0000_0000);
        assert(0 <= number / 0x1_0000_0000 < 0x1_0000_0000);
        assert(number == number % 0x1_0000_0000 + (number / 0x1_0000_0000) * 0x1_0000_0000);
    }
    lemma_layout_of_words(low, high);
}

proof fn lemma_layout_of_words(low: u32, high: u32)
    ensures
        ({
            let b = word_bytes(MAGIC_NUMBER) + word_bytes(low) + word_bytes(high);
            &&& b.len() == 12
            &&& b[0] == 0x55
            &&& b[1] == 0xaa
            &&& b[2] == 0x55
            &&& b[3] == 0xaa
            &&& b[4] + b[5] * 0x100 + b[6] * 0x1_0000 + b[7] * 0x100_0000 == low
            &&& b[8] + b[9] * 0x100 + b[10] * 0x1_0000 + b[11] * 0x100_0000 == high
        }),
{
    lemma_word_sum(low);
    lemma_word_sum(high);
}

proof fn lemma_word_sum(word: u32)
    ensures
        ({
            let b = word_bytes(word);
            b[0] + b[1] * 0x100 + b[2] * 0x1_0000 + b[3] * 0x100_0000 == word
        }),
{
}

/// A record stands for a time exactly where it begins with the magic number and
/// its seconds, taken as a signed number of 64 bits, lie in the supported range.
/// The time is on that second, with no part of a second.
pub proof fn law_what_a_record_stands_for(magic: u32, low: u32, high: u32)
    ensures
        ({
            let number = low + high * 0x1_0000_0000;
            let seconds = if high < 0x8000_0000 {
                number
            } else {
                number - 0x1_0000_0000_0000_0000
            };
            let found = recorded_time(magic, low, high);
            &&& found is Some <==> magic == 0xaa55_aa55 && first_second() <= seconds
                <= last_second()
            &&& found matches Some(time) ==> time.valid() && time.seconds() == seconds
                && time.nanosecond == 0
        }),
{
    let seconds = joined_seconds(low, high);
    if first_second() <= seconds <= last_second() {
        law_every_second_has_a_time(seconds);
    }
}

/// A reading asks for the words at the address, four behind it and eight behind
/// it, in this order and whatever the second word is. It ends after the third, or
/// after the first where that is not the magic number.
pub proof fn law_read_operations(addr: u32, magic: u32, low: u32, high: u32)
    requires
        addr + 8 <= u32::MAX,
    ensures
        ({
            let read = FlashRead { addr, phase: ReadPhase::Magic };
            let second = read.after(magic);
            let third = second.after(low);
            &&& read.wanted() == Some(FlashOp::ReadWord { addr })
            &&& if magic == 0xaa55_aa55 {
                &&& second.wanted() == Some(FlashOp::ReadWord { addr: (addr + 4) as u32 })
                &&& third.wanted() == Some(FlashOp::ReadWord { addr: (addr + 8) as u32 })
                &&& third.after(high).wanted() is None
            } else {
                &&& second.wanted() is None
                &&& second.phase == ReadPhase::Finished(None)
            }
        }),
{
}

/// A reading that is answered by address finds the time whose seconds stand in the
/// eight bytes behind the magic number, as a signed number. It finds nothing where
/// the magic number is not there or the seconds are out of range.
#[verifier::rlimit(40)]
pub proof fn law_read_finds_the_record(addr: u32, memory: spec_fn(int) -> u8)
    requires
        addr + 8 <= u32::MAX,
    ensures
        ({
            let high = word_in(memory, addr + 8);
            let number = word_in(memory, addr + 4) + high * 0x1_0000_0000;
            let seconds = if high < 0x8000_0000 {
                number
            } else {
                number - 0x1_0000_0000_0000_0000
            };
            let found = found_in(FlashRead { addr, phase: ReadPhase::Magic }, memory);
            &&& found is Some <==> word_in(memory, addr as int) == 0xaa55_aa55 && first_second()
                <= seconds <= last_second()
            &&& found matches Some(time) ==> time.valid() && time.seconds() == seconds
                && time.nanosecond == 0
        }),
{
    reveal_with_fuel(found_in, 4);
    let magic = word_in(memory, addr as int) as u32;
    let low = word_in(memory, addr + 4) as u32;
    let high = word_in(memory, addr + 8) as u32;
    law_read_operations(addr, magic, low, high);
    law_what_a_record_stands_for(magic, low, high);
}

/// A saving that has come to read back its record, with so many bytes that were as
/// they should be.
pub open spec fn verified(save: FlashSave, count: nat) -> FlashSave
    decreases count,
{
    if count == 0 {
        save.after(FlashReply::Erased(true)).after(FlashReply::Written(true))
    } else {
        verified(save, (count - 1) as nat).after(FlashReply::Byte(save.record@[count - 1]))
    }
}

/// A saving first erases the 1024 bytes from the address on, then writes the
/// record of the time at the address, then reads back the twelve bytes from the
/// address on, one after the other. It asks for nothing more once a step has
/// failed, and ends with the error of that step; it ends well behind the last byte.
#[verifier::rlimit(40)]
pub proof fn law_save_operations(addr: u32, time: DateTime, count: nat, byte: u8)
    requires
        addr + 1024 <= u32::MAX,
        time.valid(),
        count < 12,
    ensures
        ({
            let save = FlashSave::begun(addr, time);
            let erased = save.after(FlashReply::Erased(true));
            let reading = verified(save, count);
            &&& save.wanted() == Some(FlashOp::Erase { from: addr, to: (addr + 1024) as u32 })
            &&& save.after(FlashReply::Erased(false)).phase == SavePhase::Finished(
                Err(FlashError::EraseFailed),
            )
            &&& erased.wanted() matches Some(FlashOp::Write { addr: at, record }) && at == addr
                && record@ == record_bytes(time)
            &&& erased.after(FlashReply::Written(false)).phase == SavePhase::Finished(
                Err(FlashError::WriteFailed),
            )
            &&& reading.wanted() == Some(FlashOp::ReadByte { addr: (addr + count) as u32 })
            &&& byte != record_bytes(time)[count as int] ==> reading.after(
                FlashReply::Byte(byte),
            ).phase == SavePhase::Finished(Err(FlashError::VerificationFailed))
            &&& byte == record_bytes(time)[count as int] && count == 11 ==> reading.after(
                FlashReply::Byte(byte),
            ).phase == SavePhase::Finished(Ok(()))
        }),
{
    lemma_record_of(time);
    lemma_verified(FlashSave::begun(addr, time), count);
}

proof fn lemma_verified(save: FlashSave, count: nat)
    requires
        save.phase == SavePhase::Erasing,
        count < 12,
    ensures
        verified(save, count) == (FlashSave {
            phase: SavePhase::Verifying { index: count as u32 },
            ..save
        }),
    decreases count,
{
    if count > 0 {
        lemma_verified(save, (count - 1) as nat);
    }
}

/// A saving that has ended asks for nothing more, and only such a saving does.
pub proof fn law_ended_save_rests(save: FlashSave)
    ensures
        save.wanted() is None <==> save.phase is Finished,
{
}

/// A saving that is answered by address ends well exactly where the erase and the
/// write go well and each of the twelve bytes from the address on is that of the
/// record. Otherwise it ends with the error of the first step that failed.
#[verifier::rlimit(40)]
pub proof fn law_save_is_verified_by_address(
    addr: u32,
    time: DateTime,
    erased: bool,
    written: bool,
    memory: spec_fn(int) -> u8,
)
    requires
        addr + 1024 <= u32::MAX,
        time.valid(),
    ensures
        end_of_save(FlashSave::begun(addr, time), erased, written, memory) == SavePhase::Finished(
            if !erased {
                Err(FlashError::EraseFailed)
            } else if !written {
                Err(FlashError::WriteFailed)
            } else if exists|i: int|
                0 <= i < 12 && #[trigger] memory(addr + i) != record_bytes(time)[i] {
                Err(FlashError::VerificationFailed)
            } else {
                Ok(())
            },
        ),
{
    lemma_record_of(time);
    reveal_with_fuel(end_of_save, 3);
    let save = FlashSave::begun(addr, time);
    lemma_verified_by_address(
        FlashSave { phase: SavePhase::Verifying { index: 0 }, ..save },
        erased,
        written,
        memory,
        0,
    );
}

#[verifier::rlimit(40)]
proof fn lemma_verified_by_address(
    save: FlashSave,
    erased: bool,
    written: bool,
    memory: spec_fn(int) -> u8,
    index: u32,
)
    requires
        save.valid(),
        save.phase == (SavePhase::Verifying { index }),
    ensures
        end_of_save(save, erased, written, memory) == SavePhase::Finished(
            if exists|i: int|
                index <= i < 12 && #[trigger] memory(save.addr + i) != save.record@[i] {
                Err(FlashError::VerificationFailed)
            } else {
                Ok(())
            },
        ),
    decreases 12 - index,
{
    reveal_with_fuel(end_of_save, 2);
    let byte = memory(save.addr + index);
    if byte != save.record@[index as int] {
        assert(memory(save.addr + index as int) != save.record@[index as int]);
    } else if index + 1 < 12 {
        lemma_verified_by_address(
            save.after(FlashReply::Byte(byte)),
            erased,
            written,
            memory,
            (index + 1) as u32,
        );
    }
}

/// On a flash memory that works a saving ends well, nothing outside the page of
/// 1024 bytes changes, and a reading of what the memory then holds finds the time
/// that was saved, on the whole second.
#[verifier::rlimit(40)]
pub proof fn law_working_memory_keeps_the_time(
    addr: u32,
    time: DateTime,
    memory: spec_fn(int) -> u8,
)
    requires
        addr + 1024 <= u32::MAX,
        time.valid(),
    ensures
        ({
            let (end, after) = saved_in(FlashSave::begun(addr, time), memory);
            let found = found_in(FlashRead { addr, phase: ReadPhase::Magic }, after);
            &&& end == SavePhase::Finished(Ok(()))
            &&& forall|a: int| a < addr || a >= addr + 1024 ==> #[trigger] after(a) == memory(a)
            &&& found == Some(DateTime { nanosecond: 0, ..time })
        }),
{
    lemma_record_of(time);
    let save = FlashSave::begun(addr, time);
    let erase = FlashOp::Erase { from: addr, to: (addr + 1024) as u32 };
    let write = FlashOp::Write { addr, record: save.record };
    let cleared = memory_after(erase, memory);
    let after = memory_after(write, cleared);
    let reading = FlashSave { phase: SavePhase::Verifying { index: 0 }, ..save };
    reveal_with_fuel(saved_in, 3);
    assert(saved_in(save, memory) == saved_in(reading, after));
    assert forall|i: int| 0 <= i < 12 implies #[trigger] after(addr + i) == save.record@[i] by {
        let byte = save.record@[i];
        assert(0xffu8 & byte == byte) by (bit_vector);
    }
    lemma_reading_back_goes_well(reading, after, 0);
    let b = record_bytes(time);
    law_record_layout(time);
    law_read_finds_the_record(addr, after);
    lemma_seconds_bounds(time);
    lemma_range_fits();
    assert(after(addr + 0) == b[0] && after(addr + 1) == b[1] && after(addr + 2) == b[2] && after(
        addr + 3,
    ) == b[3]);
    assert(after(addr + 4) == b[4] && after(addr + 5) == b[5] && after(addr + 6) == b[6] && after(
        addr + 7,
    ) == b[7]);
    assert(after(addr + 8) == b[8] && after(addr + 9) == b[9] && after(addr + 10) == b[10]
        && after(addr + 11) == b[11]);
    let found = found_in(FlashRead { addr, phase: ReadPhase::Magic }, after);
    assert(found is Some);
    law_second_is_unique(found->0, time.whole_second());
}

proof fn lemma_reading_back_goes_well(save: FlashSave, memory: spec_fn(int) -> u8, index: u32)
    requires
        save.valid(),
        save.phase == (SavePhase::Verifying { index }),
        forall|i: int| 0 <= i < 12 ==> #[trigger] memory(save.addr + i) == save.record@[i],
    ensures
        saved_in(save, memory) == (SavePhase::Finished(Ok(())), memory),
    decreases 12 - index,
{
    reveal_with_fuel(saved_in, 2);
    let byte = memory(save.addr + index as int);
    assert(byte == save.record@[index as int]);
    if index + 1 < 12 {
        lemma_reading_back_goes_well(
            save.after(FlashReply::Byte(byte)),
            memory,
            (index + 1) as u32,
        );
    }
}

/// A saving takes in the reply to the operation that it asks for, and no other.
pub proof fn law_save_takes_its_reply(save: FlashSave, reply: FlashReply)
    ensures
        save.awaits(reply) <==> match save.wanted() {
            Some(FlashOp::Erase { from, to }) => reply is Erased,
            Some(FlashOp::Write { addr, record }) => reply is Written,
            Some(FlashOp::ReadByte { addr }) => reply is Byte,
            Some(FlashOp::ReadWord { addr }) => reply is Word,
            None => false,
        },
{
}

/// The array of a record holds the bytes of the record.
pub proof fn lemma_record_of(time: DateTime)
    ensures
        record_of(time)@ == record_bytes(time),
{
    reveal(record_bytes);
    let b = record_bytes(time);
    let record: [u8; 12] = [
        b[0],
        b[1],
        b[2],
        b[3],
        b[4],
        b[5],
        b[6],
        b[7],
        b[8],
        b[9],
        b[10],
        b[11],
    ];
    assert(record@ =~= b);
}

proof fn lemma_seconds_round_trip(seconds: int)
    requires
        i64::MIN <= seconds <= i64::MAX,
    ensures
        joined_seconds(low_word(seconds), high_word(seconds)) == seconds,
{
    let number = stored_number(seconds);
    assert(0 <= number % 0x1_0000_0000 < 0x1_0000_0000);
    assert(0 <= number / 0x1_0000_0000 < 0x1_0000_0000);
    assert(number == number % 0x1_0000_0000 + (number / 0x1_0000_0000) * 0x1_0000_0000);
}

proof fn lemma_word_round_trip(word: u32)
    ensures
        word_at(word_bytes(word), 0) == word,
{
}

proof fn lemma_stored_number(seconds: i64)
    ensures
        seconds as u64 == stored_number(seconds as int),
{
    assert(seconds < 0 ==> seconds as u64 == seconds + 0x1_0000_0000_0000_0000) by (bit_vector);
    assert(seconds >= 0 ==> seconds as u64 == seconds) by (bit_vector);
}

proof fn lemma_joined_number(low: u32, high: u32)
    ensures
        ((low as u64) | ((high as u64) << 32)) as i64 == joined_seconds(low, high),
{
    let number: u64 = (low as u64) | ((high as u64) << 32);
    assert(((low as u64) | ((high as u64) << 32)) == low + high * 0x1_0000_0000) by (bit_vector);
    assert(number < 0x8000_0000_0000_0000 ==> number as i64 == number) by (bit_vector);
    assert(number >= 0x8000_0000_0000_0000 ==> number as i64 == number - 0x1_0000_0000_0000_0000)
        by (bit_vector);
}

} // verus!
