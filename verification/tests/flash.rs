use rtc_calendar::datetime::DateTime;
use rtc_calendar::flash::{
    decode_record, encode_record, read_time_from_flash, save_time_to_flash, FlashError, FlashOp,
    FlashRead, FlashReply, FlashSave, ReadPhase, SavePhase, MAGIC_NUMBER,
};

const ADDR: u32 = 0x0800_fc00;

fn time(year: i32, month: u32, day: u32, hour: u32, minute: u32, second: u32) -> DateTime {
    DateTime { year, month, day, hour, minute, second, nanosecond: 0 }
}

fn word(bytes: &[u8; 12], at: usize) -> u32 {
    u32::from_le_bytes([bytes[at], bytes[at + 1], bytes[at + 2], bytes[at + 3]])
}

/// Saves a time; the bytes that are read back have `flip` added at `flipped`.
fn save(time: DateTime, erased: bool, written: bool, flipped: usize, flip: u8) -> (FlashSave, [u8; 12], usize) {
    let mut save = FlashSave::start(ADDR, time);
    let mut memory = [0xff_u8; 12];
    let mut op = save.next_op();
    let mut replies: usize = 0;
    while let Some(wanted) = op {
        let reply = match wanted {
            FlashOp::Erase { from, to } => {
                assert_eq!((from, to), (ADDR, ADDR + 1024));
                FlashReply::Erased(erased)
            }
            FlashOp::Write { addr, record } => {
                assert_eq!(addr, ADDR);
                memory = record;
                memory[flipped] ^= flip;
                FlashReply::Written(written)
            }
            FlashOp::ReadByte { addr } => FlashReply::Byte(memory[(addr - ADDR) as usize]),
            FlashOp::ReadWord { .. } => panic!("a save reads bytes"),
        };
        assert!(save.accepts(&reply));
        op = save_time_to_flash(&mut save, reply);
        replies += 1;
    }
    (save, memory, replies)
}

/// Reads the time in a memory, and counts the words that were read.
fn read(memory: &[u8; 12]) -> (Option<DateTime>, usize) {
    let mut read = FlashRead::start(ADDR);
    let mut op = read.next_op();
    let mut words: usize = 0;
    while let Some(wanted) = op {
        match wanted {
            FlashOp::ReadWord { addr } => {
                op = read_time_from_flash(&mut read, word(memory, (addr - ADDR) as usize));
                words += 1;
            }
            _ => panic!("a reading reads words"),
        }
    }
    match read.phase {
        ReadPhase::Finished(found) => (found, words),
        _ => panic!("the reading has not ended"),
    }
}

#[test]
fn a_record_is_the_magic_number_and_the_seconds() {
    assert_eq!(
        encode_record(time(1970, 1, 1, 0, 0, 1)),
        [0x55, 0xaa, 0x55, 0xaa, 1, 0, 0, 0, 0, 0, 0, 0]
    );
    // 1_761_246_000 is 0x68fa7b30.
    assert_eq!(
        encode_record(time(2025, 10, 23, 19, 0, 0)),
        [0x55, 0xaa, 0x55, 0xaa, 0x30, 0x7b, 0xfa, 0x68, 0, 0, 0, 0]
    );
}

#[test]
fn a_record_holds_seconds_of_more_than_32_bits_and_below_zero() {
    let before = encode_record(time(1969, 12, 31, 23, 59, 59));
    assert_eq!(&before[4..], &[0xff; 8]);
    let far = time(3000, 1, 1, 0, 0, 0);
    let record = encode_record(far);
    assert_eq!(word(&record, 8), (far.timestamp() >> 32) as u32);
    assert_eq!(word(&record, 4), far.timestamp() as u32);
    assert_ne!(word(&record, 8), 0);
}

#[test]
fn a_record_is_decoded_only_behind_the_magic_number() {
    assert_eq!(MAGIC_NUMBER, 0xaa55_aa55);
    assert_eq!(decode_record(MAGIC_NUMBER, 1, 0), Some(time(1970, 1, 1, 0, 0, 1)));
    assert_eq!(decode_record(0xffff_ffff, 1, 0), None);
    assert_eq!(
        decode_record(MAGIC_NUMBER, 0xffff_ffff, 0xffff_ffff),
        Some(time(1969, 12, 31, 23, 59, 59))
    );
}

#[test]
fn a_record_out_of_range_holds_no_time() {
    assert_eq!(decode_record(MAGIC_NUMBER, 0xffff_ffff, 0x7fff_ffff), None);
    assert_eq!(decode_record(MAGIC_NUMBER, 0, 0x8000_0000), None);
}

#[test]
fn erased_memory_holds_no_time() {
    assert_eq!(read(&[0xff; 12]), (None, 1));
}

#[test]
fn what_was_saved_is_read_back() {
    let times = [
        time(2025, 10, 23, 19, 0, 0),
        time(1969, 12, 31, 23, 59, 59),
        time(-262143, 1, 1, 0, 0, 0),
        time(262142, 12, 31, 23, 59, 59),
    ];
    for saved in times {
        let (end, memory, replies) = save(saved, true, true, 0, 0);
        assert_eq!(end.phase, SavePhase::Finished(Ok(())));
        assert_eq!(replies, 14);
        assert_eq!(read(&memory), (Some(saved), 3));
    }
}

#[test]
fn the_part_of_a_second_is_not_saved() {
    let late = DateTime { nanosecond: 7, ..time(2025, 7, 20, 18, 0, 0) };
    let (_, memory, _) = save(late, true, true, 0, 0);
    assert_eq!(read(&memory).0, Some(time(2025, 7, 20, 18, 0, 0)));
}

#[test]
fn a_failed_erase_ends_the_save() {
    let (end, memory, replies) = save(time(2025, 7, 20, 18, 0, 0), false, true, 0, 0);
    assert_eq!(end.phase, SavePhase::Finished(Err(FlashError::EraseFailed)));
    assert_eq!((memory, replies), ([0xff; 12], 1));
}

#[test]
fn a_failed_write_ends_the_save() {
    let (end, _, replies) = save(time(2025, 7, 20, 18, 0, 0), true, false, 0, 0);
    assert_eq!(end.phase, SavePhase::Finished(Err(FlashError::WriteFailed)));
    assert_eq!(replies, 2);
}

#[test]
fn a_wrong_byte_ends_the_save() {
    for at in 0..12 {
        let (end, _, replies) = save(time(2025, 7, 20, 18, 0, 0), true, true, at, 1);
        assert_eq!(end.phase, SavePhase::Finished(Err(FlashError::VerificationFailed)));
        assert_eq!(replies, 3 + at);
    }
}

#[test]
fn a_save_accepts_only_the_answer_to_its_request() {
    let mut save = FlashSave::start(ADDR, time(2025, 7, 20, 18, 0, 0));
    assert!(save.accepts(&FlashReply::Erased(true)));
    assert!(!save.accepts(&FlashReply::Written(true)));
    assert!(!save.accepts(&FlashReply::Word(0)));
    let _ = save_time_to_flash(&mut save, FlashReply::Erased(false));
    assert!(!save.accepts(&FlashReply::Erased(true)));
}
