//! The logic of a desk clock with a calendar.
//!
//! The clock counts the seconds of a date and a time of day, saves the time in
//! flash memory and finds it again at power-on, shows it with its weekday on a
//! small display, and lets a push button select a field. Each of its tasks is a
//! machine that asks for one thing at a time, such as a reading of the clock, an
//! operation on the flash memory or a frame to be drawn, and is told what came
//! of it.
//!
//! * [`civil`]: the calendar, as specification;
//! * [`datetime`]: a date with a time of day, computed with `chrono`;
//! * [`text`]: dates and times of day as text, in strings of `heapless`;
//! * [`ticks`]: intervals on the clock of `embassy-time`;
//! * [`flash`]: the record in flash memory, read and saved;
//! * [`rtc`]: the clock task;
//! * [`screen`]: the frames and the display task;
//! * [`led`]: the button task and the heartbeat light;
//! * [`audio`] and [`vs1053`]: the start of the audio decoder.
pub mod audio;
pub mod civil;
pub mod datetime;
pub mod flash;
pub mod led;
pub mod rtc;
pub mod screen;
pub mod text;
pub mod ticks;
pub mod vs1053;
