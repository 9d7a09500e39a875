# rtc_calendar

A desk clock with a calendar for an STM32F103 board: it counts the time, saves it
in flash memory and finds it again at power-on, shows it with its weekday on an
SSD1306 display, and lets a push button select a field.

`src/` is the logic, verified with Verus. Each task of the clock is a machine that
asks for one thing at a time and is told what came of it, so that what it does is
stated and proved without any hardware. `app/` is the firmware around it: it
performs what the tasks ask for. `tests/` runs the tasks on made-up boards.

The calendar arithmetic is that of `chrono`, the texts are built in strings of
`heapless`, and intervals are counted in the ticks of `embassy-time`. The private
functions that call these crates are marked `external_body`; their contracts are
believed, not proved, and say in their comments what they claim.
