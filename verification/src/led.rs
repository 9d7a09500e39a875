//! The push button that selects a field of the clock, and the heartbeat light.
use vstd::prelude::*;

verus! {

/// The number of modes: none selected, then one for each of the six fields.
pub const MODE_COUNT: u8 = 7;

/// How long to wait for the contact of the button to settle.
pub const DEBOUNCE_MILLIS: u64 = 15;

/// How long the heartbeat light keeps a level.
pub const HEARTBEAT_MILLIS: u64 = 500;

/// The level of a pin.
#[derive(Clone, Copy, Debug, PartialEq, Eq, Structural)]
pub enum Level {
    Low,
    High,
}

/// What the button task is waiting for.
#[derive(Clone, Copy, Debug, PartialEq, Eq, Structural)]
pub enum KeyPhase {
    /// The button to be pressed.
    Released,
    /// The contact to settle.
    Settling,
    /// The level of the pin after the contact has settled.
    Sampling,
    /// The new mode to be taken.
    Sending,
    /// The button to be let go.
    Pressed,
}

/// The button task: the selected mode, and what it is waiting for.
#[derive(Clone, Copy, Debug, PartialEq, Eq, Structural)]
pub struct KeyTask {
    pub mode: u8,
    pub phase: KeyPhase,
}

/// What the button task asks for.
#[derive(Clone, Copy, Debug, PartialEq, Eq, Structural)]
pub enum KeyAction {
    WaitForFallingEdge,
    WaitForDebounce,
    ReadLevel,
    Send(u8),
    WaitForRisingEdge,
}

/// What the button task is told.
#[derive(Clone, Copy, Debug, PartialEq, Eq, Structural)]
pub enum KeyEvent {
    Fell,
    Settled,
    Sampled(Level),
    Sent,
    Rose,
}

impl KeyTask {
    /// Whether the mode is one of the seven.
    pub open spec fn valid(self) -> bool {
        self.mode < MODE_COUNT
    }

    /// What the task asks for.
    pub open spec fn wanted(self) -> KeyAction {
        match self.phase {
            KeyPhase::Released => KeyAction::WaitForFallingEdge,
            KeyPhase::Settling => KeyAction::WaitForDebounce,
            KeyPhase::Sampling => KeyAction::ReadLevel,
            KeyPhase::Sending => KeyAction::Send(self.mode),
            KeyPhase::Pressed => KeyAction::WaitForRisingEdge,
        }
    }

    /// Whether an event answers what the task asks for.
    pub open spec fn awaits(self, event: KeyEvent) -> bool {
        match self.phase {
            KeyPhase::Released => event is Fell,
            KeyPhase::Settling => event is Settled,
            KeyPhase::Sampling => event is Sampled,
            KeyPhase::Sending => event is Sent,
            KeyPhase::Pressed => event is Rose,
        }
    }

    /// The task after an event. A pin that is high again once the contact has
    /// settled was no press.
    pub open spec fn after(self, event: KeyEvent) -> KeyTask {
        match event {
            KeyEvent::Fell => KeyTask { phase: KeyPhase::Settling, ..self },
            KeyEvent::Settled => KeyTask { phase: KeyPhase::Sampling, ..self },
            KeyEvent::Sampled(Level::High) => KeyTask { phase: KeyPhase::Released, ..self },
            KeyEvent::Sampled(Level::Low) => KeyTask {
                mode: ((self.mode + 1) % MODE_COUNT as int) as u8,
                phase: KeyPhase::Sending,
            },
            KeyEvent::Sent => KeyTask { phase: KeyPhase::Pressed, ..self },
            KeyEvent::Rose => KeyTask { phase: KeyPhase::Released, ..self },
        }
    }

    /// The task after the button was pressed and let go once.
    pub open spec fn after_press(self) -> KeyTask {
        self.after(KeyEvent::Fell).after(KeyEvent::Settled).after(
            KeyEvent::Sampled(Level::Low),
        ).after(KeyEvent::Sent).after(KeyEvent::Rose)
    }

    /// The task after so many presses.
    pub open spec fn after_presses(self, count: nat) -> KeyTask
        decreases count,
    {
        if count == 0 {
            self
        } else {
            self.after_presses((count - 1) as nat).after_press()
        }
    }

    /// The task when the pin fell and the level after the contact has settled was
    /// taken.
    pub open spec fn sampled(self, level: Level) -> KeyTask {
        self.after(KeyEvent::Fell).after(KeyEvent::Settled).after(KeyEvent::Sampled(level))
    }

    /// The task after the pin fell once and had the given level when the contact
    /// had settled: a press that was let go, or a bounce.
    pub open spec fn after_fall(self, level: Level) -> KeyTask {
        match level {
            Level::Low => self.sampled(level).after(KeyEvent::Sent).after(KeyEvent::Rose),
            Level::High => self.sampled(level),
        }
    }

    /// The task after the pin fell again and again, with the level that it had
    /// each time when the contact had settled.
    pub open spec fn after_falls(self, levels: Seq<Level>) -> KeyTask
        decreases levels.len(),
    {
        if levels.len() == 0 {
            self
        } else {
            self.after_falls(levels.drop_last()).after_fall(levels.last())
        }
    }

    /// The task at power-on: no field is selected.
    pub fn start() -> (task: KeyTask)
        ensures
            task == (KeyTask { mode: 0, phase: KeyPhase::Released }),
            task.valid(),
    {
        KeyTask { mode: 0, phase: KeyPhase::Released }
    }

    /// What the task asks for.
    pub fn request(&self) -> (action: KeyAction)
        ensures
            action == self.wanted(),
    {
        match self.phase {
            KeyPhase::Released => KeyAction::WaitForFallingEdge,
            KeyPhase::Settling => KeyAction::WaitForDebounce,
            KeyPhase::Sampling => KeyAction::ReadLevel,
            KeyPhase::Sending => KeyAction::Send(self.mode),
            KeyPhase::Pressed => KeyAction::WaitForRisingEdge,
        }
    }
}

/// How many of the levels are low.
pub open spec fn low_count(levels: Seq<Level>) -> nat
    decreases levels.len(),
{
    if levels.len() == 0 {
        0
    } else {
        low_count(levels.drop_last()) + if levels.last() == Level::Low {
            1nat
        } else {
            0nat
        }
    }
}

/// Takes in the answer to what the button task asks for, and returns what it
/// asks for next.
pub fn key_update(task: &mut KeyTask, event: KeyEvent) -> (action: KeyAction)
    requires
        old(task).valid(),
        old(task).awaits(event),
    ensures
        *final(task) == old(task).after(event),
        final(task).valid(),
        action == final(task).wanted(),
{
    match event {
        KeyEvent::Fell => {
            task.phase = KeyPhase::Settling;
        },
        KeyEvent::Settled => {
            task.phase = KeyPhase::Sampling;
        },
        KeyEvent::Sampled(level) => {
            match level {
                Level::High => {
                    task.phase = KeyPhase::Released;
                },
                Level::Low => {
                    task.mode = (task.mode + 1) % MODE_COUNT;
                    task.phase = KeyPhase::Sending;
                },
            }
        },
        KeyEvent::Sent => {
            task.phase = KeyPhase::Pressed;
        },
        KeyEvent::Rose => {
            task.phase = KeyPhase::Released;
        },
    }
    task.request()
}

/// The next level of the heartbeat light, which is low when the pin is first
/// driven from its initial high level.
pub fn heartbeat(level: Level) -> (next: Level)
    ensures
        next == match level {
            Level::Low => Level::High,
            Level::High => Level::Low,
        },
{
    match level {
        Level::Low => Level::High,
        Level::High => Level::Low,
    }
}

/// A press goes through events that the task awaits one after the other, and the
/// mode that it sends is the one that it leaves behind.
pub proof fn law_press_is_awaited(task: KeyTask)
    requires
        task.valid(),
        task.phase == KeyPhase::Released,
    ensures
        ({
            let settling = task.after(KeyEvent::Fell);
            let sampling = settling.after(KeyEvent::Settled);
            let sending = sampling.after(KeyEvent::Sampled(Level::Low));
            let pressed = sending.after(KeyEvent::Sent);
            &&& task.awaits(KeyEvent::Fell)
            &&& settling.awaits(KeyEvent::Settled)
            &&& sampling.awaits(KeyEvent::Sampled(Level::Low))
            &&& sending.wanted() == KeyAction::Send(task.after_press().mode)
            &&& sending.awaits(KeyEvent::Sent)
            &&& pressed.awaits(KeyEvent::Rose)
            &&& task.after_press().phase == KeyPhase::Released
            &&& task.after_press().valid()
        }),
{
}

/// A contact that bounces changes nothing: the task waits for a press again, in
/// the same mode, and sends none.
pub proof fn law_bounce_is_ignored(task: KeyTask)
    requires
        task.valid(),
        task.phase == KeyPhase::Released,
    ensures
        task.after(KeyEvent::Fell).after(KeyEvent::Settled).after(KeyEvent::Sampled(Level::High))
            == task,
{
}

/// The mode counts the presses, and comes round after seven.
pub proof fn law_mode_counts_presses(task: KeyTask, count: nat)
    requires
        task.valid(),
        task.phase == KeyPhase::Released,
    ensures
        task.after_presses(count).mode == (task.mode + count) % 7,
        task.after_presses(count).phase == KeyPhase::Released,
        count % 7 == 0 ==> task.after_presses(count) == task,
    decreases count,
{
    if count > 0 {
        law_mode_counts_presses(task, (count - 1) as nat);
    }
}

/// Over any course of presses and bounces the n-th press sends n, counted modulo
/// seven from the mode at the start, which is 0 at power-on. A bounce sends
/// nothing, and bounces between the presses do not count.
pub proof fn law_bounces_do_not_count(task: KeyTask, levels: Seq<Level>)
    requires
        task.valid(),
        task.phase == KeyPhase::Released,
    ensures
        task.after_falls(levels).mode == (task.mode + low_count(levels)) % 7,
        task.after_falls(levels).phase == KeyPhase::Released,
        levels.len() > 0 ==> task.after_falls(levels.drop_last()).sampled(levels.last()).wanted()
            == match levels.last() {
            Level::Low => KeyAction::Send(((task.mode + low_count(levels)) % 7) as u8),
            Level::High => KeyAction::WaitForFallingEdge,
        },
    decreases levels.len(),
{
    if levels.len() > 0 {
        law_bounces_do_not_count(task, levels.drop_last());
    }
}

/// A mode is sent only after the pin was low when the contact had settled.
pub proof fn law_only_presses_are_sent(task: KeyTask, event: KeyEvent)
    requires
        task.valid(),
        task.awaits(event),
        task.after(event).wanted() is Send,
    ensures
        event == KeyEvent::Sampled(Level::Low),
        task.after(event).wanted() == KeyAction::Send(((task.mode + 1) % 7) as u8),
{
}

/// What the task asks for, one after the other: the pin to fall, the contact to
/// settle, and the level of the pin. After a low level it asks for the next of the
/// seven modes to be sent, and for the pin to rise; after a high one, and when the
/// pin has risen, it begins anew.
pub proof fn law_requests_of_a_fall(task: KeyTask)
    requires
        task.valid(),
        task.phase == KeyPhase::Released,
    ensures
        ({
            let settling = task.after(KeyEvent::Fell);
            let sampling = settling.after(KeyEvent::Settled);
            let sending = sampling.after(KeyEvent::Sampled(Level::Low));
            let pressed = sending.after(KeyEvent::Sent);
            let released = pressed.after(KeyEvent::Rose);
            let bounced = sampling.after(KeyEvent::Sampled(Level::High));
            let next: int = if task.mode == 6 {
                0
            } else {
                task.mode + 1
            };
            &&& task.mode <= 6
            &&& task.wanted() == KeyAction::WaitForFallingEdge
            &&& settling.wanted() == KeyAction::WaitForDebounce
            &&& sampling.wanted() == KeyAction::ReadLevel
            &&& sending.wanted() == KeyAction::Send(next as u8)
            &&& pressed.wanted() == KeyAction::WaitForRisingEdge
            &&& released == (KeyTask { mode: next as u8, phase: KeyPhase::Released })
            &&& bounced == task
        }),
{
}

/// The task takes in what answers its request, and nothing else.
pub proof fn law_button_takes_its_answer(task: KeyTask, event: KeyEvent)
    ensures
        task.awaits(event) <==> match task.wanted() {
            KeyAction::WaitForFallingEdge => event == KeyEvent::Fell,
            KeyAction::WaitForDebounce => event == KeyEvent::Settled,
            KeyAction::ReadLevel => event is Sampled,
            KeyAction::Send(mode) => event == KeyEvent::Sent,
            KeyAction::WaitForRisingEdge => event == KeyEvent::Rose,
        },
{
}

/// The contact has 15 milliseconds to settle, and the light goes through both of
/// its levels in a second.
pub proof fn law_button_and_light_times()
    ensures
        DEBOUNCE_MILLIS == 15,
        HEARTBEAT_MILLIS * 2 == 1000,
{
}

} // verus!
