use vstd::prelude::*;

verus! {

/// Keycode of the escape key, which asks the emulator to exit.
pub const KEYCODE_ESCAPE: i32 = 27;

/// Number of keys of the keypad.
pub const KEY_COUNT: usize = 16;

/// A keyboard or window event, with keys given by their SDL keycode.
#[derive(Debug, Clone, Copy, PartialEq, Eq, Structural)]
pub enum InputEvent {
    Quit,
    KeyDown(i32),
    KeyUp(i32),
}

/// The keypad key that a keyboard key stands for: the left four columns of
/// the rows 1234 / QWER / ASDF / YXCV.
pub open spec fn keypad_key(keycode: i32) -> Option<u8> {
    if keycode == 49 {
        Some(0x0u8)  // '1'
    } else if keycode == 50 {
        Some(0x1u8)  // '2'
    } else if keycode == 51 {
        Some(0x2u8)  // '3'
    } else if keycode == 52 {
        Some(0x3u8)  // '4'
    } else if keycode == 113 {
        Some(0x4u8)  // 'q'
    } else if keycode == 119 {
        Some(0x5u8)  // 'w'
    } else if keycode == 101 {
        Some(0x6u8)  // 'e'
    } else if keycode == 114 {
        Some(0x7u8)  // 'r'
    } else if keycode == 97 {
        Some(0x8u8)  // 'a'
    } else if keycode == 115 {
        Some(0x9u8)  // 's'
    } else if keycode == 100 {
        Some(0xau8)  // 'd'
    } else if keycode == 102 {
        Some(0xbu8)  // 'f'
    } else if keycode == 121 {
        Some(0xcu8)  // 'y'
    } else if keycode == 120 {
        Some(0xdu8)  // 'x'
    } else if keycode == 99 {
        Some(0xeu8)  // 'c'
    } else if keycode == 118 {
        Some(0xfu8)  // 'v'
    } else {
        None
    }
}

/// Maps a keyboard keycode to the keypad key it stands for, if any.
pub fn convert_keycode_to_u8(keycode: i32) -> (r: Option<u8>)
    ensures
        r == keypad_key(keycode),
        r matches Some(k) ==> k < 16,
{
    match keycode {
        49 => Some(0x0),
        50 => Some(0x1),
        51 => Some(0x2),
        52 => Some(0x3),
        113 => Some(0x4),
        119 => Some(0x5),
        101 => Some(0x6),
        114 => Some(0x7),
        97 => Some(0x8),
        115 => Some(0x9),
        100 => Some(0xa),
        102 => Some(0xb),
        121 => Some(0xc),
        120 => Some(0xd),
        99 => Some(0xe),
        118 => Some(0xf),
        _ => None,
    }
}

/// The keypad state: which keys are down, and whether exit was asked for.
pub struct InputModel {
    pub keys: Seq<bool>,
    pub exit: bool,
}

/// Whether `key` is a keypad key that is down; other values are never down.
pub open spec fn key_down(keys: Seq<bool>, key: u8) -> bool {
    key < 16 && keys[key as int]
}

/// The keypad state after one event.
pub open spec fn event_spec(m: InputModel, event: InputEvent) -> InputModel {
    match event {
        InputEvent::Quit => InputModel { exit: true, ..m },
        InputEvent::KeyDown(code) => if code == KEYCODE_ESCAPE {
            InputModel { exit: true, ..m }
        } else {
            match keypad_key(code) {
                Some(k) => InputModel { keys: m.keys.update(k as int, true), ..m },
                None => m,
            }
        },
        InputEvent::KeyUp(code) => match keypad_key(code) {
            Some(k) => InputModel { keys: m.keys.update(k as int, false), ..m },
            None => m,
        },
    }
}

/// The keypad state after the events in order.
pub open spec fn events_spec(m: InputModel, events: Seq<InputEvent>) -> InputModel
    decreases events.len(),
{
    if events.len() == 0 {
        m
    } else {
        event_spec(events_spec(m, events.drop_last()), events.last())
    }
}

/// The 16-key keypad and the exit flag.
pub struct Input {
    should_exit: bool,
    key_states: Vec<bool>,
}

impl View for Input {
    type V = InputModel;

    closed spec fn view(&self) -> InputModel {
        InputModel { keys: self.key_states@, exit: self.should_exit }
    }
}

impl Input {
    /// One flag per keypad key.
    pub open spec fn wf(&self) -> bool {
        self@.keys.len() == KEY_COUNT
    }

    /// No key down, no exit asked for.
    pub fn init() -> (r: Input)
        ensures
            r.wf(),
            r@.keys == Seq::new(16, |k: int| false),
            !r@.exit,
    {
        let mut key_states: Vec<bool> = Vec::new();
        let mut i: usize = 0;
        while i < KEY_COUNT
            invariant
                i <= KEY_COUNT,
                key_states@ == Seq::new(i as nat, |k: int| false),
            decreases KEY_COUNT - i,
        {
            key_states.push(false);
            i = i + 1;
        }
        Input { should_exit: false, key_states }
    }

    /// Whether `key_code` is a keypad key that is down.
    pub fn is_key_pressed(&self, key_code: u8) -> (r: bool)
        requires
            self.wf(),
        ensures
            r == key_down(self@.keys, key_code),
    {
        key_code < 16 && self.key_states[key_code as usize]
    }

    /// Whether an exit was asked for.
    pub fn should_exit(&self) -> (r: bool)
        ensures
            r == self@.exit,
    {
        self.should_exit
    }

    /// Applies one event to the keypad state.
    pub fn process_event(&mut self, event: InputEvent)
        requires
            old(self).wf(),
        ensures
            final(self).wf(),
            final(self)@ == event_spec(old(self)@, event),
    {
        match event {
            InputEvent::Quit => {
                self.should_exit = true;
            },
            InputEvent::KeyDown(code) => {
                if code == KEYCODE_ESCAPE {
                    self.should_exit = true;
                } else if let Some(k) = convert_keycode_to_u8(code) {
                    self.key_states.set(k as usize, true);
                }
            },
            InputEvent::KeyUp(code) => {
                if let Some(k) = convert_keycode_to_u8(code) {
                    self.key_states.set(k as usize, false);
                }
            },
        }
    }

    /// Applies the events in order.
    pub fn process_all_events(&mut self, events: &[InputEvent])
        requires
            old(self).wf(),
        ensures
            final(self).wf(),
            final(self)@ == events_spec(old(self)@, events@),
    {
        let ghost start = self@;
        let mut i: usize = 0;
        while i < events.len()
            invariant
                i <= events@.len(),
                self.wf(),
                self@ == events_spec(start, events@.take(i as int)),
            decreases events@.len() - i,
        {
            proof {
                assert(events@.take(i + 1).drop_last() =~= events@.take(i as int));
            }
            self.process_event(events[i]);
            i = i + 1;
        }
        assert(events@.take(events@.len() as int) =~= events@);
    }
}

} // verus!
