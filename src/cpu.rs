use vstd::prelude::*;

use crate::display::{blank_screen, blend_spec, collides_spec, sprite_rows, Display, DISPLAY_SIZE};
use crate::input::{event_spec, key_down, keypad_key, Input, InputEvent, InputModel, KEY_COUNT};
use crate::instruction::{decode, decode_spec, Instruction};
use crate::timer::{lemma_ticks_saturate, tick_spec, ticked, Timers};

verus! {

/// Bytes of addressable memory.
pub const MEMORY_SIZE: usize = 4096;

/// Address at which programs are loaded and execution starts.
pub const PROGRAM_OFFSET: u16 = 0x200;

/// Address of the first font glyph.
pub const FONT_STARTING_MEMORY: u16 = 0x050;

/// Number of general-purpose registers.
pub const REGISTER_COUNT: usize = 16;

/// Index of the flag register VF.
pub const FLAG_REGISTER: u8 = 15;

/// The 16 glyphs of the hexadecimal digits, 5 rows of 4 pixels each.
pub open spec fn font_spec() -> Seq<u8> {
    seq![
        0xF0u8, 0x90, 0x90, 0x90, 0xF0, // 0
        0x20, 0x60, 0x20, 0x20, 0x70, // 1
        0xF0, 0x10, 0xF0, 0x80, 0xF0, // 2
        0xF0, 0x10, 0xF0, 0x10, 0xF0, // 3
        0x90, 0x90, 0xF0, 0x10, 0x10, // 4
        0xF0, 0x80, 0xF0, 0x10, 0xF0, // 5
        0xF0, 0x80, 0xF0, 0x90, 0xF0, // 6
        0xF0, 0x10, 0x20, 0x40, 0x40, // 7
        0xF0, 0x90, 0xF0, 0x90, 0xF0, // 8
        0xF0, 0x90, 0xF0, 0x10, 0xF0, // 9
        0xF0, 0x90, 0xF0, 0x90, 0x90, // A
        0xE0, 0x90, 0xE0, 0x90, 0xE0, // B
        0xF0, 0x80, 0x80, 0x80, 0xF0, // C
        0xE0, 0x90, 0x90, 0x90, 0xE0, // D
        0xF0, 0x80, 0xF0, 0x80, 0xF0, // E
        0xF0, 0x80, 0xF0, 0x80, 0x80, // F
    ]
}

fn font_bytes() -> (r: Vec<u8>)
    ensures
        r@ == font_spec(),
{
    let r: Vec<u8> = vec![
        0xF0, 0x90, 0x90, 0x90, 0xF0,
        0x20, 0x60, 0x20, 0x20, 0x70,
        0xF0, 0x10, 0xF0, 0x80, 0xF0,
        0xF0, 0x10, 0xF0, 0x10, 0xF0,
        0x90, 0x90, 0xF0, 0x10, 0x10,
        0xF0, 0x80, 0xF0, 0x10, 0xF0,
        0xF0, 0x80, 0xF0, 0x90, 0xF0,
        0xF0, 0x10, 0x20, 0x40, 0x40,
        0xF0, 0x90, 0xF0, 0x90, 0xF0,
        0xF0, 0x90, 0xF0, 0x10, 0xF0,
        0xF0, 0x90, 0xF0, 0x90, 0x90,
        0xE0, 0x90, 0xE0, 0x90, 0xE0,
        0xF0, 0x80, 0x80, 0x80, 0xF0,
        0xE0, 0x90, 0x90, 0x90, 0xE0,
        0xF0, 0x80, 0xF0, 0x80, 0xF0,
        0xF0, 0x80, 0xF0, 0x80, 0x80,
    ];
    assert(r@ =~= font_spec());
    r
}

/// Relies on rand::random::<u8>: a byte from the thread-local generator.
/// Nothing is assumed of its value.
#[verifier::external_body]
fn random_byte() -> (r: u8) {
    rand::random::<u8>()
}

/// Why a cycle could not be executed; each one halts the machine.
#[derive(Debug, Clone, Copy, PartialEq, Eq, Structural)]
pub enum CycleError {
    /// The fetched word encodes no instruction.
    UnknownOpcode(u16),
    /// A return was executed with an empty call stack.
    StackUnderflow,
    /// The instruction fetch, or a memory access starting at the given
    /// address, would reach past the end of memory.
    AddressOutOfRange(u16),
}

/// The whole machine state.
pub struct Chip8Model {
    pub registers: Seq<u8>,
    pub memory: Seq<u8>,
    pub pc: u16,
    pub index: u16,
    pub stack: Seq<u16>,
    pub delay: u8,
    pub sound: u8,
    pub screen: Seq<bool>,
    pub input: InputModel,
    /// The register that receives the next key press, while the machine waits for one.
    pub awaiting_key: Option<u8>,
}

impl Chip8Model {
    /// Sixteen registers, the full memory, a 12-bit index register, one flag
    /// per pixel and per key, and a waiting register that exists.
    pub open spec fn wf(self) -> bool {
        &&& self.registers.len() == REGISTER_COUNT
        &&& self.memory.len() == MEMORY_SIZE
        &&& self.index < 0x1000
        &&& self.screen.len() == DISPLAY_SIZE
        &&& self.input.keys.len() == KEY_COUNT
        &&& self.awaiting_key matches Some(x) ==> x < 16
    }

    /// The value of register `x`.
    pub open spec fn reg(self, x: u8) -> u8 {
        self.registers[x as int]
    }

    /// The state with register `x` set to `v`.
    pub open spec fn with_reg(self, x: u8, v: u8) -> Chip8Model {
        Chip8Model { registers: self.registers.update(x as int, v), ..self }
    }

    /// Skips the next instruction when `cond` holds.
    pub open spec fn skip_if(self, cond: bool) -> Chip8Model {
        if cond {
            Chip8Model { pc: (self.pc + 2) as u16, ..self }
        } else {
            self
        }
    }
}

/// Wrapping 8-bit subtraction.
#[verifier::opaque]
pub open spec fn wrapping_sub(a: u8, b: u8) -> u8 {
    ((a - b) % 256) as u8
}

/// Wrapping 8-bit addition.
#[verifier::opaque]
pub open spec fn wrapping_add(a: u8, b: u8) -> u8 {
    ((a + b) % 256) as u8
}

fn add_wrapping(a: u8, b: u8) -> (r: u8)
    ensures
        r == wrapping_add(a, b),
{
    reveal(wrapping_add);
    let sum = a as u16 + b as u16;
    if sum >= 256 {
        (sum - 256) as u8
    } else {
        sum as u8
    }
}

fn sub_wrapping(a: u8, b: u8) -> (r: u8)
    ensures
        r == wrapping_sub(a, b),
{
    reveal(wrapping_sub);
    if a >= b {
        a - b
    } else {
        (a as u16 + 256 - b as u16) as u8
    }
}

/// 1 for true, 0 for false.
pub open spec fn flag(b: bool) -> u8 {
    if b {
        1
    } else {
        0
    }
}

/// The state after executing `ins` in state `m`, whose program counter
/// already points past the instruction; or the error that halts the machine.
/// Decoding failures are reported before execution, so `Unknown` changes nothing.
pub open spec fn execute_spec(m: Chip8Model, ins: Instruction, random: u8) -> Result<
    Chip8Model,
    CycleError,
> {
    match ins {
        Instruction::ClearScreen => Ok(Chip8Model { screen: blank_screen(), ..m }),
        Instruction::DrawSprite(x, y, n) => {
            if m.index + n > MEMORY_SIZE {
                Err(CycleError::AddressOutOfRange(m.index))
            } else {
                let rows = sprite_rows(m.memory, m.index as int, n as int);
                let collided = collides_spec(m.screen, m.reg(x), m.reg(y), rows);
                Ok(
                    Chip8Model {
                        screen: blend_spec(m.screen, m.reg(x), m.reg(y), rows),
                        ..m.with_reg(FLAG_REGISTER, flag(collided))
                    },
                )
            }
        },
        Instruction::UnconditionalJump(a) => Ok(Chip8Model { pc: a, ..m }),
        Instruction::UnconditionalJumpWithOffset(a) => Ok(
            Chip8Model { pc: (m.reg(0) + a) as u16, ..m },
        ),
        Instruction::SetVxToIntermediate(x, kk) => Ok(m.with_reg(x, kk)),
        Instruction::AddIntermediateToVx(x, kk) => Ok(m.with_reg(x, wrapping_add(m.reg(x), kk))),
        Instruction::SetIndexRegisterToIntermediate(a) => Ok(Chip8Model { index: a, ..m }),
        Instruction::SkipIfKeyPressedVx(x) => Ok(m.skip_if(key_down(m.input.keys, m.reg(x)))),
        Instruction::SkipIfKeyNotPressedVx(x) => Ok(m.skip_if(!key_down(m.input.keys, m.reg(x)))),
        Instruction::AwaitKeyPressVx(x) => Ok(Chip8Model { awaiting_key: Some(x), ..m }),
        Instruction::ReturnFromSubroutine => {
            if m.stack.len() == 0 {
                Err(CycleError::StackUnderflow)
            } else {
                Ok(Chip8Model { pc: m.stack.last(), stack: m.stack.drop_last(), ..m })
            }
        },
        Instruction::CallSubroutine(a) => Ok(Chip8Model { pc: a, stack: m.stack.push(m.pc), ..m }),
        Instruction::SkipIfVxIsIntermediate(x, kk) => Ok(m.skip_if(m.reg(x) == kk)),
        Instruction::SkipIfVxIsNotIntermediate(x, kk) => Ok(m.skip_if(m.reg(x) != kk)),
        Instruction::SkipIfVxIsNotVy(x, y) => Ok(m.skip_if(m.reg(x) != m.reg(y))),
        Instruction::SkipIfVxIsVy(x, y) => Ok(m.skip_if(m.reg(x) == m.reg(y))),
        Instruction::SetVxToVy(x, y) => Ok(m.with_reg(x, m.reg(y))),
        Instruction::BitwiseOrVyToVx(x, y) => Ok(m.with_reg(x, m.reg(x) | m.reg(y))),
        Instruction::BitwiseAndVyToVx(x, y) => Ok(m.with_reg(x, m.reg(x) & m.reg(y))),
        Instruction::BitwiseXorVyToVx(x, y) => Ok(m.with_reg(x, m.reg(x) ^ m.reg(y))),
        Instruction::AddVyToVx(x, y) => Ok(
            m.with_reg(x, wrapping_add(m.reg(x), m.reg(y))).with_reg(
                FLAG_REGISTER,
                flag(m.reg(x) + m.reg(y) > 255),
            ),
        ),
        Instruction::SubtractVyFromVx(x, y) => Ok(
            m.with_reg(x, wrapping_sub(m.reg(x), m.reg(y))).with_reg(
                FLAG_REGISTER,
                flag(m.reg(x) >= m.reg(y)),
            ),
        ),
        Instruction::StoreLSBfromVxInVf(x) => {
            let m1 = m.with_reg(FLAG_REGISTER, m.reg(x) % 2);
            Ok(m1.with_reg(x, m1.reg(x) / 2))
        },
        Instruction::StoreMSBfromVxInVf(x) => {
            let m1 = m.with_reg(FLAG_REGISTER, m.reg(x) / 128);
            Ok(m1.with_reg(x, ((m1.reg(x) * 2) % 256) as u8))
        },
        Instruction::SetVxToVyMinusVx(x, y) => Ok(
            m.with_reg(x, wrapping_sub(m.reg(y), m.reg(x))).with_reg(
                FLAG_REGISTER,
                flag(m.reg(y) >= m.reg(x)),
            ),
        ),
        Instruction::GenerateRandomNumberWithCap(x, kk) => Ok(m.with_reg(x, random & kk)),
        Instruction::SetVxToDelayTimer(x) => Ok(m.with_reg(x, m.delay)),
        Instruction::SetDelayTimerToVx(x) => Ok(Chip8Model { delay: m.reg(x), ..m }),
        Instruction::SetSoundTimerToVx(x) => Ok(Chip8Model { sound: m.reg(x), ..m }),
        Instruction::AddVxToI(x) => {
            let sum = m.index + m.reg(x);
            if sum >= 0x1000 {
                Ok(Chip8Model { index: (sum % 0x1000) as u16, ..m }.with_reg(FLAG_REGISTER, 1))
            } else {
                Ok(Chip8Model { index: sum as u16, ..m }.with_reg(FLAG_REGISTER, 0))
            }
        },
        Instruction::SetIToSpriteLocation(x) => Ok(
            Chip8Model { index: (FONT_STARTING_MEMORY + m.reg(x) * 5) as u16, ..m },
        ),
        Instruction::StoreVxAsBCDInI(x) => {
            if m.index + 3 > MEMORY_SIZE {
                Err(CycleError::AddressOutOfRange(m.index))
            } else {
                let v = m.reg(x);
                let i = m.index as int;
                Ok(
                    Chip8Model {
                        memory: m.memory.update(i, v / 100).update(i + 1, (v % 100) / 10).update(
                            i + 2,
                            v % 10,
                        ),
                        ..m
                    },
                )
            }
        },
        Instruction::DumpRegisters(x) => {
            if m.index + x + 1 > MEMORY_SIZE {
                Err(CycleError::AddressOutOfRange(m.index))
            } else {
                Ok(
                    Chip8Model {
                        memory: Seq::new(
                            m.memory.len(),
                            |a: int|
                                if m.index <= a <= m.index + x {
                                    m.registers[a - m.index]
                                } else {
                                    m.memory[a]
                                },
                        ),
                        ..m
                    },
                )
            }
        },
        Instruction::LoadRegisters(x) => {
            if m.index + x + 1 > MEMORY_SIZE {
                Err(CycleError::AddressOutOfRange(m.index))
            } else {
                Ok(
                    Chip8Model {
                        registers: Seq::new(
                            m.registers.len(),
                            |k: int|
                                if k <= x {
                                    m.memory[m.index + k]
                                } else {
                                    m.registers[k]
                                },
                        ),
                        ..m
                    },
                )
            }
        },
        Instruction::Unknown => Ok(m),
    }
}

/// The big-endian instruction word at address `pc`.
pub open spec fn fetch_spec(m: Chip8Model) -> u16 {
    (m.memory[m.pc as int] * 256 + m.memory[m.pc + 1]) as u16
}

/// One fetch/decode/execute cycle. While the machine waits for a key press
/// nothing happens.
pub open spec fn step_spec(m: Chip8Model, random: u8) -> Result<Chip8Model, CycleError> {
    if m.awaiting_key is Some {
        Ok(m)
    } else if m.pc + 1 >= MEMORY_SIZE {
        Err(CycleError::AddressOutOfRange(m.pc))
    } else {
        let w = fetch_spec(m);
        if decode_spec(w) is Unknown {
            Err(CycleError::UnknownOpcode(w))
        } else {
            execute_spec(Chip8Model { pc: (m.pc + 2) as u16, ..m }, decode_spec(w), random)
        }
    }
}

/// A run that returned `r` went from `before` to `after` as `expected` says:
/// on success `after` is the expected state, on failure the error is the
/// expected one and nothing changed.
pub open spec fn outcome_matches(
    expected: Result<Chip8Model, CycleError>,
    before: Chip8Model,
    after: Chip8Model,
    r: Result<(), CycleError>,
) -> bool {
    match r {
        Ok(_) => expected == Ok::<Chip8Model, CycleError>(after),
        Err(e) => expected == Err::<Chip8Model, CycleError>(e) && after == before,
    }
}

/// The state after one input event: the keypad takes it, and a key press
/// ends a wait for a key, storing the key in the waiting register.
pub open spec fn chip_event_spec(m: Chip8Model, event: InputEvent) -> Chip8Model {
    let m1 = Chip8Model { input: event_spec(m.input, event), ..m };
    match (event, m.awaiting_key) {
        (InputEvent::KeyDown(code), Some(x)) => match keypad_key(code) {
            Some(k) => Chip8Model { awaiting_key: None, ..m1.with_reg(x, k) },
            None => m1,
        },
        _ => m1,
    }
}

/// The state after the events in order.
pub open spec fn chip_events_spec(m: Chip8Model, events: Seq<InputEvent>) -> Chip8Model
    decreases events.len(),
{
    if events.len() == 0 {
        m
    } else {
        chip_event_spec(chip_events_spec(m, events.drop_last()), events.last())
    }
}

/// `memory` with the font glyphs written from 0x050 on.
pub open spec fn with_font(memory: Seq<u8>) -> Seq<u8> {
    Seq::new(
        memory.len(),
        |a: int|
            if FONT_STARTING_MEMORY <= a < FONT_STARTING_MEMORY + 80 {
                font_spec()[a - FONT_STARTING_MEMORY]
            } else {
                memory[a]
            },
    )
}

/// The memory of a freshly started machine: zeros, and the font glyphs from 0x050.
pub open spec fn initial_memory() -> Seq<u8> {
    with_font(Seq::new(MEMORY_SIZE as nat, |a: int| 0u8))
}

/// The memory after loading `program`: its bytes from 0x200 on, as many as fit.
pub open spec fn loaded_memory(memory: Seq<u8>, program: Seq<u8>) -> Seq<u8> {
    Seq::new(
        memory.len(),
        |a: int|
            if PROGRAM_OFFSET <= a < PROGRAM_OFFSET + program.len() {
                program[a - PROGRAM_OFFSET]
            } else {
                memory[a]
            },
    )
}

/// The CPU core with its memory, framebuffer, keypad and timers.
pub struct Chip8 {
    data_registers: Vec<u8>,
    memory: Vec<u8>,
    program_counter: u16,
    index_register: u16,
    stack: Vec<u16>,
    timers: Timers,
    display: Display,
    input: Input,
    awaiting_key: Option<u8>,
}

impl View for Chip8 {
    type V = Chip8Model;

    closed spec fn view(&self) -> Chip8Model {
        Chip8Model {
            registers: self.data_registers@,
            memory: self.memory@,
            pc: self.program_counter,
            index: self.index_register,
            stack: self.stack@,
            delay: self.timers.delay,
            sound: self.timers.sound,
            screen: self.display@,
            input: self.input@,
            awaiting_key: self.awaiting_key,
        }
    }
}

impl Chip8 {
    /// The registers, memory, framebuffer and keypad are all as the model says.
    pub open spec fn wf(&self) -> bool {
        self@.wf()
    }

    /// A machine with zeroed registers and memory, the font glyphs in place,
    /// a blank screen, no key down and execution set to start at 0x200.
    pub fn init() -> (r: Chip8)
        ensures
            r.wf(),
            r@ == (Chip8Model {
                registers: Seq::new(16, |k: int| 0u8),
                memory: initial_memory(),
                pc: PROGRAM_OFFSET,
                index: 0,
                stack: Seq::empty(),
                delay: 0,
                sound: 0,
                screen: blank_screen(),
                input: InputModel { keys: Seq::new(16, |k: int| false), exit: false },
                awaiting_key: None,
            }),
    {
        let mut data_registers: Vec<u8> = Vec::new();
        let mut i: usize = 0;
        while i < REGISTER_COUNT
            invariant
                i <= REGISTER_COUNT,
                data_registers@ == Seq::new(i as nat, |k: int| 0u8),
            decreases REGISTER_COUNT - i,
        {
            data_registers.push(0);
            i = i + 1;
        }
        let mut memory: Vec<u8> = Vec::new();
        let mut a: usize = 0;
        while a < MEMORY_SIZE
            invariant
                a <= MEMORY_SIZE,
                memory@ == Seq::new(a as nat, |k: int| 0u8),
            decreases MEMORY_SIZE - a,
        {
            memory.push(0);
            a = a + 1;
        }
        let mut chip = Chip8 {
            data_registers,
            memory,
            program_counter: PROGRAM_OFFSET,
            index_register: 0,
            stack: Vec::new(),
            timers: Timers::init(),
            display: Display::init(),
            input: Input::init(),
            awaiting_key: None,
        };
        chip.setup_fonts();
        assert(chip.memory@ =~= initial_memory());
        chip
    }

    fn setup_fonts(&mut self)
        requires
            old(self).memory@.len() == MEMORY_SIZE,
        ensures
            final(self)@ == (Chip8Model { memory: with_font(old(self)@.memory), ..old(self)@ }),
    {
        let fonts = font_bytes();
        let ghost start = self@;
        let ghost before = self.memory@;
        let mut i: usize = 0;
        while i < fonts.len()
            invariant
                self@ == (Chip8Model { memory: self.memory@, ..start }),
                fonts@ == font_spec(),
                i <= fonts@.len(),
                self.memory@.len() == MEMORY_SIZE,
                forall|a: int|
                    0 <= a < MEMORY_SIZE ==> #[trigger] self.memory@[a] == if FONT_STARTING_MEMORY
                        <= a < FONT_STARTING_MEMORY + i {
                        font_spec()[a - FONT_STARTING_MEMORY]
                    } else {
                        before[a]
                    },
            decreases fonts@.len() - i,
        {
            self.memory.set(FONT_STARTING_MEMORY as usize + i, fonts[i]);
            i = i + 1;
        }
        assert(self.memory@ =~= with_font(before));
    }

    /// Copies `program` into memory from 0x200 on and starts execution there.
    /// Bytes that do not fit below the end of memory are ignored.
    pub fn load_program(&mut self, program: &[u8])
        requires
            old(self).wf(),
        ensures
            final(self).wf(),
            final(self)@ == (Chip8Model {
                memory: loaded_memory(old(self)@.memory, program@),
                pc: PROGRAM_OFFSET,
                ..old(self)@
            }),
    {
        let ghost before = self.memory@;
        let ghost start = self@;
        let mut i: usize = 0;
        while i < program.len() && i < MEMORY_SIZE - PROGRAM_OFFSET as usize
            invariant
                start.wf(),
                self@ == (Chip8Model { memory: self.memory@, ..start }),
                i <= program@.len(),
                i <= MEMORY_SIZE - PROGRAM_OFFSET,
                self.memory@.len() == MEMORY_SIZE,
                before.len() == MEMORY_SIZE,
                forall|a: int|
                    0 <= a < MEMORY_SIZE ==> #[trigger] self.memory@[a] == if PROGRAM_OFFSET <= a
                        < PROGRAM_OFFSET + i {
                        program@[a - PROGRAM_OFFSET]
                    } else {
                        before[a]
                    },
            decreases program@.len() - i,
        {
            self.memory.set(PROGRAM_OFFSET as usize + i, program[i]);
            i = i + 1;
        }
        assert(self.memory@ =~= loaded_memory(before, program@));
        self.program_counter = PROGRAM_OFFSET;
    }

    fn reg(&self, x: u8) -> (r: u8)
        requires
            self.wf(),
            x < 16,
        ensures
            r == self@.reg(x),
    {
        self.data_registers[x as usize]
    }

    fn set_reg(&mut self, x: u8, v: u8)
        requires
            old(self).wf(),
            x < 16,
        ensures
            final(self).wf(),
            final(self)@ == old(self)@.with_reg(x, v),
    {
        self.data_registers.set(x as usize, v);
    }

    fn skip_if(&mut self, cond: bool)
        requires
            old(self).wf(),
            old(self)@.pc <= MEMORY_SIZE,
        ensures
            final(self).wf(),
            final(self)@ == old(self)@.skip_if(cond),
    {
        if cond {
            self.program_counter = self.program_counter + 2;
        }
    }

    fn dump_registers(&mut self, x: u8)
        requires
            old(self).wf(),
            x < 16,
            old(self)@.index + x + 1 <= MEMORY_SIZE,
        ensures
            final(self).wf(),
            execute_spec(old(self)@, Instruction::DumpRegisters(x), 0) == Ok::<
                Chip8Model,
                CycleError,
            >(final(self)@),
    {
        let ghost start = self@;
        let base = self.index_register as usize;
        let mut k: usize = 0;
        while k <= x as usize
            invariant
                start.wf(),
                x < 16,
                base == start.index,
                base + x + 1 <= MEMORY_SIZE,
                k <= x + 1,
                self@ == (Chip8Model { memory: self.memory@, ..start }),
                self.memory@.len() == MEMORY_SIZE,
                forall|a: int|
                    0 <= a < MEMORY_SIZE ==> #[trigger] self.memory@[a] == if base <= a < base
                        + k {
                        start.registers[a - base]
                    } else {
                        start.memory[a]
                    },
            decreases x + 1 - k,
        {
            let v = self.data_registers[k];
            self.memory.set(base + k, v);
            k = k + 1;
        }
        proof {
            let expected = Seq::new(
                start.memory.len(),
                |a: int|
                    if start.index <= a <= start.index + x {
                        start.registers[a - start.index]
                    } else {
                        start.memory[a]
                    },
            );
            assert(self.memory@ =~= expected);
        }
    }

    fn load_registers(&mut self, x: u8)
        requires
            old(self).wf(),
            x < 16,
            old(self)@.index + x + 1 <= MEMORY_SIZE,
        ensures
            final(self).wf(),
            execute_spec(old(self)@, Instruction::LoadRegisters(x), 0) == Ok::<
                Chip8Model,
                CycleError,
            >(final(self)@),
    {
        let ghost start = self@;
        let base = self.index_register as usize;
        let mut k: usize = 0;
        while k <= x as usize
            invariant
                start.wf(),
                x < 16,
                base == start.index,
                base + x + 1 <= MEMORY_SIZE,
                k <= x + 1,
                self@ == (Chip8Model { registers: self.data_registers@, ..start }),
                self.data_registers@.len() == REGISTER_COUNT,
                forall|r: int|
                    0 <= r < REGISTER_COUNT ==> #[trigger] self.data_registers@[r] == if r < k {
                        start.memory[base + r]
                    } else {
                        start.registers[r]
                    },
            decreases x + 1 - k,
        {
            let v = self.memory[base + k];
            self.data_registers.set(k, v);
            k = k + 1;
        }
        proof {
            let expected = Seq::new(
                start.registers.len(),
                |r: int|
                    if r <= x {
                        start.memory[start.index + r]
                    } else {
                        start.registers[r]
                    },
            );
            assert(self.data_registers@ =~= expected);
        }
    }

    /// Executes an instruction that jumps, calls, returns, skips or waits.
    fn execute_control(&mut self, instruction: Instruction, random: u8) -> (r: Result<(), CycleError>)
        requires
            old(self).wf(),
            instruction.wf(),
            old(self)@.pc <= MEMORY_SIZE,
            instruction is UnconditionalJump || instruction is UnconditionalJumpWithOffset || instruction is SkipIfKeyPressedVx || instruction is SkipIfKeyNotPressedVx || instruction is AwaitKeyPressVx || instruction is ReturnFromSubroutine || instruction is CallSubroutine || instruction is SkipIfVxIsIntermediate || instruction is SkipIfVxIsNotIntermediate || instruction is SkipIfVxIsNotVy || instruction is SkipIfVxIsVy,
        ensures
            final(self).wf(),
            outcome_matches(
                execute_spec(old(self)@, instruction, random),
                old(self)@,
                final(self)@,
                r,
            ),
    {
        match instruction {
            Instruction::UnconditionalJump(address) => {
                self.program_counter = address;
            },
            Instruction::UnconditionalJumpWithOffset(address) => {
                self.program_counter = self.reg(0) as u16 + address;
            },
            Instruction::SkipIfKeyPressedVx(x) => {
                let pressed = self.input.is_key_pressed(self.reg(x));
                self.skip_if(pressed);
            },
            Instruction::SkipIfKeyNotPressedVx(x) => {
                let pressed = self.input.is_key_pressed(self.reg(x));
                self.skip_if(!pressed);
            },
            Instruction::AwaitKeyPressVx(x) => {
                self.awaiting_key = Some(x);
            },
            Instruction::ReturnFromSubroutine => {
                match self.stack.pop() {
                    Some(address) => {
                        self.program_counter = address;
                    },
                    None => {
                        return Err(CycleError::StackUnderflow);
                    },
                }
            },
            Instruction::CallSubroutine(address) => {
                self.stack.push(self.program_counter);
                self.program_counter = address;
            },
            Instruction::SkipIfVxIsIntermediate(x, kk) => {
                let v = self.reg(x);
                self.skip_if(v == kk);
            },
            Instruction::SkipIfVxIsNotIntermediate(x, kk) => {
                let v = self.reg(x);
                self.skip_if(v != kk);
            },
            Instruction::SkipIfVxIsNotVy(x, y) => {
                let vx = self.reg(x);
                let vy = self.reg(y);
                self.skip_if(vx != vy);
            },
            Instruction::SkipIfVxIsVy(x, y) => {
                let vx = self.reg(x);
                let vy = self.reg(y);
                self.skip_if(vx == vy);
            },
            _ => {},
        }
        Ok(())
    }

    /// Executes an instruction that sets a register without arithmetic.
    fn execute_logic(&mut self, instruction: Instruction, random: u8) -> (r: Result<(), CycleError>)
        requires
            old(self).wf(),
            instruction.wf(),
            old(self)@.pc <= MEMORY_SIZE,
            instruction is SetVxToIntermediate || instruction is SetVxToVy || instruction is BitwiseOrVyToVx || instruction is BitwiseAndVyToVx || instruction is BitwiseXorVyToVx || instruction is GenerateRandomNumberWithCap,
        ensures
            final(self).wf(),
            outcome_matches(
                execute_spec(old(self)@, instruction, random),
                old(self)@,
                final(self)@,
                r,
            ),
    {
        match instruction {
            Instruction::SetVxToIntermediate(x, kk) => {
                self.set_reg(x, kk);
            },
            Instruction::SetVxToVy(x, y) => {
                let vy = self.reg(y);
                self.set_reg(x, vy);
            },
            Instruction::BitwiseOrVyToVx(x, y) => {
                let vx = self.reg(x);
                let vy = self.reg(y);
                self.set_reg(x, vx | vy);
            },
            Instruction::BitwiseAndVyToVx(x, y) => {
                let vx = self.reg(x);
                let vy = self.reg(y);
                self.set_reg(x, vx & vy);
            },
            Instruction::BitwiseXorVyToVx(x, y) => {
                let vx = self.reg(x);
                let vy = self.reg(y);
                self.set_reg(x, vx ^ vy);
            },
            Instruction::GenerateRandomNumberWithCap(x, kk) => {
                self.set_reg(x, random & kk);
            },
            _ => {},
        }
        Ok(())
    }

    /// Executes an 8-bit addition or subtraction.
    fn execute_arithmetic(&mut self, instruction: Instruction, random: u8) -> (r: Result<(), CycleError>)
        requires
            old(self).wf(),
            instruction.wf(),
            old(self)@.pc <= MEMORY_SIZE,
            instruction is AddIntermediateToVx || instruction is AddVyToVx || instruction is SubtractVyFromVx || instruction is SetVxToVyMinusVx,
        ensures
            final(self).wf(),
            outcome_matches(
                execute_spec(old(self)@, instruction, random),
                old(self)@,
                final(self)@,
                r,
            ),
    {
        match instruction {
            Instruction::AddIntermediateToVx(x, kk) => {
                let v = self.reg(x);
                self.set_reg(x, add_wrapping(v, kk));
            },
            Instruction::AddVyToVx(x, y) => {
                let vx = self.reg(x);
                let vy = self.reg(y);
                self.set_reg(x, add_wrapping(vx, vy));
                self.set_reg(FLAG_REGISTER, if vx as u16 + vy as u16 > 255 { 1 } else { 0 });
            },
            Instruction::SubtractVyFromVx(x, y) => {
                let vx = self.reg(x);
                let vy = self.reg(y);
                self.set_reg(x, sub_wrapping(vx, vy));
                self.set_reg(FLAG_REGISTER, if vx >= vy { 1 } else { 0 });
            },
            Instruction::SetVxToVyMinusVx(x, y) => {
                let vx = self.reg(x);
                let vy = self.reg(y);
                self.set_reg(x, sub_wrapping(vy, vx));
                self.set_reg(FLAG_REGISTER, if vy >= vx { 1 } else { 0 });
            },
            _ => {},
        }
        Ok(())
    }

    /// Executes a one-bit shift of a register.
    fn execute_shift(&mut self, instruction: Instruction, random: u8) -> (r: Result<(), CycleError>)
        requires
            old(self).wf(),
            instruction.wf(),
            old(self)@.pc <= MEMORY_SIZE,
            instruction is StoreLSBfromVxInVf || instruction is StoreMSBfromVxInVf,
        ensures
            final(self).wf(),
            outcome_matches(
                execute_spec(old(self)@, instruction, random),
                old(self)@,
                final(self)@,
                r,
            ),
    {
        match instruction {
            Instruction::StoreLSBfromVxInVf(x) => {
                let vx = self.reg(x);
                self.set_reg(FLAG_REGISTER, vx % 2);
                let shifted = self.reg(x);
                self.set_reg(x, shifted / 2);
            },
            Instruction::StoreMSBfromVxInVf(x) => {
                let vx = self.reg(x);
                self.set_reg(FLAG_REGISTER, vx / 128);
                let shifted = self.reg(x);
                self.set_reg(x, (shifted as u16 * 2 % 256) as u8);
            },
            _ => {},
        }
        Ok(())
    }

    /// Executes an instruction that works on the screen, memory, index register or timers.
    fn execute_memory(&mut self, instruction: Instruction, random: u8) -> (r: Result<(), CycleError>)
        requires
            old(self).wf(),
            instruction.wf(),
            old(self)@.pc <= MEMORY_SIZE,
            instruction is ClearScreen || instruction is DrawSprite || instruction is SetIndexRegisterToIntermediate || instruction is SetVxToDelayTimer || instruction is SetDelayTimerToVx || instruction is SetSoundTimerToVx || instruction is AddVxToI || instruction is SetIToSpriteLocation || instruction is StoreVxAsBCDInI || instruction is DumpRegisters || instruction is LoadRegisters,
        ensures
            final(self).wf(),
            outcome_matches(
                execute_spec(old(self)@, instruction, random),
                old(self)@,
                final(self)@,
                r,
            ),
    {
        match instruction {
            Instruction::ClearScreen => {
                self.display.clear_screen();
            },
            Instruction::DrawSprite(x, y, n) => {
                if self.index_register as usize + n as usize > MEMORY_SIZE {
                    return Err(CycleError::AddressOutOfRange(self.index_register));
                }
                let vx = self.reg(x);
                let vy = self.reg(y);
                let collided = self.display.blend_sprite(
                    vx,
                    vy,
                    n,
                    self.index_register,
                    self.memory.as_slice(),
                );
                self.set_reg(FLAG_REGISTER, if collided { 1 } else { 0 });
            },
            Instruction::SetIndexRegisterToIntermediate(address) => {
                self.index_register = address;
            },
            Instruction::SetVxToDelayTimer(x) => {
                let delay = self.timers.get_delay();
                self.set_reg(x, delay);
            },
            Instruction::SetDelayTimerToVx(x) => {
                let v = self.reg(x);
                self.timers.set_delay(v);
            },
            Instruction::SetSoundTimerToVx(x) => {
                let v = self.reg(x);
                self.timers.set_sound(v);
            },
            Instruction::AddVxToI(x) => {
                let sum = self.index_register + self.reg(x) as u16;
                if sum >= 0x1000 {
                    self.index_register = sum % 0x1000;
                    self.set_reg(FLAG_REGISTER, 1);
                } else {
                    self.index_register = sum;
                    self.set_reg(FLAG_REGISTER, 0);
                }
            },
            Instruction::SetIToSpriteLocation(x) => {
                self.index_register = FONT_STARTING_MEMORY + self.reg(x) as u16 * 5;
            },
            Instruction::StoreVxAsBCDInI(x) => {
                if self.index_register as usize + 3 > MEMORY_SIZE {
                    return Err(CycleError::AddressOutOfRange(self.index_register));
                }
                let v = self.reg(x);
                let i = self.index_register as usize;
                self.memory.set(i, v / 100);
                self.memory.set(i + 1, (v % 100) / 10);
                self.memory.set(i + 2, v % 10);
            },
            Instruction::DumpRegisters(x) => {
                if self.index_register as usize + x as usize + 1 > MEMORY_SIZE {
                    return Err(CycleError::AddressOutOfRange(self.index_register));
                }
                self.dump_registers(x);
            },
            Instruction::LoadRegisters(x) => {
                if self.index_register as usize + x as usize + 1 > MEMORY_SIZE {
                    return Err(CycleError::AddressOutOfRange(self.index_register));
                }
                self.load_registers(x);
            },
            _ => {},
        }
        Ok(())
    }

    /// Executes one decoded instruction; the program counter already points
    /// past it.
    fn execute(&mut self, instruction: Instruction, random: u8) -> (r: Result<(), CycleError>)
        requires
            old(self).wf(),
            instruction.wf(),
            old(self)@.pc <= MEMORY_SIZE,
        ensures
            final(self).wf(),
            outcome_matches(
                execute_spec(old(self)@, instruction, random),
                old(self)@,
                final(self)@,
                r,
            ),
    {
        match instruction {
            Instruction::UnconditionalJump(..) | Instruction::UnconditionalJumpWithOffset(..) | Instruction::SkipIfKeyPressedVx(..) | Instruction::SkipIfKeyNotPressedVx(..) | Instruction::AwaitKeyPressVx(..) | Instruction::ReturnFromSubroutine | Instruction::CallSubroutine(..) | Instruction::SkipIfVxIsIntermediate(..) | Instruction::SkipIfVxIsNotIntermediate(..) | Instruction::SkipIfVxIsNotVy(..) | Instruction::SkipIfVxIsVy(..) => self.execute_control(instruction, random),
            Instruction::SetVxToIntermediate(..) | Instruction::SetVxToVy(..) | Instruction::BitwiseOrVyToVx(..) | Instruction::BitwiseAndVyToVx(..) | Instruction::BitwiseXorVyToVx(..) | Instruction::GenerateRandomNumberWithCap(..) => self.execute_logic(instruction, random),
            Instruction::AddIntermediateToVx(..) | Instruction::AddVyToVx(..) | Instruction::SubtractVyFromVx(..) | Instruction::SetVxToVyMinusVx(..) => self.execute_arithmetic(instruction, random),
            Instruction::StoreLSBfromVxInVf(..) | Instruction::StoreMSBfromVxInVf(..) => self.execute_shift(instruction, random),
            Instruction::Unknown => Ok(()),
            _ => self.execute_memory(instruction, random),
        }
    }

    /// One fetch/decode/execute cycle, with `random` as the byte that a
    /// random-number instruction draws. On failure nothing changes.
    pub fn emulate_cycle_with_random(&mut self, random: u8) -> (r: Result<(), CycleError>)
        requires
            old(self).wf(),
        ensures
            final(self).wf(),
            outcome_matches(step_spec(old(self)@, random), old(self)@, final(self)@, r),
    {
        if let Some(_) = self.awaiting_key {
            return Ok(());
        }
        let pc = self.program_counter;
        if pc as usize + 1 >= MEMORY_SIZE {
            return Err(CycleError::AddressOutOfRange(pc));
        }
        let instruction = self.memory[pc as usize] as u16 * 256 + self.memory[pc as usize
            + 1] as u16;
        let decoded = decode(instruction);
        if let Instruction::Unknown = decoded {
            return Err(CycleError::UnknownOpcode(instruction));
        }
        self.program_counter = pc + 2;
        let r = self.execute(decoded, random);
        if let Err(_) = r {
            self.program_counter = pc;
        }
        r
    }

    /// One fetch/decode/execute cycle; a random-number instruction draws its
    /// byte from the thread-local generator. On failure nothing changes.
    pub fn emulate_cycle(&mut self) -> (r: Result<(), CycleError>)
        requires
            old(self).wf(),
        ensures
            final(self).wf(),
            exists|random: u8|
                outcome_matches(
                    #[trigger] step_spec(old(self)@, random),
                    old(self)@,
                    final(self)@,
                    r,
                ),
    {
        let random = random_byte();
        self.emulate_cycle_with_random(random)
    }

    /// Hands one input event to the keypad; a key press also ends a wait for a key.
    pub fn process_event(&mut self, event: InputEvent)
        requires
            old(self).wf(),
        ensures
            final(self).wf(),
            final(self)@ == chip_event_spec(old(self)@, event),
    {
        self.input.process_event(event);
        if let InputEvent::KeyDown(code) = event {
            if let Some(x) = self.awaiting_key {
                if let Some(k) = crate::input::convert_keycode_to_u8(code) {
                    self.set_reg(x, k);
                    self.awaiting_key = None;
                }
            }
        }
    }

    /// Hands the input events to the machine in order.
    pub fn process_events(&mut self, events: &[InputEvent])
        requires
            old(self).wf(),
        ensures
            final(self).wf(),
            final(self)@ == chip_events_spec(old(self)@, events@),
    {
        let ghost start = self@;
        let mut i: usize = 0;
        while i < events.len()
            invariant
                i <= events@.len(),
                self.wf(),
                self@ == chip_events_spec(start, events@.take(i as int)),
            decreases events@.len() - i,
        {
            proof {
                assert(events@.take(i + 1).drop_last() =~= events@.take(i as int));
            }
            self.process_event(events[i]);
            i = i + 1;
        }
        assert(events@.take(events@.len() as int) =~= events@);
    }

    /// One 60 Hz tick of the delay and sound timers.
    pub fn tick_timers(&mut self)
        requires
            old(self).wf(),
        ensures
            final(self).wf(),
            final(self)@ == (Chip8Model {
                delay: tick_spec(old(self)@.delay),
                sound: tick_spec(old(self)@.sound),
                ..old(self)@
            }),
    {
        self.timers.tick();
    }

    /// `n` ticks of the delay and sound timers, one after the other.
    pub fn tick_timers_by(&mut self, n: u64)
        requires
            old(self).wf(),
        ensures
            final(self).wf(),
            final(self)@ == (Chip8Model {
                delay: ticked(old(self)@.delay, n as nat),
                sound: ticked(old(self)@.sound, n as nat),
                ..old(self)@
            }),
            final(self)@.delay == if n <= old(self)@.delay {
                old(self)@.delay - n
            } else {
                0
            },
            final(self)@.sound == if n <= old(self)@.sound {
                old(self)@.sound - n
            } else {
                0
            },
    {
        let ghost start = self@;
        let mut i: u64 = 0;
        while i < n
            invariant
                i <= n,
                self.wf(),
                self@ == (Chip8Model {
                    delay: ticked(start.delay, i as nat),
                    sound: ticked(start.sound, i as nat),
                    ..start
                }),
            decreases n - i,
        {
            self.tick_timers();
            i = i + 1;
        }
        proof {
            lemma_ticks_saturate(start.delay, n as nat);
            lemma_ticks_saturate(start.sound, n as nat);
        }
    }

    /// Whether an exit was asked for.
    pub fn should_exit(&self) -> (r: bool)
        ensures
            r == self@.input.exit,
    {
        self.input.should_exit()
    }

    /// Whether the machine waits for a key press.
    pub fn is_awaiting_key(&self) -> (r: bool)
        ensures
            r == self@.awaiting_key is Some,
    {
        if let Some(_) = self.awaiting_key {
            true
        } else {
            false
        }
    }

    /// The value of register `x`.
    pub fn register(&self, x: u8) -> (r: u8)
        requires
            self.wf(),
            x < 16,
        ensures
            r == self@.reg(x),
    {
        self.reg(x)
    }

    /// The byte at `address`.
    pub fn memory_at(&self, address: u16) -> (r: u8)
        requires
            self.wf(),
            address < MEMORY_SIZE,
        ensures
            r == self@.memory[address as int],
    {
        self.memory[address as usize]
    }

    pub fn program_counter(&self) -> (r: u16)
        ensures
            r == self@.pc,
    {
        self.program_counter
    }

    pub fn index_register(&self) -> (r: u16)
        ensures
            r == self@.index,
    {
        self.index_register
    }

    /// Number of return addresses on the call stack.
    pub fn stack_depth(&self) -> (r: usize)
        ensures
            r == self@.stack.len(),
    {
        self.stack.len()
    }

    pub fn delay_timer(&self) -> (r: u8)
        ensures
            r == self@.delay,
    {
        self.timers.get_delay()
    }

    pub fn sound_timer(&self) -> (r: u8)
        ensures
            r == self@.sound,
    {
        self.timers.get_sound()
    }

    /// The framebuffer, for presentation.
    pub fn display(&self) -> (r: &Display)
        ensures
            r@ == self@.screen,
    {
        &self.display
    }

    /// The keypad state.
    pub fn input(&self) -> (r: &Input)
        ensures
            r@ == self@.input,
    {
        &self.input
    }
}

} // verus!
