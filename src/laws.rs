use vstd::prelude::*;

use crate::cpu::{
    execute_spec, flag, font_spec, wrapping_add, wrapping_sub, Chip8Model, FLAG_REGISTER,
    FONT_STARTING_MEMORY,
};
use crate::cpu::{fetch_spec, step_spec, MEMORY_SIZE};
use crate::display::{blend_spec, lemma_blend_involution, sprite_rows};
use crate::instruction::{decode_spec, Instruction};

verus! {

/// Adding an immediate to a register stores the old value plus the
/// immediate modulo 256, and leaves every other register as it was.
pub proof fn lemma_add_intermediate_wraps(m: Chip8Model, x: u8, kk: u8, random: u8)
    requires
        m.wf(),
        x < 16,
    ensures
        ({
            let r = execute_spec(m, Instruction::AddIntermediateToVx(x, kk), random);
            &&& r is Ok
            &&& r->Ok_0.registers[x as int] == (m.registers[x as int] + kk) % 256
            &&& forall|k: int|
                0 <= k < 16 && k != x ==> r->Ok_0.registers[k] == m.registers[k]
        }),
{
    reveal(wrapping_add);
}

/// Both subtractions wrap modulo 256 and set VF to 1 exactly when no
/// borrow occurred, that is when the minuend is at least the subtrahend.
pub proof fn lemma_subtract_flag_is_no_borrow(m: Chip8Model, x: u8, y: u8, random: u8)
    requires
        m.wf(),
        x < 16,
        y < 16,
    ensures
        ({
            let r = execute_spec(m, Instruction::SubtractVyFromVx(x, y), random);
            &&& r is Ok
            &&& r->Ok_0.registers[FLAG_REGISTER as int] == flag(m.reg(x) >= m.reg(y))
            &&& x != FLAG_REGISTER ==> r->Ok_0.registers[x as int] == (m.reg(x) - m.reg(y))
                % 256
        }),
        ({
            let r = execute_spec(m, Instruction::SetVxToVyMinusVx(x, y), random);
            &&& r is Ok
            &&& r->Ok_0.registers[FLAG_REGISTER as int] == flag(m.reg(y) >= m.reg(x))
            &&& x != FLAG_REGISTER ==> r->Ok_0.registers[x as int] == (m.reg(y) - m.reg(x))
                % 256
        }),
{
    reveal(wrapping_sub);
}

/// After clearing the screen every pixel is off.
pub proof fn lemma_clear_screen_blanks(m: Chip8Model, random: u8)
    requires
        m.wf(),
    ensures
        ({
            let r = execute_spec(m, Instruction::ClearScreen, random);
            &&& r is Ok
            &&& r->Ok_0.screen.len() == m.screen.len()
            &&& forall|p: int| 0 <= p < r->Ok_0.screen.len() ==> !r->Ok_0.screen[p]
        }),
{
}

/// Executing the same draw instruction twice in a row gives back the
/// framebuffer as it was, as long as the coordinates are not kept in VF,
/// which the first draw overwrites with the collision flag.
pub proof fn lemma_draw_twice_restores_screen(m: Chip8Model, x: u8, y: u8, n: u8, random: u8)
    requires
        m.wf(),
        x < 16,
        y < 16,
        n < 16,
        x != FLAG_REGISTER,
        y != FLAG_REGISTER,
        m.index + n <= 4096,
    ensures
        ({
            let ins = Instruction::DrawSprite(x, y, n);
            let r1 = execute_spec(m, ins, random);
            &&& r1 is Ok
            &&& execute_spec(r1->Ok_0, ins, random) is Ok
            &&& execute_spec(r1->Ok_0, ins, random)->Ok_0.screen == m.screen
        }),
{
    let rows = sprite_rows(m.memory, m.index as int, n as int);
    lemma_blend_involution(m.screen, m.reg(x), m.reg(y), rows);
}

/// A return right after a call, wherever the subroutine has moved the
/// program counter to, resumes at the address after the call instruction
/// and leaves the call stack as it was before the call.
pub proof fn lemma_call_then_return(m: Chip8Model, address: u16, pc_in_subroutine: u16, random: u8)
    requires
        m.wf(),
        address < 0x1000,
    ensures
        ({
            let r1 = execute_spec(m, Instruction::CallSubroutine(address), random);
            let inside = Chip8Model { pc: pc_in_subroutine, ..r1->Ok_0 };
            let r2 = execute_spec(inside, Instruction::ReturnFromSubroutine, random);
            &&& r1 is Ok
            &&& r1->Ok_0.pc == address
            &&& r2 is Ok
            &&& r2->Ok_0.pc == m.pc
            &&& r2->Ok_0.stack == m.stack
        }),
{
    let r1 = execute_spec(m, Instruction::CallSubroutine(address), random);
    assert(r1->Ok_0.stack.drop_last() =~= m.stack);
}

/// While the font is in memory, pointing I at the sprite of a digit from 0
/// to F makes the five bytes from I that digit's glyph.
pub proof fn lemma_sprite_location_is_glyph(m: Chip8Model, x: u8, random: u8)
    requires
        m.wf(),
        x < 16,
        m.reg(x) < 16,
        m.memory.subrange(FONT_STARTING_MEMORY as int, FONT_STARTING_MEMORY + 80) == font_spec(),
    ensures
        ({
            let r = execute_spec(m, Instruction::SetIToSpriteLocation(x), random);
            &&& r is Ok
            &&& r->Ok_0.index == FONT_STARTING_MEMORY + 5 * m.reg(x)
            &&& r->Ok_0.memory.subrange(r->Ok_0.index as int, r->Ok_0.index + 5)
                == font_spec().subrange(5 * m.reg(x), 5 * m.reg(x) + 5)
        }),
{
    let r = execute_spec(m, Instruction::SetIToSpriteLocation(x), random);
    let font = m.memory.subrange(FONT_STARTING_MEMORY as int, FONT_STARTING_MEMORY + 80);
    assert(r->Ok_0.memory.subrange(r->Ok_0.index as int, r->Ok_0.index + 5) =~= font.subrange(
        5 * m.reg(x),
        5 * m.reg(x) + 5,
    ));
}

/// The instruction word with top nibble `group`, register `x` and byte `kk`.
pub open spec fn encode_xkk(group: u16, x: u8, kk: u8) -> u16 {
    (group << 12u16) | ((x as u16) << 8u16) | (kk as u16)
}

/// The instruction word with top nibble `group`, registers `x` and `y`, and
/// low nibble `n`.
pub open spec fn encode_xyn(group: u16, x: u8, y: u8, n: u8) -> u16 {
    (group << 12u16) | ((x as u16) << 8u16) | ((y as u16) << 4u16) | (n as u16)
}

proof fn lemma_decode_xkk(x: u8, kk: u8)
    requires
        x < 16,
    ensures
        decode_spec(encode_xkk(7, x, kk)) == Instruction::AddIntermediateToVx(x, kk),
{
    let w = encode_xkk(7, x, kk);
    assert(w >> 12u16 == 7u16 && ((w >> 8u16) & 0xfu16) as u8 == x && (w & 0xffu16) as u8 == kk)
        by (bit_vector)
        requires
            w == (7u16 << 12u16) | ((x as u16) << 8u16) | (kk as u16),
            x < 16,
    ;
}

proof fn lemma_decode_xyn(x: u8, y: u8, n: u8)
    requires
        x < 16,
        y < 16,
        n < 16,
    ensures
        decode_spec(encode_xyn(8, x, y, n)) == if n == 5 {
            Instruction::SubtractVyFromVx(x, y)
        } else if n == 7 {
            Instruction::SetVxToVyMinusVx(x, y)
        } else {
            decode_spec(encode_xyn(8, x, y, n))
        },
{
    let w = encode_xyn(8, x, y, n);
    assert(w >> 12u16 == 8u16 && ((w >> 8u16) & 0xfu16) as u8 == x && ((w >> 4u16) & 0xfu16) as u8
        == y && (w & 0xfu16) as u8 == n) by (bit_vector)
        requires
            w == (8u16 << 12u16) | ((x as u16) << 8u16) | ((y as u16) << 4u16) | (n as u16),
            x < 16,
            y < 16,
            n < 16,
    ;
}

/// A cycle that fetches `7xkk` stores the old Vx plus kk modulo 256 in Vx,
/// leaves every other register, the memory, I and the stack as they were,
/// and moves on to the next instruction. (While the machine waits for a key
/// a cycle executes nothing.)
pub proof fn lemma_cycle_add_intermediate_wraps(m: Chip8Model, x: u8, kk: u8, random: u8)
    requires
        m.wf(),
        x < 16,
        m.awaiting_key is None,
        m.pc + 1 < MEMORY_SIZE,
        fetch_spec(m) == encode_xkk(7, x, kk),
    ensures
        ({
            let r = step_spec(m, random);
            &&& r is Ok
            &&& r->Ok_0.registers[x as int] == (m.registers[x as int] + kk) % 256
            &&& forall|k: int|
                0 <= k < 16 && k != x ==> r->Ok_0.registers[k] == m.registers[k]
            &&& r->Ok_0.pc == m.pc + 2
            &&& r->Ok_0.memory == m.memory
            &&& r->Ok_0.index == m.index
            &&& r->Ok_0.stack == m.stack
        }),
{
    lemma_decode_xkk(x, kk);
    reveal(wrapping_add);
}

/// A cycle that fetches `8xy5` or `8xy7` sets VF to 1 exactly when the
/// subtraction did not borrow, stores the wrapped difference in Vx (unless
/// Vx is VF itself), and moves on to the next instruction. (While the
/// machine waits for a key a cycle executes nothing.)
pub proof fn lemma_cycle_subtract_flag_is_no_borrow(m: Chip8Model, x: u8, y: u8, random: u8)
    requires
        m.wf(),
        x < 16,
        y < 16,
        m.awaiting_key is None,
        m.pc + 1 < MEMORY_SIZE,
    ensures
        fetch_spec(m) == encode_xyn(8, x, y, 5) ==> ({
            let r = step_spec(m, random);
            &&& r is Ok
            &&& r->Ok_0.registers[FLAG_REGISTER as int] == flag(m.reg(x) >= m.reg(y))
            &&& x != FLAG_REGISTER ==> r->Ok_0.registers[x as int] == (m.reg(x) - m.reg(y))
                % 256
            &&& r->Ok_0.pc == m.pc + 2
        }),
        fetch_spec(m) == encode_xyn(8, x, y, 7) ==> ({
            let r = step_spec(m, random);
            &&& r is Ok
            &&& r->Ok_0.registers[FLAG_REGISTER as int] == flag(m.reg(y) >= m.reg(x))
            &&& x != FLAG_REGISTER ==> r->Ok_0.registers[x as int] == (m.reg(y) - m.reg(x))
                % 256
            &&& r->Ok_0.pc == m.pc + 2
        }),
{
    lemma_decode_xyn(x, y, 5);
    lemma_decode_xyn(x, y, 7);
    reveal(wrapping_sub);
}

} // verus!
