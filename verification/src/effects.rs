//! What each instruction does, stated field by field in terms of the state before it:
//! which parts of the machine it changes, to what, and that it leaves the rest alone.
use crate::model::{lemma_sprite_cell, Instruction, Machine};
use crate::types::{key_number, Input, Key};
use vstd::prelude::*;

verus! {

/// `t` has the memory, display, stack, keypad, timers, key-wait state, quirks and redraw
/// flag of `s`.
pub open spec fn same_devices(s: Machine, t: Machine) -> bool {
    &&& t.memory == s.memory
    &&& t.display == s.display
    &&& t.stack == s.stack
    &&& t.keypad == s.keypad
    &&& t.dt == s.dt
    &&& t.st == s.st
    &&& t.waiting_for_keypress == s.waiting_for_keypress
    &&& t.keypress_register == s.keypress_register
    &&& t.key_pressed_while_waiting == s.key_pressed_while_waiting
    &&& t.quirks == s.quirks
    &&& t.should_redraw == s.should_redraw
}

/// `t` has the registers of `s`, except perhaps registers `a` and `b`.
pub open spec fn registers_kept_except(s: Machine, t: Machine, a: int, b: int) -> bool {
    &&& t.v.len() == s.v.len()
    &&& forall|r: int| 0 <= r < s.v.len() && r != a && r != b ==> #[trigger] t.v[r] == s.v[r]
}

/// `BNNN` jumps to the arithmetic sum of `NNN` and `V0`, and changes nothing else.
pub proof fn law_jump_offset_adds_v0(s: Machine, nnn: u16, random: u8)
    requires
        s.well_formed(),
        nnn <= 0xFFF,
    ensures
        ({
            let t = s.apply(Instruction::JumpOffset { nnn }, random);
            &&& t.pc == nnn + s.v[0]
            &&& t.pc >= nnn
            &&& t.i == s.i
            &&& t.v == s.v
            &&& same_devices(s, t)
        }),
{
}

/// `1NNN` jumps to `NNN` and `0NNN` passes on to the next instruction; neither changes
/// anything else.
pub proof fn law_jumps_touch_only_pc(s: Machine, nnn: u16, random: u8)
    requires
        s.well_formed(),
        s.pc + 2 <= 0xFFFF,
    ensures
        ({
            let t = s.apply(Instruction::Jump { nnn }, random);
            t.pc == nnn && t.i == s.i && t.v == s.v && same_devices(s, t)
        }),
        ({
            let t = s.apply(Instruction::Sys { nnn }, random);
            t.pc == s.pc + 2 && t.i == s.i && t.v == s.v && same_devices(s, t)
        }),
{
}

/// `00EE` returns to the address on top of the stack and pops it; nothing else changes.
pub proof fn law_return_pops(s: Machine, random: u8)
    requires
        s.well_formed(),
        s.stack.len() > 0,
    ensures
        ({
            let t = s.apply(Instruction::Ret, random);
            &&& t.pc == s.stack[s.stack.len() - 1]
            &&& t.stack.len() == s.stack.len() - 1
            &&& forall|k: int| 0 <= k < t.stack.len() ==> #[trigger] t.stack[k] == s.stack[k]
            &&& t.i == s.i
            &&& t.v == s.v
            &&& t.memory == s.memory
            &&& t.display == s.display
        }),
{
}

/// `EX9E` skips the next instruction exactly when key `VX` is down, `EXA1` exactly when it
/// is up; neither changes anything but the program counter.
pub proof fn law_key_skips(s: Machine, x: u8, random: u8)
    requires
        s.well_formed(),
        x < 16,
        s.v[x as int] < 16,
        s.pc + 4 <= 0xFFFF,
    ensures
        ({
            let t = s.apply(Instruction::SkipPressed { x }, random);
            &&& t.pc == s.pc + if s.keypad[s.v[x as int] as int] { 4int } else { 2int }
            &&& t.i == s.i && t.v == s.v && same_devices(s, t)
        }),
        ({
            let t = s.apply(Instruction::SkipNotPressed { x }, random);
            &&& t.pc == s.pc + if s.keypad[s.v[x as int] as int] { 2int } else { 4int }
            &&& t.i == s.i && t.v == s.v && same_devices(s, t)
        }),
{
}

/// The register-loading instructions write only `VX`, with: `6XKK` the byte `KK`, `7XKK`
/// the sum `VX + KK` modulo 256, `8XY0` the value of `VY`, `CXKK` the drawn byte AND
/// `KK`, `FX07` the delay timer (not the sound timer). Each moves on to the next
/// instruction and leaves `I` and every other part of the machine alone.
pub proof fn law_register_loads(s: Machine, x: u8, y: u8, kk: u8, random: u8)
    requires
        s.well_formed(),
        x < 16,
        y < 16,
        s.pc + 2 <= 0xFFFF,
    ensures
        ({
            let t = s.apply(Instruction::LoadByte { x, kk }, random);
            &&& t.v[x as int] == kk
            &&& registers_kept_except(s, t, x as int, x as int)
            &&& t.pc == s.pc + 2 && t.i == s.i && same_devices(s, t)
        }),
        ({
            let t = s.apply(Instruction::AddByte { x, kk }, random);
            &&& t.v[x as int] == (s.v[x as int] + kk) % 256
            &&& s.v[x as int] + kk < 256 ==> t.v[x as int] == s.v[x as int] + kk
            &&& registers_kept_except(s, t, x as int, x as int)
            &&& t.pc == s.pc + 2 && t.i == s.i && same_devices(s, t)
        }),
        ({
            let t = s.apply(Instruction::Move { x, y }, random);
            &&& t.v[x as int] == s.v[y as int]
            &&& registers_kept_except(s, t, x as int, x as int)
            &&& t.pc == s.pc + 2 && t.i == s.i && same_devices(s, t)
        }),
        ({
            let t = s.apply(Instruction::Random { x, kk }, random);
            &&& t.v[x as int] == random & kk
            &&& t.v[x as int] & !kk == 0
            &&& t.v[x as int] & random == t.v[x as int]
            &&& registers_kept_except(s, t, x as int, x as int)
            &&& t.pc == s.pc + 2 && t.i == s.i && same_devices(s, t)
        }),
        ({
            let t = s.apply(Instruction::LoadDelay { x }, random);
            &&& t.v[x as int] == s.dt
            &&& registers_kept_except(s, t, x as int, x as int)
            &&& t.pc == s.pc + 2 && t.i == s.i && same_devices(s, t)
        }),
{
    let (r, k) = (random, kk);
    assert((r & k) & !k == 0 && (r & k) & r == r & k) by (bit_vector);
}

/// `8XY1`, `8XY2`, `8XY3` write `VX | VY`, `VX & VY`, `VX ^ VY` into `VX`; with the
/// vf-reset quirk `VF` then becomes 0, without it `VF` is only changed if it is `VX`.
/// Nothing else changes but the program counter, which moves on.
pub proof fn law_logic_ops(s: Machine, x: u8, y: u8, random: u8)
    requires
        s.well_formed(),
        x < 16,
        y < 16,
        s.pc + 2 <= 0xFFFF,
    ensures
        ({
            let t = s.apply(Instruction::Or { x, y }, random);
            &&& (x < 15 || !s.quirks.vf_reset) ==> t.v[x as int] == s.v[x as int] | s.v[y as int]
            &&& s.quirks.vf_reset ==> t.v[15] == 0
            &&& registers_kept_except(s, t, x as int, if s.quirks.vf_reset { 15 } else { x as int })
            &&& t.pc == s.pc + 2 && t.i == s.i && same_devices(s, t)
        }),
        ({
            let t = s.apply(Instruction::And { x, y }, random);
            &&& (x < 15 || !s.quirks.vf_reset) ==> t.v[x as int] == s.v[x as int] & s.v[y as int]
            &&& s.quirks.vf_reset ==> t.v[15] == 0
            &&& registers_kept_except(s, t, x as int, if s.quirks.vf_reset { 15 } else { x as int })
            &&& t.pc == s.pc + 2 && t.i == s.i && same_devices(s, t)
        }),
        ({
            let t = s.apply(Instruction::Xor { x, y }, random);
            &&& (x < 15 || !s.quirks.vf_reset) ==> t.v[x as int] == s.v[x as int] ^ s.v[y as int]
            &&& s.quirks.vf_reset ==> t.v[15] == 0
            &&& registers_kept_except(s, t, x as int, if s.quirks.vf_reset { 15 } else { x as int })
            &&& t.pc == s.pc + 2 && t.i == s.i && same_devices(s, t)
        }),
{
}

/// The arithmetic instructions `8XY4`, `8XY5`, `8XY6`, `8XY7`, `8XYE` write only `VX` and
/// `VF`, and move on to the next instruction.
pub proof fn law_arithmetic_frame(s: Machine, x: u8, y: u8, random: u8)
    requires
        s.well_formed(),
        x < 16,
        y < 16,
        s.pc + 2 <= 0xFFFF,
    ensures
        ({
            let t = s.apply(Instruction::Add { x, y }, random);
            registers_kept_except(s, t, x as int, 15) && t.pc == s.pc + 2 && t.i == s.i
                && same_devices(s, t)
        }),
        ({
            let t = s.apply(Instruction::Sub { x, y }, random);
            registers_kept_except(s, t, x as int, 15) && t.pc == s.pc + 2 && t.i == s.i
                && same_devices(s, t)
        }),
        ({
            let t = s.apply(Instruction::SubReverse { x, y }, random);
            registers_kept_except(s, t, x as int, 15) && t.pc == s.pc + 2 && t.i == s.i
                && same_devices(s, t)
        }),
        ({
            let t = s.apply(Instruction::ShiftRight { x, y }, random);
            registers_kept_except(s, t, x as int, 15) && t.pc == s.pc + 2 && t.i == s.i
                && same_devices(s, t)
        }),
        ({
            let t = s.apply(Instruction::ShiftLeft { x, y }, random);
            registers_kept_except(s, t, x as int, 15) && t.pc == s.pc + 2 && t.i == s.i
                && same_devices(s, t)
        }),
{
}

/// `ANNN` sets `I` to `NNN`; `FX1E` adds `VX`, read as an unsigned byte, to `I` modulo
/// 0x10000, so `I` never decreases unless the sum passes 0xFFFF; `FX29` sets `I` to five
/// times `VX`. None of them changes a register or any other part of the machine.
pub proof fn law_address_register(s: Machine, x: u8, nnn: u16, random: u8)
    requires
        s.well_formed(),
        x < 16,
        s.pc + 2 <= 0xFFFF,
    ensures
        ({
            let t = s.apply(Instruction::LoadI { nnn }, random);
            t.i == nnn && t.v == s.v && t.pc == s.pc + 2 && same_devices(s, t)
        }),
        ({
            let t = s.apply(Instruction::AddI { x }, random);
            &&& t.i == (s.i + s.v[x as int]) % 0x10000
            &&& s.i + s.v[x as int] < 0x10000 ==> t.i == s.i + s.v[x as int] && t.i >= s.i
            &&& t.v == s.v && t.pc == s.pc + 2 && same_devices(s, t)
        }),
        s.v[x as int] * 5 <= 255 ==> ({
            let t = s.apply(Instruction::LoadFont { x }, random);
            t.i == 5 * s.v[x as int] && t.v == s.v && t.pc == s.pc + 2 && same_devices(s, t)
        }),
{
}

/// `FX15` sets the delay timer to `VX` and `FX18` the sound timer; each leaves the other
/// timer, the registers and everything else alone.
pub proof fn law_timer_loads(s: Machine, x: u8, random: u8)
    requires
        s.well_formed(),
        x < 16,
        s.pc + 2 <= 0xFFFF,
    ensures
        ({
            let t = s.apply(Instruction::SetDelay { x }, random);
            &&& t.dt == s.v[x as int] && t.st == s.st
            &&& t.v == s.v && t.i == s.i && t.pc == s.pc + 2
            &&& t.memory == s.memory && t.display == s.display && t.keypad == s.keypad
        }),
        ({
            let t = s.apply(Instruction::SetSound { x }, random);
            &&& t.st == s.v[x as int] && t.dt == s.dt
            &&& t.v == s.v && t.i == s.i && t.pc == s.pc + 2
            &&& t.memory == s.memory && t.display == s.display && t.keypad == s.keypad
        }),
{
}

/// A timer tick changes the timers only: everything else is as it was.
pub proof fn law_timer_tick_touches_only_timers(s: Machine)
    ensures
        ({
            let t = s.update_timers();
            &&& t.dt <= s.dt && t.st <= s.st
            &&& t.pc == s.pc && t.i == s.i && t.v == s.v && t.memory == s.memory
            &&& t.display == s.display && t.stack == s.stack && t.keypad == s.keypad
        }),
{
}

/// `FX55` writes `V0..=VX` to memory at `I..=I+X` and nothing else in memory; `FX65` reads
/// `V0..=VX` from there and leaves the higher registers alone. Both set `I` past the block.
pub proof fn law_register_block_transfer(s: Machine, x: u8, random: u8)
    requires
        s.well_formed(),
        x < 16,
        s.i + x < 4096,
        s.pc + 2 <= 0xFFFF,
    ensures
        ({
            let t = s.apply(Instruction::StoreRegs { x }, random);
            &&& forall|k: int| 0 <= k <= x ==> #[trigger] t.memory[s.i + k] == s.v[k]
            &&& forall|a: int|
                0 <= a < s.memory.len() && !(s.i <= a <= s.i + x) ==> #[trigger] t.memory[a]
                    == s.memory[a]
            &&& t.memory.len() == s.memory.len()
            &&& t.v == s.v && t.i == s.i + x + 1 && t.pc == s.pc + 2
        }),
        ({
            let t = s.apply(Instruction::LoadRegs { x }, random);
            &&& forall|k: int| 0 <= k <= x ==> #[trigger] t.v[k] == s.memory[s.i + k]
            &&& forall|k: int| x < k < 16 ==> #[trigger] t.v[k] == s.v[k]
            &&& t.memory == s.memory && t.i == s.i + x + 1 && t.pc == s.pc + 2
        }),
{
}

/// A key change sets that key's state (down on a press, up on a release) and leaves every
/// other key as it was; it writes no register unless a key is awaited, and then only the
/// awaited one. Memory, display, timers and the program counter are untouched.
pub proof fn law_key_change_is_local(s: Machine, k: Key, down: bool)
    requires
        s.well_formed(),
    ensures
        ({
            let t = s.register_input(if down { Input::Down(k) } else { Input::Up(k) });
            &&& t.keypad.len() == s.keypad.len()
            &&& t.keypad[key_number(k) as int] == down
            &&& forall|j: int|
                0 <= j < s.keypad.len() && j != key_number(k) ==> #[trigger] t.keypad[j]
                    == s.keypad[j]
            &&& !s.waiting_for_keypress ==> t.v == s.v
            &&& registers_kept_except(s, t, s.keypress_register as int, s.keypress_register as int)
            &&& t.pc == s.pc && t.i == s.i && t.memory == s.memory && t.display == s.display
            &&& t.dt == s.dt && t.st == s.st && t.stack == s.stack
        }),
{
}

/// `00E0` turns every pixel off and changes nothing else but the program counter.
pub proof fn law_clear_touches_only_display(s: Machine, random: u8)
    requires
        s.well_formed(),
        s.pc + 2 <= 0xFFFF,
    ensures
        ({
            let t = s.apply(Instruction::Cls, random);
            &&& t.display.len() == s.display.len()
            &&& forall|k: int| 0 <= k < t.display.len() ==> !#[trigger] t.display[k]
            &&& t.v == s.v && t.i == s.i && t.memory == s.memory && t.stack == s.stack
            &&& t.pc == s.pc + 2
        }),
{
}

/// `DXYN`, cell by cell: the pixel at column `(VX + ox) % 64`, row `(VY + oy) % 32` (for
/// a sprite row `oy < N` and bit `ox < 8`, the row read from `I + oy`, bits counted from
/// the most significant) flips exactly when that bit is set; without the draw-wrap quirk
/// this holds for the cells that do not cross the right or bottom edge.
pub proof fn law_draw_cell(s: Machine, x: u8, y: u8, n: u8, oy: int, ox: int, random: u8)
    requires
        s.well_formed(),
        x < 16,
        y < 16,
        n < 16,
        0 <= oy < n,
        0 <= ox < 8,
        s.quirks.draw_wrap || (s.v[x as int] % 64 + ox < 64 && s.v[y as int] % 32 + oy < 32),
        s.i + oy < 4096,
    ensures
        ({
            let t = s.apply(Instruction::Draw { x, y, n }, random);
            let idx = (s.v[x as int] % 64 + ox) % 64 + ((s.v[y as int] % 32 + oy) % 32) * 64;
            let bit = (s.memory[s.i + oy] >> ((7 - ox) as u8)) & 1 == 1;
            t.display[idx] == (s.display[idx] != bit)
        }),
{
    let (sx, sy) = ((s.v[x as int] % 64) as int, (s.v[y as int] % 32) as int);
    lemma_sprite_cell(s.quirks.draw_wrap, sx, sy, oy, ox);
}

/// `DXYN` changes no pixel outside the sprite's columns `VX..VX+7` and rows `VY..VY+N-1`
/// (counted round the screen), writes no register but `VF`, which ends as 0 or 1, and
/// leaves memory, `I` and the stack alone.
pub proof fn law_draw_frame(s: Machine, x: u8, y: u8, n: u8, random: u8)
    requires
        s.well_formed(),
        x < 16,
        y < 16,
        s.pc + 2 <= 0xFFFF,
    ensures
        ({
            let t = s.apply(Instruction::Draw { x, y, n }, random);
            let (sx, sy) = (s.v[x as int] % 64, s.v[y as int] % 32);
            &&& t.display.len() == s.display.len()
            &&& forall|k: int|
                0 <= k < s.display.len() && ((k % 64 - sx + 64) % 64 >= 8 || (k / 64 - sy + 32)
                    % 32 >= n) ==> #[trigger] t.display[k] == s.display[k]
            &&& t.v[15] == 0 || t.v[15] == 1
            &&& registers_kept_except(s, t, 15, 15)
            &&& t.memory == s.memory && t.i == s.i && t.stack == s.stack && t.pc == s.pc + 2
        }),
{
}

} // verus!
