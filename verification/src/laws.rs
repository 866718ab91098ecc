use crate::clock::{nanos_between, ClockState};
use std::time::Instant;
use crate::model::{decode, Instruction, Machine, MEMORY_SIZE};
use crate::types::{key_number, Input, Key};
use vstd::prelude::*;

verus! {

/// Every decoded opcode names registers `V0` to `VF` and a sprite height below 16.
pub proof fn law_decode_fields_in_range(opcode: u16)
    ensures
        decode(opcode).fields_in_range(),
{
}

/// Every instruction that can run keeps the state well formed.
pub proof fn law_apply_keeps_well_formed(s: Machine, ins: Instruction, random: u8)
    requires
        s.well_formed(),
        ins.fields_in_range(),
        s.can_apply(ins),
    ensures
        s.apply(ins, random).well_formed(),
{
}

/// The instructions that neither jump, call, return nor skip move the program counter on to
/// the next instruction, two bytes further.
pub proof fn law_straight_line_advances_pc(s: Machine, ins: Instruction, random: u8)
    requires
        s.can_apply(ins),
        !(ins is Ret || ins is Jump || ins is Call || ins is JumpOffset || ins is SkipEqByte
            || ins is SkipNeByte || ins is SkipEqReg || ins is SkipNeReg || ins is SkipPressed
            || ins is SkipNotPressed),
    ensures
        s.apply(ins, random).pc == s.pc + 2,
{
}

/// `00E0` leaves every pixel off, and clearing twice is clearing once.
pub proof fn law_clear_display(s: Machine)
    requires
        s.pc + 4 <= 0xFFFF,
    ensures
        forall|k: int|
            0 <= k < s.display.len() ==> !#[trigger] s.apply(Instruction::Cls, 0).display[k],
        s.apply(Instruction::Cls, 0).apply(Instruction::Cls, 0).display == s.apply(
            Instruction::Cls,
            0,
        ).display,
{
    assert(s.apply(Instruction::Cls, 0).apply(Instruction::Cls, 0).display =~= s.apply(
        Instruction::Cls,
        0,
    ).display);
}

/// `1NNN` to the current address leaves the program counter where it is; two jumps land
/// where the second one points; jumping twice to one address is jumping once.
pub proof fn law_jump(s: Machine, a: u16, b: u16)
    ensures
        s.apply(Instruction::Jump { nnn: s.pc }, 0).pc == s.pc,
        s.apply(Instruction::Jump { nnn: a }, 0).apply(Instruction::Jump { nnn: b }, 0).pc == b,
        s.apply(Instruction::Jump { nnn: a }, 0).apply(Instruction::Jump { nnn: a }, 0) == s.apply(
            Instruction::Jump { nnn: a },
            0,
        ),
{
}

/// `2NNN` sets the program counter as `1NNN` does and pushes the address of the next
/// instruction; `00EE` right after it returns there with the stack as it was.
pub proof fn law_call_return(s: Machine, a: u16)
    requires
        s.can_apply(Instruction::Call { nnn: a }),
    ensures
        s.apply(Instruction::Call { nnn: a }, 0).pc == s.apply(Instruction::Jump { nnn: a }, 0).pc,
        s.apply(Instruction::Call { nnn: a }, 0).stack.len() == s.stack.len() + 1,
        s.apply(Instruction::Call { nnn: a }, 0).stack.last() == s.pc + 2,
        s.apply(Instruction::Call { nnn: a }, 0).can_apply(Instruction::Ret),
        s.apply(Instruction::Call { nnn: a }, 0).apply(Instruction::Ret, 0) == (Machine {
            pc: (s.pc + 2) as u16,
            ..s
        }),
{
    let t = s.apply(Instruction::Call { nnn: a }, 0).apply(Instruction::Ret, 0);
    assert(t.stack =~= s.stack);
}

/// `3XKK` skips exactly when `VX == KK`, `4XKK` exactly when not: of the two, exactly one
/// moves the program counter by 4 and the other by 2.
pub proof fn law_skip_byte(s: Machine, x: u8, kk: u8)
    requires
        s.pc + 4 <= 0xFFFF,
    ensures
        s.apply(Instruction::SkipEqByte { x, kk }, 0).pc == s.pc + (if s.v[x as int] == kk {
            4int
        } else {
            2int
        }),
        s.apply(Instruction::SkipNeByte { x, kk }, 0).pc == s.pc + (if s.v[x as int] != kk {
            4int
        } else {
            2int
        }),
        s.apply(Instruction::SkipEqByte { x, kk }, 0).pc + s.apply(
            Instruction::SkipNeByte { x, kk },
            0,
        ).pc == 2 * s.pc + 6,
        s.apply(Instruction::SkipEqByte { x, kk }, 0).pc != s.apply(
            Instruction::SkipNeByte { x, kk },
            0,
        ).pc,
{
}

/// `5XY0` skips exactly when `VX == VY` and `9XY0` exactly when not.
pub proof fn law_skip_register(s: Machine, x: u8, y: u8)
    requires
        s.pc + 4 <= 0xFFFF,
    ensures
        s.apply(Instruction::SkipEqReg { x, y }, 0).pc == s.pc + (if s.v[x as int] == s.v[y as int] {
            4int
        } else {
            2int
        }),
        s.apply(Instruction::SkipNeReg { x, y }, 0).pc == s.pc + (if s.v[x as int] != s.v[y as int] {
            4int
        } else {
            2int
        }),
{
}

/// `6XKK` sets `VX` to `KK` whatever it held: the second of two loads wins, and loading the
/// same byte twice is loading it once.
pub proof fn law_load_byte(s: Machine, x: u8, a: u8, b: u8)
    requires
        s.well_formed(),
        x < 16,
        s.pc + 4 <= 0xFFFF,
    ensures
        s.apply(Instruction::LoadByte { x, kk: a }, 0).v[x as int] == a,
        s.apply(Instruction::LoadByte { x, kk: a }, 0).apply(Instruction::LoadByte { x, kk: b }, 0).v[x as int] == b,
        s.apply(Instruction::LoadByte { x, kk: a }, 0).apply(Instruction::LoadByte { x, kk: a }, 0).v == s.apply(
            Instruction::LoadByte { x, kk: a },
            0,
        ).v,
{
    assert(s.apply(Instruction::LoadByte { x, kk: a }, 0).apply(
        Instruction::LoadByte { x, kk: a },
        0,
    ).v =~= s.apply(Instruction::LoadByte { x, kk: a }, 0).v);
}

/// `7XKK` adds modulo 256: adding 0 changes nothing, adding 255 then 1 changes nothing, and
/// adding `a` then `b` is adding `a + b` (modulo 256) once.
pub proof fn law_add_byte(s: Machine, x: u8, a: u8, b: u8)
    requires
        s.well_formed(),
        x < 16,
        s.pc + 4 <= 0xFFFF,
    ensures
        s.apply(Instruction::AddByte { x, kk: 0 }, 0).v == s.v,
        s.apply(Instruction::AddByte { x, kk: 255 }, 0).apply(Instruction::AddByte { x, kk: 1 }, 0).v == s.v,
        s.apply(Instruction::AddByte { x, kk: a }, 0).apply(Instruction::AddByte { x, kk: b }, 0).v == s.apply(
            Instruction::AddByte { x, kk: ((a + b) % 256) as u8 },
            0,
        ).v,
{
    let vx = s.v[x as int];
    assert(((vx + a) % 256 + b) % 256 == (vx + (a + b) % 256) % 256 && ((vx + 255) % 256 + 1)
        % 256 == vx && (vx + 0) % 256 == vx) by (bit_vector);
    assert(s.apply(Instruction::AddByte { x, kk: 0 }, 0).v =~= s.v);
    assert(s.apply(Instruction::AddByte { x, kk: 255 }, 0).apply(
        Instruction::AddByte { x, kk: 1 },
        0,
    ).v =~= s.v);
    assert(s.apply(Instruction::AddByte { x, kk: a }, 0).apply(
        Instruction::AddByte { x, kk: b },
        0,
    ).v =~= s.apply(Instruction::AddByte { x, kk: ((a + b) % 256) as u8 }, 0).v);
}

/// `8XY0` copies `VY` into `VX`: copying a register to itself changes nothing, after two
/// copies `VX` equals the second source, and copying twice is copying once.
pub proof fn law_move(s: Machine, x: u8, y: u8, z: u8)
    requires
        s.well_formed(),
        x < 16,
        y < 16,
        z < 16,
        s.pc + 4 <= 0xFFFF,
    ensures
        s.apply(Instruction::Move { x, y: x }, 0).v == s.v,
        ({
            let t = s.apply(Instruction::Move { x, y }, 0).apply(Instruction::Move { x, y: z }, 0);
            t.v[x as int] == t.v[z as int]
        }),
        s.apply(Instruction::Move { x, y }, 0).apply(Instruction::Move { x, y }, 0).v == s.apply(
            Instruction::Move { x, y },
            0,
        ).v,
{
    assert(s.apply(Instruction::Move { x, y: x }, 0).v =~= s.v);
    assert(s.apply(Instruction::Move { x, y }, 0).apply(Instruction::Move { x, y }, 0).v
        =~= s.apply(Instruction::Move { x, y }, 0).v);
}

/// With the vf-reset quirk, `8XY1`, `8XY2` and `8XY3` leave `VF` at 0. Without the quirk
/// they leave it alone, so this fails then (for instance when `VF` holds 1 and X, Y are 0).
pub proof fn law_logic_resets_flag(s: Machine, x: u8, y: u8)
    requires
        s.well_formed(),
        x < 16,
        y < 16,
        s.quirks.vf_reset,
    ensures
        s.apply(Instruction::Or { x, y }, 0).v[15] == 0,
        s.apply(Instruction::And { x, y }, 0).v[15] == 0,
        s.apply(Instruction::Xor { x, y }, 0).v[15] == 0,
{
}

/// `8XY1`: OR-ing twice is OR-ing once; for registers other than `VF` (which the vf-reset
/// quirk may clear), OR is commutative, the result covers the bits of both operands, and
/// OR-ing a register with itself changes nothing.
pub proof fn law_or(s: Machine, x: u8, y: u8)
    requires
        s.well_formed(),
        x < 16,
        y < 16,
        s.pc + 4 <= 0xFFFF,
    ensures
        s.apply(Instruction::Or { x, y }, 0).apply(Instruction::Or { x, y }, 0).v[x as int] == s.apply(
            Instruction::Or { x, y },
            0,
        ).v[x as int],
        x < 15 && y < 15 ==> s.apply(Instruction::Or { x, y }, 0).v[x as int] == s.apply(
            Instruction::Or { x: y, y: x },
            0,
        ).v[y as int],
        x < 15 && y < 15 ==> s.apply(Instruction::Or { x, y }, 0).v[x as int] & s.v[x as int]
            == s.v[x as int],
        x < 15 && y < 15 ==> s.apply(Instruction::Or { x, y }, 0).v[x as int] & s.v[y as int]
            == s.v[y as int],
        x < 15 ==> s.apply(Instruction::Or { x, y: x }, 0).v[x as int] == s.v[x as int],
{
    let (a, b) = (s.v[x as int], s.v[y as int]);
    assert(a | b == b | a && (a | b) & a == a && (a | b) & b == b && a | a == a && (a | b) | b
        == a | b && (a | b) | (a | b) == a | b && (a | b) | 0 == a | b) by (bit_vector);
    let t = s.apply(Instruction::Or { x, y }, 0);
    let c = t.v[y as int];
    assert(c == 0 || c == b || c == a | b);
    assert((a | b) | c == a | b) by (bit_vector)
        requires
            c == 0 || c == b || c == a | b,
    ;
}

/// `8XY2`: AND-ing twice is AND-ing once when `Y` is not `F`; for registers other than `VF`
/// (which the vf-reset quirk may clear), AND is commutative, the result has no bit that
/// either operand lacks, and AND-ing a register with itself changes nothing.
pub proof fn law_and(s: Machine, x: u8, y: u8)
    requires
        s.well_formed(),
        x < 16,
        y < 16,
        s.pc + 4 <= 0xFFFF,
    ensures
        y < 15 ==> s.apply(Instruction::And { x, y }, 0).apply(Instruction::And { x, y }, 0).v[x as int]
            == s.apply(Instruction::And { x, y }, 0).v[x as int],
        x < 15 && y < 15 ==> s.apply(Instruction::And { x, y }, 0).v[x as int] == s.apply(
            Instruction::And { x: y, y: x },
            0,
        ).v[y as int],
        x < 15 && y < 15 ==> s.apply(Instruction::And { x, y }, 0).v[x as int] | s.v[x as int]
            == s.v[x as int],
        x < 15 && y < 15 ==> s.apply(Instruction::And { x, y }, 0).v[x as int] | s.v[y as int]
            == s.v[y as int],
        x < 15 ==> s.apply(Instruction::And { x, y: x }, 0).v[x as int] == s.v[x as int],
{
    let (a, b) = (s.v[x as int], s.v[y as int]);
    assert(a & b == b & a && (a & b) | a == a && (a & b) | b == b && a & a == a && (a & b) & b
        == a & b && 0u8 & b == 0) by (bit_vector);
}

/// `8XY3`, for `X` other than `VF` (which the vf-reset quirk may clear): XOR-ing with a zero
/// register changes nothing and XOR-ing a register with itself clears it; when `Y` is not
/// `F` either, XOR is commutative and undoes itself when `X` and `Y` differ.
pub proof fn law_xor(s: Machine, x: u8, y: u8)
    requires
        s.well_formed(),
        x < 15,
        y < 16,
        s.pc + 4 <= 0xFFFF,
    ensures
        s.v[y as int] == 0 ==> s.apply(Instruction::Xor { x, y }, 0).v[x as int] == s.v[x as int],
        s.apply(Instruction::Xor { x, y: x }, 0).v[x as int] == 0,
        y < 15 ==> s.apply(Instruction::Xor { x, y }, 0).v[x as int] == s.apply(
            Instruction::Xor { x: y, y: x },
            0,
        ).v[y as int],
        y < 15 && x != y ==> s.apply(Instruction::Xor { x, y }, 0).apply(
            Instruction::Xor { x, y },
            0,
        ).v[x as int] == s.v[x as int],
{
    let (a, b) = (s.v[x as int], s.v[y as int]);
    assert(a ^ b == b ^ a && (a ^ b) ^ b == a && a ^ 0 == a && a ^ a == 0) by (bit_vector);
}

/// `8XY4` (for `X` other than `F`): the new `VX` and the carry in `VF` together make the
/// full sum: `VX' + 256 * VF' == VX + VY`.
pub proof fn law_add_carry(s: Machine, x: u8, y: u8)
    requires
        s.well_formed(),
        x < 15,
        y < 16,
    ensures
        ({
            let t = s.apply(Instruction::Add { x, y }, 0);
            &&& t.v[x as int] + 256 * t.v[15] == s.v[x as int] + s.v[y as int]
            &&& t.v[15] <= 1
        }),
{
}

/// `8XY5` and `8XY7` (for `X` other than `F`): `VF` is 1 exactly when no borrow occurs, and
/// the new `VX` is the difference modulo 256: `VX' == VX - VY + 256 * (1 - VF')` for `8XY5`,
/// `VX' == VY - VX + 256 * (1 - VF')` for `8XY7`.
pub proof fn law_subtract_borrow(s: Machine, x: u8, y: u8)
    requires
        s.well_formed(),
        x < 15,
        y < 16,
    ensures
        ({
            let t = s.apply(Instruction::Sub { x, y }, 0);
            &&& t.v[15] == (if s.v[x as int] >= s.v[y as int] { 1int } else { 0int })
            &&& t.v[x as int] == s.v[x as int] - s.v[y as int] + 256 * (1 - t.v[15])
        }),
        ({
            let t = s.apply(Instruction::SubReverse { x, y }, 0);
            &&& t.v[15] == (if s.v[y as int] >= s.v[x as int] { 1int } else { 0int })
            &&& t.v[x as int] == s.v[y as int] - s.v[x as int] + 256 * (1 - t.v[15])
        }),
{
}

/// `8XY6` and `8XYE` (for `X` other than `F`): the shifted value and the bit shifted out
/// into `VF` together give back `VY`.
pub proof fn law_shift(s: Machine, x: u8, y: u8)
    requires
        s.well_formed(),
        x < 15,
        y < 16,
    ensures
        ({
            let t = s.apply(Instruction::ShiftRight { x, y }, 0);
            t.v[x as int] * 2 + t.v[15] == s.v[y as int]
        }),
        ({
            let t = s.apply(Instruction::ShiftLeft { x, y }, 0);
            t.v[15] * 256 + t.v[x as int] == s.v[y as int] * 2
        }),
{
    let vy = s.v[y as int];
    assert((vy >> 1u8) * 2 + (vy & 1u8) == vy) by (bit_vector);
    assert((vy >> 7u8) * 256 + (vy << 1u8) == vy * 2) by (bit_vector);
}

/// `DXYN`: `VF` ends as 1 exactly when some pixel went from on to off, else 0, and the
/// display changes only where the sprite has set bits.
pub proof fn law_draw_collision(s: Machine, x: u8, y: u8, n: u8)
    requires
        s.well_formed(),
        x < 16,
        y < 16,
    ensures
        ({
            let t = s.apply(Instruction::Draw { x, y, n }, 0);
            &&& t.v[15] == 1 <==> exists|k: int|
                0 <= k < s.display.len() && #[trigger] s.display[k] && !t.display[k]
            &&& t.v[15] == 0 <==> !(exists|k: int|
                0 <= k < s.display.len() && #[trigger] s.display[k] && !t.display[k])
            &&& forall|k: int|
                0 <= k < s.display.len() && t.display[k] != #[trigger] s.display[k]
                    ==> s.sprite_pixel(s.draw_x(x), s.draw_y(y), n as int, k)
        }),
{
    let t = s.apply(Instruction::Draw { x, y, n }, 0);
    if s.draw_collides(x, y, n) {
        let k = choose|k: int|
            0 <= k < s.display.len() && #[trigger] s.display[k] && s.sprite_pixel(
                s.draw_x(x),
                s.draw_y(y),
                n as int,
                k,
            );
        assert(s.display[k] && !t.display[k]);
    }
}

/// `DXYN` twice with the same operands restores the display: the second drawing flips back
/// exactly the pixels the first flipped. This needs `X` and `Y` other than `F`: the first
/// drawing rewrites `VF`, which would move a sprite positioned by `VF`.
pub proof fn law_draw_twice_restores(s: Machine, x: u8, y: u8, n: u8)
    requires
        s.well_formed(),
        x < 15,
        y < 15,
    ensures
        s.apply(Instruction::Draw { x, y, n }, 0).apply(Instruction::Draw { x, y, n }, 0).display
            == s.display,
{
    let t = s.apply(Instruction::Draw { x, y, n }, 0);
    assert(t.draw_x(x) == s.draw_x(x));
    assert(t.draw_y(y) == s.draw_y(y));
    assert(t.apply(Instruction::Draw { x, y, n }, 0).display =~= s.display);
}

/// `FX33` writes the decimal digits of `VX`: three digits below 10 that make up `VX`.
pub proof fn law_bcd(s: Machine, x: u8)
    requires
        s.well_formed(),
        x < 16,
        s.i + 2 < MEMORY_SIZE,
    ensures
        ({
            let m = s.apply(Instruction::StoreBcd { x }, 0).memory;
            &&& m[s.i as int] < 10 && m[s.i + 1] < 10 && m[s.i + 2] < 10
            &&& 100 * m[s.i as int] + 10 * m[s.i + 1] + m[s.i + 2] == s.v[x as int]
        }),
{
}

/// `FX55` then, with `I` set back, `FX65` reads back the registers it wrote: the registers
/// end as they were and `I` ends past the block.
pub proof fn law_store_then_load(s: Machine, x: u8)
    requires
        s.well_formed(),
        x < 16,
        s.i + x < MEMORY_SIZE,
    ensures
        ({
            let stored = s.apply(Instruction::StoreRegs { x }, 0);
            let back = Machine { i: s.i, ..stored }.apply(Instruction::LoadRegs { x }, 0);
            &&& back.v == s.v
            &&& back.i == s.i + x + 1
        }),
{
    let stored = s.apply(Instruction::StoreRegs { x }, 0);
    let back = Machine { i: s.i, ..stored }.apply(Instruction::LoadRegs { x }, 0);
    assert(back.v =~= s.v);
}

/// `CXKK` clears in `VX` every bit that `KK` clears, whatever byte was drawn; every other
/// instruction does not depend on the drawn byte.
pub proof fn law_random_masked(s: Machine, ins: Instruction, r1: u8, r2: u8)
    requires
        s.well_formed(),
        ins matches Instruction::Random { x, kk } ==> x < 16,
    ensures
        ins matches Instruction::Random { x, kk } ==> s.apply(ins, r1).v[x as int] & !kk == 0,
        !(ins is Random) ==> s.apply(ins, r1) == s.apply(ins, r2),
{
    if let Instruction::Random { x, kk } = ins {
        assert((r1 & kk) & !kk == 0) by (bit_vector);
    }
}

/// A key press shows as held down and a release as up. While `FX0A` waits, a press stores
/// the key's number in the awaited register; a release ends the wait only if a key was
/// pressed during it, so releasing a key held down before the wait leaves the wait and the
/// registers as they were.
pub proof fn law_keypad(s: Machine, key: Key)
    requires
        s.well_formed(),
    ensures
        s.register_input(Input::Down(key)).keypad[key_number(key) as int],
        !s.register_input(Input::Up(key)).keypad[key_number(key) as int],
        s.waiting_for_keypress ==> s.register_input(Input::Down(key)).v[s.keypress_register as int]
            == key_number(key),
        s.waiting_for_keypress ==> s.register_input(Input::Down(key)).waiting_for_keypress,
        s.waiting_for_keypress && s.key_pressed_while_waiting ==> !s.register_input(
            Input::Up(key),
        ).waiting_for_keypress,
        s.waiting_for_keypress && !s.key_pressed_while_waiting ==> s.register_input(
            Input::Up(key),
        ).waiting_for_keypress && s.register_input(Input::Up(key)).v == s.v,
        !s.waiting_for_keypress ==> !s.register_input(Input::Up(key)).waiting_for_keypress,
{
}

/// `FX0A` followed by a press and a release of a key leaves the key's number in `VX` and
/// execution running again; a release before any press leaves it waiting.
pub proof fn law_wait_for_key(s: Machine, x: u8, key: Key)
    requires
        s.well_formed(),
        x < 16,
        s.pc_fits(1),
    ensures
        ({
            let waiting = s.apply(Instruction::WaitKey { x }, 0);
            let pressed = waiting.register_input(Input::Down(key));
            let released = pressed.register_input(Input::Up(key));
            &&& waiting.waiting_for_keypress
            &&& waiting.register_input(Input::Up(key)).waiting_for_keypress
            &&& waiting.cycle(0) == Machine { should_redraw: false, ..waiting }
            &&& released.v[x as int] == key_number(key)
            &&& !released.waiting_for_keypress
        }),
{
}

/// A cycle while a key is awaited changes nothing but the redraw flag, which it clears.
pub proof fn law_waiting_cycle_idle(s: Machine, random: u8)
    requires
        s.waiting_for_keypress,
    ensures
        s.cycle(random) == (Machine { should_redraw: false, ..s }),
{
}

/// Timers count down by one per tick and stop at zero; the tone sounds only while the sound
/// timer is at least 2, so it stops once the timer reaches 1.
pub proof fn law_timers(s: Machine)
    ensures
        s.update_timers().dt == if s.dt == 0 { 0int } else { s.dt - 1 },
        s.update_timers().st == if s.st == 0 { 0int } else { s.st - 1 },
        s.st <= 2 ==> !s.update_timers().should_beep(),
        s.should_beep() <==> s.st >= 2,
{
}

/// Loading a program puts its bytes from address 0x200 on, so the first opcode fetched is
/// made of its first two bytes.
pub proof fn law_load_then_fetch(s: Machine, rom: Seq<u8>)
    requires
        s.well_formed(),
        rom.len() >= 2,
    ensures
        s.load_rom(rom).pc == 0x200,
        s.load_rom(rom).fetch() == rom[0] * 256 + rom[1],
{
}

/// A paused clock ignores time and takes no steps; a running one takes a step exactly when
/// one is gathered, and taking it removes exactly one step length.
pub proof fn law_clock_steps(c: ClockState, elapsed: u128)
    ensures
        c.paused ==> !c.step_due() && c.take_step() == c,
        c.step_due() ==> c.take_step().accumulator + c.target_dt == c.accumulator,
        !c.step_due() ==> c.take_step() == c,
        c.accumulator + elapsed <= u128::MAX ==> c.gather(elapsed).accumulator == c.accumulator
            + elapsed,
{
}

/// A running clock with a positive step length pays out the time it gathered in whole
/// steps: asking `k` times, for `k` up to the number of whole steps gathered, finds a step
/// due each time and leaves `k` step lengths fewer; once all whole steps are taken, less
/// than one step remains and none is due.
pub proof fn law_clock_pays_out_whole_steps(c: ClockState, k: nat)
    requires
        !c.paused,
        c.target_dt > 0,
        k <= c.accumulator / c.target_dt,
    ensures
        c.take_steps(k).accumulator == c.accumulator - k * c.target_dt,
        !c.take_steps(k).paused,
        c.take_steps(k).target_dt == c.target_dt,
        k < c.accumulator / c.target_dt ==> c.take_steps(k).step_due(),
        k == c.accumulator / c.target_dt ==> !c.take_steps(k).step_due()
            && c.take_steps(k).accumulator == c.accumulator % c.target_dt,
    decreases k,
{
    let (a, t) = (c.accumulator as int, c.target_dt as int);
    assert(a == t * (a / t) + a % t && 0 <= a % t < t) by (nonlinear_arith)
        requires
            t > 0,
            a >= 0,
    ;
    if k > 0 {
        assert(c.step_due()) by (nonlinear_arith)
            requires
                t > 0,
                a >= 0,
                k <= a / t,
                k > 0,
                a == t * (a / t) + a % t,
                0 <= a % t,
                c.accumulator == a,
                c.target_dt == t,
                !c.paused,
        ;
        let d = c.take_step();
        assert(d.accumulator == a - t);
        assert((a - t) / t == a / t - 1) by (nonlinear_arith)
            requires
                t > 0,
                a >= t,
        ;
        law_clock_pays_out_whole_steps(d, (k - 1) as nat);
        assert(d.take_steps((k - 1) as nat) == c.take_steps(k));
        assert(a - t - (k - 1) * t == a - k * t) by (nonlinear_arith);
        assert((a - t) % t == a % t) by (nonlinear_arith)
            requires
                t > 0,
                a >= t,
        ;
    } else {
        assert(k * t == 0) by (nonlinear_arith)
            requires
                k == 0,
        ;
        if a / t == 0 {
            assert(a == a % t && a < t) by (nonlinear_arith)
                requires
                    t > 0,
                    a / t == 0,
                    a == t * (a / t) + a % t,
                    0 <= a % t < t,
            ;
        } else {
            assert(a >= t) by (nonlinear_arith)
                requires
                    t > 0,
                    a / t > 0,
                    a == t * (a / t) + a % t,
                    0 <= a % t,
            ;
        }
    }
}

/// A paused clock ignores ticks; a running clock's tick gathers exactly the time from its
/// last reading to the new one and keeps the new reading.
pub proof fn law_clock_tick(c: ClockState, now: Instant)
    ensures
        c.paused ==> c.tick_at(now) == c,
        !c.paused ==> c.tick_at(now).last_reading == now && c.tick_at(now).accumulator == c.gather(
            nanos_between(now, c.last_reading),
        ).accumulator,
        c.tick_at(now).target_dt == c.target_dt && c.tick_at(now).paused == c.paused,
{
}

/// Two ticks in a row gather the time from the last reading to the first new one and from
/// there to the second, and leave the second as the last reading: no reading is skipped.
pub proof fn law_clock_split_tick(c: ClockState, t1: Instant, t2: Instant)
    requires
        !c.paused,
    ensures
        c.tick_at(t1).tick_at(t2) == (ClockState {
            last_reading: t2,
            ..c.gather(nanos_between(t1, c.last_reading)).gather(nanos_between(t2, t1))
        }),
{
}

/// The time while a clock is paused is not gathered: pausing at `t1`, restarting at `t2`
/// and ticking at `t3` gathers the time up to `t1` and from `t2` to `t3`, nothing between.
pub proof fn law_clock_paused_interval_not_gathered(
    c: ClockState,
    t1: Instant,
    t2: Instant,
    t3: Instant,
)
    ensures
        c.pause_at(t1).unpause_at(t2).tick_at(t3) == (ClockState {
            paused: false,
            last_reading: t3,
            ..c.gather(nanos_between(t1, c.last_reading)).gather(nanos_between(t3, t2))
        }),
{
}

/// `n` timer ticks in a row count each timer down by `n`, stopping at zero.
pub proof fn law_timers_count_down(s: Machine, n: nat)
    ensures
        s.update_timers_n(n).dt == if s.dt >= n { s.dt - n } else { 0int },
        s.update_timers_n(n).st == if s.st >= n { s.st - n } else { 0int },
        n >= 255 ==> s.update_timers_n(n).dt == 0 && s.update_timers_n(n).st == 0,
    decreases n,
{
    if n > 0 {
        law_timers_count_down(s.update_timers(), (n - 1) as nat);
    }
}

} // verus!
