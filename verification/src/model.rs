use crate::types::{key_number, Input, Quirks};
use vstd::prelude::*;

verus! {

/// Pixels in a row of the display.
pub const DISPLAY_WIDTH: usize = 64;

/// Rows of the display.
pub const DISPLAY_HEIGHT: usize = 32;

/// Number of data registers `V0` to `VF`.
pub const REGISTER_COUNT: usize = 16;

/// Depth of the call stack.
pub const STACK_SIZE: usize = 16;

/// Bytes of the built-in hexadecimal font: five bytes for each of the 16 digits.
pub const FONTSET_SIZE: usize = 80;

/// Bytes of addressable memory.
pub const MEMORY_SIZE: usize = 4096;

/// Address at which programs are loaded and execution starts.
pub const START_ROM_ADDRESS: usize = 0x200;

/// The largest program that fits between the start address and the end of memory.
pub const MAX_ROM_SIZE: usize = 3584;

/// The sprites of the hexadecimal digits 0 to F, five rows each, stored from address 0.
pub open spec fn font() -> Seq<u8> {
    seq![
        0xF0u8, 0x90, 0x90, 0x90, 0xF0,
        0x20, 0x60, 0x20, 0x20, 0x70,
        0xF0, 0x10, 0xF0, 0x80, 0xF0,
        0xF0, 0x10, 0xF0, 0x10, 0xF0,
        0x90, 0x90, 0xF0, 0x10, 0x10,
        0xF0, 0x80, 0xF0, 0x10, 0xF0,
        0xF0, 0x80, 0xF0, 0x90, 0xF0,
        0xF0, 0x10, 0x20, 0x40, 0x40,
        0xF0, 0x90, 0xF0, 0x90, 0xF0,
        0xF0, 0x90, 0xF0, 0x10, 0xF0,
        0xF0, 0x90, 0xF0, 0x90, 0x90,
        0xE0, 0x90, 0xE0, 0x90, 0xE0,
        0xF0, 0x80, 0x80, 0x80, 0xF0,
        0xE0, 0x90, 0x90, 0x90, 0xE0,
        0xF0, 0x80, 0xF0, 0x80, 0xF0,
        0xF0, 0x80, 0xF0, 0x80, 0x80,
    ]
}

/// The whole state of the interpreter, as mathematical values.
#[verifier::ext_equal]
pub struct Machine {
    /// Program counter.
    pub pc: u16,
    /// Address register `I`.
    pub i: u16,
    /// Data registers `V0` to `VF`.
    pub v: Seq<u8>,
    /// Return addresses, innermost last.
    pub stack: Seq<u16>,
    /// The 4096 bytes of memory.
    pub memory: Seq<u8>,
    /// The 64 x 32 pixels, row by row.
    pub display: Seq<bool>,
    /// Whether the last cycle ran a display instruction.
    pub should_redraw: bool,
    /// Delay timer.
    pub dt: u8,
    /// Sound timer.
    pub st: u8,
    /// Key states, by key number.
    pub keypad: Seq<bool>,
    /// Whether execution is halted by `FX0A` until a key is released.
    pub waiting_for_keypress: bool,
    /// The register that `FX0A` stores the pressed key in.
    pub keypress_register: u8,
    /// Whether a key went down while `FX0A` was waiting.
    pub key_pressed_while_waiting: bool,
    /// The selected quirks.
    pub quirks: Quirks,
}

/// An instruction, decoded from its 16-bit opcode.
pub enum Instruction {
    /// `0NNN`: machine code routine (not supported; skipped).
    Sys { nnn: u16 },
    /// `00E0`: clear the display.
    Cls,
    /// `00EE`: return from a subroutine.
    Ret,
    /// `1NNN`: jump to `NNN`.
    Jump { nnn: u16 },
    /// `2NNN`: call the subroutine at `NNN`.
    Call { nnn: u16 },
    /// `3XKK`: skip the next instruction if `VX == KK`.
    SkipEqByte { x: u8, kk: u8 },
    /// `4XKK`: skip the next instruction if `VX != KK`.
    SkipNeByte { x: u8, kk: u8 },
    /// `5XY0`: skip the next instruction if `VX == VY`.
    SkipEqReg { x: u8, y: u8 },
    /// `6XKK`: `VX = KK`.
    LoadByte { x: u8, kk: u8 },
    /// `7XKK`: `VX += KK`, wrapping.
    AddByte { x: u8, kk: u8 },
    /// `8XY0`: `VX = VY`.
    Move { x: u8, y: u8 },
    /// `8XY1`: `VX |= VY`.
    Or { x: u8, y: u8 },
    /// `8XY2`: `VX &= VY`.
    And { x: u8, y: u8 },
    /// `8XY3`: `VX ^= VY`.
    Xor { x: u8, y: u8 },
    /// `8XY4`: `VX += VY`, `VF` = carry.
    Add { x: u8, y: u8 },
    /// `8XY5`: `VX -= VY`, `VF` = no borrow.
    Sub { x: u8, y: u8 },
    /// `8XY6`: `VX = VY >> 1`, `VF` = the bit of `VY` shifted out.
    ShiftRight { x: u8, y: u8 },
    /// `8XY7`: `VX = VY - VX`, `VF` = no borrow.
    SubReverse { x: u8, y: u8 },
    /// `8XYE`: `VX = VY << 1`, `VF` = the bit shifted out.
    ShiftLeft { x: u8, y: u8 },
    /// `9XY0`: skip the next instruction if `VX != VY`.
    SkipNeReg { x: u8, y: u8 },
    /// `ANNN`: `I = NNN`.
    LoadI { nnn: u16 },
    /// `BNNN`: jump to `NNN + V0`.
    JumpOffset { nnn: u16 },
    /// `CXKK`: `VX` = a random byte AND `KK`.
    Random { x: u8, kk: u8 },
    /// `DXYN`: draw the `N`-row sprite at `I` at (`VX`, `VY`).
    Draw { x: u8, y: u8, n: u8 },
    /// `EX9E`: skip the next instruction if the key `VX` is down.
    SkipPressed { x: u8 },
    /// `EXA1`: skip the next instruction if the key `VX` is up.
    SkipNotPressed { x: u8 },
    /// `FX07`: `VX` = delay timer.
    LoadDelay { x: u8 },
    /// `FX0A`: wait until a key is pressed (and released) and store it in `VX`.
    WaitKey { x: u8 },
    /// `FX15`: delay timer = `VX`.
    SetDelay { x: u8 },
    /// `FX18`: sound timer = `VX`.
    SetSound { x: u8 },
    /// `FX1E`: `I += VX`, wrapping at 16 bits.
    AddI { x: u8 },
    /// `FX29`: `I` = address of the font sprite of digit `VX`.
    LoadFont { x: u8 },
    /// `FX33`: store the decimal digits of `VX` at `I`, `I + 1`, `I + 2`.
    StoreBcd { x: u8 },
    /// `FX55`: store `V0..=VX` at `I`; `I += X + 1`.
    StoreRegs { x: u8 },
    /// `FX65`: load `V0..=VX` from `I`; `I += X + 1`.
    LoadRegs { x: u8 },
    /// Any other opcode.
    Unknown,
}

impl Instruction {
    /// The register numbers and the sprite height of the instruction are nibbles, as they
    /// are in every decoded opcode.
    pub open spec fn fields_in_range(self) -> bool {
        match self {
            Instruction::SkipEqByte { x, .. } | Instruction::SkipNeByte { x, .. }
            | Instruction::LoadByte { x, .. } | Instruction::AddByte { x, .. }
            | Instruction::Random { x, .. } | Instruction::SkipPressed { x }
            | Instruction::SkipNotPressed { x } | Instruction::LoadDelay { x }
            | Instruction::WaitKey { x } | Instruction::SetDelay { x } | Instruction::SetSound { x }
            | Instruction::AddI { x } | Instruction::LoadFont { x } | Instruction::StoreBcd { x }
            | Instruction::StoreRegs { x } | Instruction::LoadRegs { x } => x < 16,
            Instruction::SkipEqReg { x, y } | Instruction::SkipNeReg { x, y }
            | Instruction::Move { x, y } | Instruction::Or { x, y } | Instruction::And { x, y }
            | Instruction::Xor { x, y } | Instruction::Add { x, y } | Instruction::Sub { x, y }
            | Instruction::ShiftRight { x, y } | Instruction::SubReverse { x, y }
            | Instruction::ShiftLeft { x, y } => x < 16 && y < 16,
            Instruction::Draw { x, y, n } => x < 16 && y < 16 && n < 16,
            _ => true,
        }
    }
}

/// The first (most significant) nibble of an opcode.
pub open spec fn nibble0(opcode: u16) -> u8 {
    (opcode / 0x1000) as u8
}

/// The second nibble of an opcode: the register `X`.
pub open spec fn nibble1(opcode: u16) -> u8 {
    ((opcode / 0x100) % 16) as u8
}

/// The third nibble of an opcode: the register `Y`.
pub open spec fn nibble2(opcode: u16) -> u8 {
    ((opcode / 0x10) % 16) as u8
}

/// The last nibble of an opcode: `N`.
pub open spec fn nibble3(opcode: u16) -> u8 {
    (opcode % 16) as u8
}

/// The low 12 bits of an opcode: the address `NNN`.
pub open spec fn address_of(opcode: u16) -> u16 {
    opcode % 0x1000
}

/// The low byte of an opcode: `KK`.
pub open spec fn byte_of(opcode: u16) -> u8 {
    (opcode % 0x100) as u8
}

/// The instruction that an opcode stands for.
pub open spec fn decode(opcode: u16) -> Instruction {
    let (a, b, c, d) = (nibble0(opcode), nibble1(opcode), nibble2(opcode), nibble3(opcode));
    let (nnn, kk, x, y) = (address_of(opcode), byte_of(opcode), b, c);
    if a == 0x0 && b == 0x0 && c == 0xE && d == 0x0 {
        Instruction::Cls
    } else if a == 0x0 && b == 0x0 && c == 0xE && d == 0xE {
        Instruction::Ret
    } else if a == 0x0 {
        Instruction::Sys { nnn }
    } else if a == 0x1 {
        Instruction::Jump { nnn }
    } else if a == 0x2 {
        Instruction::Call { nnn }
    } else if a == 0x3 {
        Instruction::SkipEqByte { x, kk }
    } else if a == 0x4 {
        Instruction::SkipNeByte { x, kk }
    } else if a == 0x5 && d == 0x0 {
        Instruction::SkipEqReg { x, y }
    } else if a == 0x6 {
        Instruction::LoadByte { x, kk }
    } else if a == 0x7 {
        Instruction::AddByte { x, kk }
    } else if a == 0x8 && d == 0x0 {
        Instruction::Move { x, y }
    } else if a == 0x8 && d == 0x1 {
        Instruction::Or { x, y }
    } else if a == 0x8 && d == 0x2 {
        Instruction::And { x, y }
    } else if a == 0x8 && d == 0x3 {
        Instruction::Xor { x, y }
    } else if a == 0x8 && d == 0x4 {
        Instruction::Add { x, y }
    } else if a == 0x8 && d == 0x5 {
        Instruction::Sub { x, y }
    } else if a == 0x8 && d == 0x6 {
        Instruction::ShiftRight { x, y }
    } else if a == 0x8 && d == 0x7 {
        Instruction::SubReverse { x, y }
    } else if a == 0x8 && d == 0xE {
        Instruction::ShiftLeft { x, y }
    } else if a == 0x9 && d == 0x0 {
        Instruction::SkipNeReg { x, y }
    } else if a == 0xA {
        Instruction::LoadI { nnn }
    } else if a == 0xB {
        Instruction::JumpOffset { nnn }
    } else if a == 0xC {
        Instruction::Random { x, kk }
    } else if a == 0xD {
        Instruction::Draw { x, y, n: d }
    } else if a == 0xE && c == 0x9 && d == 0xE {
        Instruction::SkipPressed { x }
    } else if a == 0xE && c == 0xA && d == 0x1 {
        Instruction::SkipNotPressed { x }
    } else if a == 0xF && c == 0x0 && d == 0x7 {
        Instruction::LoadDelay { x }
    } else if a == 0xF && c == 0x0 && d == 0xA {
        Instruction::WaitKey { x }
    } else if a == 0xF && c == 0x1 && d == 0x5 {
        Instruction::SetDelay { x }
    } else if a == 0xF && c == 0x1 && d == 0x8 {
        Instruction::SetSound { x }
    } else if a == 0xF && c == 0x1 && d == 0xE {
        Instruction::AddI { x }
    } else if a == 0xF && c == 0x2 && d == 0x9 {
        Instruction::LoadFont { x }
    } else if a == 0xF && c == 0x3 && d == 0x3 {
        Instruction::StoreBcd { x }
    } else if a == 0xF && c == 0x5 && d == 0x5 {
        Instruction::StoreRegs { x }
    } else if a == 0xF && c == 0x6 && d == 0x5 {
        Instruction::LoadRegs { x }
    } else {
        Instruction::Unknown
    }
}

/// Whether a display instruction (`00E0` or `DXYN`) is the given opcode.
pub open spec fn is_display_opcode(opcode: u16) -> bool {
    opcode == 0x00E0 || opcode / 0x1000 == 0xD
}

/// Bit `k` of a sprite row, counting from the most significant bit (the leftmost pixel).
pub open spec fn sprite_bit(row: u8, k: int) -> bool {
    (row >> ((7 - k) as u8)) & 1 == 1
}

/// How many sprite rows `DXYN` draws from the start row `sy`.
pub open spec fn drawn_rows(wrap: bool, sy: int, n: int) -> int {
    if wrap || sy + n <= DISPLAY_HEIGHT {
        n
    } else {
        DISPLAY_HEIGHT - sy
    }
}

/// How many sprite columns `DXYN` draws from the start column `sx`.
pub open spec fn drawn_cols(wrap: bool, sx: int) -> int {
    if wrap || sx + 8 <= DISPLAY_WIDTH {
        8
    } else {
        DISPLAY_WIDTH - sx
    }
}

/// The sprite row that lands on display row `py` when the sprite starts at row `sy`.
pub open spec fn row_offset(wrap: bool, sy: int, py: int) -> int {
    if wrap {
        (py - sy + DISPLAY_HEIGHT) % (DISPLAY_HEIGHT as int)
    } else {
        py - sy
    }
}

/// The sprite column that lands on display column `px` when the sprite starts at column `sx`.
pub open spec fn col_offset(wrap: bool, sx: int, px: int) -> int {
    if wrap {
        (px - sx + DISPLAY_WIDTH) % (DISPLAY_WIDTH as int)
    } else {
        px - sx
    }
}

/// The sprite row that lands on the row of display pixel `idx`.
pub open spec fn pixel_row(wrap: bool, sy: int, idx: int) -> int {
    row_offset(wrap, sy, idx / (DISPLAY_WIDTH as int))
}

/// The sprite column that lands on the column of display pixel `idx`.
pub open spec fn pixel_col(wrap: bool, sx: int, idx: int) -> int {
    col_offset(wrap, sx, idx % (DISPLAY_WIDTH as int))
}

impl Machine {
    /// The sizes of the state's parts, the stack depth and the key register are in range.
    pub open spec fn well_formed(self) -> bool {
        &&& self.v.len() == REGISTER_COUNT
        &&& self.memory.len() == MEMORY_SIZE
        &&& self.display.len() == DISPLAY_WIDTH * DISPLAY_HEIGHT
        &&& self.keypad.len() == 16
        &&& self.stack.len() <= STACK_SIZE
        &&& self.keypress_register < 16
    }

    /// The state of a new interpreter with the given quirks.
    pub open spec fn initial(quirks: Quirks) -> Machine {
        Machine {
            pc: START_ROM_ADDRESS as u16,
            i: 0,
            v: Seq::new(REGISTER_COUNT as nat, |k: int| 0u8),
            stack: Seq::empty(),
            memory: font() + Seq::new((MEMORY_SIZE - FONTSET_SIZE) as nat, |k: int| 0u8),
            display: Seq::new((DISPLAY_WIDTH * DISPLAY_HEIGHT) as nat, |k: int| false),
            should_redraw: false,
            dt: 0,
            st: 0,
            keypad: Seq::new(16, |k: int| false),
            waiting_for_keypress: false,
            keypress_register: 0,
            key_pressed_while_waiting: false,
            quirks,
        }
    }

    /// The state after loading a program: the program counter is at the start address and
    /// the program (cut to what fits) is copied there; the rest of memory is kept.
    pub open spec fn load_rom(self, rom: Seq<u8>) -> Machine {
        let size = if rom.len() > MAX_ROM_SIZE { MAX_ROM_SIZE as int } else { rom.len() as int };
        Machine {
            pc: START_ROM_ADDRESS as u16,
            memory: Seq::new(
                self.memory.len(),
                |a: int|
                    if START_ROM_ADDRESS <= a < START_ROM_ADDRESS + size {
                        rom[a - START_ROM_ADDRESS]
                    } else {
                        self.memory[a]
                    },
            ),
            ..self
        }
    }

    /// The state after a key changes: the keypad records it. While `FX0A` waits, a press
    /// stores the key's number in the key register, and a release ends the wait once a key
    /// has been pressed during it (releasing a key held down before the wait does not).
    pub open spec fn register_input(self, input: Input) -> Machine {
        match input {
            Input::Up(key) => {
                let s = Machine { keypad: self.keypad.update(key_number(key) as int, false), ..self };
                if self.waiting_for_keypress && self.key_pressed_while_waiting {
                    Machine { waiting_for_keypress: false, key_pressed_while_waiting: false, ..s }
                } else {
                    s
                }
            },
            Input::Down(key) => {
                let s = Machine { keypad: self.keypad.update(key_number(key) as int, true), ..self };
                if self.waiting_for_keypress {
                    Machine {
                        key_pressed_while_waiting: true,
                        ..s.with_v(self.keypress_register as int, key_number(key))
                    }
                } else {
                    s
                }
            },
        }
    }

    /// The state after one timer tick: both timers count down by one, stopping at zero.
    pub open spec fn update_timers(self) -> Machine {
        Machine {
            dt: if self.dt > 0 { (self.dt - 1) as u8 } else { 0 },
            st: if self.st > 0 { (self.st - 1) as u8 } else { 0 },
            ..self
        }
    }

    /// The state after `n` timer ticks in a row.
    pub open spec fn update_timers_n(self, n: nat) -> Machine
        decreases n,
    {
        if n == 0 {
            self
        } else {
            self.update_timers().update_timers_n((n - 1) as nat)
        }
    }

    /// Whether the tone should sound: the sound timer is at least 2.
    pub open spec fn should_beep(self) -> bool {
        self.st >= 2
    }

    /// The opcode at the program counter: the byte there is the high byte.
    pub open spec fn fetch(self) -> u16 {
        (self.memory[self.pc as int] * 0x100 + self.memory[self.pc + 1]) as u16
    }

    /// Whether the opcode at the program counter can be read: both its bytes are in memory.
    pub open spec fn can_fetch(self) -> bool {
        self.pc + 1 < MEMORY_SIZE
    }

    /// The program counter moved on by `count` instructions.
    pub open spec fn advance(self, count: int) -> Machine {
        Machine { pc: (self.pc + 2 * count) as u16, ..self }
    }

    /// Whether the program counter can move on by `count` instructions without passing 0xFFFF.
    pub open spec fn pc_fits(self, count: int) -> bool {
        self.pc + 2 * count <= 0xFFFF
    }

    /// Skip the next instruction if `cond` holds, else move on to it.
    pub open spec fn skip_if(self, cond: bool) -> Machine {
        self.advance(if cond { 2 } else { 1 })
    }

    /// Register `x` set to `value`.
    pub open spec fn with_v(self, x: int, value: u8) -> Machine {
        Machine { v: self.v.update(x, value), ..self }
    }

    /// `VF` set to 0 if the vf-reset quirk is on.
    pub open spec fn flag_reset(self) -> Machine {
        if self.quirks.vf_reset {
            self.with_v(15, 0)
        } else {
            self
        }
    }

    /// Whether the display pixel `idx` is flipped by a sprite of `n` rows at `I` drawn from
    /// column `sx` and row `sy`.
    pub open spec fn sprite_pixel(self, sx: int, sy: int, n: int, idx: int) -> bool {
        let wrap = self.quirks.draw_wrap;
        let oy = pixel_row(wrap, sy, idx);
        let ox = pixel_col(wrap, sx, idx);
        &&& 0 <= oy < drawn_rows(wrap, sy, n)
        &&& 0 <= ox < drawn_cols(wrap, sx)
        &&& sprite_bit(self.memory[self.i + oy], ox)
    }

    /// The start column of a sprite drawn by `DXYN`: `VX` modulo 64.
    pub open spec fn draw_x(self, x: u8) -> int {
        (self.v[x as int] as int) % (DISPLAY_WIDTH as int)
    }

    /// The start row of a sprite drawn by `DXYN`: `VY` modulo 32.
    pub open spec fn draw_y(self, y: u8) -> int {
        (self.v[y as int] as int) % (DISPLAY_HEIGHT as int)
    }

    /// Whether drawing turns off a pixel that was on.
    pub open spec fn draw_collides(self, x: u8, y: u8, n: u8) -> bool {
        exists|idx: int|
            0 <= idx < self.display.len() && #[trigger] self.display[idx] && self.sprite_pixel(
                self.draw_x(x),
                self.draw_y(y),
                n as int,
                idx,
            )
    }

    /// `DXYN`: each sprite pixel that is set flips the display pixel under it; `VF` tells
    /// whether a pixel went from on to off.
    pub open spec fn draw(self, x: u8, y: u8, n: u8) -> Machine {
        let (sx, sy) = (self.draw_x(x), self.draw_y(y));
        Machine {
            display: Seq::new(
                self.display.len(),
                |idx: int| self.display[idx] != self.sprite_pixel(sx, sy, n as int, idx),
            ),
            v: self.v.update(15, if self.draw_collides(x, y, n) { 1u8 } else { 0u8 }),
            ..self
        }.advance(1)
    }

    /// `FX55`: memory from `I` to `I + X` takes `V0..=VX`; `I` moves past them.
    pub open spec fn store_registers(self, x: u8) -> Machine {
        Machine {
            memory: Seq::new(
                self.memory.len(),
                |a: int| if self.i <= a <= self.i + x { self.v[a - self.i] } else { self.memory[a] },
            ),
            i: (self.i + x + 1) as u16,
            ..self
        }.advance(1)
    }

    /// `FX65`: `V0..=VX` take the memory from `I` to `I + X`; `I` moves past them.
    pub open spec fn load_registers(self, x: u8) -> Machine {
        Machine {
            v: Seq::new(
                self.v.len(),
                |r: int| if r <= x { self.memory[self.i + r] } else { self.v[r] },
            ),
            i: (self.i + x + 1) as u16,
            ..self
        }.advance(1)
    }

    /// `FX33`: the hundreds, tens and units of `VX` at `I`, `I + 1` and `I + 2`.
    pub open spec fn store_bcd(self, x: u8) -> Machine {
        let vx = self.v[x as int];
        Machine {
            memory: self.memory.update(self.i as int, vx / 100).update(
                self.i + 1,
                (vx % 100) / 10,
            ).update(self.i + 2, vx % 10),
            ..self
        }.advance(1)
    }

    /// The state after running an instruction, `random` being the byte that `CXKK` draws.
    pub open spec fn apply(self, ins: Instruction, random: u8) -> Machine {
        match ins {
            Instruction::Sys { .. } => self.advance(1),
            Instruction::Cls => Machine {
                display: Seq::new(self.display.len(), |k: int| false),
                ..self
            }.advance(1),
            Instruction::Ret => Machine {
                pc: self.stack.last(),
                stack: self.stack.drop_last(),
                ..self
            },
            Instruction::Jump { nnn } => Machine { pc: nnn, ..self },
            Instruction::Call { nnn } => Machine {
                pc: nnn,
                stack: self.stack.push((self.pc + 2) as u16),
                ..self
            },
            Instruction::SkipEqByte { x, kk } => self.skip_if(self.v[x as int] == kk),
            Instruction::SkipNeByte { x, kk } => self.skip_if(self.v[x as int] != kk),
            Instruction::SkipEqReg { x, y } => self.skip_if(self.v[x as int] == self.v[y as int]),
            Instruction::LoadByte { x, kk } => self.with_v(x as int, kk).advance(1),
            Instruction::AddByte { x, kk } => self.with_v(
                x as int,
                ((self.v[x as int] + kk) % 256) as u8,
            ).advance(1),
            Instruction::Move { x, y } => self.with_v(x as int, self.v[y as int]).advance(1),
            Instruction::Or { x, y } => self.with_v(
                x as int,
                self.v[x as int] | self.v[y as int],
            ).flag_reset().advance(1),
            Instruction::And { x, y } => self.with_v(
                x as int,
                self.v[x as int] & self.v[y as int],
            ).flag_reset().advance(1),
            Instruction::Xor { x, y } => self.with_v(
                x as int,
                self.v[x as int] ^ self.v[y as int],
            ).flag_reset().advance(1),
            Instruction::Add { x, y } => {
                let sum = self.v[x as int] + self.v[y as int];
                self.with_v(x as int, (sum % 256) as u8).with_v(
                    15,
                    if sum > 255 { 1u8 } else { 0u8 },
                ).advance(1)
            },
            Instruction::Sub { x, y } => {
                let (a, b) = (self.v[x as int], self.v[y as int]);
                self.with_v(x as int, ((a - b + 256) % 256) as u8).with_v(
                    15,
                    if a >= b { 1u8 } else { 0u8 },
                ).advance(1)
            },
            Instruction::ShiftRight { x, y } => {
                let vy = self.v[y as int];
                self.with_v(x as int, vy >> 1u8).with_v(15, vy & 1u8).advance(1)
            },
            Instruction::SubReverse { x, y } => {
                let (a, b) = (self.v[x as int], self.v[y as int]);
                self.with_v(x as int, ((b - a + 256) % 256) as u8).with_v(
                    15,
                    if b >= a { 1u8 } else { 0u8 },
                ).advance(1)
            },
            Instruction::ShiftLeft { x, y } => {
                let vy = self.v[y as int];
                self.with_v(x as int, vy << 1u8).with_v(15, vy >> 7u8).advance(1)
            },
            Instruction::SkipNeReg { x, y } => self.skip_if(self.v[x as int] != self.v[y as int]),
            Instruction::LoadI { nnn } => Machine { i: nnn, ..self }.advance(1),
            Instruction::JumpOffset { nnn } => Machine { pc: (nnn + self.v[0]) as u16, ..self },
            Instruction::Random { x, kk } => self.with_v(x as int, random & kk).advance(1),
            Instruction::Draw { x, y, n } => self.draw(x, y, n),
            Instruction::SkipPressed { x } => self.skip_if(self.keypad[self.v[x as int] as int]),
            Instruction::SkipNotPressed { x } => self.skip_if(
                !self.keypad[self.v[x as int] as int],
            ),
            Instruction::LoadDelay { x } => self.with_v(x as int, self.dt).advance(1),
            Instruction::WaitKey { x } => Machine {
                waiting_for_keypress: true,
                keypress_register: x,
                key_pressed_while_waiting: false,
                ..self
            }.advance(1),
            Instruction::SetDelay { x } => Machine { dt: self.v[x as int], ..self }.advance(1),
            Instruction::SetSound { x } => Machine { st: self.v[x as int], ..self }.advance(1),
            Instruction::AddI { x } => Machine {
                i: ((self.i + self.v[x as int]) % 0x10000) as u16,
                ..self
            }.advance(1),
            Instruction::LoadFont { x } => Machine {
                i: (self.v[x as int] * 5) as u16,
                ..self
            }.advance(1),
            Instruction::StoreBcd { x } => self.store_bcd(x),
            Instruction::StoreRegs { x } => self.store_registers(x),
            Instruction::LoadRegs { x } => self.load_registers(x),
            Instruction::Unknown => self,
        }
    }

    /// Whether running the instruction stays within what the interpreter can do: the opcode
    /// is known, memory and keypad reads and writes are in range, the stack neither
    /// underflows nor overflows, and the program counter and `FX29`'s product stay in range.
    pub open spec fn can_apply(self, ins: Instruction) -> bool {
        match ins {
            Instruction::Ret => self.stack.len() > 0,
            Instruction::Jump { .. } => true,
            Instruction::JumpOffset { .. } => true,
            Instruction::Call { .. } => self.stack.len() < STACK_SIZE && self.pc_fits(1),
            Instruction::SkipEqByte { x, kk } => self.pc_fits(
                if self.v[x as int] == kk { 2 } else { 1 },
            ),
            Instruction::SkipNeByte { x, kk } => self.pc_fits(
                if self.v[x as int] != kk { 2 } else { 1 },
            ),
            Instruction::SkipEqReg { x, y } => self.pc_fits(
                if self.v[x as int] == self.v[y as int] { 2 } else { 1 },
            ),
            Instruction::SkipNeReg { x, y } => self.pc_fits(
                if self.v[x as int] != self.v[y as int] { 2 } else { 1 },
            ),
            Instruction::SkipPressed { x } => self.v[x as int] < 16 && self.pc_fits(
                if self.keypad[self.v[x as int] as int] { 2 } else { 1 },
            ),
            Instruction::SkipNotPressed { x } => self.v[x as int] < 16 && self.pc_fits(
                if !self.keypad[self.v[x as int] as int] { 2 } else { 1 },
            ),
            Instruction::Draw { y, n, .. } => self.pc_fits(1) && self.i + drawn_rows(
                self.quirks.draw_wrap,
                self.draw_y(y),
                n as int,
            ) <= MEMORY_SIZE,
            Instruction::LoadFont { x } => self.pc_fits(1) && self.v[x as int] * 5 <= 255,
            Instruction::StoreBcd { .. } => self.pc_fits(1) && self.i + 2 < MEMORY_SIZE,
            Instruction::StoreRegs { x } => self.pc_fits(1) && self.i + x < MEMORY_SIZE,
            Instruction::LoadRegs { x } => self.pc_fits(1) && self.i + x < MEMORY_SIZE,
            Instruction::Unknown => false,
            _ => self.pc_fits(1),
        }
    }

    /// The state after running an opcode.
    pub open spec fn execute(self, opcode: u16, random: u8) -> Machine {
        self.apply(decode(opcode), random)
    }

    /// Whether running the opcode stays within what the interpreter can do.
    pub open spec fn can_execute(self, opcode: u16) -> bool {
        self.can_apply(decode(opcode))
    }

    /// Whether a cycle can run: no key is awaited, or the opcode at the program counter can
    /// be read and run.
    pub open spec fn can_cycle(self) -> bool {
        self.waiting_for_keypress || (self.can_fetch() && self.can_execute(self.fetch()))
    }

    /// A tick of an event-driven run: a cycle, then both timers count down unless a key is
    /// awaited.
    pub open spec fn tick(self, random: u8) -> Machine {
        if self.waiting_for_keypress {
            self.cycle(random)
        } else {
            self.cycle(random).update_timers()
        }
    }

    /// One cycle: while a key is awaited nothing runs and nothing is to be redrawn; otherwise
    /// the opcode at the program counter runs, and a redraw is due after a display opcode.
    pub open spec fn cycle(self, random: u8) -> Machine {
        if self.waiting_for_keypress {
            Machine { should_redraw: false, ..self }
        } else {
            let opcode = self.fetch();
            Machine {
                should_redraw: is_display_opcode(opcode),
                ..self.execute(opcode, random)
            }
        }
    }
}

/// Whether the display pixel `idx` is flipped by the sprite and has been reached by a draw
/// that has done all sprite rows before `oy` and the columns before `ox` of row `oy`.
pub open spec fn drawn_before(m: Machine, sx: int, sy: int, n: int, oy: int, ox: int, idx: int) -> bool {
    let wrap = m.quirks.draw_wrap;
    let ry = pixel_row(wrap, sy, idx);
    let rx = pixel_col(wrap, sx, idx);
    m.sprite_pixel(sx, sy, n, idx) && (ry < oy || (ry == oy && rx < ox))
}

/// The display pixel at which sprite row `oy`, column `ox` lands, and the fact that it is the
/// only pixel whose offsets are (`oy`, `ox`).
pub proof fn lemma_sprite_cell(wrap: bool, sx: int, sy: int, oy: int, ox: int)
    requires
        0 <= sx < DISPLAY_WIDTH,
        0 <= sy < DISPLAY_HEIGHT,
        0 <= oy < 16,
        0 <= ox < 8,
        !wrap ==> sy + oy < DISPLAY_HEIGHT,
        !wrap ==> sx + ox < DISPLAY_WIDTH,
    ensures
        ({
            let idx = (sx + ox) % (DISPLAY_WIDTH as int) + ((sy + oy) % (DISPLAY_HEIGHT as int))
                * DISPLAY_WIDTH;
            &&& 0 <= idx < DISPLAY_WIDTH * DISPLAY_HEIGHT
            &&& pixel_row(wrap, sy, idx) == oy
            &&& pixel_col(wrap, sx, idx) == ox
            &&& forall|j: int|
                0 <= j < DISPLAY_WIDTH * DISPLAY_HEIGHT && #[trigger] pixel_row(wrap, sy, j) == oy
                    && #[trigger] pixel_col(wrap, sx, j) == ox ==> j == idx
        }),
{
    let cx = (sx + ox) % 64;
    let cy = (sy + oy) % 32;
    let idx = cx + cy * 64;
    assert(0 <= cx < 64);
    assert(0 <= cy < 32);
    assert(idx / 64 == cy && idx % 64 == cx) by (nonlinear_arith)
        requires
            idx == cx + cy * 64,
            0 <= cx < 64,
            0 <= cy < 32,
    ;
    assert forall|j: int|
        0 <= j < 2048 && #[trigger] pixel_row(wrap, sy, j) == oy && #[trigger] pixel_col(
            wrap,
            sx,
            j,
        ) == ox implies j == idx by {
        let px = j % 64;
        let py = j / 64;
        assert(j == px + py * 64 && 0 <= px < 64 && 0 <= py < 32) by (nonlinear_arith)
            requires
                0 <= j < 2048,
                px == j % 64,
                py == j / 64,
        ;
    }
}

/// Once all the columns of a row are done, the draw has reached the start of the next row.
pub proof fn lemma_row_done(m: Machine, sx: int, sy: int, n: int, oy: int, ox: int, idx: int)
    requires
        ox >= drawn_cols(m.quirks.draw_wrap, sx),
    ensures
        drawn_before(m, sx, sy, n, oy, ox, idx) == drawn_before(m, sx, sy, n, oy + 1, 0, idx),
{
}

/// Once all the rows are done, the draw has reached every pixel that the sprite flips.
pub proof fn lemma_rows_done(m: Machine, sx: int, sy: int, n: int, oy: int, idx: int)
    requires
        oy >= drawn_rows(m.quirks.draw_wrap, sy, n),
    ensures
        drawn_before(m, sx, sy, n, oy, 0, idx) == m.sprite_pixel(sx, sy, n, idx),
{
}

} // verus!
