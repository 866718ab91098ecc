use crate::bits::{
    keypad_get, keypad_keys, keypad_set, keypad_zero, lsb0_bit, screen_bytes, screen_fill,
    screen_get, screen_pixels, screen_set, screen_zero, Keypad, Screen,
};
use crate::model::{
    address_of, byte_of, drawn_before, drawn_cols, drawn_rows, font, lemma_row_done,
    lemma_rows_done, lemma_sprite_cell, nibble0, nibble1, nibble2, nibble3, Instruction, Machine,
    DISPLAY_HEIGHT, DISPLAY_WIDTH, FONTSET_SIZE, MAX_ROM_SIZE, MEMORY_SIZE, START_ROM_ADDRESS,
};
use crate::random::random_byte;
use crate::stack::{stack_clone, stack_contents, stack_len, stack_new, stack_pop, stack_push};
use crate::types::{key_number, Event, Input, Key, Quirks};
use arrayvec::ArrayVec;
use vstd::prelude::*;

verus! {

const FONTSET: [u8; 80] = [
    0xF0, 0x90, 0x90, 0x90, 0xF0, // 0
    0x20, 0x60, 0x20, 0x20, 0x70, // 1
    0xF0, 0x10, 0xF0, 0x80, 0xF0, // 2
    0xF0, 0x10, 0xF0, 0x10, 0xF0, // 3
    0x90, 0x90, 0xF0, 0x10, 0x10, // 4
    0xF0, 0x80, 0xF0, 0x10, 0xF0, // 5
    0xF0, 0x80, 0xF0, 0x90, 0xF0, // 6
    0xF0, 0x10, 0x20, 0x40, 0x40, // 7
    0xF0, 0x90, 0xF0, 0x90, 0xF0, // 8
    0xF0, 0x90, 0xF0, 0x10, 0xF0, // 9
    0xF0, 0x90, 0xF0, 0x90, 0x90, // A
    0xE0, 0x90, 0xE0, 0x90, 0xE0, // B
    0xF0, 0x80, 0x80, 0x80, 0xF0, // C
    0xE0, 0x90, 0x90, 0x90, 0xE0, // D
    0xF0, 0x80, 0xF0, 0x80, 0xF0, // E
    0xF0, 0x80, 0xF0, 0x80, 0x80, // F
];

/// A CHIP-8 interpreter (the COSMAC VIP variant).
#[derive(Debug)]
pub struct Chip8 {
    pc: u16,
    i: u16,
    v: [u8; 16],
    stack: ArrayVec<u16, 16>,
    memory: [u8; 4096],
    display: Screen,
    should_redraw: bool,
    dt: u8,
    st: u8,
    keypad: Keypad,
    waiting_for_keypress: bool,
    keypress_register: u8,
    key_pressed_while_waiting: bool,
    quirks: Quirks,
}

impl Clone for Chip8 {
    /// A copy of the interpreter in the same state.
    fn clone(&self) -> (c: Self)
        ensures
            c@ == self@,
    {
        Chip8 {
            pc: self.pc,
            i: self.i,
            v: self.v,
            stack: stack_clone(&self.stack),
            memory: self.memory,
            display: self.display.clone(),
            should_redraw: self.should_redraw,
            dt: self.dt,
            st: self.st,
            keypad: self.keypad.clone(),
            waiting_for_keypress: self.waiting_for_keypress,
            keypress_register: self.keypress_register,
            key_pressed_while_waiting: self.key_pressed_while_waiting,
            quirks: self.quirks,
        }
    }
}

impl Default for Chip8 {
    /// A new interpreter with the default quirks.
    fn default() -> (c: Self)
        ensures
            c.wf(),
            c@ == Machine::initial(Quirks { draw_wrap: true, vf_reset: false }),
    {
        Self::new(Quirks::default())
    }
}

impl View for Chip8 {
    type V = Machine;

    closed spec fn view(&self) -> Machine {
        Machine {
            pc: self.pc,
            i: self.i,
            v: self.v@,
            stack: stack_contents(self.stack),
            memory: self.memory@,
            display: screen_pixels(self.display),
            should_redraw: self.should_redraw,
            dt: self.dt,
            st: self.st,
            keypad: keypad_keys(self.keypad),
            waiting_for_keypress: self.waiting_for_keypress,
            keypress_register: self.keypress_register,
            key_pressed_while_waiting: self.key_pressed_while_waiting,
            quirks: self.quirks,
        }
    }
}

impl Chip8 {
    /// The interpreter's state is well formed (see `Machine::well_formed`).
    pub open spec fn wf(&self) -> bool {
        self@.well_formed()
    }

    /// A new interpreter: the font at address 0, everything else cleared, and the program
    /// counter at the start address.
    pub fn new(quirks: Quirks) -> (c: Self)
        ensures
            c.wf(),
            c@ == Machine::initial(quirks),
    {
        let mut memory = [0u8; 4096];
        let mut k: usize = 0;
        while k < FONTSET_SIZE
            invariant
                k <= FONTSET_SIZE,
                FONTSET@ == font(),
                memory@.len() == MEMORY_SIZE,
                forall|a: int| 0 <= a < k ==> memory@[a] == font()[a],
                forall|a: int| k <= a < MEMORY_SIZE ==> memory@[a] == 0,
            decreases FONTSET_SIZE - k,
        {
            memory[k] = FONTSET[k];
            k += 1;
        }
        let c = Self {
            pc: START_ROM_ADDRESS as u16,
            i: 0,
            v: [0u8; 16],
            stack: stack_new(),
            memory,
            display: screen_zero(),
            should_redraw: false,
            dt: 0,
            st: 0,
            keypad: keypad_zero(),
            waiting_for_keypress: false,
            keypress_register: 0,
            key_pressed_while_waiting: false,
            quirks,
        };
        assert(c@ =~= Machine::initial(quirks));
        c
    }

    /// Moves the program counter on by one instruction.
    fn increment_pc(&mut self)
        requires
            old(self)@.pc_fits(1),
        ensures
            final(self)@ == old(self)@.advance(1),
    {
        self.increment_pc_by(1);
    }

    /// Moves the program counter on by `count` instructions.
    fn increment_pc_by(&mut self, count: u16)
        requires
            count <= 2,
            old(self)@.pc_fits(count as int),
        ensures
            final(self)@ == old(self)@.advance(count as int),
    {
        self.pc += count * 2;
    }

    /// Skips the next instruction if `cond` holds, else moves on to it.
    fn skip_next_if(&mut self, cond: bool)
        requires
            old(self)@.pc_fits(if cond { 2 } else { 1 }),
        ensures
            final(self)@ == old(self)@.skip_if(cond),
    {
        if cond {
            self.increment_pc_by(2);
        } else {
            self.increment_pc();
        }
    }

    /// `0NNN`: machine code routines are not supported; the instruction is passed over.
    fn op_0nnn(&mut self, nnn: u16)
        requires
            old(self)@.pc_fits(1),
        ensures
            final(self)@ == old(self)@.apply(Instruction::Sys { nnn }, 0),
    {
        self.increment_pc();
    }

    /// `00E0`: clears the display.
    fn op_00e0(&mut self)
        requires
            old(self).wf(),
            old(self)@.pc_fits(1),
        ensures
            final(self)@ == old(self)@.apply(Instruction::Cls, 0),
    {
        screen_fill(&mut self.display, false);
        self.increment_pc();
    }

    /// `00EE`: returns from a subroutine to the address on top of the stack.
    fn op_00ee(&mut self)
        requires
            old(self)@.stack.len() > 0,
        ensures
            final(self)@ == old(self)@.apply(Instruction::Ret, 0),
    {
        match stack_pop(&mut self.stack) {
            Some(address) => self.pc = address,
            None => {},
        }
    }

    /// `1NNN`: jumps to `nnn`.
    fn op_1nnn(&mut self, nnn: u16)
        ensures
            final(self)@ == old(self)@.apply(Instruction::Jump { nnn }, 0),
    {
        self.pc = nnn;
    }

    /// `2NNN`: pushes the address of the next instruction and jumps to `nnn`.
    fn op_2nnn(&mut self, nnn: u16)
        requires
            old(self)@.stack.len() < 16,
            old(self)@.pc_fits(1),
        ensures
            final(self)@ == old(self)@.apply(Instruction::Call { nnn }, 0),
    {
        stack_push(&mut self.stack, self.pc + 2);
        self.pc = nnn;
    }

    /// `3XKK`: skips the next instruction if `VX` equals `kk`.
    fn op_3xnn(&mut self, x: u8, kk: u8)
        requires
            old(self).wf(),
            x < 16,
            old(self)@.can_apply(Instruction::SkipEqByte { x, kk }),
        ensures
            final(self)@ == old(self)@.apply(Instruction::SkipEqByte { x, kk }, 0),
    {
        self.skip_next_if(self.v[x as usize] == kk);
    }

    /// `4XKK`: skips the next instruction if `VX` differs from `kk`.
    fn op_4xnn(&mut self, x: u8, kk: u8)
        requires
            old(self).wf(),
            x < 16,
            old(self)@.can_apply(Instruction::SkipNeByte { x, kk }),
        ensures
            final(self)@ == old(self)@.apply(Instruction::SkipNeByte { x, kk }, 0),
    {
        self.skip_next_if(self.v[x as usize] != kk);
    }

    /// `5XY0`: skips the next instruction if `VX` equals `VY`.
    fn op_5xy0(&mut self, x: u8, y: u8)
        requires
            old(self).wf(),
            x < 16,
            y < 16,
            old(self)@.can_apply(Instruction::SkipEqReg { x, y }),
        ensures
            final(self)@ == old(self)@.apply(Instruction::SkipEqReg { x, y }, 0),
    {
        self.skip_next_if(self.v[x as usize] == self.v[y as usize]);
    }

    /// `6XKK`: sets `VX` to `kk`.
    fn op_6xnn(&mut self, x: u8, kk: u8)
        requires
            old(self).wf(),
            x < 16,
            old(self)@.pc_fits(1),
        ensures
            final(self)@ == old(self)@.apply(Instruction::LoadByte { x, kk }, 0),
    {
        self.v[x as usize] = kk;
        self.increment_pc();
    }

    /// `7XKK`: adds `kk` to `VX`, wrapping; `VF` is untouched.
    fn op_7xnn(&mut self, x: u8, kk: u8)
        requires
            old(self).wf(),
            x < 16,
            old(self)@.pc_fits(1),
        ensures
            final(self)@ == old(self)@.apply(Instruction::AddByte { x, kk }, 0),
    {
        self.v[x as usize] = self.v[x as usize].wrapping_add(kk);
        self.increment_pc();
    }

    /// `8XY0`: sets `VX` to `VY`.
    fn op_8xy0(&mut self, x: u8, y: u8)
        requires
            old(self).wf(),
            x < 16,
            y < 16,
            old(self)@.pc_fits(1),
        ensures
            final(self)@ == old(self)@.apply(Instruction::Move { x, y }, 0),
    {
        self.v[x as usize] = self.v[y as usize];
        self.increment_pc();
    }

    /// Clears `VF` if the vf-reset quirk is on.
    fn reset_flag_quirk(&mut self)
        requires
            old(self).wf(),
        ensures
            final(self)@ == old(self)@.flag_reset(),
    {
        if self.quirks.vf_reset {
            self.v[0xF] = 0;
        }
    }

    /// `8XY1`: sets `VX` to `VX | VY`.
    fn op_8xy1(&mut self, x: u8, y: u8)
        requires
            old(self).wf(),
            x < 16,
            y < 16,
            old(self)@.pc_fits(1),
        ensures
            final(self)@ == old(self)@.apply(Instruction::Or { x, y }, 0),
    {
        self.v[x as usize] = self.v[x as usize] | self.v[y as usize];
        self.reset_flag_quirk();
        self.increment_pc();
    }

    /// `8XY2`: sets `VX` to `VX & VY`.
    fn op_8xy2(&mut self, x: u8, y: u8)
        requires
            old(self).wf(),
            x < 16,
            y < 16,
            old(self)@.pc_fits(1),
        ensures
            final(self)@ == old(self)@.apply(Instruction::And { x, y }, 0),
    {
        self.v[x as usize] = self.v[x as usize] & self.v[y as usize];
        self.reset_flag_quirk();
        self.increment_pc();
    }

    /// `8XY3`: sets `VX` to `VX ^ VY`.
    fn op_8xy3(&mut self, x: u8, y: u8)
        requires
            old(self).wf(),
            x < 16,
            y < 16,
            old(self)@.pc_fits(1),
        ensures
            final(self)@ == old(self)@.apply(Instruction::Xor { x, y }, 0),
    {
        self.v[x as usize] = self.v[x as usize] ^ self.v[y as usize];
        self.reset_flag_quirk();
        self.increment_pc();
    }

    /// `8XY4`: adds `VY` to `VX`, wrapping; `VF` is 1 on a carry and 0 otherwise.
    fn op_8xy4(&mut self, x: u8, y: u8)
        requires
            old(self).wf(),
            x < 16,
            y < 16,
            old(self)@.pc_fits(1),
        ensures
            final(self)@ == old(self)@.apply(Instruction::Add { x, y }, 0),
    {
        let (a, b) = (self.v[x as usize], self.v[y as usize]);
        let carry = a as u16 + b as u16 > 255;
        self.v[x as usize] = a.wrapping_add(b);
        self.v[0xF] = if carry { 1 } else { 0 };
        self.increment_pc();
    }

    /// `8XY5`: subtracts `VY` from `VX`, wrapping; `VF` is 0 on a borrow and 1 otherwise.
    fn op_8xy5(&mut self, x: u8, y: u8)
        requires
            old(self).wf(),
            x < 16,
            y < 16,
            old(self)@.pc_fits(1),
        ensures
            final(self)@ == old(self)@.apply(Instruction::Sub { x, y }, 0),
    {
        let (a, b) = (self.v[x as usize], self.v[y as usize]);
        let borrow = a < b;
        self.v[x as usize] = a.wrapping_sub(b);
        self.v[0xF] = if borrow { 0 } else { 1 };
        self.increment_pc();
    }

    /// `8XY6`: sets `VX` to `VY >> 1`; `VF` takes the bit shifted out. `VF` is written last,
    /// so `VY` is read before any write even when `X` or `Y` is `F`.
    fn op_8xy6(&mut self, x: u8, y: u8)
        requires
            old(self).wf(),
            x < 16,
            y < 16,
            old(self)@.pc_fits(1),
        ensures
            final(self)@ == old(self)@.apply(Instruction::ShiftRight { x, y }, 0),
    {
        let old_vy = self.v[y as usize];
        self.v[x as usize] = old_vy >> 1u8;
        self.v[0xF] = old_vy & 1u8;
        self.increment_pc();
    }

    /// `8XY7`: sets `VX` to `VY - VX`, wrapping; `VF` is 0 on a borrow and 1 otherwise.
    fn op_8xy7(&mut self, x: u8, y: u8)
        requires
            old(self).wf(),
            x < 16,
            y < 16,
            old(self)@.pc_fits(1),
        ensures
            final(self)@ == old(self)@.apply(Instruction::SubReverse { x, y }, 0),
    {
        let (a, b) = (self.v[x as usize], self.v[y as usize]);
        let borrow = b < a;
        self.v[x as usize] = b.wrapping_sub(a);
        self.v[0xF] = if borrow { 0 } else { 1 };
        self.increment_pc();
    }

    /// `8XYE`: sets `VX` to `VY << 1`; `VF` takes the bit shifted out. `VF` is written last.
    fn op_8xye(&mut self, x: u8, y: u8)
        requires
            old(self).wf(),
            x < 16,
            y < 16,
            old(self)@.pc_fits(1),
        ensures
            final(self)@ == old(self)@.apply(Instruction::ShiftLeft { x, y }, 0),
    {
        let old_vy = self.v[y as usize];
        self.v[x as usize] = old_vy << 1u8;
        self.v[0xF] = old_vy >> 7u8;
        self.increment_pc();
    }

    /// `9XY0`: skips the next instruction if `VX` differs from `VY`.
    fn op_9xy0(&mut self, x: u8, y: u8)
        requires
            old(self).wf(),
            x < 16,
            y < 16,
            old(self)@.can_apply(Instruction::SkipNeReg { x, y }),
        ensures
            final(self)@ == old(self)@.apply(Instruction::SkipNeReg { x, y }, 0),
    {
        self.skip_next_if(self.v[x as usize] != self.v[y as usize]);
    }

    /// `ANNN`: sets `I` to `nnn`.
    fn op_annn(&mut self, nnn: u16)
        requires
            old(self)@.pc_fits(1),
        ensures
            final(self)@ == old(self)@.apply(Instruction::LoadI { nnn }, 0),
    {
        self.i = nnn;
        self.increment_pc();
    }

    /// `BNNN`: jumps to `nnn + V0`.
    fn op_bnnn(&mut self, nnn: u16)
        requires
            old(self).wf(),
            nnn <= 0xFFF,
        ensures
            final(self)@ == old(self)@.apply(Instruction::JumpOffset { nnn }, 0),
    {
        self.pc = nnn + self.v[0] as u16;
    }

    /// `CXKK`: sets `VX` to `random & kk`.
    fn op_cxnn(&mut self, x: u8, kk: u8, random: u8)
        requires
            old(self).wf(),
            x < 16,
            old(self)@.pc_fits(1),
        ensures
            final(self)@ == old(self)@.apply(Instruction::Random { x, kk }, random),
    {
        self.v[x as usize] = random & kk;
        self.increment_pc();
    }

    /// `EX9E`: skips the next instruction if the key numbered `VX` is down.
    fn op_ex9e(&mut self, x: u8)
        requires
            old(self).wf(),
            x < 16,
            old(self)@.can_apply(Instruction::SkipPressed { x }),
        ensures
            final(self)@ == old(self)@.apply(Instruction::SkipPressed { x }, 0),
    {
        let vx = self.v[x as usize];
        let pressed = keypad_get(&self.keypad, vx as usize);
        self.skip_next_if(pressed);
    }

    /// `EXA1`: skips the next instruction if the key numbered `VX` is up.
    fn op_exa1(&mut self, x: u8)
        requires
            old(self).wf(),
            x < 16,
            old(self)@.can_apply(Instruction::SkipNotPressed { x }),
        ensures
            final(self)@ == old(self)@.apply(Instruction::SkipNotPressed { x }, 0),
    {
        let vx = self.v[x as usize];
        let pressed = keypad_get(&self.keypad, vx as usize);
        self.skip_next_if(!pressed);
    }

    /// `FX07`: sets `VX` to the delay timer.
    fn op_fx07(&mut self, x: u8)
        requires
            old(self).wf(),
            x < 16,
            old(self)@.pc_fits(1),
        ensures
            final(self)@ == old(self)@.apply(Instruction::LoadDelay { x }, 0),
    {
        self.v[x as usize] = self.dt;
        self.increment_pc();
    }

    /// `FX0A`: halts execution until a key is pressed during the wait and released; the
    /// press stores the key's number in `VX` (see `register_input`).
    fn op_fx0a(&mut self, x: u8)
        requires
            old(self)@.pc_fits(1),
        ensures
            final(self)@ == old(self)@.apply(Instruction::WaitKey { x }, 0),
    {
        self.waiting_for_keypress = true;
        self.keypress_register = x;
        self.key_pressed_while_waiting = false;
        self.increment_pc();
    }

    /// `FX15`: sets the delay timer to `VX`.
    fn op_fx15(&mut self, x: u8)
        requires
            old(self).wf(),
            x < 16,
            old(self)@.pc_fits(1),
        ensures
            final(self)@ == old(self)@.apply(Instruction::SetDelay { x }, 0),
    {
        self.dt = self.v[x as usize];
        self.increment_pc();
    }

    /// `FX18`: sets the sound timer to `VX`.
    fn op_fx18(&mut self, x: u8)
        requires
            old(self).wf(),
            x < 16,
            old(self)@.pc_fits(1),
        ensures
            final(self)@ == old(self)@.apply(Instruction::SetSound { x }, 0),
    {
        self.st = self.v[x as usize];
        self.increment_pc();
    }

    /// `FX1E`: adds `VX` to `I`, wrapping at 16 bits.
    fn op_fx1e(&mut self, x: u8)
        requires
            old(self).wf(),
            x < 16,
            old(self)@.pc_fits(1),
        ensures
            final(self)@ == old(self)@.apply(Instruction::AddI { x }, 0),
    {
        self.i = self.i.wrapping_add(self.v[x as usize] as u16);
        self.increment_pc();
    }

    /// `FX29`: sets `I` to the address of the font sprite of the digit in `VX`. The font
    /// starts at address 0 and each digit takes 5 bytes.
    fn op_fx29(&mut self, x: u8)
        requires
            old(self).wf(),
            x < 16,
            old(self)@.can_apply(Instruction::LoadFont { x }),
        ensures
            final(self)@ == old(self)@.apply(Instruction::LoadFont { x }, 0),
    {
        self.i = (self.v[x as usize] * 5) as u16;
        self.increment_pc();
    }

    /// `FX33`: stores the hundreds, tens and units digits of `VX` at `I`, `I + 1`, `I + 2`.
    fn op_fx33(&mut self, x: u8)
        requires
            old(self).wf(),
            x < 16,
            old(self)@.can_apply(Instruction::StoreBcd { x }),
        ensures
            final(self)@ == old(self)@.apply(Instruction::StoreBcd { x }, 0),
    {
        self.memory[self.i as usize] = self.v[x as usize] / 100;
        self.memory[(self.i + 1) as usize] = (self.v[x as usize] % 100) / 10;
        self.memory[(self.i + 2) as usize] = self.v[x as usize] % 10;
        self.increment_pc();
    }

    /// `FX55`: stores `V0` to `VX` in memory from `I` on; `I` is set to `I + X + 1`.
    fn op_fx55(&mut self, x: u8)
        requires
            old(self).wf(),
            x < 16,
            old(self)@.can_apply(Instruction::StoreRegs { x }),
        ensures
            final(self)@ == old(self)@.apply(Instruction::StoreRegs { x }, 0),
    {
        let start = self.i as usize;
        let mut k: usize = 0;
        while k <= x as usize
            invariant
                old(self).wf(),
                x < 16,
                start == old(self).i,
                start + x < MEMORY_SIZE,
                k <= x + 1,
                self@ == (Machine { memory: self@.memory, ..old(self)@ }),
                self@.memory.len() == MEMORY_SIZE,
                forall|a: int|
                    0 <= a < MEMORY_SIZE ==> #[trigger] self@.memory[a] == if start <= a < start
                        + k {
                        old(self)@.v[a - start]
                    } else {
                        old(self)@.memory[a]
                    },
            decreases x + 1 - k,
        {
            self.memory[start + k] = self.v[k];
            k += 1;
        }
        self.i = self.i + x as u16 + 1;
        self.increment_pc();
    }

    /// `FX65`: fills `V0` to `VX` from memory from `I` on; `I` is set to `I + X + 1`.
    fn op_fx65(&mut self, x: u8)
        requires
            old(self).wf(),
            x < 16,
            old(self)@.can_apply(Instruction::LoadRegs { x }),
        ensures
            final(self)@ == old(self)@.apply(Instruction::LoadRegs { x }, 0),
    {
        let start = self.i as usize;
        let mut k: usize = 0;
        while k <= x as usize
            invariant
                old(self).wf(),
                x < 16,
                start == old(self).i,
                start + x < MEMORY_SIZE,
                k <= x + 1,
                self@ == (Machine { v: self@.v, ..old(self)@ }),
                self@.v.len() == 16,
                forall|r: int|
                    0 <= r < 16 ==> #[trigger] self@.v[r] == if r < k {
                        old(self)@.memory[start + r]
                    } else {
                        old(self)@.v[r]
                    },
            decreases x + 1 - k,
        {
            self.v[k] = self.memory[start + k];
            k += 1;
        }
        self.i = self.i + x as u16 + 1;
        self.increment_pc();
    }

    /// `DXYN`: draws the `n`-row sprite stored at `I` with its top-left corner at
    /// (`VX % 64`, `VY % 32`); each set sprite bit flips the pixel under it. Rows and columns
    /// past the edge wrap round with the draw-wrap quirk and are clipped without it. The
    /// position is read before `VF` is touched; `VF` ends as 1 if a pixel went from on to
    /// off, else 0.
    fn op_dxyn(&mut self, x: u8, y: u8, n: u8)
        requires
            old(self).wf(),
            x < 16,
            y < 16,
            n < 16,
            old(self)@.can_apply(Instruction::Draw { x, y, n }),
        ensures
            final(self).wf(),
            final(self)@ == old(self)@.apply(Instruction::Draw { x, y, n }, 0),
    {
        let scoord_x: u8 = self.v[x as usize] % 64;
        let scoord_y: u8 = self.v[y as usize] % 32;
        self.v[0xF] = 0;
        let wrap = self.quirks.draw_wrap;
        let ghost m = old(self)@;
        let ghost sx = scoord_x as int;
        let ghost sy = scoord_y as int;
        let ghost nn = n as int;
        assert(sx == m.draw_x(x) && sy == m.draw_y(y));
        let mut oy: u8 = 0;
        while oy < n
            invariant
                m == old(self)@,
                m.well_formed(),
                wrap == m.quirks.draw_wrap,
                sx == m.draw_x(x),
                sy == m.draw_y(y),
                0 <= sx < 64,
                0 <= sy < 32,
                sx == scoord_x,
                sy == scoord_y,
                nn == n,
                n < 16,
                m.i + drawn_rows(wrap, sy, nn) <= MEMORY_SIZE,
                oy <= drawn_rows(wrap, sy, nn),
                oy <= n,
                !wrap ==> sy + oy <= DISPLAY_HEIGHT,
                self@ == (Machine { display: self@.display, v: self@.v, ..m }),
                self@.v == m.v.update(15, self@.v[15]),
                self@.display.len() == DISPLAY_WIDTH * DISPLAY_HEIGHT,
                forall|j: int|
                    0 <= j < DISPLAY_WIDTH * DISPLAY_HEIGHT ==> #[trigger] self@.display[j] == (
                    m.display[j] != drawn_before(m, sx, sy, nn, oy as int, 0, j)),
                self@.v[15] == if exists|j: int|
                    0 <= j < DISPLAY_WIDTH * DISPLAY_HEIGHT && #[trigger] m.display[j]
                        && drawn_before(m, sx, sy, nn, oy as int, 0, j) {
                    1u8
                } else {
                    0u8
                },
            ensures
                oy == drawn_rows(wrap, sy, nn),
            decreases n - oy,
        {
            let unchecked_coord_y: usize = scoord_y as usize + oy as usize;
            if !wrap && unchecked_coord_y >= DISPLAY_HEIGHT {
                break;
            }
            let coord_y = unchecked_coord_y % DISPLAY_HEIGHT;
            let sprite_pixels = self.memory[self.i as usize + oy as usize];
            let mut ox: usize = 0;
            while ox < 8
                invariant
                    m == old(self)@,
                    m.well_formed(),
                    wrap == m.quirks.draw_wrap,
                    0 <= sx < 64,
                    0 <= sy < 32,
                    sx == scoord_x,
                    sy == scoord_y,
                    nn == n,
                    n < 16,
                    oy < n,
                    oy < drawn_rows(wrap, sy, nn),
                    !wrap ==> sy + oy < DISPLAY_HEIGHT,
                    coord_y == (sy + oy) % (DISPLAY_HEIGHT as int),
                    sprite_pixels == m.memory[m.i + oy],
                    ox <= drawn_cols(wrap, sx),
                    !wrap ==> sx + ox <= DISPLAY_WIDTH,
                    self@ == (Machine { display: self@.display, v: self@.v, ..m }),
                    self@.v == m.v.update(15, self@.v[15]),
                    self@.display.len() == DISPLAY_WIDTH * DISPLAY_HEIGHT,
                    forall|j: int|
                        0 <= j < DISPLAY_WIDTH * DISPLAY_HEIGHT ==> #[trigger] self@.display[j]
                            == (m.display[j] != drawn_before(m, sx, sy, nn, oy as int, ox as int, j)),
                    self@.v[15] == if exists|j: int|
                        0 <= j < DISPLAY_WIDTH * DISPLAY_HEIGHT && #[trigger] m.display[j]
                            && drawn_before(m, sx, sy, nn, oy as int, ox as int, j) {
                        1u8
                    } else {
                        0u8
                    },
                ensures
                    ox == drawn_cols(wrap, sx),
                decreases 8 - ox,
            {
                let unchecked_coord_x: usize = scoord_x as usize + ox;
                if !wrap && unchecked_coord_x >= DISPLAY_WIDTH {
                    break;
                }
                let coord_x = unchecked_coord_x % DISPLAY_WIDTH;
                let idx = coord_x + coord_y * DISPLAY_WIDTH;
                let spx = (sprite_pixels >> (7 - ox as u8)) & 1 == 1;
                proof {
                    lemma_sprite_cell(wrap, sx, sy, oy as int, ox as int);
                }
                let dpx = screen_get(&self.display, idx);
                let ghost before = self@;
                let ghost o = ox as int;
                if dpx && spx {
                    self.v[0xF] = 1;
                }
                screen_set(&mut self.display, idx, dpx != spx);
                proof {
                    assert(drawn_before(m, sx, sy, nn, oy as int, o + 1, idx as int) == spx);
                    assert(!drawn_before(m, sx, sy, nn, oy as int, o, idx as int));
                    assert forall|j: int| 0 <= j < DISPLAY_WIDTH * DISPLAY_HEIGHT && j != idx implies
                        drawn_before(m, sx, sy, nn, oy as int, o + 1, j)
                        == drawn_before(m, sx, sy, nn, oy as int, o, j) by {
                    }
                    if dpx && spx {
                        assert(m.display[idx as int] && drawn_before(m, sx, sy, nn, oy as int, o + 1, idx as int));
                    } else {
                        if exists|j: int|
                            0 <= j < DISPLAY_WIDTH * DISPLAY_HEIGHT && #[trigger] m.display[j]
                                && drawn_before(m, sx, sy, nn, oy as int, o + 1, j) {
                            let j = choose|j: int|
                                0 <= j < DISPLAY_WIDTH * DISPLAY_HEIGHT && #[trigger] m.display[j]
                                    && drawn_before(m, sx, sy, nn, oy as int, o + 1, j);
                            assert(j != idx);
                            assert(drawn_before(m, sx, sy, nn, oy as int, o, j));
                        }
                    }
                    assert(self@.display =~= before.display.update(idx as int, dpx != spx));
                }
                ox += 1;
            }
            proof {
                assert forall|j: int| 0 <= j < DISPLAY_WIDTH * DISPLAY_HEIGHT implies
                    drawn_before(m, sx, sy, nn, oy as int, ox as int, j)
                    == drawn_before(m, sx, sy, nn, oy + 1, 0, j) by {
                    lemma_row_done(m, sx, sy, nn, oy as int, ox as int, j);
                }
            }
            oy += 1;
        }
        proof {
            assert forall|j: int| 0 <= j < DISPLAY_WIDTH * DISPLAY_HEIGHT implies
                drawn_before(m, sx, sy, nn, oy as int, 0, j) == m.sprite_pixel(sx, sy, nn, j) by {
                lemma_rows_done(m, sx, sy, nn, oy as int, j);
            }
        }
        self.increment_pc();
        proof {
            let target = m.apply(Instruction::Draw { x, y, n }, 0);
            assert(self@.display =~= target.display);
            assert(self@.v =~= target.v);
        }
    }

    /// Loads a program: the program counter goes to the start address 0x200 and the program
    /// is copied there. A program longer than the 3584 bytes that fit is cut to that size.
    /// Memory past the program is left as it was.
    pub fn load(&mut self, rom: &[u8])
        requires
            old(self).wf(),
        ensures
            final(self).wf(),
            final(self)@ == old(self)@.load_rom(rom@),
    {
        self.pc = START_ROM_ADDRESS as u16;
        let rom_size = rom.len();
        let size = if rom_size > MAX_ROM_SIZE {
            MAX_ROM_SIZE
        } else {
            rom_size
        };
        let ghost m = old(self)@;
        let mut k: usize = 0;
        while k < size
            invariant
                m == old(self)@,
                m.well_formed(),
                size <= MAX_ROM_SIZE,
                size <= rom@.len(),
                size == if rom@.len() > MAX_ROM_SIZE { MAX_ROM_SIZE as int } else { rom@.len() as int },
                k <= size,
                self@ == (Machine { memory: self@.memory, pc: START_ROM_ADDRESS as u16, ..m }),
                self@.memory.len() == MEMORY_SIZE,
                forall|a: int|
                    0 <= a < MEMORY_SIZE ==> #[trigger] self@.memory[a] == if START_ROM_ADDRESS
                        <= a < START_ROM_ADDRESS + k {
                        rom@[a - START_ROM_ADDRESS]
                    } else {
                        m.memory[a]
                    },
            decreases size - k,
        {
            self.memory[START_ROM_ADDRESS + k] = rom[k];
            k += 1;
        }
        assert(self@.memory =~= m.load_rom(rom@).memory);
    }

    /// Records a key change. While `FX0A` waits, a press stores the key's number in its
    /// register, and a release ends the wait once a key has been pressed during it.
    pub fn register_input(&mut self, input: Input)
        requires
            old(self).wf(),
        ensures
            final(self).wf(),
            final(self)@ == old(self)@.register_input(input),
    {
        match input {
            Input::Up(key) => {
                keypad_set(&mut self.keypad, key as usize, false);
                if self.waiting_for_keypress && self.key_pressed_while_waiting {
                    self.waiting_for_keypress = false;
                    self.key_pressed_while_waiting = false;
                }
            },
            Input::Down(key) => {
                keypad_set(&mut self.keypad, key as usize, true);
                if self.waiting_for_keypress {
                    self.v[self.keypress_register as usize] = key as u8;
                    self.key_pressed_while_waiting = true;
                }
            },
        };
    }

    /// Counts both timers down by one; a timer at zero stays there.
    pub fn update_timers(&mut self)
        ensures
            final(self)@ == old(self)@.update_timers(),
    {
        if self.dt > 0 {
            self.dt -= 1;
        }
        if self.st > 0 {
            self.st -= 1;
        }
    }

    /// Whether the tone should sound: the sound timer is at least 2, the least value that
    /// the COSMAC VIP sounds for.
    pub fn should_beep(&self) -> (b: bool)
        ensures
            b == self@.should_beep(),
    {
        self.st >= 2
    }

    /// The pixels of the display, row by row, 64 to a row; `true` is lit.
    pub fn display(&self) -> (pixels: Vec<bool>)
        requires
            self.wf(),
        ensures
            pixels@ == self@.display,
    {
        let mut pixels: Vec<bool> = Vec::new();
        let mut k: usize = 0;
        while k < DISPLAY_WIDTH * DISPLAY_HEIGHT
            invariant
                self.wf(),
                k <= DISPLAY_WIDTH * DISPLAY_HEIGHT,
                pixels@ == self@.display.subrange(0, k as int),
            decreases DISPLAY_WIDTH * DISPLAY_HEIGHT - k,
        {
            let p = screen_get(&self.display, k);
            pixels.push(p);
            k += 1;
            assert(pixels@ =~= self@.display.subrange(0, k as int));
        }
        assert(pixels@ =~= self@.display);
        pixels
    }

    /// The display packed eight pixels to a byte: pixel `k` is bit `k % 8` of byte `k / 8`,
    /// bit 0 being the least significant.
    pub fn display_bytes(&self) -> (bytes: Vec<u8>)
        requires
            self.wf(),
        ensures
            bytes@.len() == DISPLAY_WIDTH * DISPLAY_HEIGHT / 8,
            forall|k: int|
                0 <= k < DISPLAY_WIDTH * DISPLAY_HEIGHT ==> lsb0_bit(#[trigger] bytes@[k / 8], k % 8)
                    == self@.display[k],
    {
        screen_bytes(&self.display)
    }

    /// Runs one cycle. While `FX0A` waits for a key nothing runs and no redraw is due;
    /// otherwise the opcode at the program counter runs, and a redraw is due after `00E0`
    /// or `DXYN`. `CXKK` draws its byte from the random generator; every other opcode is
    /// run exactly as with `execute_opcode_with_random`.
    pub fn execute_cycle(&mut self)
        requires
            old(self).wf(),
            old(self)@.can_cycle(),
        ensures
            final(self).wf(),
            exists|random: u8| final(self)@ == #[trigger] old(self)@.cycle(random),
            nibble0(old(self)@.fetch()) != 0xC ==> final(self)@ == old(self)@.cycle(0),
    {
        if self.waiting_for_keypress {
            self.should_redraw = false;
            assert(self@ == old(self)@.cycle(0));
        } else {
            let opcode = self.fetch_opcode();
            self.execute_opcode(opcode);
            proof {
                lemma_opcode_fields(opcode);
            }
            let ghost executed = self@;
            // Redraw only if the opcode is one of the display opcodes
            self.should_redraw = opcode == 0x00E0 || opcode & 0xF000 == 0xD000;
            proof {
                let random = choose|random: u8| executed == #[trigger] old(self)@.execute(opcode, random);
                assert(self@ == old(self)@.cycle(random));
            }
        }
    }

    /// Whether the last cycle ran a display opcode.
    pub fn should_redraw(&self) -> (b: bool)
        ensures
            b == self@.should_redraw,
    {
        self.should_redraw
    }

    /// Whether execution is halted until a key is pressed and released.
    pub fn waiting_for_keypress(&self) -> (b: bool)
        ensures
            b == self@.waiting_for_keypress,
    {
        self.waiting_for_keypress
    }

    /// The opcode at the program counter: the byte there is its high byte, the next its low
    /// byte.
    pub fn fetch_opcode(&self) -> (opcode: u16)
        requires
            self.wf(),
            self@.can_fetch(),
        ensures
            opcode == self@.fetch(),
    {
        let pc = self.pc as usize;
        let op1 = self.memory[pc];
        let op2 = self.memory[pc + 1];
        proof {
            lemma_join_bytes(op1, op2);
        }
        (op1 as u16) << 8 | op2 as u16
    }

    /// Runs the instruction of an opcode. `CXKK` draws its byte from the random generator;
    /// every other opcode is run exactly as with `execute_opcode_with_random`.
    pub fn execute_opcode(&mut self, opcode: u16)
        requires
            old(self).wf(),
            old(self)@.can_execute(opcode),
        ensures
            final(self).wf(),
            exists|random: u8| final(self)@ == #[trigger] old(self)@.execute(opcode, random),
            nibble0(opcode) != 0xC ==> final(self)@ == old(self)@.execute(opcode, 0),
    {
        proof {
            lemma_opcode_fields(opcode);
        }
        let random = if (opcode & 0xF000) >> 12 == 0xC {
            random_byte()
        } else {
            0
        };
        self.execute_opcode_with_random(opcode, random);
        assert(final(self)@ == old(self)@.execute(opcode, random));
    }

    /// Handles one event of an event-driven run, where each tick also drives the timers: a
    /// tick runs a cycle, counts both timers down unless a key is awaited, and tells whether
    /// the display is to be redrawn; an input is recorded and asks for no redraw.
    pub fn handle_event(&mut self, event: Event) -> (redraw: bool)
        requires
            old(self).wf(),
            event is Tick ==> old(self)@.can_cycle(),
        ensures
            final(self).wf(),
            match event {
                Event::Tick => (exists|random: u8| final(self)@ == #[trigger] old(self)@.tick(random))
                    && redraw == final(self)@.should_redraw,
                Event::Input(input) => final(self)@ == old(self)@.register_input(input) && !redraw,
            },
    {
        match event {
            Event::Tick => {
                let waiting = self.waiting_for_keypress;
                self.execute_cycle();
                let ghost cycled = self@;
                if !waiting {
                    self.update_timers();
                }
                proof {
                    let random = choose|random: u8| cycled == #[trigger] old(self)@.cycle(random);
                    assert(self@ == old(self)@.tick(random));
                }
                self.should_redraw()
            },
            Event::Input(input) => {
                self.register_input(input);
                false
            },
        }
    }

    /// The program counter.
    pub fn program_counter(&self) -> (pc: u16)
        ensures
            pc == self@.pc,
    {
        self.pc
    }

    /// The address register `I`.
    pub fn address_register(&self) -> (i: u16)
        ensures
            i == self@.i,
    {
        self.i
    }

    /// The data register `V[x]`.
    pub fn register(&self, x: u8) -> (value: u8)
        requires
            x < 16,
        ensures
            value == self@.v[x as int],
    {
        self.v[x as usize]
    }

    /// The number of return addresses on the stack.
    pub fn stack_depth(&self) -> (depth: usize)
        ensures
            depth == self@.stack.len(),
    {
        stack_len(&self.stack)
    }

    /// The byte at a memory address.
    pub fn memory_at(&self, address: u16) -> (byte: u8)
        requires
            address < MEMORY_SIZE,
        ensures
            byte == self@.memory[address as int],
    {
        self.memory[address as usize]
    }

    /// The delay timer.
    pub fn delay_timer(&self) -> (dt: u8)
        ensures
            dt == self@.dt,
    {
        self.dt
    }

    /// The sound timer.
    pub fn sound_timer(&self) -> (st: u8)
        ensures
            st == self@.st,
    {
        self.st
    }

    /// Whether a key is held down.
    pub fn key_down(&self, key: Key) -> (down: bool)
        requires
            self.wf(),
        ensures
            down == self@.keypad[key_number(key) as int],
    {
        keypad_get(&self.keypad, key as usize)
    }

    /// Whether the program counter can move on by `count` instructions.
    fn pc_fits(&self, count: u32) -> (ok: bool)
        requires
            count <= 2,
        ensures
            ok == self@.pc_fits(count as int),
    {
        self.pc as u32 + 2 * count <= 0xFFFF
    }

    /// Whether the instruction of an opcode can run here: the opcode is known, its memory
    /// and keypad accesses are in range, the stack neither underflows nor overflows, and the
    /// program counter and `FX29`'s product stay in range.
    pub fn can_execute(&self, opcode: u16) -> (ok: bool)
        requires
            self.wf(),
        ensures
            ok == self@.can_execute(opcode),
    {
        let nibbles = (
            ((opcode & 0xF000) >> 12) as u8,
            ((opcode & 0x0F00) >> 8) as u8,
            ((opcode & 0x00F0) >> 4) as u8,
            (opcode & 0x000F) as u8,
        );
        let x = ((opcode & 0x0F00) >> 8) as u8;
        let y = ((opcode & 0x00F0) >> 4) as u8;
        let n = (opcode & 0x000F) as u8;
        let kk = (opcode & 0x00FF) as u8;
        proof {
            lemma_opcode_fields(opcode);
        }
        let skip_room = |cond: bool| -> (r: u32)
            ensures
                r == if cond { 2u32 } else { 1u32 },
            { if cond { 2u32 } else { 1u32 } };
        match nibbles {
            (0x0, 0x0, 0xE, 0xE) => stack_len(&self.stack) > 0,
            (0x1, _, _, _) | (0xB, _, _, _) => true,
            (0x2, _, _, _) => stack_len(&self.stack) < 16 && self.pc_fits(1),
            (0x3, _, _, _) => self.pc_fits(skip_room(self.v[x as usize] == kk)),
            (0x4, _, _, _) => self.pc_fits(skip_room(self.v[x as usize] != kk)),
            (0x5, _, _, 0x0) => self.pc_fits(skip_room(self.v[x as usize] == self.v[y as usize])),
            (0x9, _, _, 0x0) => self.pc_fits(skip_room(self.v[x as usize] != self.v[y as usize])),
            (0xE, _, 0x9, 0xE) => {
                let vx = self.v[x as usize];
                vx < 16 && self.pc_fits(skip_room(keypad_get(&self.keypad, vx as usize)))
            },
            (0xE, _, 0xA, 0x1) => {
                let vx = self.v[x as usize];
                vx < 16 && self.pc_fits(skip_room(!keypad_get(&self.keypad, vx as usize)))
            },
            (0xD, _, _, _) => {
                let sy = self.v[y as usize] as usize % DISPLAY_HEIGHT;
                let rows = if self.quirks.draw_wrap || sy + n as usize <= DISPLAY_HEIGHT {
                    n as usize
                } else {
                    DISPLAY_HEIGHT - sy
                };
                self.pc_fits(1) && self.i as usize + rows <= MEMORY_SIZE
            },
            (0xF, _, 0x2, 0x9) => self.pc_fits(1) && self.v[x as usize] as u16 * 5 <= 255,
            (0xF, _, 0x3, 0x3) => self.pc_fits(1) && (self.i as usize) + 2 < MEMORY_SIZE,
            (0xF, _, 0x5, 0x5) | (0xF, _, 0x6, 0x5) => self.pc_fits(1) && (self.i as usize)
                + (x as usize) < MEMORY_SIZE,
            (0x0, _, _, _) | (0x6, _, _, _) | (0x7, _, _, _) | (0xA, _, _, _) | (0xC, _, _, _) | (
                0x8,
                _,
                _,
                0x0..=0x7,
            ) | (0x8, _, _, 0xE) | (0xF, _, 0x0, 0x7) | (0xF, _, 0x0, 0xA) | (0xF, _, 0x1, 0x5) | (
                0xF,
                _,
                0x1,
                0x8,
            ) | (0xF, _, 0x1, 0xE) => self.pc_fits(1),
            _ => false,
        }
    }

    /// Whether a cycle can run: a key is awaited, or the opcode at the program counter can
    /// be read and its instruction can run.
    pub fn can_cycle(&self) -> (ok: bool)
        requires
            self.wf(),
        ensures
            ok == self@.can_cycle(),
    {
        self.waiting_for_keypress || ((self.pc as usize) + 1 < MEMORY_SIZE && self.can_execute(
            self.fetch_opcode(),
        ))
    }

    /// Runs the instruction of an opcode, with `random` as the byte that `CXKK` masks.
    pub fn execute_opcode_with_random(&mut self, opcode: u16, random: u8)
        requires
            old(self).wf(),
            old(self)@.can_execute(opcode),
        ensures
            final(self).wf(),
            final(self)@ == old(self)@.execute(opcode, random),
    {
        let nibbles = (
            ((opcode & 0xF000) >> 12) as u8,
            ((opcode & 0x0F00) >> 8) as u8,
            ((opcode & 0x00F0) >> 4) as u8,
            (opcode & 0x000F) as u8,
        );
        let nnn = opcode & 0x0FFF;
        let kk = (opcode & 0x00FF) as u8;
        let n = (opcode & 0x000F) as u8;
        let x = ((opcode & 0x0F00) >> 8) as u8;
        let y = ((opcode & 0x00F0) >> 4) as u8;
        proof {
            lemma_opcode_fields(opcode);
        }
        match nibbles {
            (0x0, 0x0, 0xE, 0x0) => self.op_00e0(),
            (0x0, 0x0, 0xE, 0xE) => self.op_00ee(),
            (0x0, _, _, _) => self.op_0nnn(nnn),
            (0x1, _, _, _) => self.op_1nnn(nnn),
            (0x2, _, _, _) => self.op_2nnn(nnn),
            (0x3, _, _, _) => self.op_3xnn(x, kk),
            (0x4, _, _, _) => self.op_4xnn(x, kk),
            (0x5, _, _, 0x0) => self.op_5xy0(x, y),
            (0x6, _, _, _) => self.op_6xnn(x, kk),
            (0x7, _, _, _) => self.op_7xnn(x, kk),
            (0x8, _, _, 0x0) => self.op_8xy0(x, y),
            (0x8, _, _, 0x1) => self.op_8xy1(x, y),
            (0x8, _, _, 0x2) => self.op_8xy2(x, y),
            (0x8, _, _, 0x3) => self.op_8xy3(x, y),
            (0x8, _, _, 0x4) => self.op_8xy4(x, y),
            (0x8, _, _, 0x5) => self.op_8xy5(x, y),
            (0x8, _, _, 0x6) => self.op_8xy6(x, y),
            (0x8, _, _, 0x7) => self.op_8xy7(x, y),
            (0x8, _, _, 0xE) => self.op_8xye(x, y),
            (0x9, _, _, 0x0) => self.op_9xy0(x, y),
            (0xA, _, _, _) => self.op_annn(nnn),
            (0xB, _, _, _) => self.op_bnnn(nnn),
            (0xC, _, _, _) => self.op_cxnn(x, kk, random),
            (0xD, _, _, _) => self.op_dxyn(x, y, n),
            (0xE, _, 0x9, 0xE) => self.op_ex9e(x),
            (0xE, _, 0xA, 0x1) => self.op_exa1(x),
            (0xF, _, 0x0, 0x7) => self.op_fx07(x),
            (0xF, _, 0x0, 0xA) => self.op_fx0a(x),
            (0xF, _, 0x1, 0x5) => self.op_fx15(x),
            (0xF, _, 0x1, 0x8) => self.op_fx18(x),
            (0xF, _, 0x1, 0xE) => self.op_fx1e(x),
            (0xF, _, 0x2, 0x9) => self.op_fx29(x),
            (0xF, _, 0x3, 0x3) => self.op_fx33(x),
            (0xF, _, 0x5, 0x5) => self.op_fx55(x),
            (0xF, _, 0x6, 0x5) => self.op_fx65(x),
            _ => {},
        }
    }
}

/// The fields that an instruction reads, cut out of its opcode with masks and shifts, are
/// the nibbles, byte and address of the opcode.
proof fn lemma_opcode_fields(opcode: u16)
    ensures
        ((opcode & 0xF000) >> 12) as u8 == nibble0(opcode),
        ((opcode & 0x0F00) >> 8) as u8 == nibble1(opcode),
        ((opcode & 0x00F0) >> 4) as u8 == nibble2(opcode),
        (opcode & 0x000F) as u8 == nibble3(opcode),
        opcode & 0x0FFF == address_of(opcode),
        (opcode & 0x00FF) as u8 == byte_of(opcode),
        (opcode & 0xF000 == 0xD000) == (nibble0(opcode) == 0xD),
        nibble0(opcode) < 16,
        nibble1(opcode) < 16,
        nibble2(opcode) < 16,
        nibble3(opcode) < 16,
        address_of(opcode) <= 0xFFF,
{
    assert((opcode & 0xF000) >> 12 == opcode / 0x1000) by (bit_vector);
    assert((opcode & 0x0F00) >> 8 == (opcode / 0x100) % 16) by (bit_vector);
    assert((opcode & 0x00F0) >> 4 == (opcode / 0x10) % 16) by (bit_vector);
    assert(opcode & 0x000F == opcode % 16) by (bit_vector);
    assert(opcode & 0x0FFF == opcode % 0x1000) by (bit_vector);
    assert(opcode & 0x00FF == opcode % 0x100) by (bit_vector);
    assert((opcode & 0xF000 == 0xD000) == (opcode / 0x1000 == 0xD)) by (bit_vector);
}

/// Two bytes joined with a shift and an OR make `high * 256 + low`.
proof fn lemma_join_bytes(high: u8, low: u8)
    ensures
        ((high as u16) << 8) | (low as u16) == high * 0x100 + low,
{
    assert(((high as u16) << 8) | (low as u16) == (high as u16) * 0x100 + (low as u16))
        by (bit_vector);
}

} // verus!
