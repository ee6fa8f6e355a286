//! The executable machine.

use vstd::prelude::*;
use vstd::pervasive::unreached;
use vstd::slice::slice_subrange;
use crate::entropy::random_byte;
use crate::font::{FONTSET, FONTSET_SIZE};
use crate::alu::{add_address, add_with_carry, shift_right, sub_address, sub_with_borrow};
use crate::machine::{
    target_pixel, Fault, MachineState, MAX_PROGRAM_SIZE, NUM_KEYS, NUM_REGS, RAM_SIZE,
    SCREEN_HEIGHT, SCREEN_SIZE, SCREEN_WIDTH, STACK_SIZE, START_ADDR,
};
use crate::opcode::{address, low_byte, nibbles, word};
use crate::sprite::{
    collides_so_far, lemma_bit_drawn, lemma_row_drawn, lemma_sprite_drawn, lights_so_far,
};

verus! {

/// A CHIP-8 machine: memory, registers, call stack, timers, display and
/// keypad, with the operations that load a program and run it.
pub struct Emu {
    pc: u16,
    ram: [u8; RAM_SIZE],
    screen: [bool; SCREEN_SIZE],
    v_reg: [u8; NUM_REGS],
    i_reg: u16,
    sp: u16,
    stack: [u16; STACK_SIZE],
    keys: [bool; NUM_KEYS],
    dt: u8,
    st: u8,
}

impl View for Emu {
    type V = MachineState;

    /// The state that the machine is in. Of the stack only the part below
    /// the stack pointer counts.
    closed spec fn view(&self) -> MachineState {
        MachineState {
            pc: self.pc,
            memory: self.ram@,
            display: self.screen@,
            v: self.v_reg@,
            i: self.i_reg,
            stack: self.stack@.subrange(0, self.sp as int),
            keys: self.keys@,
            dt: self.dt,
            st: self.st,
        }
    }
}

impl Emu {
    /// The stack pointer never leaves the stack.
    #[verifier::type_invariant]
    spec fn stack_pointer_in_bounds(self) -> bool {
        self.sp <= STACK_SIZE
    }

    /// A machine in its initial state.
    pub fn new() -> (emu: Self)
        ensures
            emu@ == MachineState::initial(),
            emu@.wf(),
    {
        let mut emu = Emu {
            pc: START_ADDR,
            ram: [0; RAM_SIZE],
            screen: [false; SCREEN_SIZE],
            v_reg: [0; NUM_REGS],
            i_reg: 0,
            sp: 0,
            stack: [0; STACK_SIZE],
            keys: [false; NUM_KEYS],
            dt: 0,
            st: 0,
        };
        emu.install_font();
        emu
    }

    /// Puts the machine back into its initial state.
    pub fn reset(&mut self)
        ensures
            final(self)@ == MachineState::initial(),
            final(self)@.wf(),
    {
        proof {
            use_type_invariant(&*self);
        }
        self.pc = START_ADDR;
        self.ram = [0; RAM_SIZE];
        self.screen = [false; SCREEN_SIZE];
        self.v_reg = [0; NUM_REGS];
        self.i_reg = 0;
        self.sp = 0;
        self.stack = [0; STACK_SIZE];
        self.keys = [false; NUM_KEYS];
        self.dt = 0;
        self.st = 0;
        self.install_font();
    }

    /// Copies the font to the bottom of a cleared memory.
    fn install_font(&mut self)
        requires
            forall|a: int| 0 <= a < RAM_SIZE ==> old(self).ram@[a] == 0,
        ensures
            final(self)@ == (MachineState {
                memory: Seq::new(
                    RAM_SIZE as nat,
                    |a: int| if a < FONTSET_SIZE { FONTSET@[a] } else { 0u8 },
                ),
                ..old(self)@
            }),
            final(self).sp == old(self).sp,
    {
        proof {
            use_type_invariant(&*self);
        }
        let mut k: usize = 0;
        while k < FONTSET_SIZE
            invariant
                k <= FONTSET_SIZE,
                self.sp == old(self).sp <= STACK_SIZE,
                (MachineState { memory: old(self)@.memory, ..self@ }) == old(self)@,
                forall|a: int| 0 <= a < k ==> self.ram@[a] == FONTSET@[a],
                forall|a: int| k <= a < RAM_SIZE ==> self.ram@[a] == 0,
            decreases FONTSET_SIZE - k,
        {
            self.ram[k] = FONTSET[k];
            k += 1;
        }
    }

    /// The display, row by row from the top: `SCREEN_WIDTH * SCREEN_HEIGHT`
    /// pixels, `true` for a lit one.
    pub fn get_display(&self) -> (display: &[bool])
        ensures
            display@ == self@.display,
    {
        &self.screen
    }

    /// The program counter.
    pub fn pc(&self) -> (pc: u16)
        ensures
            pc == self@.pc,
    {
        self.pc
    }

    /// The address register `I`.
    pub fn index_register(&self) -> (i: u16)
        ensures
            i == self@.i,
    {
        self.i_reg
    }

    /// The general registers `V0` to `VF`.
    pub fn registers(&self) -> (v: &[u8])
        ensures
            v@ == self@.v,
    {
        &self.v_reg
    }

    /// The whole memory.
    pub fn memory(&self) -> (memory: &[u8])
        ensures
            memory@ == self@.memory,
    {
        &self.ram
    }

    /// The return addresses of the calls in progress, oldest first.
    pub fn call_stack(&self) -> (stack: &[u16])
        ensures
            stack@ == self@.stack,
    {
        proof {
            use_type_invariant(self);
        }
        slice_subrange(self.stack.as_slice(), 0, self.sp as usize)
    }

    /// The delay timer.
    pub fn delay_timer(&self) -> (dt: u8)
        ensures
            dt == self@.dt,
    {
        self.dt
    }

    /// The sound timer. A tone is due while it is above zero.
    pub fn sound_timer(&self) -> (st: u8)
        ensures
            st == self@.st,
    {
        self.st
    }

    /// Records that key `idx` is now held down (`pressed`) or released.
    pub fn keypress(&mut self, idx: usize, pressed: bool)
        requires
            idx < NUM_KEYS,
        ensures
            final(self)@ == old(self)@.with_key(idx as int, pressed),
            final(self)@.wf(),
    {
        proof {
            use_type_invariant(&*self);
        }
        self.keys[idx] = pressed;
    }

    /// Copies the program `data` into memory, from `START_ADDR` on.
    pub fn load(&mut self, data: &[u8])
        requires
            data@.len() <= MAX_PROGRAM_SIZE,
        ensures
            final(self)@ == old(self)@.with_program(data@),
            final(self)@.wf(),
    {
        proof {
            use_type_invariant(&*self);
        }
        let start: usize = START_ADDR as usize;
        let mut k: usize = 0;
        while k < data.len()
            invariant
                k <= data@.len() <= MAX_PROGRAM_SIZE,
                start == START_ADDR,
                self.sp <= STACK_SIZE,
                (MachineState { memory: old(self)@.memory, ..self@ }) == old(self)@,
                forall|a: int|
                    0 <= a < RAM_SIZE ==> self.ram@[a] == if start <= a < start + k {
                        data@[a - start]
                    } else {
                        old(self).ram@[a]
                    },
            decreases data@.len() - k,
        {
            self.ram[start + k] = data[k];
            k += 1;
        }
    }

    /// Counts both timers down by one, unless they are at zero.
    pub fn tick_timers(&mut self)
        ensures
            final(self)@ == old(self)@.after_timer_tick(),
            final(self)@.wf(),
    {
        proof {
            use_type_invariant(&*self);
        }
        if self.dt > 0 {
            self.dt -= 1;
        }
        if self.st > 0 {
            self.st -= 1;
        }
    }

    /// Reads the instruction word at the program counter, high byte first,
    /// and moves the program counter past it.
    fn fetch(&mut self) -> (op: u16)
        requires
            old(self)@.fetchable(),
        ensures
            op == old(self)@.opcode(),
            final(self)@ == old(self)@.fetched(),
    {
        proof {
            use_type_invariant(&*self);
        }
        let higher_byte: u8 = self.ram[self.pc as usize];
        let lower_byte: u8 = self.ram[(self.pc + 1) as usize];
        let op: u16 = word(higher_byte, lower_byte);
        self.pc += 2;
        op
    }

    /// Why the next tick cannot be carried out, or `None` if it can.
    pub fn fault(&self) -> (fault: Option<Fault>)
        ensures
            fault == self@.fault(),
            self@.wf(),
    {
        proof {
            use_type_invariant(self);
        }
        if self.pc as usize + 1 >= RAM_SIZE {
            return Some(Fault::FetchOutOfBounds);
        }
        let higher_byte: u8 = self.ram[self.pc as usize];
        let lower_byte: u8 = self.ram[(self.pc + 1) as usize];
        self.execute_fault(word(higher_byte, lower_byte))
    }

    /// Why the instruction word `op` cannot be executed in the present
    /// state, or `None` if it can.
    pub fn execute_fault(&self, op: u16) -> (fault: Option<Fault>)
        ensures
            fault == self@.execute_fault(op),
            self@.wf(),
    {
        proof {
            use_type_invariant(self);
        }
        let (digit1, digit2, digit3, digit4) = nibbles(op);
        let x: usize = digit2 as usize;
        match (digit1, digit2, digit3, digit4) {
            (0, 0, 0, 0) | (0, 0, 0xE, 0) => None,
            (0, 0, 0xE, 0xE) => if self.sp == 0 {
                Some(Fault::StackUnderflow)
            } else {
                None
            },
            (2, _, _, _) => if self.sp as usize >= STACK_SIZE {
                Some(Fault::StackOverflow)
            } else {
                None
            },
            (1, _, _, _) | (3, _, _, _) | (4, _, _, _) | (6, _, _, _) | (7, _, _, _) => None,
            (5, _, _, 0) | (9, _, _, 0) => None,
            (8, _, _, 0) | (8, _, _, 1) | (8, _, _, 2) | (8, _, _, 3) => None,
            (8, _, _, 4) | (8, _, _, 5) | (8, _, _, 6) => None,
            (0xA, _, _, _) | (0xB, _, _, _) | (0xC, _, _, _) => None,
            (0xD, _, _, _) => if digit4 > 0 && self.i_reg as usize + digit4 as usize > RAM_SIZE {
                Some(Fault::MemoryOutOfBounds)
            } else {
                None
            },
            (0xE, _, 9, 0xE) | (0xE, _, 0xA, 1) => if self.v_reg[x] as usize >= NUM_KEYS {
                Some(Fault::KeyOutOfRange)
            } else {
                None
            },
            (0xF, _, 0, 7) | (0xF, _, 0, 0xA) => None,
            (0xF, _, 1, 5) | (0xF, _, 1, 8) | (0xF, _, 1, 0xE) | (0xF, _, 2, 9) => None,
            (0xF, _, 3, 3) => if self.i_reg as usize + 2 >= RAM_SIZE {
                Some(Fault::MemoryOutOfBounds)
            } else {
                None
            },
            (0xF, _, 5, 5) | (0xF, _, 6, 5) => if self.i_reg as usize + x >= RAM_SIZE {
                Some(Fault::MemoryOutOfBounds)
            } else {
                None
            },
            (_, _, _, _) => Some(Fault::UnknownOpcode(op)),
        }
    }

    /// Carries out one instruction: fetches the instruction word at the
    /// program counter and executes it. `Cxnn` draws a random byte.
    pub fn tick(&mut self)
        requires
            old(self)@.fault() is None,
        ensures
            old(self)@.ticks_to(final(self)@),
            final(self)@.wf(),
    {
        let op: u16 = self.fetch();
        let (digit1, _, _, _) = nibbles(op);
        let rnd: u8 = if digit1 == 0xC {
            random_byte()
        } else {
            0
        };
        self.execute(op, rnd);
        assert(self@ == old(self)@.step(rnd));
    }

    /// Carries out one instruction if that is possible. If it is not, says
    /// why and leaves the machine as it is.
    pub fn try_tick(&mut self) -> (result: Result<(), Fault>)
        ensures
            match result {
                Ok(_) => old(self)@.fault() is None && old(self)@.ticks_to(final(self)@),
                Err(fault) => old(self)@.fault() == Some(fault) && final(self)@ == old(self)@,
            },
            final(self)@.wf(),
    {
        match self.fault() {
            Some(fault) => Err(fault),
            None => {
                self.tick();
                Ok(())
            },
        }
    }

    /// Executes the instruction word `op`. The program counter is taken to
    /// have moved past the instruction already; `rnd` is the random byte
    /// for `Cxnn`, which no other instruction looks at.
    pub fn execute(&mut self, op: u16, rnd: u8)
        requires
            old(self)@.execute_fault(op) is None,
        ensures
            final(self)@ == old(self)@.execute(op, rnd),
            final(self)@.wf(),
    {
        proof {
            use_type_invariant(&*self);
        }
        let (digit1, digit2, digit3, digit4) = nibbles(op);
        let x: usize = digit2 as usize;
        let y: usize = digit3 as usize;
        let nn: u8 = low_byte(op);
        let nnn: u16 = address(op);

        match (digit1, digit2, digit3, digit4) {
            // 0000 - No operation.
            (0, 0, 0, 0) => {},
            // 00E0 - Clear screen.
            (0, 0, 0xE, 0) => {
                self.screen = [false; SCREEN_SIZE];
            },
            // 00EE - Return from subroutine.
            (0, 0, 0xE, 0xE) => {
                let ret_addr: u16 = self.pop();
                proof {
                    use_type_invariant(&*self);
                }
                self.pc = ret_addr;
            },
            // 1NNN - Move PC to given address.
            (1, _, _, _) => {
                self.pc = nnn;
            },
            // 2NNN - Save current PC to the stack and move PC to the given address.
            (2, _, _, _) => {
                let pc: u16 = self.pc;
                self.push(pc);
                proof {
                    use_type_invariant(&*self);
                }
                self.pc = nnn;
            },
            // 3XNN - Skip next if VX == NN.
            (3, _, _, _) => {
                if self.v_reg[x] == nn {
                    self.pc = add_address(self.pc, 2);
                }
            },
            // 4XNN - Skip next if VX != NN.
            (4, _, _, _) => {
                if self.v_reg[x] != nn {
                    self.pc = add_address(self.pc, 2);
                }
            },
            // 5XY0 - Skip next if VX == VY.
            (5, _, _, 0) => {
                if self.v_reg[x] == self.v_reg[y] {
                    self.pc = add_address(self.pc, 2);
                }
            },
            // 6XNN - Set VX value to NN.
            (6, _, _, _) => {
                self.v_reg[x] = nn;
            },
            // 7XNN - Add given value to VX.
            (7, _, _, _) => {
                let (result, _) = add_with_carry(self.v_reg[x], nn);
                self.v_reg[x] = result;
            },
            // 8XY0 - Set VX value to VY value.
            (8, _, _, 0) => {
                self.v_reg[x] = self.v_reg[y];
            },
            // 8XY1 - Bitwise OR of VX and VY.
            (8, _, _, 1) => {
                self.v_reg[x] = self.v_reg[x] | self.v_reg[y];
            },
            // 8XY2 - Bitwise AND of VX and VY.
            (8, _, _, 2) => {
                self.v_reg[x] = self.v_reg[x] & self.v_reg[y];
            },
            // 8XY3 - Bitwise XOR of VX and VY.
            (8, _, _, 3) => {
                self.v_reg[x] = self.v_reg[x] ^ self.v_reg[y];
            },
            // 8XY4 - Add VX + VY and set carry flag in case of integer overflow.
            (8, _, _, 4) => {
                let (result, carry) = add_with_carry(self.v_reg[x], self.v_reg[y]);
                self.v_reg[x] = result;
                self.v_reg[0xF] = if carry {
                    1
                } else {
                    0
                };
            },
            // 8XY5 - Subtract VX - VY and set borrow flag in case of integer underflow.
            (8, _, _, 5) => {
                let (result, borrow) = sub_with_borrow(self.v_reg[x], self.v_reg[y]);
                self.v_reg[x] = result;
                self.v_reg[0xF] = if borrow {
                    0
                } else {
                    1
                };
            },
            // 8XY6 - Bitwise single right shift and store dropped bit in the flag register.
            (8, _, _, 6) => {
                let (result, dropped_bit) = shift_right(self.v_reg[x]);
                self.v_reg[x] = result;
                self.v_reg[0xF] = dropped_bit;
            },
            // 9XY0 - Skip next if VX != VY.
            (9, _, _, 0) => {
                if self.v_reg[x] != self.v_reg[y] {
                    self.pc = add_address(self.pc, 2);
                }
            },
            // ANNN - Set the I register to NNN.
            (0xA, _, _, _) => {
                self.i_reg = nnn;
            },
            // BNNN - Jump to V0 + NNN.
            (0xB, _, _, _) => {
                self.pc = (self.v_reg[0] as u16) + nnn;
            },
            // CXNN - AND a random number with the lower 8 bits of the opcode.
            (0xC, _, _, _) => {
                self.v_reg[x] = rnd & nn;
            },
            // DXYN - Draw sprite at given coordinate.
            (0xD, _, _, _) => {
                self.draw_sprite(x, y, digit4);
            },
            // EX9E - Skip if key pressed.
            (0xE, _, 9, 0xE) => {
                let vx: u8 = self.v_reg[x];
                let key: bool = self.keys[vx as usize];
                if key {
                    self.pc = add_address(self.pc, 2);
                }
            },
            // EXA1 - Skip if key not pressed.
            (0xE, _, 0xA, 1) => {
                let vx: u8 = self.v_reg[x];
                let key: bool = self.keys[vx as usize];
                if !key {
                    self.pc = add_address(self.pc, 2);
                }
            },
            // FX07 - Set VX to current delay timer value.
            (0xF, _, 0, 7) => {
                self.v_reg[x] = self.dt;
            },
            // FX0A - Wait for key press.
            (0xF, _, 0, 0xA) => {
                self.wait_for_key(x);
            },
            // FX15 - Set delay timer to value stored in VX.
            (0xF, _, 1, 5) => {
                self.dt = self.v_reg[x];
            },
            // FX18 - Set sound timer to value stored in VX.
            (0xF, _, 1, 8) => {
                self.st = self.v_reg[x];
            },
            // FX1E - Increment I by VX value.
            (0xF, _, 1, 0xE) => {
                let vx: u16 = self.v_reg[x] as u16;
                self.i_reg = add_address(self.i_reg, vx);
            },
            // FX29 - Set I to font address.
            (0xF, _, 2, 9) => {
                let vx: u16 = self.v_reg[x] as u16;
                self.i_reg = vx * 5;
            },
            // FX33 - Binary-coded decimal.
            (0xF, _, 3, 3) => {
                self.store_bcd(x);
            },
            // FX55 - Store V0 - VX values into RAM.
            (0xF, _, 5, 5) => {
                self.store_registers(x);
            },
            // FX65 - Load V0 - VX values from RAM.
            (0xF, _, 6, 5) => {
                self.load_registers(x);
            },
            // No other word passes the precondition.
            (_, _, _, _) => {
                unreached::<()>();
            },
        }
        proof {
            use_type_invariant(&*self);
        }
    }

    /// Puts `val` on top of the stack.
    fn push(&mut self, val: u16)
        requires
            old(self)@.stack.len() < STACK_SIZE,
        ensures
            final(self)@ == (MachineState { stack: old(self)@.stack.push(val), ..old(self)@ }),
    {
        proof {
            use_type_invariant(&*self);
        }
        self.stack[self.sp as usize] = val;
        self.sp += 1;
    }

    /// Takes the top of the stack off.
    fn pop(&mut self) -> (val: u16)
        requires
            old(self)@.stack.len() > 0,
        ensures
            val == old(self)@.stack.last(),
            final(self)@ == (MachineState { stack: old(self)@.stack.drop_last(), ..old(self)@ }),
    {
        proof {
            use_type_invariant(&*self);
        }
        self.sp -= 1;
        self.stack[self.sp as usize]
    }

    /// `Dxyn`: draws the sprite of `num_rows` rows that memory holds at `I`,
    /// with its corner at `(Vx, Vy)`, and sets `VF` if it hits a lit pixel.
    fn draw_sprite(&mut self, x: usize, y: usize, num_rows: u16)
        requires
            x < NUM_REGS,
            y < NUM_REGS,
            num_rows < 16,
            num_rows > 0 ==> old(self)@.i + num_rows <= RAM_SIZE,
        ensures
            final(self)@ == old(self)@.draw(x as int, y as int, num_rows as int),
    {
        proof {
            use_type_invariant(&*self);
        }
        let x_coord: u16 = self.v_reg[x] as u16;
        let y_coord: u16 = self.v_reg[y] as u16;
        let ghost before = self@;
        let ghost vx = x_coord as int;
        let ghost vy = y_coord as int;
        // Whether the sprite has hit a lit pixel.
        let mut flipped = false;
        let mut y_line: u16 = 0;
        while y_line < num_rows
            invariant
                y_line <= num_rows < 16,
                num_rows > 0 ==> before.i + num_rows <= RAM_SIZE,
                x_coord == vx < 256,
                y_coord == vy < 256,
                self.sp <= STACK_SIZE,
                before.wf(),
                (MachineState { display: before.display, ..self@ }) == before,
                forall|p: int|
                    0 <= p < SCREEN_SIZE ==> #[trigger] self.screen@[p] == (before.display[p]
                        || lights_so_far(before, vx, vy, y_line as int, 0, p)),
                flipped == collides_so_far(before, vx, vy, y_line as int, 0),
            decreases num_rows - y_line,
        {
            let addr: u16 = self.i_reg + y_line;
            let pixels: u8 = self.ram[addr as usize];
            let mut x_line: u8 = 0;
            while x_line < 8
                invariant
                    x_line <= 8,
                    y_line < num_rows < 16,
                    x_coord == vx < 256,
                    y_coord == vy < 256,
                    self.sp <= STACK_SIZE,
                    before.wf(),
                    before.i + y_line < RAM_SIZE,
                    pixels == before.memory[before.i + y_line],
                    (MachineState { display: before.display, ..self@ }) == before,
                    forall|p: int|
                        0 <= p < SCREEN_SIZE ==> #[trigger] self.screen@[p] == (before.display[p]
                            || lights_so_far(before, vx, vy, y_line as int, x_line as int, p)),
                    flipped == collides_so_far(before, vx, vy, y_line as int, x_line as int),
                decreases 8 - x_line,
            {
                let lit: bool = (pixels & (0x80u8 >> x_line)) != 0;
                proof {
                    let target: int = target_pixel(vx, vy, y_line as int, x_line as int);
                    lemma_bit_drawn(before, vx, vy, y_line as int, x_line as int, target, lit);
                }
                if lit {
                    // Sprites wrap around the screen.
                    let px: usize = (x_coord + x_line as u16) as usize % SCREEN_WIDTH;
                    let py: usize = (y_coord + y_line) as usize % SCREEN_HEIGHT;
                    // The pixel's index in the row-major screen.
                    let idx: usize = px + SCREEN_WIDTH * py;
                    // A pixel that is lit already is a collision.
                    if self.screen[idx] {
                        flipped = true;
                    }
                    self.screen[idx] = true;
                }
                x_line += 1;
            }
            proof {
                lemma_row_drawn(before, vx, vy, y_line as int);
            }
            y_line += 1;
        }
        proof {
            lemma_sprite_drawn(before, vx, vy, num_rows as int);
        }
        // Populate the flag register.
        if flipped {
            self.v_reg[0xF] = 1;
        } else {
            self.v_reg[0xF] = 0;
        }
    }

    /// `Fx0A`: puts the number of the lowest key that is held down into
    /// `Vx`; if none is, steps the program counter back by one instruction,
    /// so that the next tick comes here again.
    fn wait_for_key(&mut self, x: usize)
        requires
            x < NUM_REGS,
        ensures
            final(self)@ == old(self)@.wait_key(x as int),
    {
        proof {
            use_type_invariant(&*self);
        }
        let mut pressed = false;
        let mut k: usize = 0;
        while k < NUM_KEYS
            invariant_except_break
                !pressed,
                self@ == old(self)@,
            invariant
                k <= NUM_KEYS,
                x < NUM_REGS,
                self.sp <= STACK_SIZE,
                forall|j: int| 0 <= j < k ==> !old(self)@.keys[j],
            ensures
                pressed ==> k < NUM_KEYS && old(self)@.is_lowest_pressed(k as int) && self@ == old(
                    self,
                )@.set_reg(x as int, k as u8),
                !pressed ==> k == NUM_KEYS && self@ == old(self)@,
            decreases NUM_KEYS - k,
        {
            if self.keys[k] {
                self.v_reg[x] = k as u8;
                pressed = true;
                break ;
            }
            k += 1;
        }
        if !pressed {
            self.pc = sub_address(self.pc, 2);
        }
    }

    /// `Fx33`: writes the hundreds, tens and ones of `Vx` to memory at `I`.
    fn store_bcd(&mut self, x: usize)
        requires
            x < NUM_REGS,
            old(self)@.i + 2 < RAM_SIZE,
        ensures
            final(self)@ == old(self)@.store_bcd(old(self)@.v[x as int]),
    {
        proof {
            use_type_invariant(&*self);
        }
        let vx: u8 = self.v_reg[x];
        let hundreds: u8 = vx / 100;
        let tens: u8 = (vx / 10) % 10;
        let ones: u8 = vx % 10;
        self.ram[self.i_reg as usize] = hundreds;
        self.ram[(self.i_reg + 1) as usize] = tens;
        self.ram[(self.i_reg + 2) as usize] = ones;
    }

    /// `Fx55`: copies `V0` to `Vx` into memory from `I` on.
    fn store_registers(&mut self, x: usize)
        requires
            x < NUM_REGS,
            old(self)@.i + x < RAM_SIZE,
        ensures
            final(self)@ == old(self)@.store_regs(x as int),
    {
        proof {
            use_type_invariant(&*self);
        }
        let i: usize = self.i_reg as usize;
        let mut idx: usize = 0;
        while idx <= x
            invariant
                idx <= x + 1,
                x < NUM_REGS,
                i == old(self)@.i,
                i + x < RAM_SIZE,
                self.sp <= STACK_SIZE,
                (MachineState { memory: old(self)@.memory, ..self@ }) == old(self)@,
                forall|a: int|
                    0 <= a < RAM_SIZE ==> #[trigger] self.ram@[a] == if i <= a < i + idx {
                        old(self)@.v[a - i]
                    } else {
                        old(self)@.memory[a]
                    },
            decreases x + 1 - idx,
        {
            self.ram[i + idx] = self.v_reg[idx];
            idx += 1;
        }
    }

    /// `Fx65`: fills `V0` to `Vx` from memory from `I` on.
    fn load_registers(&mut self, x: usize)
        requires
            x < NUM_REGS,
            old(self)@.i + x < RAM_SIZE,
        ensures
            final(self)@ == old(self)@.load_regs(x as int),
    {
        proof {
            use_type_invariant(&*self);
        }
        let i: usize = self.i_reg as usize;
        let mut idx: usize = 0;
        while idx <= x
            invariant
                idx <= x + 1,
                x < NUM_REGS,
                i == old(self)@.i,
                i + x < RAM_SIZE,
                self.sp <= STACK_SIZE,
                (MachineState { v: old(self)@.v, ..self@ }) == old(self)@,
                forall|r: int|
                    0 <= r < NUM_REGS ==> #[trigger] self.v_reg@[r] == if r < idx {
                        old(self)@.memory[i + r]
                    } else {
                        old(self)@.v[r]
                    },
            decreases x + 1 - idx,
        {
            self.v_reg[idx] = self.ram[i + idx];
            idx += 1;
        }
    }
}

} // verus!
