//! The mathematical model of the machine.
//!
//! [`MachineState`] holds the whole state as plain values and sequences. Each
//! operation is a total function on it; [`MachineState::fault`] says on which
//! states executing the next instruction has no meaning.

use vstd::prelude::*;
use crate::alu::{wrap16, wrap8};
use crate::font::{FONTSET, FONTSET_SIZE};
use crate::opcode::{
    family, n_field, nn_field, nnn_field, recognized, uses_random, word_of, x_field, y_field,
};

verus! {

/// Width of the display in pixels.
pub const SCREEN_WIDTH: usize = 64;

/// Height of the display in pixels.
pub const SCREEN_HEIGHT: usize = 32;

/// Number of pixels of the display.
pub const SCREEN_SIZE: usize = 2048;

/// Number of bytes of memory.
pub const RAM_SIZE: usize = 4096;

/// Number of general registers.
pub const NUM_REGS: usize = 16;

/// Number of return addresses that the call stack can hold.
pub const STACK_SIZE: usize = 16;

/// Number of keys of the keypad.
pub const NUM_KEYS: usize = 16;

/// Address at which programs are loaded and start to run.
pub const START_ADDR: u16 = 0x200;

/// Largest program that fits between `START_ADDR` and the end of memory.
pub const MAX_PROGRAM_SIZE: usize = 3584;

/// Why the next instruction cannot be executed.
#[derive(Clone, Copy, Debug, PartialEq, Eq)]
pub enum Fault {
    /// The program counter or its successor lies outside memory.
    FetchOutOfBounds,
    /// The instruction word matches no instruction pattern.
    UnknownOpcode(u16),
    /// A call with sixteen return addresses already on the stack.
    StackOverflow,
    /// A return with no return address on the stack.
    StackUnderflow,
    /// The instruction reads or writes memory through `I` beyond the last byte.
    MemoryOutOfBounds,
    /// The instruction tests a key whose number is above `0xF`.
    KeyOutOfRange,
}

/// The state of the machine.
#[verifier::ext_equal]
pub struct MachineState {
    /// Program counter: address of the next instruction.
    pub pc: u16,
    /// Memory, `RAM_SIZE` bytes.
    pub memory: Seq<u8>,
    /// Display, row by row from the top, `true` for a lit pixel.
    pub display: Seq<bool>,
    /// General registers `V0` to `VF`.
    pub v: Seq<u8>,
    /// Address register `I`.
    pub i: u16,
    /// Return addresses of the calls in progress, oldest first.
    pub stack: Seq<u16>,
    /// Keypad, `true` for a key that is held down.
    pub keys: Seq<bool>,
    /// Delay timer.
    pub dt: u8,
    /// Sound timer.
    pub st: u8,
}

/// Whether bit `c` of `row` is set, counting from the most significant bit.
pub open spec fn bit_set(row: u8, c: int) -> bool {
    row & (0x80u8 >> (c as u8)) != 0
}

/// How many columns to the right of column `vx` the pixel `p` lies, going
/// round the right edge of the display.
pub open spec fn column_offset(vx: int, p: int) -> int {
    (p % 64 - vx) % 64
}

/// How many rows below row `vy` the pixel `p` lies, going round the bottom
/// edge of the display.
pub open spec fn row_offset(vy: int, p: int) -> int {
    (p / 64 - vy) % 32
}

/// The pixel on which bit `c` of row `r` of a sprite lands whose top left
/// corner is at column `vx` and row `vy`: the sprite wraps around the edges
/// of the display.
pub open spec fn target_pixel(vx: int, vy: int, r: int, c: int) -> int {
    (vx + c) % 64 + 64 * ((vy + r) % 32)
}

impl MachineState {
    /// Every component has its fixed size, and the stack is not over-full.
    pub open spec fn wf(self) -> bool {
        &&& self.memory.len() == RAM_SIZE
        &&& self.display.len() == SCREEN_SIZE
        &&& self.v.len() == NUM_REGS
        &&& self.keys.len() == NUM_KEYS
        &&& self.stack.len() <= STACK_SIZE
    }

    /// The state after power-on: the font at the bottom of memory, the
    /// program counter at `START_ADDR`, everything else zero.
    pub open spec fn initial() -> MachineState {
        MachineState {
            pc: START_ADDR,
            memory: Seq::new(
                RAM_SIZE as nat,
                |a: int| if a < FONTSET_SIZE { FONTSET@[a] } else { 0u8 },
            ),
            display: Seq::new(SCREEN_SIZE as nat, |p: int| false),
            v: Seq::new(NUM_REGS as nat, |r: int| 0u8),
            i: 0,
            stack: Seq::empty(),
            keys: Seq::new(NUM_KEYS as nat, |k: int| false),
            dt: 0,
            st: 0,
        }
    }

    /// The state with key `idx` pressed or released.
    pub open spec fn with_key(self, idx: int, pressed: bool) -> MachineState {
        MachineState { keys: self.keys.update(idx, pressed), ..self }
    }

    /// The state with `data` copied into memory from `START_ADDR` on.
    pub open spec fn with_program(self, data: Seq<u8>) -> MachineState {
        MachineState {
            memory: Seq::new(
                RAM_SIZE as nat,
                |a: int|
                    if START_ADDR <= a < START_ADDR + data.len() {
                        data[a - START_ADDR]
                    } else {
                        self.memory[a]
                    },
            ),
            ..self
        }
    }

    /// The state after one tick of the timers: each goes down by one unless
    /// it is zero.
    pub open spec fn after_timer_tick(self) -> MachineState {
        MachineState {
            dt: if self.dt > 0 { (self.dt - 1) as u8 } else { 0 },
            st: if self.st > 0 { (self.st - 1) as u8 } else { 0 },
            ..self
        }
    }

    /// Whether both bytes of the next instruction lie in memory.
    pub open spec fn fetchable(self) -> bool {
        self.pc + 1 < RAM_SIZE
    }

    /// The instruction word at the program counter, high byte first.
    pub open spec fn opcode(self) -> u16 {
        word_of(self.memory[self.pc as int], self.memory[self.pc + 1])
    }

    /// The state after the fetch: the program counter has moved on by one
    /// instruction.
    pub open spec fn fetched(self) -> MachineState {
        MachineState { pc: wrap16(self.pc + 2), ..self }
    }

    /// `00E0`: all pixels off.
    pub open spec fn clear_display(self) -> MachineState {
        MachineState { display: Seq::new(SCREEN_SIZE as nat, |p: int| false), ..self }
    }

    /// `00EE`: return to the address on top of the stack.
    pub open spec fn ret(self) -> MachineState {
        MachineState { pc: self.stack.last(), stack: self.stack.drop_last(), ..self }
    }

    /// `1nnn`, `Bnnn`: continue at `addr`.
    pub open spec fn jump(self, addr: u16) -> MachineState {
        MachineState { pc: addr, ..self }
    }

    /// `2nnn`: remember the program counter and continue at `addr`.
    pub open spec fn call(self, addr: u16) -> MachineState {
        MachineState { pc: addr, stack: self.stack.push(self.pc), ..self }
    }

    /// The conditional skips: pass over one instruction if `cond` holds.
    pub open spec fn skip_if(self, cond: bool) -> MachineState {
        MachineState { pc: if cond { wrap16(self.pc + 2) } else { self.pc }, ..self }
    }

    /// Register `x` set to `val`.
    pub open spec fn set_reg(self, x: int, val: u8) -> MachineState {
        MachineState { v: self.v.update(x, val), ..self }
    }

    /// Register `x` set to `val`, and then `VF` set to `flag`.
    pub open spec fn set_reg_and_flag(self, x: int, val: u8, flag: u8) -> MachineState {
        MachineState { v: self.v.update(x, val).update(0xF, flag), ..self }
    }

    /// The address register set to `val`.
    pub open spec fn set_index(self, val: u16) -> MachineState {
        MachineState { i: val, ..self }
    }

    /// Whether a sprite of `rows` rows, read from memory at `I` and placed
    /// with its top left corner at column `vx` and row `vy`, lights pixel `p`.
    ///
    /// The sprite wraps around both edges of the display. Its row `r` lands
    /// on display row `(vy + r) mod 32`, and bit `c` of that row, counted
    /// from the most significant, on column `(vx + c) mod 64`. So a pixel is
    /// lit if it lies fewer than eight columns to the right of `vx` and
    /// fewer than `rows` rows below `vy`, and the bit that lands on it is
    /// set.
    pub open spec fn sprite_lights(self, vx: int, vy: int, rows: int, p: int) -> bool {
        let c: int = column_offset(vx, p);
        let r: int = row_offset(vy, p);
        c < 8 && r < rows && bit_set(self.memory[self.i + r], c)
    }

    /// Whether the sprite lights a pixel that is lit already.
    pub open spec fn sprite_collides(self, vx: int, vy: int, rows: int) -> bool {
        exists|p: int|
            0 <= p < SCREEN_SIZE && #[trigger] self.display[p] && self.sprite_lights(
                vx,
                vy,
                rows,
                p,
            )
    }

    /// `Dxyn`: draw the sprite at `(Vx, Vy)`. Every pixel that the sprite
    /// lights is on afterwards, the others are unchanged, and `VF` tells
    /// whether one of them was on before.
    pub open spec fn draw(self, x: int, y: int, rows: int) -> MachineState {
        let vx: int = self.v[x] as int;
        let vy: int = self.v[y] as int;
        MachineState {
            display: Seq::new(
                SCREEN_SIZE as nat,
                |p: int| self.display[p] || self.sprite_lights(vx, vy, rows, p),
            ),
            v: self.v.update(0xF, if self.sprite_collides(vx, vy, rows) { 1u8 } else { 0u8 }),
            ..self
        }
    }

    /// Whether some key is held down.
    pub open spec fn any_pressed(self) -> bool {
        exists|k: int| 0 <= k < NUM_KEYS && self.keys[k]
    }

    /// Whether `k` is held down and no key with a smaller number is.
    pub open spec fn is_lowest_pressed(self, k: int) -> bool {
        &&& 0 <= k < NUM_KEYS
        &&& self.keys[k]
        &&& forall|j: int| 0 <= j < k ==> !self.keys[j]
    }

    /// The smallest number of a key that is held down.
    pub open spec fn lowest_pressed(self) -> int {
        choose|k: int| self.is_lowest_pressed(k)
    }

    /// `Fx0A`: with a key held down, its number goes to register `x`;
    /// without one the program counter steps back onto this instruction.
    pub open spec fn wait_key(self, x: int) -> MachineState {
        if self.any_pressed() {
            self.set_reg(x, self.lowest_pressed() as u8)
        } else {
            MachineState { pc: wrap16(self.pc - 2), ..self }
        }
    }

    /// `Fx33`: the three decimal digits of `val` at `I`, `I + 1` and `I + 2`.
    pub open spec fn store_bcd(self, val: u8) -> MachineState {
        MachineState {
            memory: self.memory.update(self.i as int, val / 100).update(
                self.i + 1,
                (val / 10) % 10,
            ).update(self.i + 2, val % 10),
            ..self
        }
    }

    /// `Fx55`: registers `V0` to `Vx` copied to memory from `I` on.
    pub open spec fn store_regs(self, x: int) -> MachineState {
        MachineState {
            memory: Seq::new(
                RAM_SIZE as nat,
                |a: int|
                    if self.i <= a <= self.i + x {
                        self.v[a - self.i]
                    } else {
                        self.memory[a]
                    },
            ),
            ..self
        }
    }

    /// `Fx65`: registers `V0` to `Vx` filled from memory from `I` on.
    pub open spec fn load_regs(self, x: int) -> MachineState {
        MachineState {
            v: Seq::new(
                NUM_REGS as nat,
                |r: int| if r <= x { self.memory[self.i + r] } else { self.v[r] },
            ),
            ..self
        }
    }

    /// The state after executing the instruction word `op`, where `rnd` is
    /// the random byte that `Cxnn` consumes. The program counter has already
    /// moved past the instruction.
    ///
    /// This is the instruction table. It means something only where
    /// `execute_fault` finds no fault; a word that matches no pattern is
    /// given the state unchanged.
    pub open spec fn execute(self, op: u16, rnd: u8) -> MachineState {
        let x: int = x_field(op) as int;
        let y: int = y_field(op) as int;
        let nn: u8 = nn_field(op);
        let nnn: u16 = nnn_field(op);
        let vx: u8 = self.v[x];
        let vy: u8 = self.v[y];
        match (family(op), x_field(op), y_field(op), n_field(op)) {
            (0, 0, 0, 0) => self,
            (0, 0, 0xE, 0) => self.clear_display(),
            (0, 0, 0xE, 0xE) => self.ret(),
            (1, _, _, _) => self.jump(nnn),
            (2, _, _, _) => self.call(nnn),
            (3, _, _, _) => self.skip_if(vx == nn),
            (4, _, _, _) => self.skip_if(vx != nn),
            (5, _, _, 0) => self.skip_if(vx == vy),
            (6, _, _, _) => self.set_reg(x, nn),
            (7, _, _, _) => self.set_reg(x, wrap8(vx + nn)),
            (8, _, _, 0) => self.set_reg(x, vy),
            (8, _, _, 1) => self.set_reg(x, vx | vy),
            (8, _, _, 2) => self.set_reg(x, vx & vy),
            (8, _, _, 3) => self.set_reg(x, vx ^ vy),
            (8, _, _, 4) => self.set_reg_and_flag(
                x,
                wrap8(vx + vy),
                if vx + vy > 0xFF { 1 } else { 0 },
            ),
            (8, _, _, 5) => self.set_reg_and_flag(x, wrap8(vx - vy), if vx >= vy { 1 } else { 0 }),
            (8, _, _, 6) => self.set_reg_and_flag(x, vx / 2, vx % 2),
            (9, _, _, 0) => self.skip_if(vx != vy),
            (0xA, _, _, _) => self.set_index(nnn),
            (0xB, _, _, _) => self.jump((self.v[0] + nnn) as u16),
            (0xC, _, _, _) => self.set_reg(x, rnd & nn),
            (0xD, _, _, n) => self.draw(x, y, n as int),
            (0xE, _, 9, 0xE) => self.skip_if(self.keys[vx as int]),
            (0xE, _, 0xA, 1) => self.skip_if(!self.keys[vx as int]),
            (0xF, _, 0, 7) => self.set_reg(x, self.dt),
            (0xF, _, 0, 0xA) => self.wait_key(x),
            (0xF, _, 1, 5) => MachineState { dt: vx, ..self },
            (0xF, _, 1, 8) => MachineState { st: vx, ..self },
            (0xF, _, 1, 0xE) => self.set_index(wrap16(self.i + vx)),
            (0xF, _, 2, 9) => self.set_index((vx * 5) as u16),
            (0xF, _, 3, 3) => self.store_bcd(vx),
            (0xF, _, 5, 5) => self.store_regs(x),
            (0xF, _, 6, 5) => self.load_regs(x),
            _ => self,
        }
    }

    /// Why `op` cannot be executed in this state, if it cannot.
    pub open spec fn execute_fault(self, op: u16) -> Option<Fault> {
        let x: int = x_field(op) as int;
        match (family(op), x_field(op), y_field(op), n_field(op)) {
            (0, 0, 0xE, 0xE) => if self.stack.len() == 0 {
                Some(Fault::StackUnderflow)
            } else {
                None
            },
            (2, _, _, _) => if self.stack.len() >= STACK_SIZE {
                Some(Fault::StackOverflow)
            } else {
                None
            },
            (0xD, _, _, n) => if n > 0 && self.i + n > RAM_SIZE {
                Some(Fault::MemoryOutOfBounds)
            } else {
                None
            },
            (0xE, _, 9, 0xE) | (0xE, _, 0xA, 1) => if self.v[x] >= NUM_KEYS {
                Some(Fault::KeyOutOfRange)
            } else {
                None
            },
            (0xF, _, 3, 3) => if self.i + 2 >= RAM_SIZE {
                Some(Fault::MemoryOutOfBounds)
            } else {
                None
            },
            (0xF, _, 5, 5) | (0xF, _, 6, 5) => if self.i + x >= RAM_SIZE {
                Some(Fault::MemoryOutOfBounds)
            } else {
                None
            },
            _ => if recognized(op) {
                None
            } else {
                Some(Fault::UnknownOpcode(op))
            },
        }
    }

    /// Why the next instruction cannot be fetched and executed, if it cannot.
    pub open spec fn fault(self) -> Option<Fault> {
        if !self.fetchable() {
            Some(Fault::FetchOutOfBounds)
        } else {
            self.execute_fault(self.opcode())
        }
    }

    /// The state after one fetch and one execution, where `rnd` is the
    /// random byte that `Cxnn` consumes.
    pub open spec fn step(self, rnd: u8) -> MachineState {
        self.fetched().execute(self.opcode(), rnd)
    }

    /// Whether one tick can lead from this state to `next`. Where the next
    /// instruction consumes a random byte, every byte is possible; where it
    /// does not, there is one state that a tick leads to.
    pub open spec fn ticks_to(self, next: MachineState) -> bool {
        if uses_random(self.opcode()) {
            exists|rnd: u8| next == #[trigger] self.step(rnd)
        } else {
            next == self.step(0)
        }
    }
}

} // verus!
