//! The interpreter: the executable machine and its fetch-decode-execute
//! cycle.

use crate::display::{blank, draw_pixels, draw_sprite};
use crate::error::{Fault, LoadError};
use crate::font::{FONTSET, FONTSET_SIZE, GLYPH_ROWS};
use crate::instruction::{decode, Instruction};
use crate::keypad::{any_key, lowest_key, lowest_pressed, NUM_KEYS};
use crate::machine::{steps_to, Machine, MAX_PC, STACK_SIZE};
use crate::memory::{copy_block, MAX_PROGRAM_SIZE, MEMORY_SIZE, PROGRAM_START};
use crate::random::random_byte;
use vstd::prelude::*;

verus! {

/// A CHIP-8 machine. Its abstract state is the [`Machine`] given by `view`.
pub struct Chip8 {
    memory: [u8; 4096],
    display: [bool; 2048],
    keys: [bool; 16],
    pc: u16,
    i_reg: u16,
    sp: u16,
    stack: [u16; 16],
    v_reg: [u8; 16],
    delay_timer: u8,
    sound_timer: u8,
}

impl View for Chip8 {
    type V = Machine;

    /// The slots of the stack array at and above the stack pointer are not
    /// part of the state.
    closed spec fn view(&self) -> Machine {
        Machine {
            memory: self.memory@,
            v: self.v_reg@,
            i: self.i_reg,
            pc: self.pc,
            stack: self.stack@.subrange(0, self.sp as int),
            delay: self.delay_timer,
            sound: self.sound_timer,
            display: self.display@,
            keys: self.keys@,
        }
    }
}

impl Chip8 {
    /// What holds of every machine: it makes the view well formed.
    #[verifier::type_invariant]
    closed spec fn inv(self) -> bool {
        &&& self.sp <= 16
        &&& self.pc <= MAX_PC
        &&& forall|k: int| 0 <= k < 16 ==> #[trigger] self.stack@[k] <= 4096
    }

    /// A machine in its power-on state.
    pub fn new() -> (chip: Self)
        ensures
            chip@ == Machine::initial(),
            chip@.wf(),
    {
        let mut memory: [u8; 4096] = [0u8; 4096];
        copy_block(&mut memory, 0, &FONTSET, 0, FONTSET_SIZE);
        let chip = Chip8 {
            memory,
            display: [false; 2048],
            keys: [false; 16],
            pc: PROGRAM_START as u16,
            i_reg: 0,
            sp: 0,
            stack: [0u16; 16],
            v_reg: [0u8; 16],
            delay_timer: 0,
            sound_timer: 0,
        };
        assert(chip@ =~= Machine::initial());
        chip
    }

    /// Puts the machine back into its power-on state. A loaded program is
    /// erased with the rest of memory.
    pub fn reset(&mut self)
        ensures
            final(self)@ == Machine::initial(),
            final(self)@.wf(),
    {
        *self = Chip8::new();
    }

    /// Copies `program` into memory at the program start address. An image
    /// longer than 3584 bytes is rejected and nothing is written.
    pub fn load(&mut self, program: &[u8]) -> (res: Result<(), LoadError>)
        ensures
            program@.len() <= 3584 ==> res is Ok && final(self)@ == old(self)@.with_program(
                program@,
            ),
            program@.len() > 3584 ==> res == Err::<(), LoadError>(
                LoadError { len: program.len() },
            ) && final(self)@ == old(self)@,
            final(self)@.wf(),
    {
        proof {
            use_type_invariant(&*self);
        }
        let len: usize = program.len();
        if len > MAX_PROGRAM_SIZE {
            return Err(LoadError { len });
        }
        copy_block(&mut self.memory, PROGRAM_START, program, 0, len);
        Ok(())
    }

    /// A snapshot of the framebuffer, row by row.
    pub fn get_display(&mut self) -> (pixels: [bool; 2048])
        ensures
            pixels@ == old(self)@.display,
            *final(self) == *old(self),
    {
        self.display
    }

    /// Replaces the state of all sixteen keys.
    pub fn update_keys(&mut self, inputs: [bool; 16])
        ensures
            final(self)@ == old(self)@.with_keys(inputs@),
            final(self)@.wf(),
    {
        proof {
            use_type_invariant(&*self);
        }
        self.keys = inputs;
    }

    /// Counts both timers down by one unless they are zero. Returns whether
    /// the tone is to be played now: the sound timer went from 1 to 0.
    pub fn tick_timers(&mut self) -> (tone: bool)
        ensures
            final(self)@ == old(self)@.after_timer_tick(),
            tone == old(self)@.tone_due(),
            final(self)@.wf(),
    {
        proof {
            use_type_invariant(&*self);
        }
        if self.delay_timer > 0 {
            self.delay_timer -= 1;
        }
        let mut tone = false;
        if self.sound_timer > 0 {
            if self.sound_timer == 1 {
                tone = true;
            }
            self.sound_timer -= 1;
        }
        tone
    }

    /// Reads the opcode at the program counter and moves the program
    /// counter past it.
    pub fn fetch(&mut self) -> (res: Result<u16, Fault>)
        ensures
            match old(self)@.opcode() {
                Some(op) => res == Ok::<u16, Fault>(op) && final(self)@ == old(self)@.advanced(),
                None => res == Err::<u16, Fault>(Fault::FetchError) && final(self)@ == old(
                    self,
                )@,
            },
            final(self)@.wf(),
    {
        proof {
            use_type_invariant(&*self);
        }
        if self.pc as usize + 1 >= MEMORY_SIZE {
            return Err(Fault::FetchError);
        }
        let high_byte: u16 = self.memory[self.pc as usize] as u16;
        let low_byte: u16 = self.memory[(self.pc + 1) as usize] as u16;
        let op: u16 = (high_byte << 8) | low_byte;
        assert(op == high_byte * 256 + low_byte) by (bit_vector)
            requires
                op == (high_byte << 8) | low_byte,
                high_byte < 256,
                low_byte < 256,
        ;
        self.pc += 2;
        Ok(op)
    }

    fn push(&mut self, val: u16)
        requires
            old(self)@.stack.len() < 16,
            val <= 4096,
        ensures
            final(self)@ == (Machine { stack: old(self)@.stack.push(val), ..old(self)@ }),
    {
        proof {
            use_type_invariant(&*self);
        }
        self.stack[self.sp as usize] = val;
        self.sp += 1;
    }

    fn pop(&mut self) -> (val: u16)
        requires
            old(self)@.stack.len() > 0,
        ensures
            val == old(self)@.stack.last(),
            val <= 4096,
            final(self)@ == (Machine { stack: old(self)@.stack.drop_last(), ..old(self)@ }),
    {
        proof {
            use_type_invariant(&*self);
        }
        self.sp -= 1;
        self.stack[self.sp as usize]
    }

    fn set_reg(&mut self, x: u8, value: u8)
        requires
            x < 16,
        ensures
            final(self)@ == old(self)@.set_v(x, value),
    {
        proof {
            use_type_invariant(&*self);
        }
        self.v_reg[x as usize] = value;
    }

    fn set_reg_flag(&mut self, x: u8, value: u8, f: bool)
        requires
            x < 16,
        ensures
            final(self)@ == old(self)@.set_v_flag(x, value, f),
    {
        proof {
            use_type_invariant(&*self);
        }
        self.v_reg[x as usize] = value;
        self.v_reg[0xF] = if f {
            1
        } else {
            0
        };
    }

    fn skip_if(&mut self, cond: bool)
        requires
            old(self)@.pc <= 4096,
        ensures
            final(self)@ == old(self)@.skip_if(cond),
    {
        proof {
            use_type_invariant(&*self);
        }
        if cond {
            self.pc += 2;
        }
    }

    fn draw(&mut self, x: u8, y: u8, rows: u8) -> (res: Result<(), Fault>)
        requires
            x < 16,
            y < 16,
            rows < 16,
        ensures
            steps_to(
                old(self)@,
                old(self)@.apply(Instruction::Draw { x, y, rows }, 0),
                res,
                final(self)@,
            ),
    {
        proof {
            use_type_invariant(&*self);
        }
        let start: usize = self.i_reg as usize;
        let vx: u8 = self.v_reg[x as usize];
        let vy: u8 = self.v_reg[y as usize];
        let collision: bool = if rows == 0 {
            assert(self.display@ =~= draw_pixels(
                self.display@,
                self@.sprite(0),
                vx as int,
                vy as int,
            ));
            false
        } else if start + rows as usize > MEMORY_SIZE {
            return Err(Fault::AddressOutOfRange);
        } else {
            assert(self.memory@.subrange(start as int, start + rows) =~= self@.sprite(rows));
            draw_sprite(&mut self.display, &self.memory, start, rows as usize, vx, vy)
        };
        self.v_reg[0xF] = if collision {
            1
        } else {
            0
        };
        Ok(())
    }

    fn wait_key(&mut self, x: u8)
        requires
            x < 16,
            old(self)@.pc >= 2,
        ensures
            final(self)@ == (if any_key(old(self)@.keys) {
                old(self)@.set_v(x, lowest_key(old(self)@.keys) as u8)
            } else {
                old(self)@.rewound()
            }),
    {
        proof {
            use_type_invariant(&*self);
        }
        match lowest_pressed(&self.keys) {
            Some(key) => {
                self.v_reg[x as usize] = key;
            },
            None => {
                self.pc -= 2;
            },
        }
    }

    fn store_digits(&mut self, x: u8) -> (res: Result<(), Fault>)
        requires
            x < 16,
        ensures
            steps_to(
                old(self)@,
                old(self)@.apply(Instruction::StoreDigits { x }, 0),
                res,
                final(self)@,
            ),
    {
        proof {
            use_type_invariant(&*self);
        }
        let at: usize = self.i_reg as usize;
        if at + 2 >= MEMORY_SIZE {
            return Err(Fault::AddressOutOfRange);
        }
        let number: u8 = self.v_reg[x as usize];
        self.memory[at] = number / 100;
        self.memory[at + 1] = (number / 10) % 10;
        self.memory[at + 2] = number % 10;
        Ok(())
    }

    fn store_regs(&mut self, x: u8) -> (res: Result<(), Fault>)
        requires
            x < 16,
        ensures
            steps_to(
                old(self)@,
                old(self)@.apply(Instruction::StoreRegs { x }, 0),
                res,
                final(self)@,
            ),
    {
        proof {
            use_type_invariant(&*self);
        }
        let at: usize = self.i_reg as usize;
        if at + x as usize >= MEMORY_SIZE {
            return Err(Fault::AddressOutOfRange);
        }
        copy_block(&mut self.memory, at, &self.v_reg, 0, x as usize + 1);
        Ok(())
    }

    fn load_regs(&mut self, x: u8) -> (res: Result<(), Fault>)
        requires
            x < 16,
        ensures
            steps_to(
                old(self)@,
                old(self)@.apply(Instruction::LoadRegs { x }, 0),
                res,
                final(self)@,
            ),
    {
        proof {
            use_type_invariant(&*self);
        }
        let at: usize = self.i_reg as usize;
        if at + x as usize >= MEMORY_SIZE {
            return Err(Fault::AddressOutOfRange);
        }
        copy_block(&mut self.v_reg, 0, &self.memory, at, x as usize + 1);
        Ok(())
    }

    /// Carries out one decoded instruction on a machine whose program
    /// counter already points past it.
    fn execute(&mut self, ins: Instruction, rnd: u8) -> (res: Result<(), Fault>)
        requires
            ins.wf(),
            2 <= old(self)@.pc <= 4096,
        ensures
            steps_to(old(self)@, old(self)@.apply(ins, rnd), res, final(self)@),
    {
        proof {
            use_type_invariant(&*self);
        }
        match ins {
            Instruction::Nop => {},
            Instruction::Cls => {
                self.display = [false; 2048];
                assert(self.display@ =~= blank());
            },
            Instruction::Ret => {
                if self.sp == 0 {
                    return Err(Fault::StackUnderflow);
                }
                let target: u16 = self.pop();
                proof {
                    use_type_invariant(&*self);
                }
                self.pc = target;
            },
            Instruction::Jump { addr } => {
                self.pc = addr;
            },
            Instruction::Call { addr } => {
                if self.sp as usize >= STACK_SIZE {
                    return Err(Fault::StackOverflow);
                }
                let ret: u16 = self.pc;
                self.push(ret);
                proof {
                    use_type_invariant(&*self);
                }
                self.pc = addr;
            },
            Instruction::SkipEqByte { x, byte } => {
                let vx: u8 = self.v_reg[x as usize];
                self.skip_if(vx == byte);
            },
            Instruction::SkipNeByte { x, byte } => {
                let vx: u8 = self.v_reg[x as usize];
                self.skip_if(vx != byte);
            },
            Instruction::SkipEqReg { x, y } => {
                let vx: u8 = self.v_reg[x as usize];
                let vy: u8 = self.v_reg[y as usize];
                self.skip_if(vx == vy);
            },
            Instruction::LoadByte { x, byte } => {
                self.set_reg(x, byte);
            },
            Instruction::AddByte { x, byte } => {
                let vx: u8 = self.v_reg[x as usize];
                self.set_reg(x, vx.wrapping_add(byte));
            },
            Instruction::Move { x, y } => {
                let vy: u8 = self.v_reg[y as usize];
                self.set_reg(x, vy);
            },
            Instruction::Or { x, y } => {
                let vx: u8 = self.v_reg[x as usize];
                let vy: u8 = self.v_reg[y as usize];
                self.set_reg(x, vx | vy);
            },
            Instruction::And { x, y } => {
                let vx: u8 = self.v_reg[x as usize];
                let vy: u8 = self.v_reg[y as usize];
                self.set_reg(x, vx & vy);
            },
            Instruction::Xor { x, y } => {
                let vx: u8 = self.v_reg[x as usize];
                let vy: u8 = self.v_reg[y as usize];
                self.set_reg(x, vx ^ vy);
            },
            Instruction::Add { x, y } => {
                let vx: u8 = self.v_reg[x as usize];
                let vy: u8 = self.v_reg[y as usize];
                let carry: bool = vx as u16 + vy as u16 > 255;
                self.set_reg_flag(x, vx.wrapping_add(vy), carry);
            },
            Instruction::Sub { x, y } => {
                let vx: u8 = self.v_reg[x as usize];
                let vy: u8 = self.v_reg[y as usize];
                self.set_reg_flag(x, vx.wrapping_sub(vy), vx >= vy);
            },
            Instruction::ShiftRight { x } => {
                let vx: u8 = self.v_reg[x as usize];
                let lsb: u8 = vx & 1;
                let half: u8 = vx >> 1;
                assert(lsb == vx % 2 && half == vx / 2) by (bit_vector)
                    requires
                        lsb == vx & 1,
                        half == vx >> 1,
                ;
                self.set_reg_flag(x, half, lsb == 1);
            },
            Instruction::SubFrom { x, y } => {
                let vx: u8 = self.v_reg[x as usize];
                let vy: u8 = self.v_reg[y as usize];
                self.set_reg_flag(x, vy.wrapping_sub(vx), vy >= vx);
            },
            Instruction::ShiftLeft { x } => {
                let vx: u8 = self.v_reg[x as usize];
                let msb: u8 = (vx >> 7) & 1;
                let double: u8 = vx << 1;
                assert((msb == 1) == (vx >= 128) && double == (vx * 2) % 256) by (bit_vector)
                    requires
                        msb == (vx >> 7) & 1,
                        double == vx << 1,
                ;
                self.set_reg_flag(x, double, msb == 1);
            },
            Instruction::SkipNeReg { x, y } => {
                let vx: u8 = self.v_reg[x as usize];
                let vy: u8 = self.v_reg[y as usize];
                self.skip_if(vx != vy);
            },
            Instruction::LoadIndex { addr } => {
                self.i_reg = addr;
            },
            Instruction::JumpOffset { addr } => {
                self.pc = addr + self.v_reg[0] as u16;
            },
            Instruction::Random { x, byte } => {
                self.set_reg(x, rnd & byte);
            },
            Instruction::Draw { x, y, rows } => {
                return self.draw(x, y, rows);
            },
            Instruction::SkipKeyDown { x } => {
                let key: usize = self.v_reg[x as usize] as usize;
                if key >= NUM_KEYS {
                    return Err(Fault::KeyOutOfRange);
                }
                let pressed: bool = self.keys[key];
                self.skip_if(pressed);
            },
            Instruction::SkipKeyUp { x } => {
                let key: usize = self.v_reg[x as usize] as usize;
                if key >= NUM_KEYS {
                    return Err(Fault::KeyOutOfRange);
                }
                let pressed: bool = self.keys[key];
                self.skip_if(!pressed);
            },
            Instruction::ReadDelay { x } => {
                let delay: u8 = self.delay_timer;
                self.set_reg(x, delay);
            },
            Instruction::WaitKey { x } => {
                self.wait_key(x);
            },
            Instruction::SetDelay { x } => {
                self.delay_timer = self.v_reg[x as usize];
            },
            Instruction::SetSound { x } => {
                self.sound_timer = self.v_reg[x as usize];
            },
            Instruction::AddIndex { x } => {
                self.i_reg = self.i_reg.wrapping_add(self.v_reg[x as usize] as u16);
            },
            Instruction::LoadGlyph { x } => {
                self.i_reg = GLYPH_ROWS * (self.v_reg[x as usize] as u16);
            },
            Instruction::StoreDigits { x } => {
                return self.store_digits(x);
            },
            Instruction::StoreRegs { x } => {
                return self.store_regs(x);
            },
            Instruction::LoadRegs { x } => {
                return self.load_regs(x);
            },
        }
        Ok(())
    }

    /// Whether the instruction at the program counter consumes a random
    /// byte.
    pub fn wants_random(&self) -> (wants: bool)
        ensures
            wants == self@.wants_random(),
    {
        proof {
            use_type_invariant(self);
        }
        if self.pc as usize + 1 >= MEMORY_SIZE {
            return false;
        }
        let high_byte: u8 = self.memory[self.pc as usize];
        let top: u8 = high_byte >> 4;
        assert(top == high_byte / 16) by (bit_vector)
            requires
                top == high_byte >> 4,
        ;
        top == 0xC
    }

    /// Runs one fetch-decode-execute cycle, with `rnd` as the random byte
    /// for the one instruction that uses one. On a fault nothing changes:
    /// the program counter stays at the instruction that raised it.
    pub fn step(&mut self, rnd: u8) -> (res: Result<(), Fault>)
        ensures
            steps_to(old(self)@, old(self)@.step(rnd), res, final(self)@),
            final(self)@.wf(),
    {
        proof {
            use_type_invariant(&*self);
        }
        let start: u16 = self.pc;
        let op: u16 = match self.fetch() {
            Ok(op) => op,
            Err(fault) => {
                return Err(fault);
            },
        };
        let ins: Instruction = match decode(op) {
            Some(ins) => ins,
            None => {
                proof {
                    use_type_invariant(&*self);
                }
                self.pc = start;
                return Err(Fault::UnimplementedOpcode(op));
            },
        };
        match self.execute(ins, rnd) {
            Ok(()) => {
                proof {
                    use_type_invariant(&*self);
                }
                Ok(())
            },
            Err(fault) => {
                proof {
                    use_type_invariant(&*self);
                }
                self.pc = start;
                Err(fault)
            },
        }
    }

    /// Runs one fetch-decode-execute cycle. The random byte, where the
    /// instruction uses one, is drawn here; every other instruction has
    /// the effect `step` gives whatever byte it is handed.
    pub fn tick(&mut self) -> (res: Result<(), Fault>)
        ensures
            exists|rnd: u8| #[trigger]
                steps_to(old(self)@, old(self)@.step(rnd), res, final(self)@),
            !old(self)@.wants_random() ==> steps_to(
                old(self)@,
                old(self)@.step(0),
                res,
                final(self)@,
            ),
            final(self)@.wf(),
    {
        let rnd: u8 = if self.wants_random() {
            random_byte()
        } else {
            0
        };
        self.step(rnd)
    }

    /// The program counter.
    pub fn pc(&self) -> (pc: u16)
        ensures
            pc == self@.pc,
    {
        self.pc
    }

    /// The index register.
    pub fn index(&self) -> (i: u16)
        ensures
            i == self@.i,
    {
        self.i_reg
    }

    /// The registers `V0` to `VF`.
    pub fn registers(&self) -> (v: [u8; 16])
        ensures
            v@ == self@.v,
    {
        self.v_reg
    }

    /// A snapshot of memory.
    pub fn memory(&self) -> (bytes: [u8; 4096])
        ensures
            bytes@ == self@.memory,
    {
        self.memory
    }

    /// The delay timer.
    pub fn delay_timer(&self) -> (t: u8)
        ensures
            t == self@.delay,
    {
        self.delay_timer
    }

    /// The sound timer.
    pub fn sound_timer(&self) -> (t: u8)
        ensures
            t == self@.sound,
    {
        self.sound_timer
    }

    /// The number of calls in progress.
    pub fn stack_depth(&self) -> (depth: usize)
        ensures
            depth == self@.stack.len(),
    {
        proof {
            use_type_invariant(self);
        }
        self.sp as usize
    }
}

} // verus!
