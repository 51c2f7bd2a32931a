//! The mathematical model of the machine and the meaning of every
//! instruction over it.

use crate::display::{blank, draw_collides, draw_pixels};
use crate::error::Fault;
use crate::font::font_bytes;
use crate::instruction::{decode_spec, Instruction};
use crate::keypad::{any_key, lowest_key};
use crate::memory::overlay;
use vstd::prelude::*;

verus! {

/// Number of return addresses the call stack holds.
pub const STACK_SIZE: usize = 16;

/// Highest value the program counter takes: the farthest target of a jump
/// with offset, `0xFFF + 0xFF`.
pub const MAX_PC: u16 = 0x10FE;

/// The whole state of a machine as plain mathematical values.
#[verifier::ext_equal]
pub struct Machine {
    /// The 4096 bytes of memory.
    pub memory: Seq<u8>,
    /// The registers `V0` to `VF`.
    pub v: Seq<u8>,
    /// The index register.
    pub i: u16,
    /// The program counter.
    pub pc: u16,
    /// The return addresses of the calls in progress, oldest first.
    pub stack: Seq<u16>,
    /// The delay timer.
    pub delay: u8,
    /// The sound timer.
    pub sound: u8,
    /// The 64 by 32 pixels, row by row.
    pub display: Seq<bool>,
    /// Which of the sixteen keys are down.
    pub keys: Seq<bool>,
}

/// The flag value stored in `VF`.
pub open spec fn flag(b: bool) -> u8 {
    if b {
        1
    } else {
        0
    }
}

/// Whether a call that was to compute `expected` from `before` did so: on
/// success the machine is the new state, on a fault it is unchanged and
/// the fault is reported.
pub open spec fn steps_to(
    before: Machine,
    expected: Result<Machine, Fault>,
    res: Result<(), Fault>,
    after: Machine,
) -> bool {
    match expected {
        Ok(next) => res is Ok && after == next,
        Err(fault) => res == Err::<(), Fault>(fault) && after == before,
    }
}

impl Machine {
    /// Every part has its fixed size, at most sixteen calls are in
    /// progress, and the program counter and the return addresses are
    /// within the bounds that running instructions keeps them in.
    pub open spec fn wf(self) -> bool {
        &&& self.memory.len() == 4096
        &&& self.v.len() == 16
        &&& self.stack.len() <= 16
        &&& self.display.len() == 2048
        &&& self.keys.len() == 16
        &&& self.pc <= MAX_PC
        &&& forall|k: int| 0 <= k < self.stack.len() ==> #[trigger] self.stack[k] <= 4096
    }

    /// The machine after power-on: the font at address 0, the program
    /// counter at the program start, everything else zero.
    pub open spec fn initial() -> Machine {
        Machine {
            memory: overlay(Seq::new(4096, |a: int| 0u8), 0, font_bytes()),
            v: Seq::new(16, |k: int| 0u8),
            i: 0,
            pc: 0x200,
            stack: Seq::empty(),
            delay: 0,
            sound: 0,
            display: blank(),
            keys: Seq::new(16, |k: int| false),
        }
    }

    /// The machine with `program` copied to `PROGRAM_START` onwards.
    pub open spec fn with_program(self, program: Seq<u8>) -> Machine {
        Machine { memory: overlay(self.memory, 0x200, program), ..self }
    }

    /// The machine with the keypad replaced.
    pub open spec fn with_keys(self, keys: Seq<bool>) -> Machine {
        Machine { keys, ..self }
    }

    /// The machine after one timer tick: each timer that is not zero
    /// counts down by one.
    pub open spec fn after_timer_tick(self) -> Machine {
        Machine {
            delay: if self.delay > 0 {
                (self.delay - 1) as u8
            } else {
                0
            },
            sound: if self.sound > 0 {
                (self.sound - 1) as u8
            } else {
                0
            },
            ..self
        }
    }

    /// Whether the next timer tick takes the sound timer from 1 to 0, the
    /// moment at which the tone is played.
    pub open spec fn tone_due(self) -> bool {
        self.sound == 1
    }

    /// The opcode at the program counter, high byte first, or `None` where
    /// the program counter leaves less than two bytes before the end of
    /// memory.
    pub open spec fn opcode(self) -> Option<u16> {
        if self.pc + 1 < 4096 {
            Some((self.memory[self.pc as int] * 256 + self.memory[self.pc + 1]) as u16)
        } else {
            None
        }
    }

    /// The sprite of `rows` rows that the index register points at.
    pub open spec fn sprite(self, rows: u8) -> Seq<u8> {
        Seq::new(rows as nat, |r: int| self.memory[self.i + r])
    }

    /// The registers `V0` to `Vx`.
    pub open spec fn low_regs(self, x: u8) -> Seq<u8> {
        self.v.take(x + 1)
    }

    /// The `x + 1` bytes of memory that the index register points at.
    pub open spec fn block(self, x: u8) -> Seq<u8> {
        self.memory.subrange(self.i as int, self.i + x + 1)
    }

    /// The machine with the program counter moved past one instruction.
    pub open spec fn advanced(self) -> Machine {
        Machine { pc: (self.pc + 2) as u16, ..self }
    }

    /// The machine with the program counter moved back over one instruction.
    pub open spec fn rewound(self) -> Machine {
        Machine { pc: (self.pc - 2) as u16, ..self }
    }

    /// Skips the next instruction if `cond` holds.
    pub open spec fn skip_if(self, cond: bool) -> Machine {
        if cond {
            self.advanced()
        } else {
            self
        }
    }

    /// The machine with `Vx` set to `value`.
    pub open spec fn set_v(self, x: u8, value: u8) -> Machine {
        Machine { v: self.v.update(x as int, value), ..self }
    }

    /// The machine with `Vx` set to `value` and then `VF` to the flag: where
    /// `x` is `0xF`, the flag is what remains.
    pub open spec fn set_v_flag(self, x: u8, value: u8, f: bool) -> Machine {
        Machine { v: self.v.update(x as int, value).update(0xF, flag(f)), ..self }
    }

    /// The effect of one decoded instruction on a machine whose program
    /// counter already points past it. `rnd` is the random byte that
    /// `Random` consumes. A fault leaves the machine as it was.
    pub open spec fn apply(self, ins: Instruction, rnd: u8) -> Result<Machine, Fault> {
        let v = self.v;
        match ins {
            Instruction::Nop => Ok(self),
            Instruction::Cls => Ok(Machine { display: blank(), ..self }),
            Instruction::Ret => if self.stack.len() == 0 {
                Err(Fault::StackUnderflow)
            } else {
                Ok(Machine { pc: self.stack.last(), stack: self.stack.drop_last(), ..self })
            },
            Instruction::Jump { addr } => Ok(Machine { pc: addr, ..self }),
            Instruction::Call { addr } => if self.stack.len() >= 16 {
                Err(Fault::StackOverflow)
            } else {
                Ok(Machine { pc: addr, stack: self.stack.push(self.pc), ..self })
            },
            Instruction::SkipEqByte { x, byte } => Ok(self.skip_if(v[x as int] == byte)),
            Instruction::SkipNeByte { x, byte } => Ok(self.skip_if(v[x as int] != byte)),
            Instruction::SkipEqReg { x, y } => Ok(self.skip_if(v[x as int] == v[y as int])),
            Instruction::LoadByte { x, byte } => Ok(self.set_v(x, byte)),
            Instruction::AddByte { x, byte } => Ok(
                self.set_v(x, ((v[x as int] + byte) % 256) as u8),
            ),
            Instruction::Move { x, y } => Ok(self.set_v(x, v[y as int])),
            Instruction::Or { x, y } => Ok(self.set_v(x, v[x as int] | v[y as int])),
            Instruction::And { x, y } => Ok(self.set_v(x, v[x as int] & v[y as int])),
            Instruction::Xor { x, y } => Ok(self.set_v(x, v[x as int] ^ v[y as int])),
            Instruction::Add { x, y } => Ok(
                self.set_v_flag(
                    x,
                    ((v[x as int] + v[y as int]) % 256) as u8,
                    v[x as int] + v[y as int] > 255,
                ),
            ),
            Instruction::Sub { x, y } => Ok(
                self.set_v_flag(
                    x,
                    ((v[x as int] - v[y as int]) % 256) as u8,
                    v[x as int] >= v[y as int],
                ),
            ),
            Instruction::ShiftRight { x } => Ok(
                self.set_v_flag(x, v[x as int] / 2, v[x as int] % 2 == 1),
            ),
            Instruction::SubFrom { x, y } => Ok(
                self.set_v_flag(
                    x,
                    ((v[y as int] - v[x as int]) % 256) as u8,
                    v[y as int] >= v[x as int],
                ),
            ),
            Instruction::ShiftLeft { x } => Ok(
                self.set_v_flag(x, ((v[x as int] * 2) % 256) as u8, v[x as int] >= 128),
            ),
            Instruction::SkipNeReg { x, y } => Ok(self.skip_if(v[x as int] != v[y as int])),
            Instruction::LoadIndex { addr } => Ok(Machine { i: addr, ..self }),
            Instruction::JumpOffset { addr } => Ok(Machine { pc: (addr + v[0]) as u16, ..self }),
            Instruction::Random { x, byte } => Ok(self.set_v(x, rnd & byte)),
            Instruction::Draw { x, y, rows } => if rows > 0 && self.i + rows > 4096 {
                Err(Fault::AddressOutOfRange)
            } else {
                let sprite = self.sprite(rows);
                let vx = v[x as int] as int;
                let vy = v[y as int] as int;
                Ok(
                    Machine {
                        display: draw_pixels(self.display, sprite, vx, vy),
                        v: v.update(0xF, flag(draw_collides(self.display, sprite, vx, vy))),
                        ..self
                    },
                )
            },
            Instruction::SkipKeyDown { x } => if v[x as int] >= 16 {
                Err(Fault::KeyOutOfRange)
            } else {
                Ok(self.skip_if(self.keys[v[x as int] as int]))
            },
            Instruction::SkipKeyUp { x } => if v[x as int] >= 16 {
                Err(Fault::KeyOutOfRange)
            } else {
                Ok(self.skip_if(!self.keys[v[x as int] as int]))
            },
            Instruction::ReadDelay { x } => Ok(self.set_v(x, self.delay)),
            Instruction::WaitKey { x } => if any_key(self.keys) {
                Ok(self.set_v(x, lowest_key(self.keys) as u8))
            } else {
                Ok(self.rewound())
            },
            Instruction::SetDelay { x } => Ok(Machine { delay: v[x as int], ..self }),
            Instruction::SetSound { x } => Ok(Machine { sound: v[x as int], ..self }),
            Instruction::AddIndex { x } => Ok(
                Machine { i: ((self.i + v[x as int]) % 65536) as u16, ..self },
            ),
            Instruction::LoadGlyph { x } => Ok(Machine { i: (5 * v[x as int]) as u16, ..self }),
            Instruction::StoreDigits { x } => if self.i + 2 >= 4096 {
                Err(Fault::AddressOutOfRange)
            } else {
                let n = v[x as int];
                Ok(
                    Machine {
                        memory: self.memory.update(self.i as int, n / 100).update(
                            self.i + 1,
                            (n / 10) % 10,
                        ).update(self.i + 2, n % 10),
                        ..self
                    },
                )
            },
            Instruction::StoreRegs { x } => if self.i + x >= 4096 {
                Err(Fault::AddressOutOfRange)
            } else {
                Ok(Machine { memory: overlay(self.memory, self.i as int, self.low_regs(x)), ..self })
            },
            Instruction::LoadRegs { x } => if self.i + x >= 4096 {
                Err(Fault::AddressOutOfRange)
            } else {
                Ok(Machine { v: overlay(v, 0, self.block(x)), ..self })
            },
        }
    }

    /// One fetch-decode-execute cycle. A fault leaves the machine as it
    /// was, with the program counter at the instruction that raised it.
    pub open spec fn step(self, rnd: u8) -> Result<Machine, Fault> {
        match self.opcode() {
            None => Err(Fault::FetchError),
            Some(op) => match decode_spec(op) {
                None => Err(Fault::UnimplementedOpcode(op)),
                Some(ins) => self.advanced().apply(ins, rnd),
            },
        }
    }

    /// Whether the next instruction consumes a random byte.
    pub open spec fn wants_random(self) -> bool {
        self.opcode() matches Some(op) && decode_spec(op) matches Some(Instruction::Random { .. })
    }
}

} // verus!
