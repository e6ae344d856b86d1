//! The decoder/executor: the semantics of every 16-bit instruction word as
//! one transition predicate over machine states, and the executable
//! decode-execute function proved against it.
use crate::chip8::{
    draw_hits, eq_addr, eq_chip, eq_display, eq_flow, eq_mem, eq_regs, eq_timers, Chip8,
};
use rand::Rng;
use std::io::Write;
use vstd::prelude::*;

verus! {

/// The signal an executed instruction hands back to the execution loop:
/// go on, halt, anchor a timer, block for a key, or skip on the state of a
/// key.
#[derive(Copy, Clone, PartialEq, Eq, Structural, Debug)]
pub enum InstructionResult {
    /// The machine detected a jump to the jump's own address and the run
    /// should end.
    BreakLoop,
    /// The delay timer was just set; the loop must re-anchor its decay clock.
    StartDelayTimer,
    /// The sound timer was just set; the loop must re-anchor its decay clock
    /// and start the tone if the timer is non-zero.
    StartSoundTimer,
    /// Skip the next instruction if the named logical key is pressed.
    SkipIfPressed(u8),
    /// Skip the next instruction if the named logical key is not pressed.
    SkipIfNotPressed(u8),
    /// Block until a key is pressed and store its index in the named
    /// register.
    WaitForKey(u8),
    /// A normal instruction; the loop proceeds.
    Continue,
}

/// A fatal condition met while executing: subroutine nesting beyond the
/// 16-entry stack, a return with an empty stack, or a memory access through
/// the address register outside the 4096-byte space.
#[derive(Copy, Clone, PartialEq, Eq, Structural, Debug)]
pub enum ExecutionError {
    StackOverflow,
    StackUnderflow,
    MemoryOutOfRange,
}

/// The opcode family: the top nibble of the instruction word.
pub open spec fn fam(i: u16) -> u16 {
    i / 0x1000
}

/// The x operand: the second nibble, a register index.
pub open spec fn x_of(i: u16) -> int {
    ((i / 0x100) % 0x10) as int
}

/// The y operand: the third nibble, a register index.
pub open spec fn y_of(i: u16) -> int {
    ((i / 0x10) % 0x10) as int
}

/// The kk operand: the low byte.
pub open spec fn kk_of(i: u16) -> u8 {
    (i % 0x100) as u8
}

/// The nnn operand: the low twelve bits, an address.
pub open spec fn nnn_of(i: u16) -> u16 {
    i % 0x1000
}

/// The n operand: the low nibble.
pub open spec fn n_of(i: u16) -> u16 {
    i % 0x10
}

/// Addition of two bytes, wrapping on 8-bit overflow.
pub open spec fn wrap_add8(a: u8, b: u8) -> u8 {
    if a + b > 255 {
        (a + b - 256) as u8
    } else {
        (a + b) as u8
    }
}

/// Subtraction of two bytes, wrapping on 8-bit underflow.
pub open spec fn wrap_sub8(a: u8, b: u8) -> u8 {
    if a - b < 0 {
        (a - b + 256) as u8
    } else {
        (a - b) as u8
    }
}

/// The register file after an arithmetic/logic instruction of the 8xyd
/// family, written as the same sequence of register writes the machine
/// performs: where a flag is produced, the flag register is written first
/// and the result register afterwards reads through that write, except for
/// addition, whose result is stored before the carry flag.
pub open spec fn alu_regs(regs: Seq<u8>, x: int, y: int, d: u16) -> Seq<u8> {
    if d == 0 {
        regs.update(x, regs[y])
    } else if d == 1 {
        regs.update(x, regs[x] | regs[y])
    } else if d == 2 {
        regs.update(x, regs[x] & regs[y])
    } else if d == 3 {
        regs.update(x, regs[x] ^ regs[y])
    } else if d == 4 {
        let s = regs.update(x, wrap_add8(regs[x], regs[y]));
        s.update(
            15,
            if regs[x] + regs[y] > 255 {
                1u8
            } else {
                0u8
            },
        )
    } else if d == 5 {
        let s = regs.update(
            15,
            if regs[x] > regs[y] {
                1u8
            } else {
                0u8
            },
        );
        s.update(x, wrap_sub8(s[x], s[y]))
    } else if d == 6 {
        let s = regs.update(15, (regs[x] % 2) as u8);
        s.update(x, (s[x] / 2) as u8)
    } else if d == 7 {
        let s = regs.update(
            15,
            if regs[y] > regs[x] {
                1u8
            } else {
                0u8
            },
        );
        s.update(x, wrap_sub8(s[y], s[x]))
    } else if d == 0xE {
        let s = regs.update(15, (regs[x] / 128) as u8);
        s.update(x, wrap_add8(s[x], s[x]))
    } else {
        regs
    }
}

/// Everything but the register file is unchanged.
pub open spec fn only_regs(pre: Chip8, post: Chip8) -> bool {
    &&& eq_mem(pre, post)
    &&& eq_addr(pre, post)
    &&& eq_timers(pre, post)
    &&& eq_flow(pre, post)
    &&& eq_display(pre, post)
}

/// Everything but the program counter is unchanged.
pub open spec fn only_pc(pre: Chip8, post: Chip8) -> bool {
    &&& eq_mem(pre, post)
    &&& eq_regs(pre, post)
    &&& eq_addr(pre, post)
    &&& eq_timers(pre, post)
    &&& post.SP == pre.SP
    &&& post.stack == pre.stack
    &&& eq_display(pre, post)
}

/// The transition a single instruction word makes, relating the machine
/// state before (`pre`, with the program counter already advanced past the
/// word) to the state after (`post`), the signal or error returned (`r`),
/// and, for the random-byte instruction alone, the byte `rnd` the host's
/// random source produced. An unrecognized word is a no-op and the machine
/// continues.
pub open spec fn step_spec(
    pre: Chip8,
    post: Chip8,
    i: u16,
    rnd: u8,
    r: Result<InstructionResult, ExecutionError>,
) -> bool {
    let f = fam(i);
    let x = x_of(i);
    let y = y_of(i);
    let kk = kk_of(i);
    let nnn = nnn_of(i);
    let n = n_of(i);
    let regs = pre.Vx@;
    if f == 0 {
        if i == 0x00E0 {
            // clear the framebuffer
            &&& r == Ok::<InstructionResult, ExecutionError>(InstructionResult::Continue)
            &&& eq_mem(pre, post)
            &&& eq_regs(pre, post)
            &&& eq_addr(pre, post)
            &&& eq_timers(pre, post)
            &&& eq_flow(pre, post)
            &&& post.display.wf()
            &&& forall|row: int, col: int|
                0 <= row < 32 && 0 <= col < 64 ==> !post.display.on_at(row, col)
        } else if i == 0x00EE {
            // return from a subroutine
            if pre.SP == 0 {
                r == Err::<InstructionResult, ExecutionError>(ExecutionError::StackUnderflow)
                    && eq_chip(pre, post)
            } else {
                &&& r == Ok::<InstructionResult, ExecutionError>(InstructionResult::Continue)
                &&& post.PC == pre.stack@[pre.SP as int]
                &&& post.SP == pre.SP - 1
                &&& post.stack == pre.stack
                &&& eq_mem(pre, post)
                &&& eq_regs(pre, post)
                &&& eq_addr(pre, post)
                &&& eq_timers(pre, post)
                &&& eq_display(pre, post)
            }
        } else {
            // unrecognized: no-op
            r == Ok::<InstructionResult, ExecutionError>(InstructionResult::Continue) && eq_chip(
                pre,
                post,
            )
        }
    } else if f == 1 {
        // jump; a jump to its own address halts the run
        if nnn == pre.PC - 2 {
            r == Ok::<InstructionResult, ExecutionError>(InstructionResult::BreakLoop) && eq_chip(
                pre,
                post,
            )
        } else {
            r == Ok::<InstructionResult, ExecutionError>(InstructionResult::Continue) && only_pc(
                pre,
                post,
            ) && post.PC == nnn
        }
    } else if f == 2 {
        // call a subroutine
        if pre.SP >= 15 {
            r == Err::<InstructionResult, ExecutionError>(ExecutionError::StackOverflow)
                && eq_chip(pre, post)
        } else {
            &&& r == Ok::<InstructionResult, ExecutionError>(InstructionResult::Continue)
            &&& post.SP == pre.SP + 1
            &&& post.stack@ == pre.stack@.update(pre.SP + 1, pre.PC)
            &&& post.PC == nnn
            &&& eq_mem(pre, post)
            &&& eq_regs(pre, post)
            &&& eq_addr(pre, post)
            &&& eq_timers(pre, post)
            &&& eq_display(pre, post)
        }
    } else if f == 3 {
        // skip the next instruction if Vx equals kk
        r == Ok::<InstructionResult, ExecutionError>(InstructionResult::Continue) && only_pc(
            pre,
            post,
        ) && post.PC == (if regs[x] == kk {
            pre.PC + 2
        } else {
            pre.PC as int
        })
    } else if f == 4 {
        // skip the next instruction if Vx differs from kk
        r == Ok::<InstructionResult, ExecutionError>(InstructionResult::Continue) && only_pc(
            pre,
            post,
        ) && post.PC == (if regs[x] != kk {
            pre.PC + 2
        } else {
            pre.PC as int
        })
    } else if f == 5 {
        // skip the next instruction if Vx equals Vy
        r == Ok::<InstructionResult, ExecutionError>(InstructionResult::Continue) && only_pc(
            pre,
            post,
        ) && post.PC == (if regs[x] == regs[y] {
            pre.PC + 2
        } else {
            pre.PC as int
        })
    } else if f == 6 {
        // load kk into Vx
        r == Ok::<InstructionResult, ExecutionError>(InstructionResult::Continue) && only_regs(
            pre,
            post,
        ) && post.Vx@ == regs.update(x, kk)
    } else if f == 7 {
        // add kk to Vx, wrapping, no flag
        r == Ok::<InstructionResult, ExecutionError>(InstructionResult::Continue) && only_regs(
            pre,
            post,
        ) && post.Vx@ == regs.update(x, wrap_add8(regs[x], kk))
    } else if f == 8 {
        // register-to-register arithmetic and logic
        r == Ok::<InstructionResult, ExecutionError>(InstructionResult::Continue) && only_regs(
            pre,
            post,
        ) && post.Vx@ == alu_regs(regs, x, y, n)
    } else if f == 9 {
        // skip the next instruction if Vx differs from Vy
        r == Ok::<InstructionResult, ExecutionError>(InstructionResult::Continue) && only_pc(
            pre,
            post,
        ) && post.PC == (if regs[x] != regs[y] {
            pre.PC + 2
        } else {
            pre.PC as int
        })
    } else if f == 0xA {
        // load nnn into the address register
        &&& r == Ok::<InstructionResult, ExecutionError>(InstructionResult::Continue)
        &&& post.I == nnn
        &&& eq_mem(pre, post)
        &&& eq_regs(pre, post)
        &&& eq_timers(pre, post)
        &&& eq_flow(pre, post)
        &&& eq_display(pre, post)
    } else if f == 0xB {
        // jump to nnn plus V0
        r == Ok::<InstructionResult, ExecutionError>(InstructionResult::Continue) && only_pc(
            pre,
            post,
        ) && post.PC == nnn + regs[0]
    } else if f == 0xC {
        // load a random byte masked by kk into Vx
        r == Ok::<InstructionResult, ExecutionError>(InstructionResult::Continue) && only_regs(
            pre,
            post,
        ) && post.Vx@ == regs.update(x, rnd & kk)
    } else if f == 0xD {
        // draw the n-byte sprite at the address register to (Vx, Vy)
        if pre.I + n > 4096 {
            r == Err::<InstructionResult, ExecutionError>(ExecutionError::MemoryOutOfRange)
                && eq_chip(pre, post)
        } else {
            &&& r == Ok::<InstructionResult, ExecutionError>(InstructionResult::Continue)
            &&& eq_mem(pre, post)
            &&& eq_regs(pre, post)
            &&& eq_addr(pre, post)
            &&& eq_timers(pre, post)
            &&& eq_flow(pre, post)
            &&& post.display.wf()
            &&& forall|row: int, col: int|
                0 <= row < 32 && 0 <= col < 64 ==> post.display.on_at(row, col)
                    == (pre.display.on_at(row, col) != draw_hits(
                    pre.memory@,
                    pre.I as int,
                    regs[x] as int,
                    regs[y] as int,
                    n as int,
                    row,
                    col,
                ))
        }
    } else if f == 0xE {
        if kk == 0x9E {
            // skip if the key indexed by Vx is pressed
            r == Ok::<InstructionResult, ExecutionError>(
                InstructionResult::SkipIfPressed(regs[x]),
            ) && eq_chip(pre, post)
        } else if kk == 0xA1 {
            // skip if the key indexed by Vx is not pressed
            r == Ok::<InstructionResult, ExecutionError>(
                InstructionResult::SkipIfNotPressed(regs[x]),
            ) && eq_chip(pre, post)
        } else {
            r == Ok::<InstructionResult, ExecutionError>(InstructionResult::Continue) && eq_chip(
                pre,
                post,
            )
        }
    } else if f == 0xF {
        if kk == 0x07 {
            // read the delay timer into Vx
            r == Ok::<InstructionResult, ExecutionError>(InstructionResult::Continue) && only_regs(
                pre,
                post,
            ) && post.Vx@ == regs.update(x, pre.delay_timer)
        } else if kk == 0x0A {
            // block until a key is pressed, storing it in Vx
            r == Ok::<InstructionResult, ExecutionError>(
                InstructionResult::WaitForKey(x as u8),
            ) && eq_chip(pre, post)
        } else if kk == 0x15 {
            // start the delay timer at Vx
            &&& r == Ok::<InstructionResult, ExecutionError>(InstructionResult::StartDelayTimer)
            &&& post.delay_timer == regs[x]
            &&& post.sound_timer == pre.sound_timer
            &&& eq_mem(pre, post)
            &&& eq_regs(pre, post)
            &&& eq_addr(pre, post)
            &&& eq_flow(pre, post)
            &&& eq_display(pre, post)
        } else if kk == 0x18 {
            // start the sound timer at Vx
            &&& r == Ok::<InstructionResult, ExecutionError>(InstructionResult::StartSoundTimer)
            &&& post.sound_timer == regs[x]
            &&& post.delay_timer == pre.delay_timer
            &&& eq_mem(pre, post)
            &&& eq_regs(pre, post)
            &&& eq_addr(pre, post)
            &&& eq_flow(pre, post)
            &&& eq_display(pre, post)
        } else if kk == 0x1E {
            // add Vx to the address register, bounds-checked
            if pre.I + regs[x] > 0xFFF {
                r == Err::<InstructionResult, ExecutionError>(ExecutionError::MemoryOutOfRange)
                    && eq_chip(pre, post)
            } else {
                &&& r == Ok::<InstructionResult, ExecutionError>(InstructionResult::Continue)
                &&& post.I == pre.I + regs[x]
                &&& eq_mem(pre, post)
                &&& eq_regs(pre, post)
                &&& eq_timers(pre, post)
                &&& eq_flow(pre, post)
                &&& eq_display(pre, post)
            }
        } else if kk == 0x29 {
            // point the address register at the glyph for the value of Vx
            &&& r == Ok::<InstructionResult, ExecutionError>(InstructionResult::Continue)
            &&& post.I == 0x50 + 5 * regs[x]
            &&& eq_mem(pre, post)
            &&& eq_regs(pre, post)
            &&& eq_timers(pre, post)
            &&& eq_flow(pre, post)
            &&& eq_display(pre, post)
        } else if kk == 0x33 {
            // store the decimal digits of Vx at the address register
            if pre.I + 2 > 4095 {
                r == Err::<InstructionResult, ExecutionError>(ExecutionError::MemoryOutOfRange)
                    && eq_chip(pre, post)
            } else {
                &&& r == Ok::<InstructionResult, ExecutionError>(InstructionResult::Continue)
                &&& post.memory@ == pre.memory@.update(pre.I as int, (regs[x] / 100) as u8).update(
                    pre.I + 1,
                    ((regs[x] / 10) % 10) as u8,
                ).update(pre.I + 2, (regs[x] % 10) as u8)
                &&& eq_regs(pre, post)
                &&& eq_addr(pre, post)
                &&& eq_timers(pre, post)
                &&& eq_flow(pre, post)
                &&& eq_display(pre, post)
            }
        } else if kk == 0x55 {
            // copy V0 through Vx into memory at the address register
            if pre.I + x > 4095 {
                r == Err::<InstructionResult, ExecutionError>(ExecutionError::MemoryOutOfRange)
                    && eq_chip(pre, post)
            } else {
                &&& r == Ok::<InstructionResult, ExecutionError>(InstructionResult::Continue)
                &&& post.memory@.len() == 4096
                &&& forall|k: int|
                    0 <= k < 4096 ==> post.memory@[k] == (if pre.I <= k <= pre.I + x {
                        regs[k - pre.I]
                    } else {
                        pre.memory@[k]
                    })
                &&& eq_regs(pre, post)
                &&& eq_addr(pre, post)
                &&& eq_timers(pre, post)
                &&& eq_flow(pre, post)
                &&& eq_display(pre, post)
            }
        } else if kk == 0x65 {
            // load V0 through Vx from memory at the address register
            if pre.I + x > 4095 {
                r == Err::<InstructionResult, ExecutionError>(ExecutionError::MemoryOutOfRange)
                    && eq_chip(pre, post)
            } else {
                &&& r == Ok::<InstructionResult, ExecutionError>(InstructionResult::Continue)
                &&& post.Vx@.len() == 16
                &&& forall|j: int|
                    0 <= j < 16 ==> post.Vx@[j] == (if j <= x {
                        pre.memory@[pre.I + j]
                    } else {
                        regs[j]
                    })
                &&& eq_mem(pre, post)
                &&& eq_addr(pre, post)
                &&& eq_timers(pre, post)
                &&& eq_flow(pre, post)
                &&& eq_display(pre, post)
            }
        } else {
            r == Ok::<InstructionResult, ExecutionError>(InstructionResult::Continue) && eq_chip(
                pre,
                post,
            )
        }
    } else {
        r == Ok::<InstructionResult, ExecutionError>(InstructionResult::Continue) && eq_chip(
            pre,
            post,
        )
    }
}

/// Relies on rand's thread_rng and Rng::gen_range over the full byte range:
/// returns a uniformly random byte; nothing is promised of the value. The
/// range is never empty, so gen_range itself does not panic; a failure of
/// the host's random source is an unrecoverable process-level fault.
#[verifier::external_body]
fn random_byte() -> u8 {
    rand::thread_rng().gen_range(0..=255u8)
}

/// Relies on std::io::Stderr's Write impl: reports an unrecognized
/// instruction word and the address it sat at; the machine state is not
/// touched.
#[verifier::external_body]
fn log_invalid_instruction(pc: u16, instruction: u16) {
    let mut err = std::io::stderr();
    let _ = writeln!(err, "Invalid instruction at mem: {}, {:#06x}", pc, instruction);
}

impl Chip8 {
    /// Decodes and executes one instruction word against the machine state.
    /// The program counter has already been advanced past the word. Returns
    /// the signal the execution loop must act on, or the fatal error the
    /// word ran into; the exact transition for every word is `step_spec`.
    pub fn decode_execute_instruction(&mut self, instruction: u16) -> (r: Result<
        InstructionResult,
        ExecutionError,
    >)
        requires
            old(self).wf(),
            2 <= old(self).PC <= 4096,
        ensures
            final(self).wf(),
            final(self).PC <= 4350,
            fam(instruction) != 0xC ==> step_spec(*old(self), *final(self), instruction, 0, r),
            fam(instruction) == 0xC ==> exists|b: u8|
                step_spec(*old(self), *final(self), instruction, b, r),
    {
        let f = instruction / 0x1000;
        let x = ((instruction / 0x100) % 0x10) as usize;
        let y = ((instruction / 0x10) % 0x10) as usize;
        let kk = (instruction % 0x100) as u8;
        let nnn = instruction % 0x1000;
        let n = instruction % 0x10;
        if f == 0 {
            if instruction == 0x00E0 {
                // clear display
                self.display.clear();
                Ok(InstructionResult::Continue)
            } else if instruction == 0x00EE {
                // return from subroutine
                if self.SP == 0 {
                    return Err(ExecutionError::StackUnderflow);
                }
                self.PC = self.stack[self.SP as usize];
                self.SP = self.SP - 1;
                Ok(InstructionResult::Continue)
            } else {
                log_invalid_instruction(self.PC, instruction);
                Ok(InstructionResult::Continue)
            }
        } else if f == 1 {
            // set PC to nnn; a jump to itself ends the run
            if self.PC - 2 == nnn {
                return Ok(InstructionResult::BreakLoop);
            }
            self.PC = nnn;
            Ok(InstructionResult::Continue)
        } else if f == 2 {
            // call subroutine at nnn
            if self.SP >= 15 {
                return Err(ExecutionError::StackOverflow);
            }
            self.SP = self.SP + 1;
            let pc = self.PC;
            self.stack.set(self.SP as usize, pc);
            self.PC = nnn;
            Ok(InstructionResult::Continue)
        } else if f == 3 {
            // if Vx == kk skip instruction
            if self.Vx[x] == kk {
                self.PC = self.PC + 2;
            }
            Ok(InstructionResult::Continue)
        } else if f == 4 {
            // if Vx != kk skip instruction
            if self.Vx[x] != kk {
                self.PC = self.PC + 2;
            }
            Ok(InstructionResult::Continue)
        } else if f == 5 {
            // if Vx == Vy skip instruction
            if self.Vx[x] == self.Vx[y] {
                self.PC = self.PC + 2;
            }
            Ok(InstructionResult::Continue)
        } else if f == 6 {
            // put value kk in register Vx
            self.Vx.set(x, kk);
            Ok(InstructionResult::Continue)
        } else if f == 7 {
            // set Vx += kk, wrapping
            let a = self.Vx[x];
            self.Vx.set(x, a.wrapping_add(kk));
            Ok(InstructionResult::Continue)
        } else if f == 8 {
            if n == 0 {
                // store the val of Vy in Vx
                let b = self.Vx[y];
                self.Vx.set(x, b);
            } else if n == 1 {
                // Vx = Vx | Vy
                let a = self.Vx[x];
                let b = self.Vx[y];
                self.Vx.set(x, a | b);
            } else if n == 2 {
                // Vx = Vx & Vy
                let a = self.Vx[x];
                let b = self.Vx[y];
                self.Vx.set(x, a & b);
            } else if n == 3 {
                // Vx = Vx ^ Vy
                let a = self.Vx[x];
                let b = self.Vx[y];
                self.Vx.set(x, a ^ b);
            } else if n == 4 {
                // Vx = Vx + Vy, flag register = carry
                let a = self.Vx[x];
                let b = self.Vx[y];
                let carry: bool = (a as u16) + (b as u16) > 255;
                self.Vx.set(x, a.wrapping_add(b));
                if carry {
                    self.Vx.set(15, 1);
                } else {
                    self.Vx.set(15, 0);
                }
            } else if n == 5 {
                // flag register = (Vx > Vy); Vx = Vx - Vy, wrapping
                let a = self.Vx[x];
                let b = self.Vx[y];
                if a > b {
                    self.Vx.set(15, 1);
                } else {
                    self.Vx.set(15, 0);
                }
                let a2 = self.Vx[x];
                let b2 = self.Vx[y];
                self.Vx.set(x, a2.wrapping_sub(b2));
            } else if n == 6 {
                // flag register = low bit of Vx; Vx = Vx >> 1
                let a = self.Vx[x];
                self.Vx.set(15, a % 2);
                let a2 = self.Vx[x];
                self.Vx.set(x, a2 / 2);
            } else if n == 7 {
                // flag register = (Vy > Vx); Vx = Vy - Vx, wrapping
                let a = self.Vx[x];
                let b = self.Vx[y];
                if b > a {
                    self.Vx.set(15, 1);
                } else {
                    self.Vx.set(15, 0);
                }
                let a2 = self.Vx[x];
                let b2 = self.Vx[y];
                self.Vx.set(x, b2.wrapping_sub(a2));
            } else if n == 0xE {
                // flag register = high bit of Vx; Vx = Vx << 1, low byte kept
                let a = self.Vx[x];
                self.Vx.set(15, a / 128);
                let a2 = self.Vx[x];
                self.Vx.set(x, a2.wrapping_add(a2));
            } else {
                log_invalid_instruction(self.PC, instruction);
            }
            Ok(InstructionResult::Continue)
        } else if f == 9 {
            // skip next instruction if Vx != Vy
            if self.Vx[x] != self.Vx[y] {
                self.PC = self.PC + 2;
            }
            Ok(InstructionResult::Continue)
        } else if f == 0xA {
            // set I to nnn
            self.I = nnn;
            Ok(InstructionResult::Continue)
        } else if f == 0xB {
            // the program counter is set to nnn plus the value of V0
            self.PC = nnn + self.Vx[0] as u16;
            Ok(InstructionResult::Continue)
        } else if f == 0xC {
            // set Vx = random byte AND kk
            let b = random_byte();
            self.Vx.set(x, b & kk);
            proof {
                assert(step_spec(
                    *old(self),
                    *self,
                    instruction,
                    b,
                    Ok(InstructionResult::Continue),
                ));
            }
            Ok(InstructionResult::Continue)
        } else if f == 0xD {
            // display the n-byte sprite at location I to (Vx, Vy)
            if self.I as usize + n as usize > 4096 {
                return Err(ExecutionError::MemoryOutOfRange);
            }
            let sprite_loc = self.I as usize;
            let cx = self.Vx[x] as usize;
            let cy = self.Vx[y] as usize;
            self.draw_sprite_in_mem_to_x_y(sprite_loc, cx, cy, n as usize);
            Ok(InstructionResult::Continue)
        } else if f == 0xE {
            if kk == 0x9E {
                // skip next instruction if key with value Vx is pressed
                Ok(InstructionResult::SkipIfPressed(self.Vx[x]))
            } else if kk == 0xA1 {
                // skip next instruction if key with value Vx is not pressed
                Ok(InstructionResult::SkipIfNotPressed(self.Vx[x]))
            } else {
                log_invalid_instruction(self.PC, instruction);
                Ok(InstructionResult::Continue)
            }
        } else if f == 0xF {
            if kk == 0x07 {
                // set Vx = delay timer
                let dt = self.delay_timer;
                self.Vx.set(x, dt);
                Ok(InstructionResult::Continue)
            } else if kk == 0x0A {
                // wait for a key press; its value will be stored in Vx
                Ok(InstructionResult::WaitForKey(x as u8))
            } else if kk == 0x15 {
                // set the delay timer to Vx
                self.delay_timer = self.Vx[x];
                Ok(InstructionResult::StartDelayTimer)
            } else if kk == 0x18 {
                // set the sound timer to Vx
                self.sound_timer = self.Vx[x];
                Ok(InstructionResult::StartSoundTimer)
            } else if kk == 0x1E {
                // set I += Vx, bounds-checked
                let vx = self.Vx[x] as u16;
                if self.I + vx > 0xFFF {
                    return Err(ExecutionError::MemoryOutOfRange);
                }
                self.I = self.I + vx;
                Ok(InstructionResult::Continue)
            } else if kk == 0x29 {
                // I = location of the glyph sprite for the value of Vx
                self.I = 0x50 + 5 * (self.Vx[x] as u16);
                Ok(InstructionResult::Continue)
            } else if kk == 0x33 {
                // store the BCD digits of Vx at I, I+1, I+2
                if self.I > 4093 {
                    return Err(ExecutionError::MemoryOutOfRange);
                }
                let num = self.Vx[x];
                let base = self.I as usize;
                self.memory.set(base, num / 100);
                self.memory.set(base + 1, (num / 10) % 10);
                self.memory.set(base + 2, num % 10);
                Ok(InstructionResult::Continue)
            } else if kk == 0x55 {
                // store registers V0 through Vx in memory starting at I
                if self.I as usize + x > 4095 {
                    return Err(ExecutionError::MemoryOutOfRange);
                }
                let base = self.I as usize;
                let mut j: usize = 0;
                while j < x + 1
                    invariant
                        old(self).wf(),
                        self.wf(),
                        j <= x + 1,
                        x < 16,
                        base == old(self).I,
                        base + x <= 4095,
                        forall|k: int|
                            0 <= k < 4096 ==> self.memory@[k] == (if base <= k < base + j {
                                old(self).Vx@[k - base]
                            } else {
                                old(self).memory@[k]
                            }),
                        eq_regs(*old(self), *self),
                        eq_addr(*old(self), *self),
                        eq_timers(*old(self), *self),
                        eq_flow(*old(self), *self),
                        eq_display(*old(self), *self),
                    decreases x + 1 - j,
                {
                    let v = self.Vx[j];
                    self.memory.set(base + j, v);
                    j += 1;
                }
                Ok(InstructionResult::Continue)
            } else if kk == 0x65 {
                // read registers V0 through Vx from memory starting at I
                if self.I as usize + x > 4095 {
                    return Err(ExecutionError::MemoryOutOfRange);
                }
                let base = self.I as usize;
                let mut j: usize = 0;
                while j < x + 1
                    invariant
                        old(self).wf(),
                        self.wf(),
                        j <= x + 1,
                        x < 16,
                        base == old(self).I,
                        base + x <= 4095,
                        forall|t: int|
                            0 <= t < 16 ==> self.Vx@[t] == (if t < j {
                                old(self).memory@[base + t]
                            } else {
                                old(self).Vx@[t]
                            }),
                        eq_mem(*old(self), *self),
                        eq_addr(*old(self), *self),
                        eq_timers(*old(self), *self),
                        eq_flow(*old(self), *self),
                        eq_display(*old(self), *self),
                    decreases x + 1 - j,
                {
                    let b = self.memory[base + j];
                    self.Vx.set(j, b);
                    j += 1;
                }
                Ok(InstructionResult::Continue)
            } else {
                log_invalid_instruction(self.PC, instruction);
                Ok(InstructionResult::Continue)
            }
        } else {
            log_invalid_instruction(self.PC, instruction);
            Ok(InstructionResult::Continue)
        }
    }
}

} // verus!
