//! The execution loop as a state machine: one `cycle` drives
//! fetch-decode-execute, acts on the returned signal, and updates both
//! timers from the host's clock. The host performs the effects the cycle
//! asks for (render, tone on, tone off) and hands in the next cycle's
//! inputs (clock, keypad state, key events, exit requests).
use crate::chip8::{eq_addr, eq_display, eq_mem, eq_regs, Chip8};
use crate::instruction::{fam, step_spec, ExecutionError, InstructionResult};
use vstd::arithmetic::div_mod::lemma_div_is_ordered;
use vstd::prelude::*;

verus! {

/// The mode of the execution loop: free running, blocked on a key press
/// destined for the named register, or finished.
#[derive(Copy, Clone, PartialEq, Eq, Structural, Debug)]
pub enum ExecMode {
    Running,
    AwaitingKey(u8),
    Halted,
}

/// What the host hands the loop for one cycle: the wall clock in
/// nanoseconds, the keypad state as a bitmask over the 16 logical keys, a
/// newly pressed logical key if one arrived, and whether an exit was
/// requested.
#[derive(Copy, Clone, PartialEq, Eq, Structural, Debug)]
pub struct CycleIo {
    pub now_nanos: u128,
    pub keys: u16,
    pub key_event: Option<u8>,
    pub quit: bool,
}

/// What the host must do after a cycle: present the framebuffer, start the
/// tone, stop the tone.
#[derive(Copy, Clone, PartialEq, Eq, Structural, Debug)]
pub struct CycleEffects {
    pub render: bool,
    pub start_tone: bool,
    pub stop_tone: bool,
}

/// The machine together with the loop's own state: the mode and, for each
/// timer, the clock reading of its last decrement.
pub struct Emulator {
    pub chip: Chip8,
    pub mode: ExecMode,
    pub dt_anchor: u128,
    pub st_anchor: u128,
}

/// How many 60 Hz ticks fit in `e` nanoseconds.
pub open spec fn ticks_of(e: int) -> int {
    e * 3 / 50_000_000
}

/// A non-zero timer value after `e` nanoseconds of decay: reduced by the
/// elapsed ticks, clamped at zero.
pub open spec fn decayed(v: u8, e: int) -> u8 {
    if ticks_of(e) >= v {
        0u8
    } else {
        (v - ticks_of(e)) as u8
    }
}

/// A timer value after one poll at clock `now`, given its anchor.
pub open spec fn timer_decay(v: u8, a: u128, now: u128) -> u8 {
    if v == 0 {
        0u8
    } else {
        decayed(v, now - a)
    }
}

/// A timer's anchor after one poll: it advances to `now` exactly when the
/// timer decremented without reaching zero.
pub open spec fn anchor_next(v: u8, a: u128, now: u128) -> u128 {
    if v != 0 && 0 < ticks_of(now - a) < v {
        now
    } else {
        a
    }
}

/// Whether a poll at clock `now` brings the sound timer from non-zero to
/// zero, which must stop the tone.
pub open spec fn stop_cond(v: u8, a: u128, now: u128) -> bool {
    v != 0 && decayed(v, now - a) == 0
}

/// The 16-bit word stored big-endian at `pc`.
pub open spec fn word_at(c: Chip8, pc: int) -> u16 {
    (c.memory@[pc] * 256 + c.memory@[pc + 1]) as u16
}

/// The machine with its program counter advanced past one instruction.
pub open spec fn advanced(c: Chip8) -> Chip8 {
    Chip8 { PC: (c.PC + 2) as u16, ..c }
}

/// Whether the logical key `key` is down in the keypad bitmask.
pub open spec fn key_pressed(keys: u16, key: u8) -> bool {
    key < 16 && (keys >> key) & 1 == 1
}

/// One whole instruction step: fetching the word at the program counter
/// fails if it does not lie within memory; otherwise the word executes per
/// `step_spec` from the advanced state, for some byte of randomness.
pub open spec fn step_result_spec(
    pre: Chip8,
    post: Chip8,
    r: Result<InstructionResult, ExecutionError>,
) -> bool {
    if pre.PC > 4094 {
        r == Err::<InstructionResult, ExecutionError>(ExecutionError::MemoryOutOfRange) && post
            == pre
    } else {
        exists|b: u8| step_spec(advanced(pre), post, word_at(pre, pre.PC as int), b, r)
    }
}

/// Everything an executed signal decides for the rest of its cycle: the
/// mode and program-counter skip, the timer anchors, the timer decay, and
/// the effects handed to the host. `mid` is the machine as the instruction
/// left it, `out` what the instruction returned.
pub open spec fn after_exec(
    mid: Chip8,
    out: Result<InstructionResult, ExecutionError>,
    pre: Emulator,
    post: Emulator,
    io: CycleIo,
    r: Result<CycleEffects, ExecutionError>,
) -> bool {
    let word = word_at(pre.chip, pre.chip.PC as int);
    match out {
        Err(e) => {
            // a fatal error: the run halts as the error left the machine
            &&& r == Err::<CycleEffects, ExecutionError>(e)
            &&& post.chip == mid
            &&& post.mode is Halted
            &&& post.dt_anchor == pre.dt_anchor
            &&& post.st_anchor == pre.st_anchor
        },
        Ok(sig) => {
            let pc2 = (match sig {
                InstructionResult::SkipIfPressed(key) => if key_pressed(io.keys, key) {
                    mid.PC + 2
                } else {
                    mid.PC as int
                },
                InstructionResult::SkipIfNotPressed(key) => if !key_pressed(io.keys, key) {
                    mid.PC + 2
                } else {
                    mid.PC as int
                },
                _ => mid.PC as int,
            });
            let mode2 = (match sig {
                InstructionResult::BreakLoop => ExecMode::Halted,
                InstructionResult::WaitForKey(reg) => ExecMode::AwaitingKey(reg),
                _ => ExecMode::Running,
            });
            let dt_a2 = if sig is StartDelayTimer {
                io.now_nanos
            } else {
                pre.dt_anchor
            };
            let st_a2 = if sig is StartSoundTimer {
                io.now_nanos
            } else {
                pre.st_anchor
            };
            &&& post.mode == mode2
            &&& post.chip.PC == pc2
            &&& eq_mem(mid, post.chip)
            &&& eq_regs(mid, post.chip)
            &&& eq_addr(mid, post.chip)
            &&& post.chip.SP == mid.SP
            &&& post.chip.stack == mid.stack
            &&& eq_display(mid, post.chip)
            &&& post.chip.delay_timer == timer_decay(mid.delay_timer, dt_a2, io.now_nanos)
            &&& post.dt_anchor == anchor_next(mid.delay_timer, dt_a2, io.now_nanos)
            &&& post.chip.sound_timer == timer_decay(mid.sound_timer, st_a2, io.now_nanos)
            &&& post.st_anchor == anchor_next(mid.sound_timer, st_a2, io.now_nanos)
            &&& r matches Ok(e) && e.render == (word == 0x00E0 || fam(word) == 0xD)
                && e.start_tone == (sig is StartSoundTimer && mid.sound_timer > 0) && e.stop_tone
                == stop_cond(mid.sound_timer, st_a2, io.now_nanos)
        },
    }
}

/// One cycle of the execution loop. An exit request is honored first.
/// While halted, only the timers still decay, so a driver can drain the
/// sound timer. While awaiting a key, an arriving key is stored and the
/// machine resumes; the timers decay either way. While running, the
/// instruction at the program counter executes and its signal is acted on,
/// and then the timers decay.
pub open spec fn cycle_spec(
    pre: Emulator,
    post: Emulator,
    io: CycleIo,
    r: Result<CycleEffects, ExecutionError>,
) -> bool {
    if io.quit {
        &&& post.chip == pre.chip
        &&& post.mode is Halted
        &&& post.dt_anchor == pre.dt_anchor
        &&& post.st_anchor == pre.st_anchor
        &&& r matches Ok(e) && !e.render && !e.start_tone && !e.stop_tone
    } else if pre.mode is Halted || pre.mode is AwaitingKey {
        &&& (match pre.mode {
            ExecMode::AwaitingKey(reg) => match io.key_event {
                Some(k) => post.mode is Running && post.chip.Vx@ == pre.chip.Vx@.update(
                    reg as int,
                    k,
                ),
                None => post.mode == pre.mode && eq_regs(pre.chip, post.chip),
            },
            _ => post.mode == pre.mode && eq_regs(pre.chip, post.chip),
        })
        &&& eq_mem(pre.chip, post.chip)
        &&& eq_addr(pre.chip, post.chip)
        &&& post.chip.PC == pre.chip.PC
        &&& post.chip.SP == pre.chip.SP
        &&& post.chip.stack == pre.chip.stack
        &&& eq_display(pre.chip, post.chip)
        &&& post.chip.delay_timer == timer_decay(pre.chip.delay_timer, pre.dt_anchor, io.now_nanos)
        &&& post.dt_anchor == anchor_next(pre.chip.delay_timer, pre.dt_anchor, io.now_nanos)
        &&& post.chip.sound_timer == timer_decay(pre.chip.sound_timer, pre.st_anchor, io.now_nanos)
        &&& post.st_anchor == anchor_next(pre.chip.sound_timer, pre.st_anchor, io.now_nanos)
        &&& r matches Ok(e) && !e.render && !e.start_tone && e.stop_tone == stop_cond(
            pre.chip.sound_timer,
            pre.st_anchor,
            io.now_nanos,
        )
    } else {
        // running
        if pre.chip.PC > 4094 {
            &&& r == Err::<CycleEffects, ExecutionError>(ExecutionError::MemoryOutOfRange)
            &&& post.chip == pre.chip
            &&& post.mode is Halted
            &&& post.dt_anchor == pre.dt_anchor
            &&& post.st_anchor == pre.st_anchor
        } else {
            exists|mid: Chip8, out: Result<InstructionResult, ExecutionError>, b: u8|
                #[trigger] step_spec(
                    advanced(pre.chip),
                    mid,
                    word_at(pre.chip, pre.chip.PC as int),
                    b,
                    out,
                ) && after_exec(mid, out, pre, post, io, r)
        }
    }
}

impl Emulator {
    /// The machine's structure is sound and a pending key write targets a
    /// real register.
    pub open spec fn wf(self) -> bool {
        &&& self.chip.wf()
        &&& (self.mode matches ExecMode::AwaitingKey(reg) ==> reg < 16)
    }

    /// Takes a machine ready to run: the program counter starts at 0x200,
    /// the mode at free running.
    pub fn new(chip: Chip8) -> (e: Emulator)
        requires
            chip.wf(),
        ensures
            e.wf(),
            e.mode is Running,
            e.dt_anchor == 0,
            e.st_anchor == 0,
            e.chip.PC == 0x200,
            eq_mem(chip, e.chip),
            eq_regs(chip, e.chip),
            eq_addr(chip, e.chip),
            e.chip.delay_timer == chip.delay_timer,
            e.chip.sound_timer == chip.sound_timer,
            e.chip.SP == chip.SP,
            e.chip.stack == chip.stack,
            eq_display(chip, e.chip),
    {
        let mut c = chip;
        c.PC = 0x200;
        Emulator { chip: c, mode: ExecMode::Running, dt_anchor: 0, st_anchor: 0 }
    }
}

/// One decay poll of a timer: from its value, the clock reading of its last
/// decrement, and the clock now, the new value and the new anchor.
fn update_timer(value: u8, anchor: u128, now: u128) -> (r: (u8, u128))
    requires
        anchor <= now,
    ensures
        r.0 == timer_decay(value, anchor, now),
        r.1 == anchor_next(value, anchor, now),
{
    if value == 0 {
        return (value, anchor);
    }
    let elapsed = now - anchor;
    if elapsed >= 5_000_000_000 {
        // at least 300 ticks have passed: any 8-bit timer has run out
        proof {
            assert(elapsed * 3 >= 15_000_000_000) by (nonlinear_arith)
                requires
                    elapsed >= 5_000_000_000,
            ;
            lemma_div_is_ordered(15_000_000_000, elapsed * 3, 50_000_000);
        }
        return (0, anchor);
    }
    let ticks = elapsed * 3 / 50_000_000;
    if (value as u128) > ticks {
        if ticks != 0 {
            return ((value as u128 - ticks) as u8, now);
        }
        (value, anchor)
    } else {
        (0, anchor)
    }
}

impl Emulator {
    /// Polls both timers once against the clock; reports whether the sound
    /// timer just ran out.
    fn tick_timers(&mut self, now: u128) -> (stop_tone: bool)
        requires
            old(self).wf(),
            old(self).dt_anchor <= now,
            old(self).st_anchor <= now,
        ensures
            final(self).wf(),
            final(self).mode == old(self).mode,
            eq_mem(old(self).chip, final(self).chip),
            eq_regs(old(self).chip, final(self).chip),
            eq_addr(old(self).chip, final(self).chip),
            final(self).chip.PC == old(self).chip.PC,
            final(self).chip.SP == old(self).chip.SP,
            final(self).chip.stack == old(self).chip.stack,
            eq_display(old(self).chip, final(self).chip),
            final(self).chip.delay_timer == timer_decay(
                old(self).chip.delay_timer,
                old(self).dt_anchor,
                now,
            ),
            final(self).dt_anchor == anchor_next(
                old(self).chip.delay_timer,
                old(self).dt_anchor,
                now,
            ),
            final(self).chip.sound_timer == timer_decay(
                old(self).chip.sound_timer,
                old(self).st_anchor,
                now,
            ),
            final(self).st_anchor == anchor_next(
                old(self).chip.sound_timer,
                old(self).st_anchor,
                now,
            ),
            stop_tone == stop_cond(old(self).chip.sound_timer, old(self).st_anchor, now),
            final(self).dt_anchor <= now,
            final(self).st_anchor <= now,
    {
        let (dv, da) = update_timer(self.chip.delay_timer, self.dt_anchor, now);
        self.chip.delay_timer = dv;
        self.dt_anchor = da;
        let sv_old = self.chip.sound_timer;
        let (sv, sa) = update_timer(self.chip.sound_timer, self.st_anchor, now);
        self.chip.sound_timer = sv;
        self.st_anchor = sa;
        sv_old != 0 && sv == 0
    }

    /// One cycle of the execution loop; `cycle_spec` is the full account.
    /// The tone starts only when the sound timer was just set non-zero, and
    /// stops when it runs out. A fatal instruction error halts the machine
    /// and is handed back.
    pub fn cycle(&mut self, io: CycleIo) -> (r: Result<CycleEffects, ExecutionError>)
        requires
            old(self).wf(),
            old(self).dt_anchor <= io.now_nanos,
            old(self).st_anchor <= io.now_nanos,
            io.key_event matches Some(k) ==> k < 16,
        ensures
            final(self).wf(),
            final(self).dt_anchor <= io.now_nanos,
            final(self).st_anchor <= io.now_nanos,
            cycle_spec(*old(self), *final(self), io, r),
    {
        if io.quit {
            self.mode = ExecMode::Halted;
            return Ok(CycleEffects { render: false, start_tone: false, stop_tone: false });
        }
        match self.mode {
            ExecMode::Halted => {
                let stop = self.tick_timers(io.now_nanos);
                Ok(CycleEffects { render: false, start_tone: false, stop_tone: stop })
            },
            ExecMode::AwaitingKey(reg) => {
                match io.key_event {
                    Some(k) => {
                        self.chip.Vx.set(reg as usize, k);
                        self.mode = ExecMode::Running;
                    },
                    None => {},
                }
                let stop = self.tick_timers(io.now_nanos);
                Ok(CycleEffects { render: false, start_tone: false, stop_tone: stop })
            },
            ExecMode::Running => {
                if self.chip.PC > 4094 {
                    self.mode = ExecMode::Halted;
                    return Err(ExecutionError::MemoryOutOfRange);
                }
                let pc = self.chip.PC as usize;
                let hi = self.chip.memory[pc];
                let lo = self.chip.memory[pc + 1];
                let word: u16 = (hi as u16) * 256 + (lo as u16);
                self.chip.PC = self.chip.PC + 2;
                proof {
                    assert(self.chip == advanced(old(self).chip));
                }
                let out = self.chip.decode_execute_instruction(word);
                let ghost mid = self.chip;
                let ghost rb: u8 = if fam(word) == 0xC {
                    choose|b: u8| step_spec(advanced(old(self).chip), mid, word, b, out)
                } else {
                    0u8
                };
                match out {
                    Err(e) => {
                        self.mode = ExecMode::Halted;
                        proof {
                            assert(word == word_at(old(self).chip, old(self).chip.PC as int));
                            assert(step_spec(
                                advanced(old(self).chip),
                                mid,
                                word_at(old(self).chip, old(self).chip.PC as int),
                                rb,
                                out,
                            ));
                            assert(after_exec(mid, out, *old(self), *self, io, Err(e)));
                        }
                        Err(e)
                    },
                    Ok(sig) => {
                        let mut start_tone = false;
                        match sig {
                            InstructionResult::BreakLoop => {
                                self.mode = ExecMode::Halted;
                            },
                            InstructionResult::StartDelayTimer => {
                                self.dt_anchor = io.now_nanos;
                            },
                            InstructionResult::StartSoundTimer => {
                                self.st_anchor = io.now_nanos;
                                if self.chip.sound_timer > 0 {
                                    start_tone = true;
                                }
                            },
                            InstructionResult::SkipIfPressed(key) => {
                                if key < 16 && (io.keys >> key) & 1 == 1 {
                                    self.chip.PC = self.chip.PC + 2;
                                }
                            },
                            InstructionResult::SkipIfNotPressed(key) => {
                                if !(key < 16 && (io.keys >> key) & 1 == 1) {
                                    self.chip.PC = self.chip.PC + 2;
                                }
                            },
                            InstructionResult::WaitForKey(reg) => {
                                self.mode = ExecMode::AwaitingKey(reg);
                            },
                            InstructionResult::Continue => {},
                        }
                        let stop = self.tick_timers(io.now_nanos);
                        let render = word == 0x00E0 || word / 0x1000 == 0xD;
                        let eff = CycleEffects { render, start_tone, stop_tone: stop };
                        proof {
                            assert(word == word_at(old(self).chip, old(self).chip.PC as int));
                            assert(step_spec(
                                advanced(old(self).chip),
                                mid,
                                word_at(old(self).chip, old(self).chip.PC as int),
                                rb,
                                out,
                            ));
                            assert(after_exec(mid, out, *old(self), *self, io, Ok(eff)));
                        }
                        Ok(eff)
                    },
                }
            },
        }
    }
}


impl Chip8 {
    /// Fetches the word at the program counter, advances past it, and
    /// executes it: exactly one instruction, as the single-step driver
    /// requests it. A program counter outside memory is fatal and changes
    /// nothing.
    pub fn step_instruction(&mut self) -> (r: Result<InstructionResult, ExecutionError>)
        requires
            old(self).wf(),
        ensures
            final(self).wf(),
            step_result_spec(*old(self), *final(self), r),
            r is Ok ==> final(self).PC <= 4350,
    {
        if self.PC > 4094 {
            return Err(ExecutionError::MemoryOutOfRange);
        }
        let pc = self.PC as usize;
        let hi = self.memory[pc];
        let lo = self.memory[pc + 1];
        let word: u16 = (hi as u16) * 256 + (lo as u16);
        self.PC = self.PC + 2;
        proof {
            assert(*self == advanced(*old(self)));
            assert(word == word_at(*old(self), old(self).PC as int));
        }
        let r = self.decode_execute_instruction(word);
        proof {
            if fam(word) != 0xC {
                assert(step_spec(
                    advanced(*old(self)),
                    *self,
                    word_at(*old(self), old(self).PC as int),
                    0,
                    r,
                ));
            }
        }
        r
    }
}

} // verus!
