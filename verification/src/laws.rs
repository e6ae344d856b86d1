//! The laws of the instruction set that relate whole transitions: wrapping
//! arithmetic, carry and borrow flags, the clear and draw operations on the
//! framebuffer, the store/load round trip, and the self-jump halt. Each is
//! stated over the same transition predicates the executable functions are
//! proved against.
use crate::chip8::Chip8;
use crate::exec::{advanced, after_exec, cycle_spec, word_at, CycleEffects, CycleIo, Emulator};
use crate::instruction::{
    fam, kk_of, n_of, nnn_of, step_spec, x_of, y_of, ExecutionError, InstructionResult,
};
use vstd::prelude::*;

verus! {

/// Adding an immediate wraps on 8-bit overflow and sets no flag: for every
/// register x, a word 7x01 with Vx at 0xFF leaves Vx at 0x00, and every
/// other register, the flag register included, keeps its value.
pub proof fn law_add_imm_wraps(
    pre: Chip8,
    post: Chip8,
    i: u16,
    r: Result<InstructionResult, ExecutionError>,
)
    requires
        pre.wf(),
        fam(i) == 7,
        kk_of(i) == 1,
        pre.Vx@[x_of(i)] == 0xFF,
        step_spec(pre, post, i, 0, r),
    ensures
        post.Vx@[x_of(i)] == 0x00,
        forall|j: int| 0 <= j < 16 && j != x_of(i) ==> post.Vx@[j] == pre.Vx@[j],
{
}

/// Register addition reports its carry in the flag register: 0xFF plus 0x01
/// wraps to 0x00 with the flag at 1.
pub proof fn law_add_reg_carry(
    pre: Chip8,
    post: Chip8,
    i: u16,
    r: Result<InstructionResult, ExecutionError>,
)
    requires
        pre.wf(),
        fam(i) == 8,
        n_of(i) == 4,
        pre.Vx@[x_of(i)] == 0xFF,
        pre.Vx@[y_of(i)] == 0x01,
        step_spec(pre, post, i, 0, r),
    ensures
        post.Vx@[15] == 1,
        x_of(i) != 15 ==> post.Vx@[x_of(i)] == 0x00,
{
}

/// Register addition without overflow leaves the flag register at 0: 0x01
/// plus 0x01 gives 0x02 with the flag at 0.
pub proof fn law_add_reg_no_carry(
    pre: Chip8,
    post: Chip8,
    i: u16,
    r: Result<InstructionResult, ExecutionError>,
)
    requires
        pre.wf(),
        fam(i) == 8,
        n_of(i) == 4,
        pre.Vx@[x_of(i)] == 0x01,
        pre.Vx@[y_of(i)] == 0x01,
        step_spec(pre, post, i, 0, r),
    ensures
        post.Vx@[15] == 0,
        x_of(i) != 15 ==> post.Vx@[x_of(i)] == 0x02,
{
}

/// Register subtraction reports its borrow: 0x03 minus 0x05 leaves the flag
/// register at 0 and the result wraps to 0xFE.
pub proof fn law_sub_reg_borrow(
    pre: Chip8,
    post: Chip8,
    i: u16,
    r: Result<InstructionResult, ExecutionError>,
)
    requires
        pre.wf(),
        fam(i) == 8,
        n_of(i) == 5,
        x_of(i) != 15,
        y_of(i) != 15,
        pre.Vx@[x_of(i)] == 0x03,
        pre.Vx@[y_of(i)] == 0x05,
        step_spec(pre, post, i, 0, r),
    ensures
        post.Vx@[15] == 0,
        post.Vx@[x_of(i)] == 0xFE,
{
}

/// The clear instruction leaves every pixel off, whatever the framebuffer
/// held before.
pub proof fn law_clear_all_off(
    pre: Chip8,
    post: Chip8,
    r: Result<InstructionResult, ExecutionError>,
)
    requires
        pre.wf(),
        step_spec(pre, post, 0x00E0, 0, r),
    ensures
        forall|row: int, col: int| 0 <= row < 32 && 0 <= col < 64 ==> !post.display.on_at(row, col),
{
}

/// The binary-coded-decimal store puts the hundreds, tens and units of Vx
/// at the address register and the two bytes after it: 157 stores 1, 5, 7.
pub proof fn law_bcd_store(
    pre: Chip8,
    post: Chip8,
    i: u16,
    r: Result<InstructionResult, ExecutionError>,
)
    requires
        pre.wf(),
        fam(i) == 0xF,
        kk_of(i) == 0x33,
        pre.I <= 4093,
        pre.Vx@[x_of(i)] == 157,
        step_spec(pre, post, i, 0, r),
    ensures
        post.memory@[pre.I as int] == 1,
        post.memory@[pre.I + 1] == 5,
        post.memory@[pre.I + 2] == 7,
{
}

/// The store/load round trip: after Fx55 writes V0 through Vx to memory at
/// the address register, any machine that still holds that memory and
/// address and executes the matching Fx65 gets registers 0 through x back.
pub proof fn law_store_load_round_trip(
    s0: Chip8,
    s1: Chip8,
    i55: u16,
    r1: Result<InstructionResult, ExecutionError>,
    s2: Chip8,
    s3: Chip8,
    i65: u16,
    r2: Result<InstructionResult, ExecutionError>,
)
    requires
        s0.wf(),
        s2.wf(),
        fam(i55) == 0xF,
        kk_of(i55) == 0x55,
        fam(i65) == 0xF,
        kk_of(i65) == 0x65,
        x_of(i65) == x_of(i55),
        s0.I + x_of(i55) <= 4095,
        step_spec(s0, s1, i55, 0, r1),
        s2.memory@ == s1.memory@,
        s2.I == s0.I,
        step_spec(s2, s3, i65, 0, r2),
    ensures
        forall|j: int| 0 <= j <= x_of(i55) ==> s3.Vx@[j] == s0.Vx@[j],
{
}

/// The sprite draw is self-inverse: drawing the same sprite twice at the
/// same coordinates returns every pixel to its pre-draw state.
pub proof fn law_draw_twice_restores(
    s0: Chip8,
    s1: Chip8,
    s2: Chip8,
    i: u16,
    r1: Result<InstructionResult, ExecutionError>,
    r2: Result<InstructionResult, ExecutionError>,
)
    requires
        s0.wf(),
        fam(i) == 0xD,
        s0.I + n_of(i) <= 4096,
        step_spec(s0, s1, i, 0, r1),
        step_spec(s1, s2, i, 0, r2),
    ensures
        forall|row: int, col: int|
            0 <= row < 32 && 0 <= col < 64 ==> s2.display.on_at(row, col) == s0.display.on_at(
                row,
                col,
            ),
{
}

/// A program consisting solely of a jump to its own address reaches the
/// halted mode within one cycle of the execution loop.
pub proof fn law_self_jump_halts(
    pre: Emulator,
    post: Emulator,
    io: CycleIo,
    r: Result<CycleEffects, ExecutionError>,
)
    requires
        pre.wf(),
        pre.mode is Running,
        !io.quit,
        pre.chip.PC <= 4094,
        fam(word_at(pre.chip, pre.chip.PC as int)) == 1,
        nnn_of(word_at(pre.chip, pre.chip.PC as int)) == pre.chip.PC,
        cycle_spec(pre, post, io, r),
    ensures
        post.mode is Halted,
{
    let (mid, out, b) = choose|mid: Chip8, out: Result<InstructionResult, ExecutionError>, b: u8|
        #[trigger] step_spec(
            advanced(pre.chip),
            mid,
            word_at(pre.chip, pre.chip.PC as int),
            b,
            out,
        ) && after_exec(mid, out, pre, post, io, r);
    assert(out == Ok::<InstructionResult, ExecutionError>(InstructionResult::BreakLoop));
}

} // verus!
