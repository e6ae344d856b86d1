//! The machine state: 4KB memory, the register file, the two timers and the
//! 64x32 monochrome framebuffer, together with the operations on them that
//! instructions use (sprite drawing, loading a program, loading glyphs).
use crate::constants::{glyph_bytes, sprite_preset};
use crate::instruction::ExecutionError;
use vstd::prelude::*;

verus! {

/// One framebuffer pixel: lit or dark.
#[derive(Copy, Clone, PartialEq, Eq, Structural, Debug)]
pub enum Pixel {
    On,
    Off,
}

/// Whether a pixel is lit.
pub open spec fn pix_on(p: Pixel) -> bool {
    p is On
}

impl Pixel {
    pub fn is_on(&self) -> (r: bool)
        ensures
            r == pix_on(*self),
    {
        match self {
            Pixel::On => true,
            Pixel::Off => false,
        }
    }
}

/// The 32-row by 64-column monochrome framebuffer.
pub struct Chip8Display {
    pub pixels: Vec<Vec<Pixel>>,
}

impl Chip8Display {
    /// 32 rows of 64 pixels each.
    pub open spec fn wf(self) -> bool {
        &&& self.pixels@.len() == 32
        &&& forall|r: int| 0 <= r < 32 ==> (#[trigger] self.pixels@[r])@.len() == 64
    }

    /// Whether the pixel at (row, col) is lit.
    pub open spec fn on_at(self, row: int, col: int) -> bool {
        pix_on(self.pixels@[row]@[col])
    }

    /// A fresh framebuffer with every pixel off.
    pub fn new() -> (d: Chip8Display)
        ensures
            d.wf(),
            forall|r: int, c: int| 0 <= r < 32 && 0 <= c < 64 ==> !d.on_at(r, c),
    {
        let mut pixels: Vec<Vec<Pixel>> = Vec::new();
        let mut r: usize = 0;
        while r < 32
            invariant
                r <= 32,
                pixels@.len() == r,
                forall|i: int| 0 <= i < r ==> (#[trigger] pixels@[i])@.len() == 64,
                forall|i: int, j: int|
                    0 <= i < r && 0 <= j < 64 ==> !pix_on(#[trigger] pixels@[i]@[j]),
            decreases 32 - r,
        {
            let mut row: Vec<Pixel> = Vec::new();
            let mut c: usize = 0;
            while c < 64
                invariant
                    c <= 64,
                    row@.len() == c,
                    forall|j: int| 0 <= j < c ==> !pix_on(#[trigger] row@[j]),
                decreases 64 - c,
            {
                row.push(Pixel::Off);
                c += 1;
            }
            pixels.push(row);
            r += 1;
        }
        Chip8Display { pixels }
    }

    /// Turns every pixel off.
    pub fn clear(&mut self)
        ensures
            final(self).wf(),
            forall|r: int, c: int| 0 <= r < 32 && 0 <= c < 64 ==> !final(self).on_at(r, c),
    {
        let d = Chip8Display::new();
        self.pixels = d.pixels;
    }
}

/// A glyph bitmap: up to fifteen row bytes, of which the first `size` are used.
pub struct Sprite {
    pub bytes: Vec<u8>,
    pub size: usize,
}

/// The aggregate machine state.
pub struct Chip8 {
    /// The main memory of the machine, 4KB.
    pub memory: Vec<u8>,
    /// 16 general purpose 8-bit registers; the last doubles as the flag
    /// register for carry, borrow and shift outcomes.
    pub Vx: Vec<u8>,
    /// The 16-bit address register.
    pub I: u16,
    /// The delay timer, decremented toward zero at 60 Hz while non-zero.
    pub delay_timer: u8,
    /// The sound timer, decremented toward zero at 60 Hz while non-zero.
    pub sound_timer: u8,
    /// The program counter.
    pub PC: u16,
    /// The stack pointer, 0 to 15.
    pub SP: u8,
    /// The call stack: 16 slots of return addresses.
    pub stack: Vec<u16>,
    /// The framebuffer.
    pub display: Chip8Display,
}

impl Chip8 {
    /// Structural well-formedness: the fixed sizes of memory, registers and
    /// stack, the address register within the 4KB space, and the stack
    /// pointer within the 16-entry stack.
    pub open spec fn wf(self) -> bool {
        &&& self.memory@.len() == 4096
        &&& self.Vx@.len() == 16
        &&& self.stack@.len() == 16
        &&& self.display.wf()
        &&& self.I <= 0xFFF
        &&& self.SP <= 15
        &&& forall|k: int| 0 <= k < 16 ==> #[trigger] self.stack@[k] <= 4096
    }
}

/// Whether sprite row byte `b` has its pixel for sprite column `c` set:
/// bit 7 of the byte is the leftmost pixel, bit 0 the rightmost.
pub open spec fn sprite_bit(b: u8, c: int) -> bool {
    (b >> ((7 - c) as u8)) & 1 == 1
}

/// Whether drawing the first `upto` pixels of sprite row byte `b` at
/// column origin `cx` touches framebuffer column `col` with a set bit.
/// Columns wrap modulo 64.
pub open spec fn row_hits(b: u8, cx: int, col: int, upto: int) -> bool {
    exists|c: int| 0 <= c < upto && col == (cx + c) % 64 && sprite_bit(b, c)
}

/// Whether drawing the `n`-row sprite at `mem[base..base+n]` to origin
/// (`cx`, `cy`) touches the framebuffer pixel (`row`, `col`) with a set bit.
/// Rows wrap modulo 32, columns modulo 64.
pub open spec fn draw_hits(
    mem: Seq<u8>,
    base: int,
    cx: int,
    cy: int,
    n: int,
    row: int,
    col: int,
) -> bool {
    exists|r: int|
        0 <= r < n && row == (cy + r) % 32 && #[trigger] row_hits(mem[base + r], cx, col, 8)
}

/// The two machine states hold the same memory contents.
pub open spec fn eq_mem(a: Chip8, b: Chip8) -> bool {
    a.memory == b.memory
}

/// The two machine states hold the same general registers.
pub open spec fn eq_regs(a: Chip8, b: Chip8) -> bool {
    a.Vx == b.Vx
}

/// The two machine states hold the same address register.
pub open spec fn eq_addr(a: Chip8, b: Chip8) -> bool {
    a.I == b.I
}

/// The two machine states hold the same timer values.
pub open spec fn eq_timers(a: Chip8, b: Chip8) -> bool {
    a.delay_timer == b.delay_timer && a.sound_timer == b.sound_timer
}

/// The two machine states hold the same program counter, stack pointer and
/// stack contents.
pub open spec fn eq_flow(a: Chip8, b: Chip8) -> bool {
    a.PC == b.PC && a.SP == b.SP && a.stack == b.stack
}

/// The two machine states hold the same framebuffer contents.
pub open spec fn eq_display(a: Chip8, b: Chip8) -> bool {
    a.display == b.display
}

/// Nothing differs between the two machine states.
pub open spec fn eq_chip(a: Chip8, b: Chip8) -> bool {
    &&& eq_mem(a, b)
    &&& eq_regs(a, b)
    &&& eq_addr(a, b)
    &&& eq_timers(a, b)
    &&& eq_flow(a, b)
    &&& eq_display(a, b)
}

impl Chip8 {
    /// Copies the used bytes of a glyph sprite into memory at `location`.
    fn load_sprite(&mut self, sprite: &Sprite, location: usize)
        requires
            old(self).wf(),
            sprite.size <= sprite.bytes@.len(),
            location + sprite.size <= 4096,
        ensures
            final(self).wf(),
            forall|k: int|
                0 <= k < 4096 ==> final(self).memory@[k] == (if location <= k < location
                    + sprite.size {
                    sprite.bytes@[k - location]
                } else {
                    old(self).memory@[k]
                }),
            eq_regs(*old(self), *final(self)),
            eq_addr(*old(self), *final(self)),
            eq_timers(*old(self), *final(self)),
            eq_flow(*old(self), *final(self)),
            eq_display(*old(self), *final(self)),
    {
        let mut i: usize = 0;
        while i < sprite.size
            invariant
                old(self).wf(),
                self.wf(),
                i <= sprite.size,
                sprite.size <= sprite.bytes@.len(),
                location + sprite.size <= 4096,
                forall|k: int|
                    0 <= k < 4096 ==> self.memory@[k] == (if location <= k < location + i {
                        sprite.bytes@[k - location]
                    } else {
                        old(self).memory@[k]
                    }),
                eq_regs(*old(self), *self),
                eq_addr(*old(self), *self),
                eq_timers(*old(self), *self),
                eq_flow(*old(self), *self),
                eq_display(*old(self), *self),
            decreases sprite.size - i,
        {
            self.memory.set(location + i, sprite.bytes[i]);
            i += 1;
        }
    }

    /// A fresh machine: memory zeroed except for the glyph sprites, which
    /// occupy five bytes per hex digit starting at 0x50; registers, timers,
    /// program counter, stack and framebuffer all cleared.
    pub fn new_default() -> (c: Chip8)
        ensures
            c.wf(),
            forall|k: int| 0 <= k < 80 ==> c.memory@[0x50 + k] == glyph_bytes()[k],
            forall|k: int| 0 <= k < 4096 && !(0x50 <= k < 0xD0) ==> c.memory@[k] == 0,
            forall|i: int| 0 <= i < 16 ==> c.Vx@[i] == 0,
            c.I == 0,
            c.delay_timer == 0,
            c.sound_timer == 0,
            c.PC == 0,
            c.SP == 0,
            forall|i: int| 0 <= i < 16 ==> c.stack@[i] == 0,
            forall|r: int, col: int| 0 <= r < 32 && 0 <= col < 64 ==> !c.display.on_at(r, col),
    {
        let mut memory: Vec<u8> = Vec::new();
        let mut i: usize = 0;
        while i < 4096
            invariant
                i <= 4096,
                memory@.len() == i,
                forall|k: int| 0 <= k < i ==> memory@[k] == 0u8,
            decreases 4096 - i,
        {
            memory.push(0);
            i += 1;
        }
        let mut Vx: Vec<u8> = Vec::new();
        let mut stack: Vec<u16> = Vec::new();
        let mut j: usize = 0;
        while j < 16
            invariant
                j <= 16,
                Vx@.len() == j,
                stack@.len() == j,
                forall|k: int| 0 <= k < j ==> Vx@[k] == 0u8,
                forall|k: int| 0 <= k < j ==> stack@[k] == 0u16,
            decreases 16 - j,
        {
            Vx.push(0);
            stack.push(0);
            j += 1;
        }
        let display = Chip8Display::new();
        let mut chip = Chip8 {
            memory,
            Vx,
            I: 0,
            delay_timer: 0,
            sound_timer: 0,
            PC: 0,
            SP: 0,
            stack,
            display,
        };
        let sprites = sprite_preset();
        let mut s: usize = 0;
        let mut location: usize = 0x50;
        while s < 16
            invariant
                s <= 16,
                location == 0x50 + 5 * s,
                chip.wf(),
                sprites@.len() == 16,
                forall|k: int| 0 <= k < 16 ==> (#[trigger] sprites@[k]).size == 5,
                forall|k: int| 0 <= k < 16 ==> (#[trigger] sprites@[k]).bytes@.len() == 15,
                forall|k: int, m: int|
                    0 <= k < 16 && 0 <= m < 5 ==> #[trigger] sprites@[k].bytes@[m]
                        == glyph_bytes()[k * 5 + m],
                forall|k: int| 0 <= k < 5 * s ==> chip.memory@[0x50 + k] == glyph_bytes()[k],
                forall|k: int|
                    0 <= k < 4096 && !(0x50 <= k < 0x50 + 5 * s) ==> chip.memory@[k] == 0,
                forall|i2: int| 0 <= i2 < 16 ==> chip.Vx@[i2] == 0,
                chip.I == 0,
                chip.delay_timer == 0,
                chip.sound_timer == 0,
                chip.PC == 0,
                chip.SP == 0,
                forall|i2: int| 0 <= i2 < 16 ==> chip.stack@[i2] == 0,
                forall|r: int, col: int|
                    0 <= r < 32 && 0 <= col < 64 ==> !chip.display.on_at(r, col),
            decreases 16 - s,
        {
            chip.load_sprite(&sprites[s], location);
            location += 5;
            s += 1;
        }
        chip
    }

    /// Copies a program image into memory starting at 0x200. A program
    /// larger than the 0xE00 bytes of memory above 0x200 does not fit and is
    /// rejected without any change to the machine.
    pub fn load_bytes_to_mem(&mut self, bytes: &Vec<u8>) -> (r: Result<(), ExecutionError>)
        requires
            old(self).wf(),
        ensures
            final(self).wf(),
            r is Ok <==> bytes@.len() <= 0xE00,
            r is Ok ==> forall|k: int|
                0 <= k < 4096 ==> final(self).memory@[k] == (if 0x200 <= k < 0x200
                    + bytes@.len() {
                    bytes@[k - 0x200]
                } else {
                    old(self).memory@[k]
                }),
            r is Err ==> eq_mem(*old(self), *final(self)),
            r matches Err(e) ==> e == ExecutionError::MemoryOutOfRange,
            eq_regs(*old(self), *final(self)),
            eq_addr(*old(self), *final(self)),
            eq_timers(*old(self), *final(self)),
            eq_flow(*old(self), *final(self)),
            eq_display(*old(self), *final(self)),
    {
        if bytes.len() > 0xE00 {
            return Err(ExecutionError::MemoryOutOfRange);
        }
        let mut i: usize = 0;
        while i < bytes.len()
            invariant
                old(self).wf(),
                self.wf(),
                i <= bytes@.len(),
                bytes@.len() <= 0xE00,
                forall|k: int|
                    0 <= k < 4096 ==> self.memory@[k] == (if 0x200 <= k < 0x200 + i {
                        bytes@[k - 0x200]
                    } else {
                        old(self).memory@[k]
                    }),
                eq_regs(*old(self), *self),
                eq_addr(*old(self), *self),
                eq_timers(*old(self), *self),
                eq_flow(*old(self), *self),
                eq_display(*old(self), *self),
            decreases bytes@.len() - i,
        {
            self.memory.set(0x200 + i, bytes[i]);
            i += 1;
        }
        Ok(())
    }
}


/// Offsets smaller than the wrap modulus land on distinct wrapped positions.
proof fn lemma_wrap_distinct(base: int, a: int, b: int, m: int)
    by (nonlinear_arith)
    requires
        0 <= base,
        0 <= a < b,
        b - a < m,
        0 < m,
    ensures
        (base + a) % m != (base + b) % m,
{
}

/// Extending a sprite row draw by one column: the new column was not touched
/// by the earlier columns, and the touched set grows by exactly the new
/// column's bit.
proof fn lemma_row_step(b: u8, cx: int, cc: int, col: int)
    requires
        0 <= cc < 8,
        0 <= cx,
    ensures
        col == (cx + cc) % 64 ==> !row_hits(b, cx, col, cc),
        row_hits(b, cx, col, cc + 1) == (row_hits(b, cx, col, cc) || (col == (cx + cc) % 64
            && sprite_bit(b, cc))),
{
    if col == (cx + cc) % 64 && row_hits(b, cx, col, cc) {
        let c0 = choose|c: int| 0 <= c < cc && col == (cx + c) % 64 && sprite_bit(b, c);
        lemma_wrap_distinct(cx, c0, cc, 64);
    }
    if row_hits(b, cx, col, cc + 1) {
        let c0 = choose|c: int| 0 <= c < cc + 1 && col == (cx + c) % 64 && sprite_bit(b, c);
        if c0 < cc {
            assert(row_hits(b, cx, col, cc));
        } else {
            assert(col == (cx + cc) % 64 && sprite_bit(b, cc));
        }
    }
    if row_hits(b, cx, col, cc) {
        let c0 = choose|c: int| 0 <= c < cc && col == (cx + c) % 64 && sprite_bit(b, c);
        assert(0 <= c0 < cc + 1 && col == (cx + c0) % 64 && sprite_bit(b, c0));
        assert(row_hits(b, cx, col, cc + 1));
    }
    if col == (cx + cc) % 64 && sprite_bit(b, cc) {
        assert(0 <= cc < cc + 1 && col == (cx + cc) % 64 && sprite_bit(b, cc));
        assert(row_hits(b, cx, col, cc + 1));
    }
}

/// Extending a sprite draw by one row: the new target row was not touched by
/// the earlier rows, and the touched set grows by exactly the new row.
proof fn lemma_draw_step(mem: Seq<u8>, base: int, cx: int, cy: int, rr: int, row: int, col: int)
    requires
        0 <= rr < 32,
        0 <= cy,
    ensures
        row == (cy + rr) % 32 ==> !draw_hits(mem, base, cx, cy, rr, row, col),
        draw_hits(mem, base, cx, cy, rr + 1, row, col) == (draw_hits(mem, base, cx, cy, rr, row,
            col) || (row == (cy + rr) % 32 && row_hits(mem[base + rr], cx, col, 8))),
{
    if row == (cy + rr) % 32 && draw_hits(mem, base, cx, cy, rr, row, col) {
        let r0 = choose|r: int|
            0 <= r < rr && row == (cy + r) % 32 && #[trigger] row_hits(mem[base + r], cx, col, 8);
        lemma_wrap_distinct(cy, r0, rr, 32);
    }
    if draw_hits(mem, base, cx, cy, rr + 1, row, col) {
        let r0 = choose|r: int|
            0 <= r < rr + 1 && row == (cy + r) % 32 && #[trigger] row_hits(mem[base + r], cx, col, 8);
        if r0 < rr {
            assert(draw_hits(mem, base, cx, cy, rr, row, col));
        } else {
            assert(row == (cy + rr) % 32 && row_hits(mem[base + rr], cx, col, 8));
        }
    }
    if draw_hits(mem, base, cx, cy, rr, row, col) {
        let r0 = choose|r: int|
            0 <= r < rr && row == (cy + r) % 32 && #[trigger] row_hits(mem[base + r], cx, col, 8);
        assert(0 <= r0 < rr + 1 && row == (cy + r0) % 32 && row_hits(mem[base + r0], cx, col, 8));
        assert(draw_hits(mem, base, cx, cy, rr + 1, row, col));
    }
    if row == (cy + rr) % 32 && row_hits(mem[base + rr], cx, col, 8) {
        assert(0 <= rr < rr + 1);
        assert(draw_hits(mem, base, cx, cy, rr + 1, row, col));
    }
}

impl Chip8 {
    /// Draws the `n`-byte sprite stored in memory at `sprite_loc` to the
    /// framebuffer at position (`x`, `y`): each set sprite bit toggles its
    /// target pixel, with target coordinates wrapping modulo 64 columns and
    /// 32 rows. Only the framebuffer changes.
    pub fn draw_sprite_in_mem_to_x_y(&mut self, sprite_loc: usize, x: usize, y: usize, n: usize)
        requires
            old(self).wf(),
            sprite_loc + n <= 4096,
            n <= 15,
            x < 256,
            y < 256,
        ensures
            final(self).wf(),
            eq_mem(*old(self), *final(self)),
            eq_regs(*old(self), *final(self)),
            eq_addr(*old(self), *final(self)),
            eq_timers(*old(self), *final(self)),
            eq_flow(*old(self), *final(self)),
            forall|row: int, col: int|
                0 <= row < 32 && 0 <= col < 64 ==> final(self).display.on_at(row, col) == (old(
                    self,
                ).display.on_at(row, col) != draw_hits(
                    old(self).memory@,
                    sprite_loc as int,
                    x as int,
                    y as int,
                    n as int,
                    row,
                    col,
                )),
    {
        let mut rr: usize = 0;
        while rr < n
            invariant
                self.wf(),
                sprite_loc + n <= 4096,
                n <= 15,
                x < 256,
                y < 256,
                rr <= n,
                eq_mem(*old(self), *self),
                eq_regs(*old(self), *self),
                eq_addr(*old(self), *self),
                eq_timers(*old(self), *self),
                eq_flow(*old(self), *self),
                forall|row: int, col: int|
                    0 <= row < 32 && 0 <= col < 64 ==> self.display.on_at(row, col) == (old(
                        self,
                    ).display.on_at(row, col) != draw_hits(
                        old(self).memory@,
                        sprite_loc as int,
                        x as int,
                        y as int,
                        rr as int,
                        row,
                        col,
                    )),
            decreases n - rr,
        {
            let byte = self.memory[sprite_loc + rr];
            let target_row = (y + rr) % 32;
            let ghost pre_row = self.display;
            let mut cc: usize = 0;
            while cc < 8
                invariant
                    self.wf(),
                    cc <= 8,
                    x < 256,
                    target_row < 32,
                    target_row as int == (y as int + rr as int) % 32,
                    eq_mem(*old(self), *self),
                    eq_regs(*old(self), *self),
                    eq_addr(*old(self), *self),
                    eq_timers(*old(self), *self),
                    eq_flow(*old(self), *self),
                    forall|row: int, col: int|
                        0 <= row < 32 && 0 <= col < 64 ==> self.display.on_at(row, col)
                            == (pre_row.on_at(row, col) != (row == target_row as int && row_hits(
                            byte,
                            x as int,
                            col,
                            cc as int,
                        ))),
                decreases 8 - cc,
            {
                let sh: u8 = (7 - cc) as u8;
                if (byte >> sh) & 1 == 1 {
                    let target_col = (x + cc) % 64;
                    let cur = self.display.pixels[target_row][target_col];
                    let newp = match cur {
                        Pixel::Off => Pixel::On,
                        Pixel::On => Pixel::Off,
                    };
                    self.display.pixels[target_row].set(target_col, newp);
                }
                proof {
                    assert forall|row: int, col: int| 0 <= row < 32 && 0 <= col < 64 implies
                        self.display.on_at(row, col) == (pre_row.on_at(row, col) != (row
                            == target_row as int && row_hits(
                            byte,
                            x as int,
                            col,
                            cc as int + 1,
                        ))) by {
                        lemma_row_step(byte, x as int, cc as int, col);
                    }
                }
                cc += 1;
            }
            proof {
                assert forall|row: int, col: int| 0 <= row < 32 && 0 <= col < 64 implies
                    self.display.on_at(row, col) == (old(self).display.on_at(row, col)
                        != draw_hits(
                        old(self).memory@,
                        sprite_loc as int,
                        x as int,
                        y as int,
                        rr as int + 1,
                        row,
                        col,
                    )) by {
                    lemma_draw_step(
                        old(self).memory@,
                        sprite_loc as int,
                        x as int,
                        y as int,
                        rr as int,
                        row,
                        col,
                    );
                }
            }
            rr += 1;
        }
    }
}

} // verus!
