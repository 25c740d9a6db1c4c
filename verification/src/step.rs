//! The semantics of the instruction set: one spec function per decoded field,
//! and `spec_step`, the mathematical fetch-decode-execute step that the
//! executable interpreter is proved to follow.
//!
//! An instruction word is two consecutive memory bytes packed big-endian. The
//! default program-counter policy advances by 2 past the instruction; skips
//! advance by 4; jumps, calls and returns set a computed target. A fault (an
//! unknown opcode, or a computed index outside its range) moves the machine to
//! a terminal `Halted` status without advancing the program counter.

use vstd::prelude::*;

use crate::model::{Fault, Status, VmView};

verus! {

/// The instruction word at the program counter, big-endian.
pub open spec fn spec_fetch(s: VmView) -> u16 {
    (s.mem[s.pc] as int * 256 + s.mem[s.pc + 1] as int) as u16
}

/// Top nibble: the instruction class.
pub open spec fn op_class(op: u16) -> int {
    op as int / 0x1000
}

/// Second nibble: the first operand register index.
pub open spec fn op_x(op: u16) -> int {
    (op as int / 0x100) % 16
}

/// Third nibble: the second operand register index.
pub open spec fn op_y(op: u16) -> int {
    (op as int / 16) % 16
}

/// Bottom nibble: a small immediate.
pub open spec fn op_n(op: u16) -> int {
    op as int % 16
}

/// Bottom byte: an 8-bit immediate.
pub open spec fn op_nn(op: u16) -> u8 {
    (op % 256) as u8
}

/// Bottom 12 bits: an address immediate.
pub open spec fn op_nnn(op: u16) -> int {
    op as int % 0x1000
}

/// The same state, halted on fault `f`.
pub open spec fn halted(s: VmView, f: Fault) -> VmView {
    VmView { status: Status::Halted(f), ..s }
}

/// The all-off framebuffer.
pub open spec fn zero_gfx() -> Seq<u8> {
    Seq::new(2048, |i: int| 0u8)
}

/// `mem` with `src[0 .. cnt)` copied in at offset `idx`; all else unchanged.
pub open spec fn write_block(mem: Seq<u8>, src: Seq<u8>, idx: int, cnt: int) -> Seq<u8> {
    Seq::new(4096, |j: int| if idx <= j < idx + cnt { src[j - idx] } else { mem[j] })
}

/// The register file with V0..V(cnt-1) filled from `mem[idx ..]`.
pub open spec fn load_regs(v: Seq<u8>, mem: Seq<u8>, idx: int, cnt: int) -> Seq<u8> {
    Seq::new(16, |j: int| if 0 <= j < cnt { mem[idx + j] } else { v[j] })
}

/// The largest pressed key index below `k`, or -1 when none is pressed.
pub open spec fn last_pressed(key: Seq<bool>, k: int) -> int
    decreases k,
{
    if k <= 0 {
        -1
    } else if key[k - 1] {
        k - 1
    } else {
        last_pressed(key, k - 1)
    }
}

/// The place value of sprite bit `k`, counted from the leftmost (drawn first).
pub open spec fn bit_weight(k: int) -> int {
    if k == 0 { 128 } else if k == 1 { 64 } else if k == 2 { 32 } else if k == 3 { 16 }
    else if k == 4 { 8 } else if k == 5 { 4 } else if k == 6 { 2 } else { 1 }
}

/// Whether sprite bit `k` (from the left) of row byte `b` is set.
pub open spec fn spec_bit(b: u8, k: int) -> bool {
    (b as int / bit_weight(k)) % 2 == 1
}

/// XOR one pixel onto the framebuffer; the second component reports whether a
/// lit pixel was hit (a collision).
pub open spec fn flip_pixel(g: Seq<u8>, pos: int) -> (Seq<u8>, bool) {
    (g.update(pos, if g[pos] == 1 { 0u8 } else { 1u8 }), g[pos] == 1)
}

/// One sprite row: the first `nbits` bits of `byte` drawn left to right from
/// column `px` of pixel row `py`. A set bit whose computed position falls past
/// the framebuffer is dropped; no coordinate wraparound is performed.
pub open spec fn draw_row(g: Seq<u8>, byte: u8, px: int, py: int, nbits: int) -> (Seq<u8>, bool)
    decreases nbits,
{
    if nbits <= 0 {
        (g, false)
    } else {
        let prev = draw_row(g, byte, px, py, nbits - 1);
        let k = nbits - 1;
        let pos = px + k + py * 64;
        if spec_bit(byte, k) && pos < 2048 {
            let f = flip_pixel(prev.0, pos);
            (f.0, prev.1 || f.1)
        } else {
            prev
        }
    }
}

/// The first `rows` rows of the 8-wide sprite at `mem[idx ..]`, drawn at
/// position (`px`, `py`); the second component reports any collision.
pub open spec fn draw_sprite(
    mem: Seq<u8>,
    g: Seq<u8>,
    idx: int,
    px: int,
    py: int,
    rows: int,
) -> (Seq<u8>, bool)
    decreases rows,
{
    if rows <= 0 {
        (g, false)
    } else {
        let prev = draw_sprite(mem, g, idx, px, py, rows - 1);
        let r = draw_row(prev.0, mem[idx + rows - 1], px, py + rows - 1, 8);
        (r.0, prev.1 || r.1)
    }
}

/// Whether the instruction word matches some opcode pattern; a word that does
/// not drives the machine to `Halted(UnknownOpcode)`.
pub open spec fn recognized(op: u16) -> bool {
    let class = op_class(op);
    let n = op_n(op);
    let nn = op_nn(op) as int;
    if class == 0 {
        op == 0x00E0 || op == 0x00EE
    } else if class == 5 || class == 9 {
        n == 0
    } else if class == 8 {
        n <= 7 || n == 0xE
    } else if class == 0xE {
        nn == 0x9E || nn == 0xA1
    } else if class == 0xF {
        nn == 0x07 || nn == 0x0A || nn == 0x15 || nn == 0x18 || nn == 0x1E || nn == 0x29
            || nn == 0x33 || nn == 0x55 || nn == 0x65
    } else {
        true
    }
}

/// Class 0: clear screen, return from subroutine, or unknown.
pub open spec fn spec_exec_misc(s: VmView, op: u16) -> VmView {
    if op == 0x00E0 {
        VmView { gfx: zero_gfx(), draw: true, pc: s.pc + 2, ..s }
    } else if op == 0x00EE {
        if s.sp <= 0 {
            halted(s, Fault::OutOfBounds)
        } else {
            VmView { pc: s.stack[s.sp - 1] as int + 2, sp: s.sp - 1, ..s }
        }
    } else {
        halted(s, Fault::UnknownOpcode)
    }
}

/// Class 8: register-to-register moves, bitwise operations, add with carry,
/// subtractions with no-borrow flag, and shifts. The flag write to VF happens
/// first, the operand write second, each reading the registers as they stand.
pub open spec fn spec_exec_alu(s: VmView, op: u16) -> VmView {
    let x = op_x(op);
    let y = op_y(op);
    let n = op_n(op);
    if n == 0 {
        VmView { v: s.v.update(x, s.v[y]), pc: s.pc + 2, ..s }
    } else if n == 1 {
        VmView { v: s.v.update(x, s.v[x] | s.v[y]), pc: s.pc + 2, ..s }
    } else if n == 2 {
        VmView { v: s.v.update(x, s.v[x] & s.v[y]), pc: s.pc + 2, ..s }
    } else if n == 3 {
        VmView { v: s.v.update(x, s.v[x] ^ s.v[y]), pc: s.pc + 2, ..s }
    } else if n == 4 {
        let carry: u8 = if s.v[x] + s.v[y] > 255 { 1 } else { 0 };
        let v1 = s.v.update(15, carry);
        VmView { v: v1.update(x, ((v1[x] + v1[y]) % 256) as u8), pc: s.pc + 2, ..s }
    } else if n == 5 {
        let no_borrow: u8 = if s.v[x] > s.v[y] { 1 } else { 0 };
        let v1 = s.v.update(15, no_borrow);
        let d = if v1[x] >= v1[y] { v1[x] - v1[y] } else { v1[x] - v1[y] + 256 };
        VmView { v: v1.update(x, d as u8), pc: s.pc + 2, ..s }
    } else if n == 6 {
        let lsb: u8 = if s.v[x] % 2 == 1 { 1 } else { 0 };
        let v1 = s.v.update(15, lsb);
        VmView { v: v1.update(x, (v1[x] / 2) as u8), pc: s.pc + 2, ..s }
    } else if n == 7 {
        let no_borrow: u8 = if s.v[y] > s.v[x] { 1 } else { 0 };
        let v1 = s.v.update(15, no_borrow);
        let d = if v1[y] >= v1[x] { v1[y] - v1[x] } else { v1[y] - v1[x] + 256 };
        VmView { v: v1.update(x, d as u8), pc: s.pc + 2, ..s }
    } else if n == 0xE {
        let msb: u8 = if s.v[x] >= 128 { 1 } else { 0 };
        let v1 = s.v.update(15, msb);
        VmView { v: v1.update(x, ((v1[x] * 2) % 256) as u8), pc: s.pc + 2, ..s }
    } else {
        halted(s, Fault::UnknownOpcode)
    }
}

/// Class D: XOR-draw the `n`-row sprite at `mem[I ..]` at position (Vx, Vy),
/// set VF to 1 exactly when a drawn pixel hit a lit one, raise the redraw
/// signal. Reading past the memory is a fault.
pub open spec fn spec_exec_draw(s: VmView, op: u16) -> VmView {
    let n = op_n(op);
    if s.index + n > 4096 {
        halted(s, Fault::OutOfBounds)
    } else {
        let px = s.v[op_x(op)] as int;
        let py = s.v[op_y(op)] as int;
        let d = draw_sprite(s.mem, s.gfx, s.index, px, py, n);
        VmView {
            gfx: d.0,
            v: s.v.update(15, if d.1 { 1u8 } else { 0u8 }),
            draw: true,
            pc: s.pc + 2,
            ..s
        }
    }
}

/// Class E: skip on the state of the key named by Vx. A register holding a
/// value past the 16-key space is a fault.
pub open spec fn spec_exec_key(s: VmView, op: u16) -> VmView {
    let nn = op_nn(op) as int;
    let x = op_x(op);
    if nn == 0x9E {
        if s.v[x] >= 16 {
            halted(s, Fault::OutOfBounds)
        } else {
            VmView { pc: s.pc + (if s.key[s.v[x] as int] { 4int } else { 2int }), ..s }
        }
    } else if nn == 0xA1 {
        if s.v[x] >= 16 {
            halted(s, Fault::OutOfBounds)
        } else {
            VmView { pc: s.pc + (if s.key[s.v[x] as int] { 2int } else { 4int }), ..s }
        }
    } else {
        halted(s, Fault::UnknownOpcode)
    }
}

/// Class F: timers, the blocking key wait, index arithmetic, font lookup,
/// binary-coded decimal, and register block store/load.
pub open spec fn spec_exec_sys(s: VmView, op: u16) -> VmView {
    let nn = op_nn(op) as int;
    let x = op_x(op);
    if nn == 0x07 {
        VmView { v: s.v.update(x, s.delay as u8), pc: s.pc + 2, ..s }
    } else if nn == 0x0A {
        let k = last_pressed(s.key, 16);
        if k >= 0 {
            VmView { v: s.v.update(x, k as u8), pc: s.pc + 2, ..s }
        } else {
            VmView { status: Status::AwaitingKey(x as u8), ..s }
        }
    } else if nn == 0x15 {
        VmView { delay: s.v[x] as int, pc: s.pc + 2, ..s }
    } else if nn == 0x18 {
        VmView { sound: s.v[x] as int, pc: s.pc + 2, ..s }
    } else if nn == 0x1E {
        if s.index + s.v[x] >= 0x10000 {
            halted(s, Fault::OutOfBounds)
        } else {
            VmView { index: s.index + s.v[x], pc: s.pc + 2, ..s }
        }
    } else if nn == 0x29 {
        VmView { index: s.v[x] * 5, pc: s.pc + 2, ..s }
    } else if nn == 0x33 {
        if s.index + 3 > 4096 {
            halted(s, Fault::OutOfBounds)
        } else {
            let mem1 = s.mem.update(s.index, (s.v[x] / 100) as u8).update(
                s.index + 1,
                ((s.v[x] / 10) % 10) as u8,
            ).update(s.index + 2, (s.v[x] % 10) as u8);
            VmView { mem: mem1, pc: s.pc + 2, ..s }
        }
    } else if nn == 0x55 {
        if s.index + x + 1 > 4096 {
            halted(s, Fault::OutOfBounds)
        } else {
            VmView { mem: write_block(s.mem, s.v, s.index, x + 1), pc: s.pc + 2, ..s }
        }
    } else if nn == 0x65 {
        if s.index + x + 1 > 4096 {
            halted(s, Fault::OutOfBounds)
        } else {
            VmView { v: load_regs(s.v, s.mem, s.index, x + 1), pc: s.pc + 2, ..s }
        }
    } else {
        halted(s, Fault::UnknownOpcode)
    }
}

/// Execute the already-fetched instruction word `op`. `rnd` is the byte the
/// random-byte source produced for this step; only the random-register
/// instruction reads it.
pub open spec fn spec_exec(s: VmView, op: u16, rnd: u8) -> VmView {
    let class = op_class(op);
    if class == 0 {
        spec_exec_misc(s, op)
    } else if class == 1 {
        VmView { pc: op_nnn(op), ..s }
    } else if class == 2 {
        if s.sp >= 16 {
            halted(s, Fault::OutOfBounds)
        } else {
            VmView { stack: s.stack.update(s.sp, s.pc as u16), sp: s.sp + 1, pc: op_nnn(op), ..s }
        }
    } else if class == 3 {
        VmView { pc: s.pc + (if s.v[op_x(op)] == op_nn(op) { 4int } else { 2int }), ..s }
    } else if class == 4 {
        VmView { pc: s.pc + (if s.v[op_x(op)] != op_nn(op) { 4int } else { 2int }), ..s }
    } else if class == 5 {
        if op_n(op) == 0 {
            VmView { pc: s.pc + (if s.v[op_x(op)] == s.v[op_y(op)] { 4int } else { 2int }), ..s }
        } else {
            halted(s, Fault::UnknownOpcode)
        }
    } else if class == 6 {
        VmView { v: s.v.update(op_x(op), op_nn(op)), pc: s.pc + 2, ..s }
    } else if class == 7 {
        VmView {
            v: s.v.update(op_x(op), ((s.v[op_x(op)] + op_nn(op)) % 256) as u8),
            pc: s.pc + 2,
            ..s
        }
    } else if class == 8 {
        spec_exec_alu(s, op)
    } else if class == 9 {
        if op_n(op) == 0 {
            VmView { pc: s.pc + (if s.v[op_x(op)] != s.v[op_y(op)] { 4int } else { 2int }), ..s }
        } else {
            halted(s, Fault::UnknownOpcode)
        }
    } else if class == 0xA {
        VmView { index: op_nnn(op), pc: s.pc + 2, ..s }
    } else if class == 0xB {
        VmView { pc: op_nnn(op) + s.v[0] + 2, ..s }
    } else if class == 0xC {
        VmView { v: s.v.update(op_x(op), rnd & op_nn(op)), pc: s.pc + 2, ..s }
    } else if class == 0xD {
        spec_exec_draw(s, op)
    } else if class == 0xE {
        spec_exec_key(s, op)
    } else {
        spec_exec_sys(s, op)
    }
}

/// One whole cycle. A halted machine stays put; a machine awaiting a key only
/// re-checks the keypad; otherwise the instruction at the program counter is
/// fetched (a fault when it would read past memory) and executed.
pub open spec fn spec_step(s: VmView, rnd: u8) -> VmView {
    match s.status {
        Status::Halted(_) => s,
        Status::AwaitingKey(x) => {
            let k = last_pressed(s.key, 16);
            if k >= 0 {
                VmView {
                    v: s.v.update(x as int, k as u8),
                    pc: s.pc + 2,
                    status: Status::Running,
                    ..s
                }
            } else {
                s
            }
        },
        Status::Running => {
            if s.pc + 1 >= 4096 {
                halted(s, Fault::OutOfBounds)
            } else {
                spec_exec(s, spec_fetch(s), rnd)
            }
        },
    }
}

} // verus!
