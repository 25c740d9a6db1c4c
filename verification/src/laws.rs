//! Laws of the step semantics, proved once over every well-formed state.

use vstd::prelude::*;

use crate::model::{Fault, Status, VmView};
use crate::step;

verus! {

/// Clear screen: from any running state whose fetched instruction is the
/// clear-screen opcode, one step turns every framebuffer pixel off, raises the
/// redraw signal, advances the program counter by two and keeps running.
pub proof fn lemma_clear_screen(s: VmView, rnd: u8)
    requires
        s.wf(),
        s.status == Status::Running,
        s.pc + 1 < 4096,
        step::spec_fetch(s) == 0x00E0,
    ensures
        step::spec_step(s, rnd).gfx.len() == 2048,
        forall|p: int| 0 <= p < 2048 ==> step::spec_step(s, rnd).gfx[p] == 0,
        step::spec_step(s, rnd).draw,
        step::spec_step(s, rnd).pc == s.pc + 2,
        step::spec_step(s, rnd).status == Status::Running,
{
}

/// Call round trip: a subroutine call followed by the return it jumps to
/// leaves the program counter just past the call and the stack depth exactly
/// as it was before the call.
pub proof fn lemma_call_ret_round_trip(s: VmView, r1: u8, r2: u8)
    requires
        s.wf(),
        s.status == Status::Running,
        s.pc + 1 < 4096,
        s.sp < 16,
        step::op_class(step::spec_fetch(s)) == 2,
        step::op_nnn(step::spec_fetch(s)) + 1 < 4096,
        s.mem[step::op_nnn(step::spec_fetch(s))] == 0x00,
        s.mem[step::op_nnn(step::spec_fetch(s)) + 1] == 0xEE,
    ensures
        step::spec_step(step::spec_step(s, r1), r2).pc == s.pc + 2,
        step::spec_step(step::spec_step(s, r1), r2).sp == s.sp,
        step::spec_step(step::spec_step(s, r1), r2).status == Status::Running,
{
    let op = step::spec_fetch(s);
    let a = step::op_nnn(op);
    let t = step::spec_step(s, r1);
    assert(t.pc == a);
    assert(t.sp == s.sp + 1);
    assert(t.stack[s.sp] == s.pc as u16);
    assert(step::spec_fetch(t) == 0x00EE);
    assert(step::spec_step(t, r2).pc == s.pc + 2);
}

/// Conditional skip: the skip-if-equal instruction advances the program
/// counter by 4 exactly when Vx equals the immediate, and by 2 otherwise,
/// for every representable register value and immediate; nothing else moves.
pub proof fn lemma_skip_equal(s: VmView, rnd: u8)
    requires
        s.wf(),
        s.status == Status::Running,
        s.pc + 1 < 4096,
        step::op_class(step::spec_fetch(s)) == 3,
    ensures
        step::spec_step(s, rnd).pc == s.pc + (
            if s.v[step::op_x(step::spec_fetch(s))] == step::op_nn(step::spec_fetch(s)) {
                4int
            } else {
                2int
            }),
        step::spec_step(s, rnd).v == s.v,
        step::spec_step(s, rnd).mem == s.mem,
        step::spec_step(s, rnd).status == Status::Running,
{
}

/// An instruction word that matches no opcode pattern drives the machine to an
/// explicit fault status, with the program counter left where it was.
pub proof fn lemma_unknown_opcode_halts(s: VmView, rnd: u8)
    requires
        s.wf(),
        s.status == Status::Running,
        s.pc + 1 < 4096,
        !step::recognized(step::spec_fetch(s)),
    ensures
        step::spec_step(s, rnd).status == Status::Halted(Fault::UnknownOpcode),
        step::spec_step(s, rnd).pc == s.pc,
{
}

/// A halted machine is stuck: every further cycle leaves it exactly as it is,
/// so a fault can never turn into an unbounded silent loop.
pub proof fn lemma_halted_stays_halted(s: VmView, rnd: u8, f: Fault)
    requires
        s.status == Status::Halted(f),
    ensures
        step::spec_step(s, rnd) == s,
{
}

/// One sprite row touches only positions `px + k + py * 64` for `k` below
/// `nbits`, so every pixel at or past `px + nbits + py * 64` keeps its value,
/// and the collision flag is set exactly when some visible set bit of the row
/// lands on a pixel that was lit before the row was drawn.
proof fn lemma_draw_row_characterized(g: Seq<u8>, byte: u8, px: int, py: int, nbits: int)
    requires
        g.len() == 2048,
        0 <= px,
        0 <= py,
        0 <= nbits <= 8,
    ensures
        step::draw_row(g, byte, px, py, nbits).0.len() == 2048,
        forall|p: int| 0 <= p < 2048 && p >= px + nbits + py * 64
            ==> step::draw_row(g, byte, px, py, nbits).0[p] == g[p],
        step::draw_row(g, byte, px, py, nbits).1 == exists|k: int|
            0 <= k < nbits && step::spec_bit(byte, k) && px + k + py * 64 < 2048
            && g[px + k + py * 64] == 1,
    decreases nbits,
{
    let cur = step::draw_row(g, byte, px, py, nbits);
    let hit_below = |m: int| exists|k: int|
        0 <= k < m && step::spec_bit(byte, k) && px + k + py * 64 < 2048
        && g[px + k + py * 64] == 1;
    if nbits == 0 {
        assert(!hit_below(0));
    } else {
        lemma_draw_row_characterized(g, byte, px, py, nbits - 1);
        let prev = step::draw_row(g, byte, px, py, nbits - 1);
        let k = nbits - 1;
        let pos = px + k + py * 64;
        assert(pos >= px + (nbits - 1) + py * 64);
        if step::spec_bit(byte, k) && pos < 2048 {
            assert(prev.0[pos] == g[pos]);
            assert(cur.1 == (prev.1 || g[pos] == 1));
            if cur.1 {
                if prev.1 {
                    let kw = choose|k2: int|
                        0 <= k2 < nbits - 1 && step::spec_bit(byte, k2)
                        && px + k2 + py * 64 < 2048 && g[px + k2 + py * 64] == 1;
                    assert(0 <= kw < nbits && step::spec_bit(byte, kw)
                        && px + kw + py * 64 < 2048 && g[px + kw + py * 64] == 1);
                } else {
                    assert(g[pos] == 1);
                    assert(0 <= k < nbits && step::spec_bit(byte, k) && pos < 2048
                        && g[pos] == 1);
                }
                assert(hit_below(nbits));
            }
            if hit_below(nbits) {
                let kw = choose|k2: int|
                    0 <= k2 < nbits && step::spec_bit(byte, k2) && px + k2 + py * 64 < 2048
                    && g[px + k2 + py * 64] == 1;
                if kw < nbits - 1 {
                    assert(hit_below(nbits - 1));
                } else {
                    assert(kw == k);
                    assert(g[pos] == 1);
                }
                assert(cur.1);
            }
        } else {
            assert(cur == prev);
            if cur.1 {
                let kw = choose|k2: int|
                    0 <= k2 < nbits - 1 && step::spec_bit(byte, k2)
                    && px + k2 + py * 64 < 2048 && g[px + k2 + py * 64] == 1;
                assert(0 <= kw < nbits && step::spec_bit(byte, kw)
                    && px + kw + py * 64 < 2048 && g[px + kw + py * 64] == 1);
                assert(hit_below(nbits));
            }
            if hit_below(nbits) {
                let kw = choose|k2: int|
                    0 <= k2 < nbits && step::spec_bit(byte, k2) && px + k2 + py * 64 < 2048
                    && g[px + k2 + py * 64] == 1;
                if kw == nbits - 1 {
                    assert(step::spec_bit(byte, k) && pos < 2048);
                    assert(false);
                }
                assert(hit_below(nbits - 1));
                assert(cur.1);
            }
        }
    }
}

/// Sprite collision, the law behind VF after a draw: the flag reported by
/// `draw_sprite` is set exactly when some visible set bit of the sprite lands
/// on a pixel that was lit before the draw began. In particular a first draw
/// never falsely reports a collision, and drawing over a lit pixel always
/// does. Pixels at or past the end of the sprite's last row keep their value.
pub proof fn lemma_draw_collision_characterized(
    mem: Seq<u8>,
    g: Seq<u8>,
    idx: int,
    px: int,
    py: int,
    rows: int,
)
    requires
        g.len() == 2048,
        0 <= px,
        0 <= py,
        0 <= rows,
    ensures
        step::draw_sprite(mem, g, idx, px, py, rows).0.len() == 2048,
        forall|p: int| 0 <= p < 2048 && p >= px + 8 + (py + rows - 1) * 64
            ==> step::draw_sprite(mem, g, idx, px, py, rows).0[p] == g[p],
        step::draw_sprite(mem, g, idx, px, py, rows).1 == exists|r: int, k: int|
            0 <= r < rows && 0 <= k < 8 && #[trigger] step::spec_bit(mem[idx + r], k)
            && px + k + (py + r) * 64 < 2048 && g[px + k + (py + r) * 64] == 1,
    decreases rows,
{
    let cur = step::draw_sprite(mem, g, idx, px, py, rows);
    let hit_rows = |m: int| exists|r: int, k: int|
        0 <= r < m && 0 <= k < 8 && #[trigger] step::spec_bit(mem[idx + r], k)
        && px + k + (py + r) * 64 < 2048 && g[px + k + (py + r) * 64] == 1;
    if rows == 0 {
        assert(!hit_rows(0));
    } else {
        lemma_draw_collision_characterized(mem, g, idx, px, py, rows - 1);
        let prev = step::draw_sprite(mem, g, idx, px, py, rows - 1);
        let byte = mem[idx + rows - 1];
        let pyr = py + rows - 1;
        lemma_draw_row_characterized(prev.0, byte, px, pyr, 8);
        let row = step::draw_row(prev.0, byte, px, pyr, 8);
        assert(cur.1 == (prev.1 || row.1));
        // Every position of this row sits past everything earlier rows
        // touched, and so does everything past the row's own last position.
        assert forall|p: int| 0 <= p < 2048 && p >= px + 8 + pyr * 64 implies cur.0[p] == g[p] by {
            assert(prev.0[p] == g[p]);
            assert(row.0[p] == prev.0[p]);
        };
        if cur.1 {
            if prev.1 {
                let (rw, kw) = choose|r2: int, k2: int|
                    0 <= r2 < rows - 1 && 0 <= k2 < 8 && #[trigger] step::spec_bit(mem[idx + r2], k2)
                    && px + k2 + (py + r2) * 64 < 2048 && g[px + k2 + (py + r2) * 64] == 1;
                assert(0 <= rw < rows && 0 <= kw < 8 && step::spec_bit(mem[idx + rw], kw)
                    && px + kw + (py + rw) * 64 < 2048 && g[px + kw + (py + rw) * 64] == 1);
            } else {
                let kw = choose|k2: int|
                    0 <= k2 < 8 && step::spec_bit(byte, k2) && px + k2 + pyr * 64 < 2048
                    && prev.0[px + k2 + pyr * 64] == 1;
                assert(prev.0[px + kw + pyr * 64] == g[px + kw + pyr * 64]);
                assert(0 <= rows - 1 < rows && 0 <= kw < 8
                    && step::spec_bit(mem[idx + (rows - 1)], kw)
                    && px + kw + (py + (rows - 1)) * 64 < 2048
                    && g[px + kw + (py + (rows - 1)) * 64] == 1);
            }
            assert(hit_rows(rows));
        }
        if hit_rows(rows) {
            let (rw, kw) = choose|r2: int, k2: int|
                0 <= r2 < rows && 0 <= k2 < 8 && #[trigger] step::spec_bit(mem[idx + r2], k2)
                && px + k2 + (py + r2) * 64 < 2048 && g[px + k2 + (py + r2) * 64] == 1;
            if rw < rows - 1 {
                assert(hit_rows(rows - 1));
                assert(prev.1);
            } else {
                assert(rw == rows - 1);
                let pos = px + kw + pyr * 64;
                assert(prev.0[pos] == g[pos]);
                assert(0 <= kw < 8 && step::spec_bit(byte, kw) && pos < 2048
                    && prev.0[pos] == 1);
                assert(row.1);
            }
            assert(cur.1);
        }
    }
}

/// The collision law at the instruction level: after a draw instruction whose
/// sprite read stays in memory, VF holds 1 exactly when some visible set bit
/// of the sprite landed on a pixel that was lit before the draw, the redraw
/// signal is up, and the program counter advanced by two.
pub proof fn lemma_draw_instruction_vf(s: VmView, rnd: u8)
    requires
        s.wf(),
        s.status == Status::Running,
        s.pc + 1 < 4096,
        step::op_class(step::spec_fetch(s)) == 0xD,
        s.index + step::op_n(step::spec_fetch(s)) <= 4096,
    ensures
        ({
            let op = step::spec_fetch(s);
            let px = s.v[step::op_x(op)] as int;
            let py = s.v[step::op_y(op)] as int;
            let hit = exists|r: int, k: int|
                0 <= r < step::op_n(op) && 0 <= k < 8
                && #[trigger] step::spec_bit(s.mem[s.index + r], k)
                && px + k + (py + r) * 64 < 2048 && s.gfx[px + k + (py + r) * 64] == 1;
            step::spec_step(s, rnd).v[15] == (if hit { 1u8 } else { 0u8 })
        }),
        step::spec_step(s, rnd).draw,
        step::spec_step(s, rnd).pc == s.pc + 2,
        step::spec_step(s, rnd).status == Status::Running,
{
    let op = step::spec_fetch(s);
    let px = s.v[step::op_x(op)] as int;
    let py = s.v[step::op_y(op)] as int;
    lemma_draw_collision_characterized(s.mem, s.gfx, s.index, px, py, step::op_n(op));
}

/// A sprite drawn on an all-off framebuffer reports no collision: VF is never
/// falsely set by a first draw.
pub proof fn lemma_draw_on_blank_never_collides(
    mem: Seq<u8>,
    g: Seq<u8>,
    idx: int,
    px: int,
    py: int,
    rows: int,
)
    requires
        g.len() == 2048,
        0 <= px,
        0 <= py,
        0 <= rows,
        forall|p: int| 0 <= p < 2048 ==> g[p] == 0,
    ensures
        !step::draw_sprite(mem, g, idx, px, py, rows).1,
{
    lemma_draw_collision_characterized(mem, g, idx, px, py, rows);
}

} // verus!
