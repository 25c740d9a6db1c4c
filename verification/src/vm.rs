//! The executable machine and the proof that it follows `step::spec_step`.

use vstd::prelude::*;

use crate::font;
use crate::model::{CapacityError, Fault, Status, VmView};
use crate::rng;
use crate::step;

verus! {

/// The largest pressed key index, scanning all sixteen keys.
fn highest_pressed(key: &[bool; 16]) -> (r: Option<u8>)
    ensures
        match r {
            Option::None => step::last_pressed(key@, 16) == -1,
            Option::Some(k) => k < 16 && step::last_pressed(key@, 16) == k as int,
        },
{
    let mut res: Option<u8> = None;
    let mut i: usize = 0;
    while i < 16
        invariant
            i <= 16,
            match res {
                Option::None => step::last_pressed(key@, i as int) == -1,
                Option::Some(k) => k < 16 && step::last_pressed(key@, i as int) == k as int,
            },
        decreases 16 - i,
    {
        if key[i] {
            res = Some(i as u8);
        }
        i = i + 1;
    }
    res
}

/// Whether sprite bit `k` (from the left) of row byte `b` is set.
fn bit_at(b: u8, k: usize) -> (r: bool)
    requires
        k < 8,
    ensures
        r == step::spec_bit(b, k as int),
{
    let w: u8 = if k == 0 { 128 } else if k == 1 { 64 } else if k == 2 { 32 } else if k == 3 { 16 }
        else if k == 4 { 8 } else if k == 5 { 4 } else if k == 6 { 2 } else { 1 };
    (b / w) % 2 == 1
}

/// The state of a freshly constructed machine: the font installed at the
/// bottom of memory, the program counter at the program origin 0x200, and
/// everything else zeroed.
pub open spec fn initial_vm() -> VmView {
    VmView {
        mem: Seq::new(4096, |i: int| if i < 80 { font::spec_font_at(i) } else { 0u8 }),
        v: Seq::new(16, |i: int| 0u8),
        index: 0,
        pc: 0x200,
        gfx: step::zero_gfx(),
        delay: 0,
        sound: 0,
        stack: Seq::new(16, |i: int| 0u16),
        sp: 0,
        key: Seq::new(16, |i: int| false),
        draw: false,
        status: Status::Running,
    }
}

/// The CHIP-8 virtual machine.
pub struct Chip8 {
    memory: [u8; 4096],
    v: [u8; 16],
    index: u16,
    pc: u16,
    gfx: [u8; 2048],
    delay_timer: u8,
    sound_timer: u8,
    stack: [u16; 16],
    sp: usize,
    key: [bool; 16],
    draw_flag: bool,
    status: Status,
}

impl View for Chip8 {
    type V = VmView;

    closed spec fn view(&self) -> VmView {
        VmView {
            mem: self.memory@,
            v: self.v@,
            index: self.index as int,
            pc: self.pc as int,
            gfx: self.gfx@,
            delay: self.delay_timer as int,
            sound: self.sound_timer as int,
            stack: self.stack@,
            sp: self.sp as int,
            key: self.key@,
            draw: self.draw_flag,
            status: self.status,
        }
    }
}

impl Chip8 {
    /// The machine's invariant, carried by every operation.
    pub open spec fn wf(&self) -> bool {
        self@.wf()
    }

    /// Construct a fresh machine with the font pre-loaded.
    pub fn new() -> (c: Chip8)
        ensures
            c.wf(),
            c@ == initial_vm(),
    {
        let mut c = Chip8 {
            memory: [0; 4096],
            v: [0; 16],
            index: 0,
            pc: 0x200,
            gfx: [0; 2048],
            delay_timer: 0,
            sound_timer: 0,
            stack: [0; 16],
            sp: 0,
            key: [false; 16],
            draw_flag: false,
            status: Status::Running,
        };
        let ghost c0 = c;
        let mut i: usize = 0;
        while i < 80
            invariant
                i <= 80,
                c.v == c0.v,
                c.index == c0.index,
                c.pc == c0.pc,
                c.gfx == c0.gfx,
                c.delay_timer == c0.delay_timer,
                c.sound_timer == c0.sound_timer,
                c.stack == c0.stack,
                c.sp == c0.sp,
                c.key == c0.key,
                c.draw_flag == c0.draw_flag,
                c.status == c0.status,
                forall|j: int| 0 <= j < i ==> c.memory@[j] == font::spec_font_at(j),
                forall|j: int| i <= j < 4096 ==> c.memory@[j] == 0,
            decreases 80 - i,
        {
            c.memory[i] = font::font_at(i);
            i += 1;
        }
        proof {
            assert(c@.mem =~= initial_vm().mem);
            assert(c@.v =~= initial_vm().v);
            assert(c@.gfx =~= initial_vm().gfx);
            assert(c@.stack =~= initial_vm().stack);
            assert(c@.key =~= initial_vm().key);
            assert(c@ =~= initial_vm());
        }
        c
    }

    /// Copy a ROM into memory at the program origin 0x200. A ROM longer than
    /// the 3584 bytes that fit past the origin is rejected whole: the machine
    /// is left exactly as it was.
    pub fn load_game(&mut self, rom: &Vec<u8>) -> (r: Result<(), CapacityError>)
        requires
            old(self).wf(),
        ensures
            final(self).wf(),
            r is Ok <==> rom@.len() <= 3584,
            rom@.len() <= 3584 ==> final(self)@ == (VmView {
                mem: step::write_block(old(self)@.mem, rom@, 512, rom@.len() as int),
                ..old(self)@
            }),
            rom@.len() <= 3584 ==> forall|i: int|
                0 <= i < rom@.len() ==> final(self)@.mem[512 + i] == rom@[i],
            rom@.len() > 3584 ==> final(self)@ == old(self)@,
    {
        if rom.len() > 3584 {
            return Err(CapacityError);
        }
        let n = rom.len();
        let mut i: usize = 0;
        while i < n
            invariant
                i <= n,
                n == rom@.len(),
                n <= 3584,
                self.v == old(self).v,
                self.index == old(self).index,
                self.pc == old(self).pc,
                self.gfx == old(self).gfx,
                self.delay_timer == old(self).delay_timer,
                self.sound_timer == old(self).sound_timer,
                self.stack == old(self).stack,
                self.sp == old(self).sp,
                self.key == old(self).key,
                self.draw_flag == old(self).draw_flag,
                self.status == old(self).status,
                forall|j: int| 0 <= j < 4096 && !(512 <= j < 512 + i)
                    ==> self.memory@[j] == old(self)@.mem[j],
                forall|j: int| 512 <= j < 512 + i ==> self.memory@[j] == rom@[j - 512],
            decreases n - i,
        {
            self.memory[512 + i] = rom[i];
            i += 1;
        }
        proof {
            assert(self@.mem =~= step::write_block(old(self)@.mem, rom@, 512, rom@.len() as int));
            assert(self@ =~= (VmView {
                mem: step::write_block(old(self)@.mem, rom@, 512, rom@.len() as int),
                ..old(self)@
            }));
        }
        Ok(())
    }

    /// One byte of memory.
    pub fn memory_byte(&self, addr: usize) -> (b: u8)
        requires
            addr < 4096,
        ensures
            b == self@.mem[addr as int],
    {
        self.memory[addr]
    }

    /// One general register.
    pub fn register(&self, i: usize) -> (b: u8)
        requires
            i < 16,
        ensures
            b == self@.v[i as int],
    {
        self.v[i]
    }

    /// The program counter.
    pub fn pc(&self) -> (p: u16)
        ensures
            p as int == self@.pc,
    {
        self.pc
    }

    /// The index register I.
    pub fn index_register(&self) -> (i: u16)
        ensures
            i as int == self@.index,
    {
        self.index
    }

    /// The call-stack depth.
    pub fn stack_depth(&self) -> (d: usize)
        ensures
            d as int == self@.sp,
    {
        self.sp
    }

    /// The delay timer.
    pub fn delay_timer(&self) -> (t: u8)
        ensures
            t as int == self@.delay,
    {
        self.delay_timer
    }

    /// The sound timer; a tone should play while it is non-zero.
    pub fn sound_timer(&self) -> (t: u8)
        ensures
            t as int == self@.sound,
    {
        self.sound_timer
    }

    /// One framebuffer pixel, row-major: `y * 64 + x`.
    pub fn pixel(&self, i: usize) -> (p: u8)
        requires
            i < 2048,
        ensures
            p == self@.gfx[i as int],
    {
        self.gfx[i]
    }

    /// The whole framebuffer, for presentation.
    pub fn framebuffer(&self) -> (g: &[u8; 2048])
        ensures
            g@ == self@.gfx,
    {
        &self.gfx
    }

    /// Whether the framebuffer changed since the driver last cleared the signal.
    pub fn draw_flag(&self) -> (d: bool)
        ensures
            d == self@.draw,
    {
        self.draw_flag
    }

    /// Acknowledge a presented frame: lower the redraw signal.
    pub fn clear_draw_flag(&mut self)
        requires
            old(self).wf(),
        ensures
            final(self).wf(),
            final(self)@ == (VmView { draw: false, ..old(self)@ }),
    {
        self.draw_flag = false;
        proof {
            assert(self@ =~= (VmView { draw: false, ..old(self)@ }));
        }
    }

    /// The execution status.
    pub fn status(&self) -> (s: Status)
        ensures
            s == self@.status,
    {
        self.status
    }

    /// Record one key transition from the driver.
    pub fn set_key(&mut self, k: usize, pressed: bool)
        requires
            old(self).wf(),
            k < 16,
        ensures
            final(self).wf(),
            final(self)@ == (VmView { key: old(self)@.key.update(k as int, pressed), ..old(self)@ }),
    {
        self.key[k] = pressed;
        proof {
            assert(self@ =~= (VmView { key: old(self)@.key.update(k as int, pressed), ..old(self)@ }));
        }
    }

    /// One 60 Hz timer tick from the driver: each timer counts down toward
    /// zero and stops there.
    pub fn tick_timers(&mut self)
        requires
            old(self).wf(),
        ensures
            final(self).wf(),
            final(self)@ == (VmView {
                delay: if old(self)@.delay > 0 { old(self)@.delay - 1 } else { 0 },
                sound: if old(self)@.sound > 0 { old(self)@.sound - 1 } else { 0 },
                ..old(self)@
            }),
    {
        if self.delay_timer > 0 {
            self.delay_timer = self.delay_timer - 1;
        }
        if self.sound_timer > 0 {
            self.sound_timer = self.sound_timer - 1;
        }
        proof {
            assert(self@ =~= (VmView {
                delay: if old(self)@.delay > 0 { old(self)@.delay - 1 } else { 0 },
                sound: if old(self)@.sound > 0 { old(self)@.sound - 1 } else { 0 },
                ..old(self)@
            }));
        }
    }

    /// Advance the machine by one cycle, drawing the step's random byte from
    /// the thread-local generator. Only the random-register instruction looks
    /// at the byte, so every other effect is pinned exactly by `spec_step`.
    pub fn emulate_cycle(&mut self)
        requires
            old(self).wf(),
        ensures
            final(self).wf(),
            exists|r: u8| final(self)@ == step::spec_step(old(self)@, r),
    {
        let r = rng::random_byte();
        self.step_with_random(r);
    }

    /// Advance the machine by one cycle with the given random byte; tests and
    /// drivers that want determinism supply their own source.
    pub fn step_with_random(&mut self, rnd: u8)
        requires
            old(self).wf(),
        ensures
            final(self).wf(),
            final(self)@ == step::spec_step(old(self)@, rnd),
    {
        match self.status {
            Status::Halted(_) => {
                return;
            },
            Status::AwaitingKey(x) => {
                match highest_pressed(&self.key) {
                    Option::Some(k) => {
                        self.v[x as usize] = k;
                        self.pc = self.pc + 2;
                        self.status = Status::Running;
                        proof {
                            assert(self@ =~= step::spec_step(old(self)@, rnd));
                        }
                    },
                    Option::None => {
                        proof {
                            assert(self@ =~= step::spec_step(old(self)@, rnd));
                        }
                    },
                }
                return;
            },
            Status::Running => {},
        }
        if self.pc >= 4095 {
            self.status = Status::Halted(Fault::OutOfBounds);
            proof {
                assert(self@ =~= step::spec_step(old(self)@, rnd));
            }
            return;
        }
        let hi = self.memory[self.pc as usize];
        let lo = self.memory[self.pc as usize + 1];
        let op: u16 = (hi as u16) * 256 + (lo as u16);
        proof {
            assert(op == step::spec_fetch(old(self)@));
        }
        let class: u16 = op / 0x1000;
        let x = ((op / 0x100) % 16) as usize;
        let nn: u8 = (op % 256) as u8;
        let nnn: u16 = op % 0x1000;
        if class == 0 {
            self.exec_misc(op);
        } else if class == 1 {
            self.pc = nnn;
        } else if class == 2 {
            if self.sp >= 16 {
                self.status = Status::Halted(Fault::OutOfBounds);
            } else {
                self.stack[self.sp] = self.pc;
                self.sp = self.sp + 1;
                self.pc = nnn;
            }
        } else if class == 3 {
            if self.v[x] == nn {
                self.pc = self.pc + 4;
            } else {
                self.pc = self.pc + 2;
            }
        } else if class == 4 {
            if self.v[x] != nn {
                self.pc = self.pc + 4;
            } else {
                self.pc = self.pc + 2;
            }
        } else if class == 5 {
            let y = ((op / 0x10) % 16) as usize;
            if op % 16 != 0 {
                self.status = Status::Halted(Fault::UnknownOpcode);
            } else if self.v[x] == self.v[y] {
                self.pc = self.pc + 4;
            } else {
                self.pc = self.pc + 2;
            }
        } else if class == 6 {
            self.v[x] = nn;
            self.pc = self.pc + 2;
        } else if class == 7 {
            let sum: u16 = self.v[x] as u16 + nn as u16;
            self.v[x] = (sum % 256) as u8;
            self.pc = self.pc + 2;
        } else if class == 8 {
            self.exec_alu(op);
        } else if class == 9 {
            let y = ((op / 0x10) % 16) as usize;
            if op % 16 != 0 {
                self.status = Status::Halted(Fault::UnknownOpcode);
            } else if self.v[x] != self.v[y] {
                self.pc = self.pc + 4;
            } else {
                self.pc = self.pc + 2;
            }
        } else if class == 0xA {
            self.index = nnn;
            self.pc = self.pc + 2;
        } else if class == 0xB {
            self.pc = nnn + self.v[0] as u16 + 2;
        } else if class == 0xC {
            self.v[x] = rnd & nn;
            self.pc = self.pc + 2;
        } else if class == 0xD {
            self.exec_draw(op);
        } else if class == 0xE {
            self.exec_key(op);
        } else {
            self.exec_sys(op);
        }
        proof {
            assert(self@ =~= step::spec_step(old(self)@, rnd));
        }
    }

    /// Class 0: clear screen, return from subroutine, or unknown.
    fn exec_misc(&mut self, op: u16)
        requires
            old(self).wf(),
            old(self)@.status == Status::Running,
            old(self)@.pc + 1 < 4096,
        ensures
            final(self).wf(),
            final(self)@ == step::spec_exec_misc(old(self)@, op),
    {
        if op == 0x00E0 {
            self.gfx = [0; 2048];
            self.draw_flag = true;
            self.pc = self.pc + 2;
            proof {
                assert(self.gfx@ =~= step::zero_gfx());
                assert(self@ =~= step::spec_exec_misc(old(self)@, op));
            }
        } else if op == 0x00EE {
            if self.sp == 0 {
                self.status = Status::Halted(Fault::OutOfBounds);
            } else {
                self.sp = self.sp - 1;
                self.pc = self.stack[self.sp] + 2;
            }
        } else {
            self.status = Status::Halted(Fault::UnknownOpcode);
        }
    }

    /// Class 8: moves, bitwise operations, add with carry, subtractions with
    /// the no-borrow flag, and shifts. The flag lands in VF first, then the
    /// operand write reads the registers as they stand, as the semantics says.
    fn exec_alu(&mut self, op: u16)
        requires
            old(self).wf(),
            old(self)@.status == Status::Running,
            old(self)@.pc + 1 < 4096,
        ensures
            final(self).wf(),
            final(self)@ == step::spec_exec_alu(old(self)@, op),
    {
        let x = ((op / 0x100) % 16) as usize;
        let y = ((op / 0x10) % 16) as usize;
        let n: u16 = op % 16;
        if n == 0 {
            self.v[x] = self.v[y];
            self.pc = self.pc + 2;
        } else if n == 1 {
            self.v[x] = self.v[x] | self.v[y];
            self.pc = self.pc + 2;
        } else if n == 2 {
            self.v[x] = self.v[x] & self.v[y];
            self.pc = self.pc + 2;
        } else if n == 3 {
            self.v[x] = self.v[x] ^ self.v[y];
            self.pc = self.pc + 2;
        } else if n == 4 {
            let carry: u8 = if self.v[x] as u16 + self.v[y] as u16 > 255 { 1 } else { 0 };
            self.v[15] = carry;
            let sum: u16 = self.v[x] as u16 + self.v[y] as u16;
            self.v[x] = (sum % 256) as u8;
            self.pc = self.pc + 2;
        } else if n == 5 {
            let no_borrow: u8 = if self.v[x] > self.v[y] { 1 } else { 0 };
            self.v[15] = no_borrow;
            let a = self.v[x];
            let b = self.v[y];
            self.v[x] = if a >= b { a - b } else { ((a as u16 + 256) - b as u16) as u8 };
            self.pc = self.pc + 2;
        } else if n == 6 {
            let lsb: u8 = if self.v[x] % 2 == 1 { 1 } else { 0 };
            self.v[15] = lsb;
            self.v[x] = self.v[x] / 2;
            self.pc = self.pc + 2;
        } else if n == 7 {
            let no_borrow: u8 = if self.v[y] > self.v[x] { 1 } else { 0 };
            self.v[15] = no_borrow;
            let a = self.v[x];
            let b = self.v[y];
            self.v[x] = if b >= a { b - a } else { ((b as u16 + 256) - a as u16) as u8 };
            self.pc = self.pc + 2;
        } else if n == 0xE {
            let msb: u8 = if self.v[x] >= 128 { 1 } else { 0 };
            self.v[15] = msb;
            let doubled: u16 = self.v[x] as u16 * 2;
            self.v[x] = (doubled % 256) as u8;
            self.pc = self.pc + 2;
        } else {
            self.status = Status::Halted(Fault::UnknownOpcode);
        }
    }

    /// Class E: skip on the state of the key named by Vx.
    fn exec_key(&mut self, op: u16)
        requires
            old(self).wf(),
            old(self)@.status == Status::Running,
            old(self)@.pc + 1 < 4096,
        ensures
            final(self).wf(),
            final(self)@ == step::spec_exec_key(old(self)@, op),
    {
        let x = ((op / 0x100) % 16) as usize;
        let nn: u8 = (op % 256) as u8;
        if nn == 0x9E {
            let vx = self.v[x];
            if vx >= 16 {
                self.status = Status::Halted(Fault::OutOfBounds);
            } else if self.key[vx as usize] {
                self.pc = self.pc + 4;
            } else {
                self.pc = self.pc + 2;
            }
        } else if nn == 0xA1 {
            let vx = self.v[x];
            if vx >= 16 {
                self.status = Status::Halted(Fault::OutOfBounds);
            } else if self.key[vx as usize] {
                self.pc = self.pc + 2;
            } else {
                self.pc = self.pc + 4;
            }
        } else {
            self.status = Status::Halted(Fault::UnknownOpcode);
        }
    }

    /// Class F: timers, the blocking key wait, index arithmetic, font lookup,
    /// binary-coded decimal, and register block store/load.
    fn exec_sys(&mut self, op: u16)
        requires
            old(self).wf(),
            old(self)@.status == Status::Running,
            old(self)@.pc + 1 < 4096,
        ensures
            final(self).wf(),
            final(self)@ == step::spec_exec_sys(old(self)@, op),
    {
        let x = ((op / 0x100) % 16) as usize;
        let nn: u8 = (op % 256) as u8;
        if nn == 0x07 {
            self.v[x] = self.delay_timer;
            self.pc = self.pc + 2;
        } else if nn == 0x0A {
            match highest_pressed(&self.key) {
                Option::Some(k) => {
                    self.v[x] = k;
                    self.pc = self.pc + 2;
                },
                Option::None => {
                    self.status = Status::AwaitingKey(x as u8);
                },
            }
        } else if nn == 0x15 {
            self.delay_timer = self.v[x];
            self.pc = self.pc + 2;
        } else if nn == 0x18 {
            self.sound_timer = self.v[x];
            self.pc = self.pc + 2;
        } else if nn == 0x1E {
            let target: usize = self.index as usize + self.v[x] as usize;
            if target >= 0x10000 {
                self.status = Status::Halted(Fault::OutOfBounds);
            } else {
                self.index = target as u16;
                self.pc = self.pc + 2;
            }
        } else if nn == 0x29 {
            self.index = self.v[x] as u16 * 5;
            self.pc = self.pc + 2;
        } else if nn == 0x33 {
            let idx = self.index as usize;
            if idx + 3 > 4096 {
                self.status = Status::Halted(Fault::OutOfBounds);
            } else {
                let vx = self.v[x];
                self.memory[idx] = vx / 100;
                self.memory[idx + 1] = (vx / 10) % 10;
                self.memory[idx + 2] = vx % 10;
                self.pc = self.pc + 2;
            }
        } else if nn == 0x55 {
            let idx = self.index as usize;
            if idx + x + 1 > 4096 {
                self.status = Status::Halted(Fault::OutOfBounds);
            } else {
                let cnt = x + 1;
                let mut i: usize = 0;
                while i < cnt
                    invariant
                        i <= cnt,
                        cnt == x + 1,
                        x < 16,
                        idx + cnt <= 4096,
                        self.v == old(self).v,
                        self.index == old(self).index,
                        self.pc == old(self).pc,
                        self.gfx == old(self).gfx,
                        self.delay_timer == old(self).delay_timer,
                        self.sound_timer == old(self).sound_timer,
                        self.stack == old(self).stack,
                        self.sp == old(self).sp,
                        self.key == old(self).key,
                        self.draw_flag == old(self).draw_flag,
                        self.status == old(self).status,
                        forall|j: int| 0 <= j < 4096 && !(idx <= j < idx + i)
                            ==> self.memory@[j] == old(self)@.mem[j],
                        forall|j: int| idx <= j < idx + i
                            ==> self.memory@[j] == old(self)@.v[j - idx],
                    decreases cnt - i,
                {
                    self.memory[idx + i] = self.v[i];
                    i = i + 1;
                }
                self.pc = self.pc + 2;
                proof {
                    assert(self.memory@ =~= step::write_block(
                        old(self)@.mem,
                        old(self)@.v,
                        old(self)@.index,
                        step::op_x(op) + 1,
                    ));
                }
            }
        } else if nn == 0x65 {
            let idx = self.index as usize;
            if idx + x + 1 > 4096 {
                self.status = Status::Halted(Fault::OutOfBounds);
            } else {
                let cnt = x + 1;
                let mut i: usize = 0;
                while i < cnt
                    invariant
                        i <= cnt,
                        cnt == x + 1,
                        x < 16,
                        idx + cnt <= 4096,
                        self.memory == old(self).memory,
                        self.index == old(self).index,
                        self.pc == old(self).pc,
                        self.gfx == old(self).gfx,
                        self.delay_timer == old(self).delay_timer,
                        self.sound_timer == old(self).sound_timer,
                        self.stack == old(self).stack,
                        self.sp == old(self).sp,
                        self.key == old(self).key,
                        self.draw_flag == old(self).draw_flag,
                        self.status == old(self).status,
                        forall|j: int| i <= j < 16 ==> self.v@[j] == old(self)@.v[j],
                        forall|j: int| 0 <= j < i ==> self.v@[j] == old(self)@.mem[idx + j],
                    decreases cnt - i,
                {
                    self.v[i] = self.memory[idx + i];
                    i = i + 1;
                }
                self.pc = self.pc + 2;
                proof {
                    assert(self.v@ =~= step::load_regs(
                        old(self)@.v,
                        old(self)@.mem,
                        old(self)@.index,
                        step::op_x(op) + 1,
                    ));
                }
            }
        } else {
            self.status = Status::Halted(Fault::UnknownOpcode);
        }
    }

    /// Class D: XOR-draw an `n`-row sprite from `mem[I ..]` at (Vx, Vy),
    /// setting VF to 1 exactly when a drawn pixel hit a lit one.
    fn exec_draw(&mut self, op: u16)
        requires
            old(self).wf(),
            old(self)@.status == Status::Running,
            old(self)@.pc + 1 < 4096,
        ensures
            final(self).wf(),
            final(self)@ == step::spec_exec_draw(old(self)@, op),
    {
        let n = (op % 16) as usize;
        let idx = self.index as usize;
        if idx + n > 4096 {
            self.status = Status::Halted(Fault::OutOfBounds);
            return;
        }
        let x = ((op / 0x100) % 16) as usize;
        let y = ((op / 0x10) % 16) as usize;
        let px = self.v[x] as usize;
        let py = self.v[y] as usize;
        let ghost m0 = self@.mem;
        let ghost g0 = self@.gfx;
        let mut collided: bool = false;
        let mut yl: usize = 0;
        while yl < n
            invariant
                yl <= n,
                n < 16,
                idx + n <= 4096,
                idx == old(self)@.index,
                px == old(self)@.v[step::op_x(op)],
                py == old(self)@.v[step::op_y(op)],
                m0 == old(self)@.mem,
                g0 == old(self)@.gfx,
                self.memory == old(self).memory,
                self.v == old(self).v,
                self.index == old(self).index,
                self.pc == old(self).pc,
                self.delay_timer == old(self).delay_timer,
                self.sound_timer == old(self).sound_timer,
                self.stack == old(self).stack,
                self.sp == old(self).sp,
                self.key == old(self).key,
                self.draw_flag == old(self).draw_flag,
                self.status == old(self).status,
                forall|p: int| 0 <= p < 2048 ==> self.gfx@[p] == 0 || self.gfx@[p] == 1,
                self.gfx@ == step::draw_sprite(m0, g0, idx as int, px as int, py as int, yl as int).0,
                collided == step::draw_sprite(m0, g0, idx as int, px as int, py as int, yl as int).1,
            decreases n - yl,
        {
            let byte = self.memory[idx + yl];
            let ghost row_gfx = self.gfx@;
            let ghost row_col = collided;
            let mut xl: usize = 0;
            while xl < 8
                invariant
                    xl <= 8,
                    yl < n,
                    n < 16,
                    idx + n <= 4096,
                    byte == m0[idx + yl],
                    px < 256,
                    py < 256,
                    self.memory == old(self).memory,
                    self.v == old(self).v,
                    self.index == old(self).index,
                    self.pc == old(self).pc,
                    self.delay_timer == old(self).delay_timer,
                    self.sound_timer == old(self).sound_timer,
                    self.stack == old(self).stack,
                    self.sp == old(self).sp,
                    self.key == old(self).key,
                    self.draw_flag == old(self).draw_flag,
                    self.status == old(self).status,
                    forall|p: int| 0 <= p < 2048 ==> self.gfx@[p] == 0 || self.gfx@[p] == 1,
                    self.gfx@ == step::draw_row(row_gfx, byte, px as int, py + yl, xl as int).0,
                    collided == (row_col || step::draw_row(
                        row_gfx,
                        byte,
                        px as int,
                        py + yl,
                        xl as int,
                    ).1),
                decreases 8 - xl,
            {
                if bit_at(byte, xl) {
                    let pos = px + xl + (py + yl) * 64;
                    if pos < 2048 {
                        if self.gfx[pos] == 1 {
                            self.gfx[pos] = 0;
                            collided = true;
                        } else {
                            self.gfx[pos] = 1;
                        }
                    }
                }
                xl = xl + 1;
            }
            yl = yl + 1;
        }
        self.v[15] = if collided { 1 } else { 0 };
        self.draw_flag = true;
        self.pc = self.pc + 2;
        proof {
            assert(self@ =~= step::spec_exec_draw(old(self)@, op));
        }
    }
}

} // verus!
