//! The mathematical model of the machine: a ghost view of every component of
//! the state, the execution status, the error values, and the well-formedness
//! condition that construction establishes and every operation preserves.

use vstd::prelude::*;

verus! {

/// Why the machine halted.
#[derive(Clone, Copy, Debug, PartialEq, Eq, Structural)]
pub enum Fault {
    /// The fetched instruction word matches no opcode pattern.
    UnknownOpcode,
    /// A computed memory, stack or key index fell outside its valid range.
    OutOfBounds,
}

/// The execution status of the machine.
///
/// `AwaitingKey(x)` makes the blocking key-wait instruction's suspension
/// explicit: the machine stays put, and each further cycle only re-checks the
/// keypad until a pressed key resolves the wait into register `x`.
/// `Halted` is terminal: further cycles leave the machine unchanged.
#[derive(Clone, Copy, Debug, PartialEq, Eq, Structural)]
pub enum Status {
    Running,
    AwaitingKey(u8),
    Halted(Fault),
}

/// A ROM too large for the memory region past the program origin.
#[derive(Clone, Copy, Debug, PartialEq, Eq, Structural)]
pub struct CapacityError;

/// The ghost view of the whole machine state.
#[verifier::ext_equal]
pub ghost struct VmView {
    /// The 4096-byte addressable memory.
    pub mem: Seq<u8>,
    /// The sixteen 8-bit general registers V0-VF; VF doubles as the
    /// carry/borrow/shift/collision flag.
    pub v: Seq<u8>,
    /// The 16-bit index register I.
    pub index: int,
    /// The 16-bit program counter: address of the next instruction to fetch.
    pub pc: int,
    /// The 64x32 framebuffer, row-major, each entry 0 or 1.
    pub gfx: Seq<u8>,
    /// The delay timer, counting down toward zero at the driver's cadence.
    pub delay: int,
    /// The sound timer; a tone plays while it is non-zero.
    pub sound: int,
    /// The sixteen saved return addresses.
    pub stack: Seq<u16>,
    /// The stack depth: number of live entries in `stack`.
    pub sp: int,
    /// The sixteen key states, true while pressed.
    pub key: Seq<bool>,
    /// The redraw signal: set when the framebuffer changed, cleared by the
    /// driver after presenting.
    pub draw: bool,
    /// Running, awaiting a key, or halted on a fault.
    pub status: Status,
}

impl VmView {
    /// Well-formedness: every component has its fixed size, every scalar sits
    /// in its range, pixels are 0 or 1, saved return addresses are fetchable,
    /// and a pending key wait names a real register at a fetchable address.
    pub open spec fn wf(self) -> bool {
        &&& self.mem.len() == 4096
        &&& self.v.len() == 16
        &&& self.gfx.len() == 2048
        &&& self.stack.len() == 16
        &&& self.key.len() == 16
        &&& 0 <= self.index < 0x10000
        &&& 0 <= self.pc < 0x10000
        &&& 0 <= self.delay < 256
        &&& 0 <= self.sound < 256
        &&& 0 <= self.sp <= 16
        &&& forall|p: int| 0 <= p < 2048 ==> self.gfx[p] == 0 || self.gfx[p] == 1
        &&& forall|i: int| 0 <= i < 16 ==> self.stack[i] < 4095
        &&& match self.status {
            Status::AwaitingKey(x) => x < 16 && self.pc + 1 < 4096,
            _ => true,
        }
    }
}

} // verus!
