//! What holds of the stack of the 65C02: what is pushed is pulled, and stack
//! operations touch nothing but the stack pointer and the stack page.

use vstd::prelude::*;
use crate::st2205u::addr_space::SpaceView;
use crate::st2205u::wdc_65c02::cpu::add8;
use crate::st2205u::wdc_65c02::cpu::CoreView;
use crate::st2205u::wdc_65c02::cpu::Registers;

verus! {

/// An operation on the stack.
pub enum StackOp {
    PushU8(u8),
    PopU8,
    PushU16(u16),
    PopU16,
}

impl StackOp {
    /// The number of bytes by which the operation grows the stack.
    pub open spec fn grows(self) -> int {
        match self {
            StackOp::PushU8(_) => 1,
            StackOp::PopU8 => -1,
            StackOp::PushU16(_) => 2,
            StackOp::PopU16 => -2,
        }
    }
}

/// The number of bytes by which the operations `ops` grow the stack.
pub open spec fn stack_growth(ops: Seq<StackOp>) -> int
    decreases ops.len(),
{
    if ops.len() == 0 {
        0
    } else {
        stack_growth(ops.drop_last()) + ops.last().grows()
    }
}

impl CoreView {
    /// The processor after the stack operation `op`.
    #[verifier::opaque]
    pub open spec fn stack_op(self, op: StackOp) -> CoreView {
        match op {
            StackOp::PushU8(val) => self.push_u8(val),
            StackOp::PopU8 => self.pop_u8().0,
            StackOp::PushU16(val) => self.push_u16(val),
            StackOp::PopU16 => self.pop_u16().0,
        }
    }

    /// The processor after the stack operations `ops`, in their order.
    pub open spec fn stack_ops(self, ops: Seq<StackOp>) -> CoreView
        decreases ops.len(),
    {
        if ops.len() == 0 {
            self
        } else {
            self.stack_ops(ops.drop_last()).stack_op(ops.last())
        }
    }

    /// Whether `other` is this processor but for the stack pointer and the
    /// bytes of the stack page.
    #[verifier::opaque]
    pub open spec fn same_outside_stack(self, other: CoreView) -> bool {
        &&& other.frequency == self.frequency
        &&& other.cycles == self.cycles
        &&& other.flags == self.flags
        &&& other.registers == (Registers { sp: other.registers.sp, ..self.registers })
        &&& other.mem == (SpaceView { ram: other.mem.ram, ..self.mem })
        &&& other.mem.ram.len() == self.mem.ram.len()
        &&& forall|i: int|
            0 <= i < self.mem.ram.len() && !(0x100 <= i <= 0x1FF) ==> other.mem.ram[i]
                == self.mem.ram[i]
    }
}

/// A byte that is pushed is the byte that is pulled next, and the
/// processor is then as before but for that byte of the stack page.
pub proof fn lemma_push_pop_u8(core: CoreView, val: u8)
    requires
        core.mem.ram.len() == crate::st2205u::addr_space::RAM_SIZE,
    ensures
        core.push_u8(val).pop_u8().1 == val,
        core.push_u8(val).pop_u8().0 == (CoreView {
            mem: SpaceView {
                ram: core.mem.ram.update(core.registers.stack_address() as int, val),
                ..core.mem
            },
            ..core
        }),
{
    let address = core.registers.stack_address();
    crate::st2205u::addr_space::lemma_low_ram_access(core.mem, address, val);
    let pushed = core.push_u8(val);
    assert(add8(add8(core.registers.sp, -1), 1) == core.registers.sp);
    crate::st2205u::addr_space::lemma_low_ram_access(pushed.mem, address, val);
}

/// A word that is pushed is the word that is pulled next, and the stack
/// pointer is then as before.
pub proof fn lemma_push_pop_u16(core: CoreView, val: u16)
    requires
        core.mem.ram.len() == crate::st2205u::addr_space::RAM_SIZE,
    ensures
        core.push_u16(val).pop_u16().1 == val,
        core.push_u16(val).pop_u16().0.registers == core.registers,
        core.same_outside_stack(core.push_u16(val).pop_u16().0),
{
    reveal(CoreView::same_outside_stack);
    let high = (val / 256) as u8;
    let low = (val % 256) as u8;
    let first = core.push_u8(high);
    lemma_stack_byte(core, high);
    lemma_outside_stack_same_len(core, first);
    lemma_push_pop_u8(first, low);
    let inner = first.push_u8(low).pop_u8().0;
    crate::st2205u::addr_space::lemma_low_ram_access(
        core.mem,
        core.registers.stack_address(),
        high,
    );
    crate::st2205u::addr_space::lemma_low_ram_access(
        inner.mem,
        core.registers.stack_address(),
        high,
    );
    assert(add8(add8(core.registers.sp, -1), 1) == core.registers.sp);
    let popped = inner.pop_u8();
    assert(popped.1 == high);
    assert(core.push_u16(val).pop_u16().0 == popped.0);
}

/// A push or a pull of one byte moves the stack pointer by one, within
/// the stack page, and changes nothing else but a byte of the stack page.
pub proof fn lemma_stack_byte(core: CoreView, val: u8)
    requires
        core.mem.ram.len() == crate::st2205u::addr_space::RAM_SIZE,
    ensures
        core.same_outside_stack(core.push_u8(val)),
        core.push_u8(val).registers.sp == add8(core.registers.sp, -1),
        core.same_outside_stack(core.pop_u8().0),
        core.pop_u8().0.registers.sp == add8(core.registers.sp, 1),
{
    reveal(CoreView::same_outside_stack);
    crate::st2205u::addr_space::lemma_low_ram_access(
        core.mem,
        core.registers.stack_address(),
        val,
    );
    let raised = core.with_sp(add8(core.registers.sp, 1));
    crate::st2205u::addr_space::lemma_low_ram_access(
        raised.mem,
        raised.registers.stack_address(),
        0,
    );
}

/// One stack operation moves the stack pointer by the bytes it grows the
/// stack by, within the stack page, and changes nothing else but bytes
/// of the stack page.
pub proof fn lemma_stack_op(core: CoreView, op: StackOp)
    requires
        core.mem.ram.len() == crate::st2205u::addr_space::RAM_SIZE,
    ensures
        core.same_outside_stack(core.stack_op(op)),
        core.stack_op(op).registers.sp == add8(core.registers.sp, -op.grows()),
{
    reveal(CoreView::stack_op);
    let sp = core.registers.sp;
    match op {
        StackOp::PushU8(val) => {
            lemma_stack_byte(core, val);
        },
        StackOp::PopU8 => {
            lemma_stack_byte(core, 0);
        },
        StackOp::PushU16(val) => {
            let high = (val / 256) as u8;
            let low = (val % 256) as u8;
            lemma_stack_byte(core, high);
            let first = core.push_u8(high);
            lemma_outside_stack_same_len(core, first);
            lemma_stack_byte(first, low);
            lemma_outside_stack_transitive(core, first, first.push_u8(low));
            lemma_add8_twice(sp, -1, -1);
        },
        StackOp::PopU16 => {
            lemma_stack_byte(core, 0);
            let first = core.pop_u8().0;
            lemma_outside_stack_same_len(core, first);
            lemma_stack_byte(first, 0);
            lemma_outside_stack_transitive(core, first, first.pop_u8().0);
            lemma_add8_twice(sp, 1, 1);
        },
    }
}

/// Being the same but for the stack is transitive.
pub proof fn lemma_outside_stack_transitive(first: CoreView, second: CoreView, third: CoreView)
    requires
        first.same_outside_stack(second),
        second.same_outside_stack(third),
    ensures
        first.same_outside_stack(third),
{
    reveal(CoreView::same_outside_stack);
}

/// A processor is the same as itself; and one that is the same but for
/// the stack, with the same stack pointer, has the same registers.
pub proof fn lemma_outside_stack_registers(first: CoreView, second: CoreView)
    ensures
        first.same_outside_stack(first),
        first.same_outside_stack(second) && second.registers.sp == first.registers.sp
            ==> second.registers == first.registers,
{
    reveal(CoreView::same_outside_stack);
}

/// Adding within 8 bits twice is adding the sum within 8 bits.
pub proof fn lemma_add8_twice(x: u8, a: int, b: int)
    ensures
        add8(add8(x, a), b) == add8(x, a + b),
{
    let q = (x + a) / 256;
    vstd::arithmetic::div_mod::lemma_fundamental_div_mod(x + a, 256);
    vstd::arithmetic::div_mod::lemma_mod_bound(x + a, 256);
    vstd::arithmetic::div_mod::lemma_mod_bound(x + a + b, 256);
    vstd::arithmetic::div_mod::lemma_mod_multiples_vanish(-q, x + a + b, 256);
    assert(256 * (-q) + (x + a + b) == (x + a) % 256 + b);
}

/// After any stack operations the stack pointer has moved by the bytes
/// that they grow the stack by, within the stack page, and nothing else
/// has changed but bytes of the stack page. After pushes and pulls
/// that balance, the stack pointer is as before.
pub proof fn lemma_stack_ops(core: CoreView, ops: Seq<StackOp>)
    requires
        core.mem.ram.len() == crate::st2205u::addr_space::RAM_SIZE,
    ensures
        core.same_outside_stack(core.stack_ops(ops)),
        core.stack_ops(ops).registers.sp == add8(core.registers.sp, -stack_growth(ops)),
        stack_growth(ops) == 0 ==> core.stack_ops(ops).registers == core.registers,
    decreases ops.len(),
{
    lemma_outside_stack_registers(core, core.stack_ops(ops));
    if ops.len() > 0 {
        lemma_stack_ops(core, ops.drop_last());
        let before = core.stack_ops(ops.drop_last());
        lemma_outside_stack_same_len(core, before);
        lemma_stack_op(before, ops.last());
        lemma_outside_stack_transitive(core, before, before.stack_op(ops.last()));
        lemma_add8_twice(
            core.registers.sp,
            -stack_growth(ops.drop_last()),
            -ops.last().grows(),
        );
    } else {
        assert(add8(core.registers.sp, 0) == core.registers.sp);
    }
    if stack_growth(ops) == 0 {
        assert(add8(core.registers.sp, 0) == core.registers.sp);
    }
}

/// A processor that is the same but for the stack has as much RAM.
pub proof fn lemma_outside_stack_same_len(first: CoreView, second: CoreView)
    requires
        first.same_outside_stack(second),
    ensures
        second.mem.ram.len() == first.mem.ram.len(),
{
    reveal(CoreView::same_outside_stack);
}

} // verus!
