use vstd::prelude::*;
use crate::emulator::cpu::{CpuView, interrupt_mask};
use crate::emulator::cpu::stepping::{
    interrupts_served, lemma_push_high_registers, lemma_service_registers, push_high_next,
    serve_from,
};

verus! {

/// The interrupts below number `i` are not pending.
pub open spec fn none_pending_below(pending: u8, i: int) -> bool {
    forall|j: int| 0 <= j < i ==> pending & #[trigger] interrupt_mask(j) == 0
}

/// Interrupts that are not pending are passed over.
proof fn lemma_skip_not_pending(c: CpuView, pending: u8, j: int, i: int, times: Seq<u64>)
    requires
        0 <= j <= i,
        forall|k: int| j <= k < i ==> pending & #[trigger] interrupt_mask(k) == 0,
    ensures
        serve_from(c, pending, j, times) == serve_from(c, pending, i, times),
    decreases i - j,
{
    if j < i {
        reveal(serve_from);
        assert(pending & interrupt_mask(j) == 0);
        lemma_skip_not_pending(c, pending, j + 1, i, times);
    }
}

/// Interrupt priority: of the pending interrupts (bit `i` of IF & IE, mask 2^i), the one of
/// lowest number is served. PC is pushed (SP moves down by two) and jumps to that
/// interrupt's vector 0x40 + 8i. (With SP at 0 the first push lands on IE and may cancel
/// the service, so SP is taken nonzero here.)
pub proof fn lemma_interrupt_priority(c: CpuView, pending: u8, i: int, times: Seq<u64>)
    requires
        0 <= i < 5,
        pending & interrupt_mask(i) != 0,
        none_pending_below(pending, i),
        c.reg.sp != 0,
    ensures
        interrupt_mask(i) as nat == vstd::arithmetic::power2::pow2(i as nat),
        serve_from(c, pending, 0, times).reg.pc == 0x40 + 8 * i,
        serve_from(c, pending, 0, times).reg.sp == c.reg.sp.wrapping_sub(2),
        serve_from(c, pending, 0, times).ime == c.ime,
{
    vstd::arithmetic::power2::lemma2_to64();
    lemma_skip_not_pending(c, pending, 0, i, times);
    reveal(serve_from);
    let c1 = push_high_next(c, times[0]);
    lemma_push_high_registers(c, times[0]);
    assert(c1.reg.sp != 0xFFFF);
    lemma_service_registers(c1, c.reg.pc, i, times[1], times[2]);
}

/// With IME set, handling the pending interrupts clears IME and serves the one of lowest
/// number: PC pushed, then PC at its vector 0x40 + 8i (SP taken nonzero, as above).
pub proof fn lemma_interrupts_served_priority(c: CpuView, pending: u8, i: int, times: Seq<u64>)
    requires
        c.ime,
        0 <= i < 5,
        pending & interrupt_mask(i) != 0,
        none_pending_below(pending, i),
        c.reg.sp != 0,
    ensures
        interrupts_served(c, pending, times).reg.pc == 0x40 + 8 * i,
        interrupts_served(c, pending, times).reg.sp == c.reg.sp.wrapping_sub(2),
        !interrupts_served(c, pending, times).ime,
{
    reveal(interrupts_served);
    let w = crate::emulator::cpu::stepping::woken(c);
    lemma_interrupt_priority(CpuView { ime: false, ..w }, pending, i, times);
}

} // verus!
