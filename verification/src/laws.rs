use vstd::prelude::*;

use crate::machine::MachineView;
use crate::machine::spec_read_byte;
use crate::machine::spec_write_byte;
use crate::registers::Register;

verus! {

/// An 8-bit write followed by an 8-bit read of the same identifier yields
/// the written byte.
pub proof fn lemma_write8_then_read8(m: MachineView, id: Register, v: u8)
    requires
        m.wf(),
        id.is_byte_id(),
    ensures
        m.write8(id, v).read8(id) == v,
{
    let s = m.regs[id.slot()];
    let off = id.offset();
    assert(m.write8(id, v).regs[id.slot()] == spec_write_byte(s, off, v));
    assert(spec_read_byte(spec_write_byte(s, off, v), off) == v) by (bit_vector)
        requires
            off == 0 || off == 8,
    ;
}

/// Sub-byte independence: an 8-bit write leaves the byte of every other
/// 8-bit identifier as it was, whether that identifier shares the owning
/// slot (a different byte of the same word) or lives in another slot.
pub proof fn lemma_write8_independent(m: MachineView, id: Register, other: Register, v: u8)
    requires
        m.wf(),
        id.is_byte_id(),
        other.is_byte_id(),
        other != id,
    ensures
        m.write8(id, v).read8(other) == m.read8(other),
{
    if id.slot() == other.slot() {
        let s = m.regs[id.slot()];
        let off = id.offset();
        let off2 = other.offset();
        assert(off != off2);
        assert(spec_read_byte(spec_write_byte(s, off, v), off2) == spec_read_byte(s, off2))
            by (bit_vector)
            requires
                off == 0 || off == 8,
                off2 == 0 || off2 == 8,
                off != off2,
        ;
    } else {
        assert(m.write8(id, v).regs[other.slot()] == m.regs[other.slot()]);
    }
}

/// Partial-write preservation: an 8-bit write changes nothing but its
/// designated byte. The other three bytes of the owning slot keep their
/// values, and every other slot is untouched.
pub proof fn lemma_write8_preserves_rest(m: MachineView, id: Register, v: u8, k: u32)
    requires
        m.wf(),
        id.is_byte_id(),
        k == 0 || k == 8 || k == 16 || k == 24,
        k != id.offset(),
    ensures
        spec_read_byte(m.write8(id, v).regs[id.slot()], k) == spec_read_byte(m.regs[id.slot()], k),
        forall|j: int| 0 <= j < 8 && j != id.slot() ==> m.write8(id, v).regs[j] == m.regs[j],
{
    let s = m.regs[id.slot()];
    let off = id.offset();
    assert(spec_read_byte(spec_write_byte(s, off, v), k) == spec_read_byte(s, k)) by (bit_vector)
        requires
            off == 0 || off == 8,
            k == 0 || k == 8 || k == 16 || k == 24,
            k != off,
    ;
}

/// A 32-bit write followed by a 32-bit read of the same identifier yields
/// the written word, and every other slot is untouched.
pub proof fn lemma_write32_then_read32(m: MachineView, id: Register, w: u32)
    requires
        m.wf(),
        !id.is_byte_id(),
    ensures
        m.write32(id, w).read32(id) == w,
        forall|j: int| 0 <= j < 8 && j != id.slot() ==> m.write32(id, w).regs[j] == m.regs[j],
{
}

/// Loader append order: two loads append both binaries to memory in call
/// order, and equal one load of their concatenation.
pub proof fn lemma_load_appends_in_order(m: MachineView, a: Seq<u8>, b: Seq<u8>)
    ensures
        m.load(a).load(b).memory == m.memory + a + b,
        m.load(a).load(b) == m.load(a + b),
{
    assert((m.memory + a) + b =~= m.memory + (a + b));
}

} // verus!
