use vstd::prelude::*;

use crate::registers::Register;
use crate::registers::RegisterError;

verus! {

/// Mathematical image of the machine: the eight 32-bit register slots in the
/// fixed storage order EAX, ECX, EDX, EBX, ESP, EBP, ESI, EDI; the raw EFLAGS
/// word; the loaded memory contents; and the instruction pointer.
#[verifier::ext_equal]
pub struct MachineView {
    pub regs: Seq<u32>,
    pub eflags: u32,
    pub memory: Seq<u8>,
    pub eip: u32,
}

/// The byte at bit offset `off` of a 32-bit slot, as a value below 256.
pub open spec fn spec_read_byte(slot: u32, off: u32) -> u32 {
    (slot >> off) & 0xFF
}

/// The slot with the byte at bit offset `off` replaced by `v` and the other
/// three bytes kept.
pub open spec fn spec_write_byte(slot: u32, off: u32, v: u8) -> u32 {
    (slot & !(0xFFu32 << off)) | ((v as u32) << off)
}

impl MachineView {
    /// The register file always holds exactly eight slots.
    pub open spec fn wf(self) -> bool {
        self.regs.len() == 8
    }

    /// The byte an 8-bit identifier addresses.
    pub open spec fn read8(self, id: Register) -> u32 {
        spec_read_byte(self.regs[id.slot()], id.offset())
    }

    /// The machine after an 8-bit write: only the addressed byte of the
    /// owning slot changes.
    pub open spec fn write8(self, id: Register, v: u8) -> MachineView {
        MachineView {
            regs: self.regs.update(id.slot(), spec_write_byte(self.regs[id.slot()], id.offset(), v)),
            ..self
        }
    }

    /// The word a 32-bit identifier addresses.
    pub open spec fn read32(self, id: Register) -> u32 {
        self.regs[id.slot()]
    }

    /// The machine after a 32-bit write: the whole slot is replaced.
    pub open spec fn write32(self, id: Register, v: u32) -> MachineView {
        MachineView { regs: self.regs.update(id.slot(), v), ..self }
    }

    /// The machine after a binary load: the bytes are appended, in order, to
    /// the end of the current memory content.
    pub open spec fn load(self, bytes: Seq<u8>) -> MachineView {
        MachineView { memory: self.memory + bytes, ..self }
    }
}

/// The machine state handed to a future execution unit: register file,
/// EFLAGS word, linear memory, and instruction pointer, as one aggregate.
pub struct Emulator {
    registers: [u32; 8],
    eflags: u32,
    memory: Vec<u8>,
    eip: u32,
}

impl View for Emulator {
    type V = MachineView;

    closed spec fn view(&self) -> MachineView {
        MachineView {
            regs: self.registers@,
            eflags: self.eflags,
            memory: self.memory@,
            eip: self.eip,
        }
    }
}

impl Emulator {
    /// Constructs the machine: memory reserved for `ram_size` bytes but
    /// logically empty, ESP seeded from `esp`, every other register and the
    /// flags word zero, and the instruction pointer set to `eip`.
    pub fn new(ram_size: usize, eip: u32, esp: u32) -> (r: Emulator)
        ensures
            r@.wf(),
            r@.regs[Register::ESP.slot()] == esp,
            forall|i: int| 0 <= i < 8 && i != Register::ESP.slot() ==> r@.regs[i] == 0,
            r@.eflags == 0,
            r@.memory == Seq::<u8>::empty(),
            r@.eip == eip,
    {
        let registers: [u32; 8] = [0, 0, 0, 0, esp, 0, 0, 0];
        Emulator {
            registers,
            eflags: 0u32,
            memory: Vec::<u8>::with_capacity(ram_size),
            eip,
        }
    }

    /// Appends the binary to the end of memory, byte by byte, in order.
    /// Capacity is not yet enforced: a load past the reserved size is
    /// permitted in this version and only grows the buffer.
    pub fn read_binary(&mut self, binary: &[u8])
        ensures
            final(self)@ == old(self)@.load(binary@),
    {
        let ghost orig: MachineView = self@;
        let n = binary.len();
        let mut i: usize = 0;
        while i < n
            invariant
                i <= n,
                n == binary@.len(),
                self@.regs == orig.regs,
                self@.eflags == orig.eflags,
                self@.eip == orig.eip,
                self@.memory == orig.memory + binary@.subrange(0, i as int),
            decreases n - i,
        {
            self.memory.push(binary[i]);
            proof {
                assert(orig.memory + binary@.subrange(0, i as int + 1) =~= (orig.memory
                    + binary@.subrange(0, i as int)).push(binary@[i as int]));
            }
            i += 1;
        }
        proof {
            assert(binary@.subrange(0, n as int) =~= binary@);
            assert(final(self)@ =~= old(self)@.load(binary@));
        }
    }

    /// Replaces only the byte the 8-bit identifier addresses, preserving the
    /// other three bytes of the owning slot and every other slot. Handed an
    /// identifier that does not resolve to a byte, the operation is a no-op.
    pub fn set_register8(&mut self, index: Register, value: u8)
        ensures
            index.is_byte_id() ==> final(self)@ == old(self)@.write8(index, value),
            !index.is_byte_id() ==> final(self)@ == old(self)@,
    {
        if index.is_byte_width() {
            let slot = index.slot_index();
            let off = index.bit_offset();
            assert(off == 0 || off == 8);
            let cur = self.registers[slot];
            let updated = (cur & !(0xFFu32 << off)) | ((value as u32) << off);
            self.registers[slot] = updated;
        }
    }

    /// Returns the byte the 8-bit identifier addresses; an identifier of the
    /// wrong width does not resolve and yields `UnknownRegister`.
    pub fn get_register8(&self, index: Register) -> (r: Result<u8, RegisterError>)
        ensures
            index.is_byte_id() ==> self@.read8(index) < 256 && r == Ok::<u8, RegisterError>(
                self@.read8(index) as u8,
            ),
            !index.is_byte_id() ==> r == Err::<u8, RegisterError>(RegisterError::UnknownRegister),
    {
        if index.is_byte_width() {
            let slot = index.slot_index();
            let off = index.bit_offset();
            let word = self.registers[slot];
            assert((word >> off) & 0xFF < 256) by (bit_vector);
            Ok(((word >> off) & 0xFF) as u8)
        } else {
            Err(RegisterError::UnknownRegister)
        }
    }

    /// Replaces the whole slot the 32-bit identifier addresses. Handed an
    /// 8-bit identifier, which does not resolve to a whole slot, the
    /// operation is a no-op.
    pub fn set_register32(&mut self, index: Register, value: u32)
        ensures
            !index.is_byte_id() ==> final(self)@ == old(self)@.write32(index, value),
            index.is_byte_id() ==> final(self)@ == old(self)@,
    {
        if !index.is_byte_width() {
            let slot = index.slot_index();
            self.registers[slot] = value;
        }
    }

    /// Returns the word the 32-bit identifier addresses; an 8-bit identifier
    /// does not resolve to a whole slot and yields `UnknownRegister`.
    pub fn get_register32(&self, index: Register) -> (r: Result<u32, RegisterError>)
        ensures
            !index.is_byte_id() ==> r == Ok::<u32, RegisterError>(self@.read32(index)),
            index.is_byte_id() ==> r == Err::<u32, RegisterError>(RegisterError::UnknownRegister),
    {
        if !index.is_byte_width() {
            let slot = index.slot_index();
            Ok(self.registers[slot])
        } else {
            Err(RegisterError::UnknownRegister)
        }
    }

    /// The word stored in the register file slot with the given index.
    pub(crate) fn reg_slot(&self, i: usize) -> (r: u32)
        requires
            i < 8,
        ensures
            r == self@.regs[i as int],
    {
        self.registers[i]
    }

    /// The memory contents loaded so far.
    pub fn memory(&self) -> (r: &Vec<u8>)
        ensures
            r@ == self@.memory,
    {
        &self.memory
    }

    /// The current instruction pointer.
    pub fn instruction_pointer(&self) -> (r: u32)
        ensures
            r == self@.eip,
    {
        self.eip
    }

    /// The raw EFLAGS word.
    pub fn eflags_word(&self) -> (r: u32)
        ensures
            r == self@.eflags,
    {
        self.eflags
    }
}

} // verus!
