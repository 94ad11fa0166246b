use vstd::prelude::*;

verus! {

/// The identifiers a caller may use to address the register file: the eight
/// 32-bit general-purpose registers EAX..EDI and the eight 8-bit registers
/// that alias a single byte of EAX, ECX, EDX or EBX. Low-byte identifiers
/// (AL, CL, DL, BL) address bits 0-7 of their owning slot; high-byte
/// identifiers (AH, CH, DH, BH) address bits 8-15.
#[derive(Clone, Copy, Debug, PartialEq, Eq, Structural)]
pub enum Register {
    AL,
    AH,
    CL,
    CH,
    DL,
    DH,
    BL,
    BH,
    EAX,
    ECX,
    EDX,
    EBX,
    ESP,
    EBP,
    ESI,
    EDI,
}

/// Reported when an identifier of the wrong width is handed to a register
/// accessor: an 8-bit read or write needs an 8-bit identifier, a 32-bit one
/// needs a 32-bit identifier. Never fatal; the failed operation leaves the
/// machine unchanged.
#[derive(Clone, Copy, Debug, PartialEq, Eq, Structural)]
pub enum RegisterError {
    UnknownRegister,
}

impl Register {
    /// True of the 8-bit identifiers, which alias one byte of a 32-bit slot.
    pub open spec fn is_byte_id(self) -> bool {
        match self {
            Register::AL | Register::AH | Register::CL | Register::CH | Register::DL
                | Register::DH | Register::BL | Register::BH => true,
            _ => false,
        }
    }

    /// Index of the owning storage slot in the register file, under the fixed
    /// storage order EAX, ECX, EDX, EBX, ESP, EBP, ESI, EDI. This table is
    /// load-bearing: a 32-bit identifier's slot is its storage index.
    pub open spec fn slot(self) -> int {
        match self {
            Register::AL | Register::AH | Register::EAX => 0,
            Register::CL | Register::CH | Register::ECX => 1,
            Register::DL | Register::DH | Register::EDX => 2,
            Register::BL | Register::BH | Register::EBX => 3,
            Register::ESP => 4,
            Register::EBP => 5,
            Register::ESI => 6,
            Register::EDI => 7,
        }
    }

    /// Bit offset of the byte an identifier addresses within its owning slot:
    /// 8 for the high-byte identifiers, 0 otherwise.
    pub open spec fn offset(self) -> u32 {
        match self {
            Register::AH | Register::CH | Register::DH | Register::BH => 8,
            _ => 0,
        }
    }

    /// The 32-bit register that owns this identifier's storage slot.
    pub open spec fn spec_owner(self) -> Register {
        match self {
            Register::AL | Register::AH | Register::EAX => Register::EAX,
            Register::CL | Register::CH | Register::ECX => Register::ECX,
            Register::DL | Register::DH | Register::EDX => Register::EDX,
            Register::BL | Register::BH | Register::EBX => Register::EBX,
            Register::ESP => Register::ESP,
            Register::EBP => Register::EBP,
            Register::ESI => Register::ESI,
            Register::EDI => Register::EDI,
        }
    }

    /// The identifier's mnemonic.
    pub open spec fn spec_name(self) -> Seq<char> {
        match self {
            Register::AL => "AL"@,
            Register::AH => "AH"@,
            Register::CL => "CL"@,
            Register::CH => "CH"@,
            Register::DL => "DL"@,
            Register::DH => "DH"@,
            Register::BL => "BL"@,
            Register::BH => "BH"@,
            Register::EAX => "EAX"@,
            Register::ECX => "ECX"@,
            Register::EDX => "EDX"@,
            Register::EBX => "EBX"@,
            Register::ESP => "ESP"@,
            Register::EBP => "EBP"@,
            Register::ESI => "ESI"@,
            Register::EDI => "EDI"@,
        }
    }

    /// The identifier's mnemonic, for diagnostics.
    pub fn name(&self) -> (r: &'static str)
        ensures
            r@ == self.spec_name(),
    {
        match self {
            Register::AL => "AL",
            Register::AH => "AH",
            Register::CL => "CL",
            Register::CH => "CH",
            Register::DL => "DL",
            Register::DH => "DH",
            Register::BL => "BL",
            Register::BH => "BH",
            Register::EAX => "EAX",
            Register::ECX => "ECX",
            Register::EDX => "EDX",
            Register::EBX => "EBX",
            Register::ESP => "ESP",
            Register::EBP => "EBP",
            Register::ESI => "ESI",
            Register::EDI => "EDI",
        }
    }

    /// Maps an identifier to the 32-bit register owning its storage.
    pub fn remap(&self) -> (r: Register)
        ensures
            r == self.spec_owner(),
            !r.is_byte_id(),
            r.slot() == self.slot(),
    {
        match self {
            Register::AL | Register::AH | Register::EAX => Register::EAX,
            Register::CL | Register::CH | Register::ECX => Register::ECX,
            Register::DL | Register::DH | Register::EDX => Register::EDX,
            Register::BL | Register::BH | Register::EBX => Register::EBX,
            Register::ESP => Register::ESP,
            Register::EBP => Register::EBP,
            Register::ESI => Register::ESI,
            Register::EDI => Register::EDI,
        }
    }

    /// True of the 8-bit identifiers.
    pub fn is_byte_width(&self) -> (b: bool)
        ensures
            b == self.is_byte_id(),
    {
        match self {
            Register::AL | Register::AH | Register::CL | Register::CH | Register::DL
                | Register::DH | Register::BL | Register::BH => true,
            _ => false,
        }
    }

    /// Index of the owning slot, as an array index.
    pub(crate) fn slot_index(&self) -> (i: usize)
        ensures
            i as int == self.slot(),
    {
        match self {
            Register::AL | Register::AH | Register::EAX => 0,
            Register::CL | Register::CH | Register::ECX => 1,
            Register::DL | Register::DH | Register::EDX => 2,
            Register::BL | Register::BH | Register::EBX => 3,
            Register::ESP => 4,
            Register::EBP => 5,
            Register::ESI => 6,
            Register::EDI => 7,
        }
    }

    /// Bit offset of the addressed byte within the owning slot.
    pub(crate) fn bit_offset(&self) -> (o: u32)
        ensures
            o == self.offset(),
    {
        match self {
            Register::AH | Register::CH | Register::DH | Register::BH => 8,
            _ => 0,
        }
    }
}

} // verus!
