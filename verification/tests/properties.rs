use emu86::Emulator;
use emu86::Register;
use emu86::RegisterError;
use emu86::active_mnemonics;

const BYTE_IDS: [Register; 8] = [
    Register::AL,
    Register::AH,
    Register::CL,
    Register::CH,
    Register::DL,
    Register::DH,
    Register::BL,
    Register::BH,
];

const WORD_IDS: [Register; 8] = [
    Register::EAX,
    Register::ECX,
    Register::EDX,
    Register::EBX,
    Register::ESP,
    Register::EBP,
    Register::ESI,
    Register::EDI,
];

#[test]
fn write8_read8_round_trip() {
    for id in BYTE_IDS {
        for v in [0u8, 1, 0x7f, 0x80, 0xab, 0xff] {
            let mut emu = Emulator::new(64, 0, 0);
            emu.set_register8(id, v);
            assert_eq!(Ok(v), emu.get_register8(id));
        }
    }
}

#[test]
fn sub_byte_independence() {
    let mut emu = Emulator::new(64, 0, 0);
    emu.set_register8(Register::AH, 0x5a);
    emu.set_register8(Register::AL, 0x11);
    assert_eq!(Ok(0x5a), emu.get_register8(Register::AH));
    emu.set_register8(Register::AH, 0x22);
    assert_eq!(Ok(0x11), emu.get_register8(Register::AL));
    assert_eq!(Ok(0x22), emu.get_register8(Register::AH));
}

#[test]
fn write32_read32_round_trip() {
    for id in WORD_IDS {
        for w in [0u32, 1, 0xdead_beef, 0xffff_ffff] {
            let mut emu = Emulator::new(64, 0, 0);
            emu.set_register32(id, w);
            assert_eq!(Ok(w), emu.get_register32(id));
        }
    }
}

#[test]
fn partial_write_preserves_other_bytes() {
    let mut emu = Emulator::new(64, 0, 0);
    emu.set_register32(Register::EAX, 0xAABBCCDD);
    emu.set_register8(Register::AL, 0x11);
    assert_eq!(Ok(0xAABBCC11), emu.get_register32(Register::EAX));
    emu.set_register8(Register::AH, 0x22);
    assert_eq!(Ok(0xAABB2211), emu.get_register32(Register::EAX));
}

#[test]
fn wrong_width_is_rejected_and_harmless() {
    let mut emu = Emulator::new(64, 0, 0);
    emu.set_register32(Register::EAX, 0x01020304);
    assert_eq!(
        Err(RegisterError::UnknownRegister),
        emu.get_register8(Register::EAX)
    );
    assert_eq!(
        Err(RegisterError::UnknownRegister),
        emu.get_register32(Register::AL)
    );
    emu.set_register8(Register::EAX, 0xff);
    emu.set_register32(Register::AL, 0xffff_ffff);
    assert_eq!(Ok(0x01020304), emu.get_register32(Register::EAX));
}

#[test]
fn remap_names_owning_register() {
    assert_eq!(Register::EAX, Register::AL.remap());
    assert_eq!(Register::EAX, Register::AH.remap());
    assert_eq!(Register::ECX, Register::CL.remap());
    assert_eq!(Register::ECX, Register::CH.remap());
    assert_eq!(Register::EDX, Register::DL.remap());
    assert_eq!(Register::EDX, Register::DH.remap());
    assert_eq!(Register::EBX, Register::BL.remap());
    assert_eq!(Register::EBX, Register::BH.remap());
    assert_eq!(Register::ESP, Register::ESP.remap());
    assert_eq!(Register::EDI, Register::EDI.remap());
}

#[test]
fn register_mnemonics() {
    assert_eq!("AL", Register::AL.name());
    assert_eq!("BH", Register::BH.name());
    assert_eq!("EAX", Register::EAX.name());
    assert_eq!("EDI", Register::EDI.name());
}

#[test]
fn flag_decoding_cf_zf() {
    let names = active_mnemonics(0x0000_0041);
    assert_eq!(vec!["CF", "ZF"], names);
}

#[test]
fn flag_decoding_empty() {
    assert_eq!(Vec::<&str>::new(), active_mnemonics(0));
}

#[test]
fn flag_decoding_iopl_reported_once() {
    assert_eq!(vec!["IOPL"], active_mnemonics(0x0000_1000));
    assert_eq!(vec!["IOPL"], active_mnemonics(0x0000_2000));
    assert_eq!(vec!["IOPL"], active_mnemonics(0x0000_3000));
}

#[test]
fn flag_decoding_high_bit() {
    assert_eq!(vec!["AI"], active_mnemonics(0x8000_0000));
}

#[test]
fn flag_decoding_all_in_bit_order() {
    let names = active_mnemonics(0xffff_ffff);
    assert_eq!(
        vec![
            "CF", "PF", "AF", "ZF", "SF", "TF", "IF", "DF", "OF", "IOPL", "NT", "MD", "RF", "VM",
            "AC", "VIF", "VIP", "ID", "AI"
        ],
        names
    );
}

#[test]
fn loader_appends_in_order() {
    let mut emu = Emulator::new(16, 0, 0);
    emu.read_binary(&[1, 2, 3]);
    emu.read_binary(&[4, 5]);
    assert_eq!(&vec![1u8, 2, 3, 4, 5], emu.memory());
}

#[test]
fn constructor_invariant() {
    let emu = Emulator::new(1024, 0x7c00, 0x7c00);
    assert_eq!(Ok(0x7c00), emu.get_register32(Register::ESP));
    for id in [
        Register::EAX,
        Register::ECX,
        Register::EDX,
        Register::EBX,
        Register::EBP,
        Register::ESI,
        Register::EDI,
    ] {
        assert_eq!(Ok(0), emu.get_register32(id));
    }
    assert_eq!(0x7c00, emu.instruction_pointer());
    assert_eq!(0, emu.eflags_word());
    assert_eq!(0, emu.memory().len());
}

#[test]
fn snapshot_deterministic() {
    let mut emu = Emulator::new(1024, 0x7c00, 0x7c00);
    emu.set_register32(Register::EBX, 0x1234_5678);
    emu.read_binary(&[0x90, 0xeb, 0xfe]);
    let first = emu.snapshot();
    let second = emu.snapshot();
    assert_eq!(first, second);
    assert_eq!(first.as_bytes(), second.as_bytes());
}

#[test]
fn snapshot_exact_text() {
    let mut emu = Emulator::new(1024, 0x7c00, 0x7c00);
    emu.set_register32(Register::EAX, 0x0123_4567);
    emu.set_register32(Register::ECX, 0x89AB_CDEF);
    let expected = "Emulator\n\
                    <Registers>\n  \
                    EAX 0x01234567\n  \
                    ECX 0x89ABCDEF\n  \
                    EDX 0x00000000\n  \
                    EBX 0x00000000\n  \
                    ESP 0x00007C00\n  \
                    EBP 0x00000000\n  \
                    ESI 0x00000000\n  \
                    EDI 0x00000000\n\
                    <EFlags>\n  \
                    0x00000000 []\n\
                    <EIP>\n  \
                    0x00007C00\n\
                    <Memory>\n";
    assert_eq!(expected, emu.snapshot());
}
