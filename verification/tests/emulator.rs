use emu86::Emulator;
use emu86::Register;

#[test]
fn test_read_binary() {
    let mut emu = Emulator::new(1024 * 1024, 0x7c00, 0x7c00);
    let mut binary = [0u8; 1024];
    for (i, b) in binary.iter_mut().enumerate() {
        *b = i as u8;
    }
    emu.read_binary(&binary);
    for i in 0..binary.len() {
        assert_eq!(binary.get(i), emu.memory().get(i));
    }
}

#[test]
fn test_set_get_register() {
    let mut emu = Emulator::new(1024, 0x7c00, 0x7c00);
    assert_eq!(Ok(0u8), emu.get_register8(Register::AL));
    assert_eq!(Ok(0u8), emu.get_register8(Register::AH));

    emu.set_register8(Register::AL, 8u8);
    assert_eq!(Ok(8u8), emu.get_register8(Register::AL));
    emu.set_register8(Register::AH, 8u8);
    assert_eq!(Ok(8u8), emu.get_register8(Register::AH));

    // AL fills bits 0-7 and AH bits 8-15 of EAX, so EAX reads 8 | 8 << 8.
    assert_eq!(Ok(2056u32), emu.get_register32(Register::EAX));
}
