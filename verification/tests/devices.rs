use rustgb::cartridge::{load, read_header, LoadError};
use rustgb::joypad::{Joypad, JoypadKey};
use rustgb::memory::{Interrupt, Mbc};
use rustgb::serial::Serial;
use rustgb::timer::Timer;
use rustgb::CartridgeType;

#[test]
fn timer_overflow_reloads_and_interrupts() {
    let mut timer = Timer::new();
    timer.write(0xFF07, 0x05);
    timer.write(0xFF05, 0xFF);
    timer.write(0xFF06, 0xAB);
    let mut raised = 0;
    for _ in 0..4 {
        if timer.cycle() == Some(Interrupt::Timer) {
            raised += 1;
        }
    }
    assert_eq!(raised, 1);
    assert_eq!(timer.read(0xFF05), 0xAB);
    assert_eq!(timer.cycle(), None);
    assert_eq!(timer.read(0xFF05), 0xAC);
}

#[test]
fn timer_counts_at_the_selected_period() {
    for (tac, period) in [(0x04u8, 256usize), (0x05, 4), (0x06, 16), (0x07, 64)] {
        let mut timer = Timer::new();
        timer.write(0xFF07, tac);
        for _ in 0..(period * 10) {
            timer.cycle();
        }
        assert_eq!(timer.read(0xFF05), 10);
        assert_eq!(timer.read(0xFF07), tac);
    }
}

#[test]
fn timer_stands_still_when_disabled() {
    let mut timer = Timer::new();
    timer.write(0xFF07, 0x01);
    for _ in 0..1000 {
        assert_eq!(timer.cycle(), None);
    }
    assert_eq!(timer.read(0xFF05), 0);
}

#[test]
fn divider_steps_every_64_cycles_and_clears_on_write() {
    let mut timer = Timer::default();
    for _ in 0..63 {
        timer.cycle();
    }
    assert_eq!(timer.read(0xFF04), 0);
    timer.cycle();
    assert_eq!(timer.read(0xFF04), 1);
    for _ in 0..(64 * 9) {
        timer.cycle();
    }
    assert_eq!(timer.read(0xFF04), 10);
    timer.write(0xFF04, 0x77);
    assert_eq!(timer.read(0xFF04), 0);
    for _ in 0..(64 * 256) {
        timer.cycle();
    }
    assert_eq!(timer.read(0xFF04), 0);
}

#[test]
fn serial_stores_its_two_bytes() {
    let mut serial = Serial::default();
    assert_eq!(serial.read(0xFF01), 0x00);
    assert_eq!(serial.read(0xFF02), 0x7E);
    serial.write(0xFF01, 0x42);
    serial.write(0xFF02, 0x81);
    assert_eq!(serial.read(0xFF01), 0x42);
    assert_eq!(serial.read(0xFF02), 0xFF);
}

#[test]
fn joypad_reads_the_selected_group() {
    let mut joypad = Joypad::new();
    assert_eq!(joypad.read(), 0xFF);
    joypad.keydown(JoypadKey::A);
    joypad.keydown(JoypadKey::Left);
    assert_eq!(joypad.read() & 0x0F, 0x0F);
    joypad.write(0x10);
    assert_eq!(joypad.read(), 0xDE);
    joypad.write(0x20);
    assert_eq!(joypad.read(), 0xED);
    joypad.write(0x00);
    assert_eq!(joypad.read(), 0xCC);
    joypad.write(0x30);
    assert_eq!(joypad.read(), 0xFF);
    joypad.keyup(JoypadKey::A);
    joypad.keyup(JoypadKey::Left);
    joypad.write(0x00);
    assert_eq!(joypad.read(), 0xCF);
}

#[test]
fn joypad_raises_its_interrupt_on_a_falling_edge() {
    let mut joypad = Joypad::default();
    joypad.write(0x20);
    assert_eq!(joypad.interrupt, 0);
    joypad.keydown(JoypadKey::Start);
    assert_eq!(joypad.interrupt, 0);
    joypad.keydown(JoypadKey::Down);
    assert_eq!(joypad.interrupt, 0x10);
    joypad.interrupt = 0;
    joypad.keydown(JoypadKey::Up);
    assert_eq!(joypad.interrupt, 0x10);
    joypad.interrupt = 0;
    joypad.keydown(JoypadKey::Up);
    assert_eq!(joypad.interrupt, 0);
    joypad.keyup(JoypadKey::Up);
    assert_eq!(joypad.interrupt, 0);
    joypad.write(0x10);
    assert_eq!(joypad.interrupt, 0);
    assert_eq!(joypad.read(), 0xD7);
}

#[test]
fn joypad_keys_drive_their_bits() {
    let keys = [
        (JoypadKey::Right, true, 1u8),
        (JoypadKey::Left, true, 2),
        (JoypadKey::Up, true, 4),
        (JoypadKey::Down, true, 8),
        (JoypadKey::A, false, 1),
        (JoypadKey::B, false, 2),
        (JoypadKey::Select, false, 4),
        (JoypadKey::Start, false, 8),
    ];
    for (key, direction, bit) in keys {
        assert_eq!(key.direction(), direction);
        assert_eq!(key.bit(), bit);
        let mut joypad = Joypad::new();
        joypad.keydown(key);
        if direction {
            assert_eq!((joypad.dpad, joypad.buttons), (0x0F & !bit, 0x0F));
        } else {
            assert_eq!((joypad.dpad, joypad.buttons), (0x0F, 0x0F & !bit));
        }
        joypad.keyup(key);
        assert_eq!((joypad.dpad, joypad.buttons), (0x0F, 0x0F));
    }
}

#[test]
fn interrupt_lines() {
    assert_eq!(u8::from(Interrupt::VBlank), 0x01);
    assert_eq!(u8::from(Interrupt::LcdStat), 0x02);
    assert_eq!(u8::from(Interrupt::Timer), 0x04);
    assert_eq!(u8::from(Interrupt::Serial), 0x08);
    assert_eq!(u8::from(Interrupt::Joypad), 0x10);
    assert_eq!(Interrupt::VBlank.handler(), 0x40);
    assert_eq!(Interrupt::LcdStat.handler(), 0x48);
    assert_eq!(Interrupt::Timer.handler(), 0x50);
    assert_eq!(Interrupt::Serial.handler(), 0x58);
    assert_eq!(Interrupt::Joypad.handler(), 0x60);
    assert_eq!(Interrupt::select(0x00), None);
    assert_eq!(Interrupt::select(0xE0), None);
    assert_eq!(Interrupt::select(0x1F), Some(Interrupt::VBlank));
    assert_eq!(Interrupt::select(0x1E), Some(Interrupt::LcdStat));
    assert_eq!(Interrupt::select(0x14), Some(Interrupt::Timer));
    assert_eq!(Interrupt::select(0x18), Some(Interrupt::Serial));
    assert_eq!(Interrupt::select(0xF0), Some(Interrupt::Joypad));
}

#[test]
fn cartridge_types() {
    assert_eq!(CartridgeType::from(0x00), CartridgeType::RomOnly);
    assert_eq!(CartridgeType::from(0x01), CartridgeType::Mbc1);
    assert_eq!(CartridgeType::from(0x13), CartridgeType::Mbc3RamBattery);
    assert_eq!(CartridgeType::from(0x1E), CartridgeType::Mbc5RumbleSramBattery);
    assert_eq!(CartridgeType::from(0xFC), CartridgeType::PocketCamera);
    assert_eq!(CartridgeType::from(0xFF), CartridgeType::HuC1RamBattery);
    assert!(CartridgeType::is_known(0x22));
    assert!(!CartridgeType::is_known(0x04));
    assert!(!CartridgeType::is_known(0x21));
    assert!(!CartridgeType::is_known(0xFB));
    let mut known = 0;
    for code in 0..=255u8 {
        if CartridgeType::is_known(code) {
            known += 1;
        }
    }
    assert_eq!(known, 28);
    assert!(CartridgeType::RomOnly.supported());
    assert!(!CartridgeType::Mbc1.supported());
}

fn image(len: usize, kind: u8) -> Vec<u8> {
    let mut rom = vec![0u8; len];
    if len > 0x147 {
        rom[0x147] = kind;
        for (i, c) in b"TETRIS".iter().enumerate() {
            rom[0x134 + i] = *c;
        }
    }
    rom
}

#[test]
fn header_gives_title_and_kind() {
    let rom = image(0x8000, 0x00);
    let header = read_header(&rom).unwrap();
    assert_eq!(header.kind, CartridgeType::RomOnly);
    assert_eq!(header.title.len(), 15);
    assert_eq!(header.title[0..6], *b"TETRIS");
    assert_eq!(header.title[6..15], [0u8; 9]);
    let rom = image(0x148, 0x13);
    let header = read_header(&rom).unwrap();
    assert_eq!(header.kind, CartridgeType::Mbc3RamBattery);
}

#[test]
fn header_errors() {
    assert_eq!(read_header(&image(0x147, 0)).err(), Some(LoadError::TooShort));
    assert_eq!(read_header(&Vec::new()).err(), Some(LoadError::TooShort));
    assert_eq!(read_header(&image(0x8000, 0x04)).err(), Some(LoadError::UnknownType(0x04)));
    assert_eq!(load(image(0x100, 0)).err(), Some(LoadError::TooShort));
    assert_eq!(load(image(0x8000, 0xFB)).err(), Some(LoadError::UnknownType(0xFB)));
    assert_eq!(
        load(image(0x8000, 0x01)).err(),
        Some(LoadError::Unsupported(CartridgeType::Mbc1))
    );
    assert_eq!(
        load(image(0x8000, 0xFF)).err(),
        Some(LoadError::Unsupported(CartridgeType::HuC1RamBattery))
    );
}

#[test]
fn plain_rom_image_loads() {
    let mut rom = image(0x8000, 0x00);
    rom[0x7FFF] = 0x5A;
    let mbc = load(rom).unwrap();
    assert_eq!(mbc.read_rom(0x0134), b'T');
    assert_eq!(mbc.read_rom(0x7FFF), 0x5A);
    assert_eq!(mbc.rom.len(), 0x8000);
}
