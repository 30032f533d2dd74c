use nes_emulator::bus::{zeroed, Bus};
use nes_emulator::cartridge::Cartridge;

/// A cartridge with one program bank filled with `fill`, except for its
/// first byte and its last byte.
fn cartridge(first: u8, fill: u8, last: u8) -> Cartridge {
    let mut img = vec![0x4E, 0x45, 0x53, 0x1A, 1, 0];
    img.resize(16, 0);
    img.resize(16 + 0x4000, fill);
    img[16] = first;
    img[16 + 0x3FFF] = last;
    match Cartridge::parse(&img) {
        Ok(cart) => cart,
        Err(e) => panic!("the image was refused: {:?}", e),
    }
}

#[test]
fn new_bus_reads_zero_everywhere() {
    let bus = Bus::new();
    for addr in [0x0000u16, 0x07FF, 0x0800, 0x1FFF, 0x2000, 0x4017, 0x4020, 0x7FFF, 0x8000, 0xFFFF] {
        assert_eq!(bus.read(addr), 0);
    }
}

#[test]
fn zeroed_has_the_length_asked_for() {
    assert_eq!(zeroed(0), Vec::<u8>::new());
    assert_eq!(zeroed(3), vec![0u8, 0, 0]);
}

#[test]
fn ram_is_written_and_read_back() {
    let mut bus = Bus::new();
    bus.write(0x0000, 0x11);
    bus.write(0x07FF, 0x22);
    assert_eq!(bus.read(0x0000), 0x11);
    assert_eq!(bus.read(0x07FF), 0x22);
    assert_eq!(bus.read(0x0001), 0x00);
}

#[test]
fn ram_is_mirrored_every_two_kilobytes() {
    let mut bus = Bus::new();
    bus.write(0x0123, 0xAB);
    assert_eq!(bus.read(0x0923), 0xAB);
    assert_eq!(bus.read(0x1123), 0xAB);
    assert_eq!(bus.read(0x1923), 0xAB);
    bus.write(0x1FFF, 0xCD);
    assert_eq!(bus.read(0x07FF), 0xCD);
    bus.write(0x0800, 0xEF);
    assert_eq!(bus.read(0x0000), 0xEF);
}

#[test]
fn register_windows_read_zero_and_absorb_writes() {
    let mut bus = Bus::new();
    for addr in [0x2000u16, 0x2007, 0x30FF, 0x3FFF, 0x4000, 0x4017, 0x4018, 0x401F] {
        bus.write(addr, 0x5A);
        assert_eq!(bus.read(addr), 0);
    }
    assert_eq!(bus.read(0x0000), 0);
}

#[test]
fn unmapped_cartridge_space_reads_zero() {
    let mut bus = Bus::new();
    bus.write(0x4020, 0x77);
    bus.write(0x6000, 0x77);
    bus.write(0x7FFF, 0x77);
    assert_eq!(bus.read(0x4020), 0);
    assert_eq!(bus.read(0x6000), 0);
    assert_eq!(bus.read(0x7FFF), 0);
}

#[test]
fn program_rom_is_read_only() {
    let mut bus = Bus::new();
    bus.insert(&cartridge(0xA9, 0x00, 0x80));
    assert_eq!(bus.read(0x8000), 0xA9);
    assert_eq!(bus.read(0xC000), 0xA9);
    assert_eq!(bus.read(0xBFFF), 0x80);
    assert_eq!(bus.read(0xFFFF), 0x80);
    bus.write(0x8000, 0x00);
    bus.write(0xFFFF, 0x00);
    assert_eq!(bus.read(0x8000), 0xA9);
    assert_eq!(bus.read(0xFFFF), 0x80);
}

#[test]
fn mapping_a_cartridge_keeps_ram() {
    let mut bus = Bus::new();
    bus.write(0x0010, 0x42);
    bus.insert(&cartridge(0xEA, 0xEA, 0xEA));
    assert_eq!(bus.read(0x0010), 0x42);
    assert_eq!(bus.read(0x9000), 0xEA);
}

#[test]
fn word_is_little_endian() {
    let mut bus = Bus::new();
    bus.write(0x0010, 0x34);
    bus.write(0x0011, 0x12);
    assert_eq!(bus.read_word(0x0010), 0x1234);
}

#[test]
fn word_at_the_top_of_memory_wraps_to_address_zero() {
    let mut bus = Bus::new();
    bus.insert(&cartridge(0x00, 0x00, 0x34));
    bus.write(0x0000, 0x12);
    assert_eq!(bus.read_word(0xFFFF), 0x1234);
}

#[test]
fn vectors_are_the_last_six_bytes() {
    assert_eq!(nes_emulator::bus::NMI_VECTOR, 0xFFFA);
    assert_eq!(nes_emulator::bus::RESET_VECTOR, 0xFFFC);
    assert_eq!(nes_emulator::bus::IRQ_VECTOR, 0xFFFE);
}
