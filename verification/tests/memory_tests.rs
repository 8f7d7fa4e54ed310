use gameboy::memory::MemoryBus;

#[test]
fn new_bus_is_blank() {
    let bus = MemoryBus::new();
    assert_eq!(bus.rom.len(), 0x8000);
    for addr in [0x0000u16, 0x7FFF, 0x8000, 0xA000, 0xC000, 0xE000, 0xFE00, 0xFF00, 0xFF80, 0xFFFF] {
        assert_eq!(bus.read_byte(addr), 0);
    }
    assert_eq!(bus.read_byte(0xFEA0), 0xFF);
    assert_eq!(bus.read_byte(0xFEFF), 0xFF);
}

#[test]
fn write_then_read_in_each_region() {
    let mut bus = MemoryBus::new();
    for (i, addr) in [0x8000u16, 0x9FFF, 0xA123, 0xC000, 0xDFFF, 0xFE00, 0xFE9F, 0xFF00, 0xFF7F, 0xFF80, 0xFFFE, 0xFFFF]
        .iter()
        .enumerate()
    {
        let v = 0x10 + i as u8;
        bus.write_byte(*addr, v);
        assert_eq!(bus.read_byte(*addr), v);
    }
    assert_eq!(bus.interrupt_enable, 0x10 + 11);
}

#[test]
fn echo_ram_mirrors_work_ram() {
    let mut bus = MemoryBus::new();
    bus.write_byte(0xE010, 0x42);
    assert_eq!(bus.read_byte(0xC010), 0x42);
    bus.write_byte(0xC123, 0x99);
    assert_eq!(bus.read_byte(0xE123), 0x99);
    bus.write_byte(0xFDFF, 0x07);
    assert_eq!(bus.read_byte(0xDDFF), 0x07);
}

#[test]
fn rom_and_unusable_area_ignore_writes() {
    let mut bus = MemoryBus::new();
    bus.write_byte(0x0100, 0xAA);
    assert_eq!(bus.read_byte(0x0100), 0x00);
    bus.write_byte(0xFEA5, 0x12);
    assert_eq!(bus.read_byte(0xFEA5), 0xFF);
}

#[test]
fn load_rom_replaces_rom_only() {
    let mut bus = MemoryBus::new();
    bus.write_byte(0xC000, 0x55);
    let mut rom = vec![0u8; 0x8000];
    rom[0x0150] = 0x3C;
    rom[0x7FFF] = 0xEE;
    bus.load_rom(rom);
    assert_eq!(bus.read_byte(0x0150), 0x3C);
    assert_eq!(bus.read_byte(0x7FFF), 0xEE);
    assert_eq!(bus.read_byte(0xC000), 0x55);
}

#[test]
fn writes_to_other_cells_do_not_disturb() {
    let mut bus = MemoryBus::new();
    bus.write_byte(0x8000, 1);
    bus.write_byte(0x8001, 2);
    bus.write_byte(0xFF0F, 3);
    assert_eq!(bus.read_byte(0x8000), 1);
    assert_eq!(bus.read_byte(0x8001), 2);
    assert_eq!(bus.read_byte(0xFF0F), 3);
}
