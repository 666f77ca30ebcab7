use zx_spectrum::bus::ZxBus;
use zx_spectrum::engine::{clear_range, new_engine, read, set_rom_range, write_range};
use zx_spectrum::keyboard::{get_matrix_coords, HostKey, Keyboard};

const ALL_KEYS: [(HostKey, usize, u8); 40] = [
    (HostKey::LShift, 0, 0),
    (HostKey::Z, 0, 1),
    (HostKey::X, 0, 2),
    (HostKey::C, 0, 3),
    (HostKey::V, 0, 4),
    (HostKey::A, 1, 0),
    (HostKey::S, 1, 1),
    (HostKey::D, 1, 2),
    (HostKey::F, 1, 3),
    (HostKey::G, 1, 4),
    (HostKey::Q, 2, 0),
    (HostKey::W, 2, 1),
    (HostKey::E, 2, 2),
    (HostKey::R, 2, 3),
    (HostKey::T, 2, 4),
    (HostKey::Num1, 3, 0),
    (HostKey::Num2, 3, 1),
    (HostKey::Num3, 3, 2),
    (HostKey::Num4, 3, 3),
    (HostKey::Num5, 3, 4),
    (HostKey::Num0, 4, 0),
    (HostKey::Num9, 4, 1),
    (HostKey::Num8, 4, 2),
    (HostKey::Num7, 4, 3),
    (HostKey::Num6, 4, 4),
    (HostKey::P, 5, 0),
    (HostKey::O, 5, 1),
    (HostKey::I, 5, 2),
    (HostKey::U, 5, 3),
    (HostKey::Y, 5, 4),
    (HostKey::Return, 6, 0),
    (HostKey::L, 6, 1),
    (HostKey::K, 6, 2),
    (HostKey::J, 6, 3),
    (HostKey::H, 6, 4),
    (HostKey::Space, 7, 0),
    (HostKey::LCtrl, 7, 1),
    (HostKey::M, 7, 2),
    (HostKey::N, 7, 3),
    (HostKey::B, 7, 4),
];

#[test]
fn new_keyboard_has_no_key_down() {
    let k = Keyboard::new();
    assert_eq!(k.rows, [0x1F; 8]);
    assert_eq!(k.read_port_fe(0x00), 0x1F);
    assert_eq!(k.read_port_fe(0xFF), 0x1F);
}

#[test]
fn every_key_has_its_place_in_the_matrix() {
    for (key, row, bit) in ALL_KEYS {
        assert_eq!(get_matrix_coords(key), Some((row, bit)));
        let mut k = Keyboard::new();
        k.key_down(key);
        for r in 0..8 {
            let expected = if r == row { 0x1F & !(1 << bit) } else { 0x1F };
            assert_eq!(k.rows[r], expected);
        }
        // the row is selected by the zero bit of the port's high byte
        assert_eq!(k.read_port_fe(!(1u8 << row)), 0x1F & !(1 << bit));
        assert_eq!(k.read_port_fe(1u8 << row), 0x1F);
        k.key_up(key);
        assert_eq!(k.rows, [0x1F; 8]);
    }
    assert_eq!(get_matrix_coords(HostKey::Other), None);
}

#[test]
fn a_key_without_a_place_changes_nothing() {
    let mut k = Keyboard::new();
    k.key_down(HostKey::A);
    let before = k.rows;
    k.key_down(HostKey::Other);
    assert_eq!(k.rows, before);
    k.key_up(HostKey::Other);
    assert_eq!(k.rows, before);
}

#[test]
fn key_events_are_idempotent() {
    for (key, _, _) in ALL_KEYS {
        let mut once = Keyboard::new();
        once.key_down(HostKey::Space);
        once.key_down(key);
        let mut twice = Keyboard::new();
        twice.key_down(HostKey::Space);
        twice.key_down(key);
        twice.key_down(key);
        assert_eq!(once.rows, twice.rows);
        once.key_up(key);
        twice.key_up(key);
        twice.key_up(key);
        assert_eq!(once.rows, twice.rows);
    }
}

#[test]
fn selecting_several_rows_combines_them() {
    let mut k = Keyboard::new();
    k.key_down(HostKey::LShift);
    k.key_down(HostKey::S);
    k.key_down(HostKey::B);
    assert_eq!(k.read_port_fe(0xFE), 0x1E);
    assert_eq!(k.read_port_fe(0xFD), 0x1D);
    assert_eq!(k.read_port_fe(0x7F), 0x0F);
    assert_eq!(k.read_port_fe(0xFC), 0x1C);
    assert_eq!(k.read_port_fe(0x00), 0x0C);
    assert_eq!(k.read_port_fe(0xFB), 0x1F);
}

#[test]
fn new_bus_has_a_black_border() {
    let bus = ZxBus::new();
    assert_eq!(bus.border, 0);
    assert_eq!(bus.keyboard.rows, [0x1F; 8]);
}

#[test]
fn even_ports_read_the_keyboard_with_the_top_bits_high() {
    let mut bus = ZxBus::new();
    assert_eq!(bus.in_port(0xFEFE), 0xFF);
    bus.keyboard.key_down(HostKey::Q);
    assert_eq!(bus.in_port(0xFBFE), 0xFE);
    assert_eq!(bus.in_port(0xFB00), 0xFE);
    assert_eq!(bus.in_port(0xFEFE), 0xFF);
    bus.keyboard.key_down(HostKey::Return);
    assert_eq!(bus.in_port(0xBFFE), 0xFE);
    assert_eq!(bus.in_port(0x00FE), 0xFE);
    for high in 0..=255u16 {
        for low in (0..=255u16).step_by(2) {
            assert_eq!(bus.in_port((high << 8) | low) & 0xE0, 0xE0);
        }
    }
}

#[test]
fn odd_ports_float() {
    let mut bus = ZxBus::new();
    bus.keyboard.key_down(HostKey::Q);
    assert_eq!(bus.in_port(0xFBFF), 0xFF);
    assert_eq!(bus.in_port(0x0001), 0xFF);
}

#[test]
fn even_ports_take_the_border_colour() {
    let mut bus = ZxBus::new();
    bus.out_port(0x00FE, 0x05);
    assert_eq!(bus.border, 5);
    bus.out_port(0x12FE, 0xFA);
    assert_eq!(bus.border, 2);
    bus.out_port(0x00FF, 0x07);
    assert_eq!(bus.border, 2);
}

#[test]
fn ram_gives_back_what_was_written() {
    let mut cpu = new_engine();
    set_rom_range(&mut cpu, 0x0000, 0x3FFF);
    for addr in [0x4000u16, 0x4001, 0x5AFF, 0x8000, 0xFFFE, 0xFFFF] {
        zx_spectrum::engine::write(&mut cpu, addr, 0xA5);
        assert_eq!(read(&cpu, addr), 0xA5);
        zx_spectrum::engine::write(&mut cpu, addr, 0x5A);
        assert_eq!(read(&cpu, addr), 0x5A);
    }
}

#[test]
fn rom_keeps_what_was_loaded() {
    let mut cpu = new_engine();
    zx_spectrum::engine::write(&mut cpu, 0x0000, 0xF3);
    zx_spectrum::engine::write(&mut cpu, 0x3FFF, 0x3C);
    set_rom_range(&mut cpu, 0x0000, 0x3FFF);
    zx_spectrum::engine::write(&mut cpu, 0x0000, 0x00);
    zx_spectrum::engine::write(&mut cpu, 0x1234, 0x99);
    zx_spectrum::engine::write(&mut cpu, 0x3FFF, 0x00);
    assert_eq!(read(&cpu, 0x0000), 0xF3);
    assert_eq!(read(&cpu, 0x1234), 0x00);
    assert_eq!(read(&cpu, 0x3FFF), 0x3C);
    zx_spectrum::engine::write(&mut cpu, 0x4000, 0x77);
    assert_eq!(read(&cpu, 0x4000), 0x77);
}

#[test]
fn range_writes_wrap_and_skip_the_rom() {
    let mut cpu = new_engine();
    write_range(&mut cpu, 0x0000, &[1, 2, 3]);
    set_rom_range(&mut cpu, 0x0000, 0x3FFF);
    write_range(&mut cpu, 0xFFFE, &[0xAA, 0xBB, 0xCC, 0xDD]);
    assert_eq!(read(&cpu, 0xFFFE), 0xAA);
    assert_eq!(read(&cpu, 0xFFFF), 0xBB);
    assert_eq!(read(&cpu, 0x0000), 1);
    assert_eq!(read(&cpu, 0x0001), 2);
    write_range(&mut cpu, 0x3FFE, &[9, 9, 9, 9]);
    assert_eq!(read(&cpu, 0x3FFE), 0);
    assert_eq!(read(&cpu, 0x3FFF), 0);
    assert_eq!(read(&cpu, 0x4000), 9);
    assert_eq!(read(&cpu, 0x4001), 9);
    write_range(&mut cpu, 0x8000, &[]);
    assert_eq!(read(&cpu, 0x8000), 0);
}

#[test]
fn a_new_rom_range_replaces_the_old_one() {
    let mut cpu = new_engine();
    set_rom_range(&mut cpu, 0x0000, 0x3FFF);
    set_rom_range(&mut cpu, 0x8000, 0x8FFF);
    zx_spectrum::engine::write(&mut cpu, 0x0000, 0x11);
    zx_spectrum::engine::write(&mut cpu, 0x8000, 0x22);
    zx_spectrum::engine::write(&mut cpu, 0x8FFF, 0x22);
    zx_spectrum::engine::write(&mut cpu, 0x9000, 0x33);
    assert_eq!(read(&cpu, 0x0000), 0x11);
    assert_eq!(read(&cpu, 0x8000), 0x00);
    assert_eq!(read(&cpu, 0x8FFF), 0x00);
    assert_eq!(read(&cpu, 0x9000), 0x33);
}

#[test]
fn clearing_a_range_zeroes_both_ends() {
    let mut cpu = new_engine();
    write_range(&mut cpu, 0x3FFE, &[1, 2, 3, 4]);
    zx_spectrum::engine::write(&mut cpu, 0xFFFF, 5);
    set_rom_range(&mut cpu, 0x0000, 0x3FFF);
    clear_range(&mut cpu, 0x4000, 0xFFFF);
    assert_eq!(read(&cpu, 0x3FFE), 1);
    assert_eq!(read(&cpu, 0x3FFF), 2);
    assert_eq!(read(&cpu, 0x4000), 0);
    assert_eq!(read(&cpu, 0x4001), 0);
    assert_eq!(read(&cpu, 0xFFFF), 0);
    // clearing does not ask the protected range
    clear_range(&mut cpu, 0x3FFF, 0x3FFF);
    assert_eq!(read(&cpu, 0x3FFF), 0);
    assert_eq!(read(&cpu, 0x3FFE), 1);
    // an empty range
    clear_range(&mut cpu, 0x3FFF, 0x3FFE);
    assert_eq!(read(&cpu, 0x3FFE), 1);
}
