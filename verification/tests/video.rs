use zx_spectrum::engine::new_engine;
use zx_spectrum::video::{zx_color_from_index, zx_screen_addr, Video};

#[test]
fn new_video_is_black_and_at_rest() {
    let v = Video::new(4);
    assert_eq!(v.framebuffer.len(), 256 * 192);
    assert!(v.framebuffer.iter().all(|p| *p == 0));
    assert_eq!(v.scale, 4);
    assert_eq!(v.flash_counter, 0);
    assert!(!v.flash_phase);
}

#[test]
fn screen_lines_are_interleaved() {
    assert_eq!(zx_screen_addr(0, 0), 0x4000);
    assert_eq!(zx_screen_addr(31, 0), 0x401F);
    assert_eq!(zx_screen_addr(0, 1), 0x4100);
    assert_eq!(zx_screen_addr(0, 7), 0x4700);
    assert_eq!(zx_screen_addr(0, 8), 0x4020);
    assert_eq!(zx_screen_addr(0, 63), 0x47E0);
    assert_eq!(zx_screen_addr(0, 64), 0x4800);
    assert_eq!(zx_screen_addr(5, 100), 0x4000 | (1 << 11) | (4 << 8) | (4 << 5) | 5);
    assert_eq!(zx_screen_addr(31, 191), 0x57FF);
    for y in 0..192usize {
        for x in 0..32usize {
            let band = ((y & 0xC0) << 5) as u16;
            let row = ((y & 0x07) << 8) as u16;
            let block = ((y & 0x38) << 2) as u16;
            assert_eq!(zx_screen_addr(x, y), 0x4000 | band | row | block | x as u16);
        }
    }
}

#[test]
fn scenario_video_interleave() {
    let mut cpu = new_engine();
    let mut v = Video::new(1);
    zx_spectrum::engine::write(&mut cpu, 0x4000, 0xFF);
    zx_spectrum::engine::write(&mut cpu, 0x5800, 0x07);
    v.update_from_bus(&cpu);
    assert_eq!(&v.framebuffer[0..8], &[7, 7, 7, 7, 7, 7, 7, 7]);
    assert_eq!(&v.framebuffer[8..16], &[0; 8]);
    assert_eq!(&v.framebuffer[256..264], &[0; 8]);
    zx_spectrum::engine::write(&mut cpu, 0x4100, 0xFF);
    v.update_from_bus(&cpu);
    assert_eq!(&v.framebuffer[256..264], &[7, 7, 7, 7, 7, 7, 7, 7]);
}

#[test]
fn pixels_run_from_the_top_bit() {
    let mut cpu = new_engine();
    let mut v = Video::new(1);
    // line 9 is the second line of the second row of cells
    zx_spectrum::engine::write(&mut cpu, zx_screen_addr(3, 9), 0b1010_0001);
    // blue paper, yellow ink
    zx_spectrum::engine::write(&mut cpu, 0x5800 + 32 + 3, 0b0000_1110);
    v.update_from_bus(&cpu);
    let at = 9 * 256 + 3 * 8;
    assert_eq!(&v.framebuffer[at..at + 8], &[6, 1, 6, 1, 1, 1, 1, 6]);
}

#[test]
fn bright_adds_eight_to_ink_and_paper() {
    let mut cpu = new_engine();
    let mut v = Video::new(1);
    zx_spectrum::engine::write(&mut cpu, 0x4000, 0xF0);
    zx_spectrum::engine::write(&mut cpu, 0x5800, 0b0101_0011);
    v.update_from_bus(&cpu);
    assert_eq!(&v.framebuffer[0..8], &[11, 11, 11, 11, 10, 10, 10, 10]);
}

#[test]
fn flash_swaps_ink_and_paper_while_the_phase_is_on() {
    let mut cpu = new_engine();
    let mut v = Video::new(1);
    zx_spectrum::engine::write(&mut cpu, 0x4000, 0xF0);
    zx_spectrum::engine::write(&mut cpu, 0x5800, 0b1001_0011);
    zx_spectrum::engine::write(&mut cpu, 0x4001, 0xF0);
    zx_spectrum::engine::write(&mut cpu, 0x5801, 0b0001_0011);
    v.update_from_bus(&cpu);
    assert_eq!(&v.framebuffer[0..8], &[3, 3, 3, 3, 2, 2, 2, 2]);
    for _ in 0..16 {
        v.on_vsync();
    }
    assert!(v.flash_phase);
    // composing reads the phase and does not advance it
    v.update_from_bus(&cpu);
    v.update_from_bus(&cpu);
    assert!(v.flash_phase);
    assert_eq!(v.flash_counter, 0);
    assert_eq!(&v.framebuffer[0..8], &[2, 2, 2, 2, 3, 3, 3, 3]);
    assert_eq!(&v.framebuffer[8..16], &[3, 3, 3, 3, 2, 2, 2, 2]);
}

#[test]
fn every_pixel_is_a_palette_index() {
    let mut cpu = new_engine();
    let mut v = Video::new(1);
    for a in 0x4000..0x5B00u16 {
        zx_spectrum::engine::write(&mut cpu, a, (a as u8).wrapping_mul(37).wrapping_add((a >> 8) as u8));
    }
    v.update_from_bus(&cpu);
    assert_eq!(v.framebuffer.len(), 49152);
    assert!(v.framebuffer.iter().all(|p| *p < 16));
}

#[test]
fn sixteen_vsyncs_toggle_the_phase_once() {
    let mut v = Video::new(1);
    for n in 1..16 {
        v.on_vsync();
        assert_eq!(v.flash_counter, n);
        assert!(!v.flash_phase);
    }
    v.on_vsync();
    assert_eq!(v.flash_counter, 0);
    assert!(v.flash_phase);
    for _ in 0..16 {
        v.on_vsync();
    }
    assert_eq!(v.flash_counter, 0);
    assert!(!v.flash_phase);
}

#[test]
fn reset_timing_puts_flash_at_rest() {
    let mut v = Video::new(2);
    for _ in 0..21 {
        v.on_vsync();
    }
    assert!(v.flash_phase);
    assert_eq!(v.flash_counter, 5);
    v.reset_timing();
    assert!(!v.flash_phase);
    assert_eq!(v.flash_counter, 0);
    assert_eq!(v.scale, 2);
}

#[test]
fn palette_has_eight_colours_in_two_shades() {
    assert_eq!(zx_color_from_index(0), (0, 0, 0));
    assert_eq!(zx_color_from_index(1), (0, 0, 192));
    assert_eq!(zx_color_from_index(2), (192, 0, 0));
    assert_eq!(zx_color_from_index(3), (192, 0, 192));
    assert_eq!(zx_color_from_index(4), (0, 192, 0));
    assert_eq!(zx_color_from_index(5), (0, 192, 192));
    assert_eq!(zx_color_from_index(6), (192, 192, 0));
    assert_eq!(zx_color_from_index(7), (192, 192, 192));
    assert_eq!(zx_color_from_index(8), (0, 0, 0));
    assert_eq!(zx_color_from_index(9), (0, 0, 255));
    assert_eq!(zx_color_from_index(10), (255, 0, 0));
    assert_eq!(zx_color_from_index(11), (255, 0, 255));
    assert_eq!(zx_color_from_index(12), (0, 255, 0));
    assert_eq!(zx_color_from_index(13), (0, 255, 255));
    assert_eq!(zx_color_from_index(14), (255, 255, 0));
    assert_eq!(zx_color_from_index(15), (255, 255, 255));
}
