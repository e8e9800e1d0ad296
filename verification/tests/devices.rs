use auxn::devices::console::console;
use auxn::devices::mouse::{mouse, mouse_down, mouse_pos, mouse_up};
use auxn::devices::screen::{screen, BLENDING, TRANSPARENT};
use auxn::devices::system::system;
use auxn::devices::{palette, ConsoleDevice, MouseDevice, Rgb, ScreenDevice, SystemDevice};
use auxn::system::{Diagnostic, Exit};
use auxn::UXN;

const BLACK: Rgb = Rgb { r: 0, g: 0, b: 0 };
const DARK: Rgb = Rgb { r: 96, g: 96, b: 96 };
const LIGHT: Rgb = Rgb { r: 220, g: 220, b: 220 };
const WHITE: Rgb = Rgb { r: 255, g: 255, b: 255 };

fn deo16(uxn: &mut UXN, port: usize, val: u16) {
    uxn.DEO(port, (val >> 8) as u8);
    uxn.DEO(port + 1, (val & 0xff) as u8);
}

#[test]
fn devices_are_made_empty() {
    let _ = SystemDevice::new();
    assert!(ConsoleDevice::new().output.is_empty());
    let m = MouseDevice::new();
    assert_eq!(m.vector, 0);
    assert_eq!(m.vector(), 0);
}

#[test]
fn new_screen_is_transparent() {
    let s = ScreenDevice::new(4, 3);
    assert_eq!(s.width, 4);
    assert_eq!(s.height, 3);
    assert_eq!(s.fg, vec![TRANSPARENT; 12]);
    assert_eq!(s.bg, vec![TRANSPARENT; 12]);
    assert!(!s.redraw);
    assert_eq!(s.vector(), 0);
    assert_eq!(s.get_color(0), Some(BLACK));
    assert_eq!(s.get_color(1), Some(DARK));
    assert_eq!(s.get_color(2), Some(LIGHT));
    assert_eq!(s.get_color(3), Some(WHITE));
    assert_eq!(s.get_color(4), None);
    assert_eq!(s.get_color(255), None);
}

#[test]
fn palette_expands_both_nibbles() {
    assert_eq!(palette(0x00), (0x00, 0x00));
    assert_eq!(palette(0xab), (0xaa, 0xbb));
    assert_eq!(palette(0x0f), (0x00, 0xff));
    assert_eq!(palette(0x71), (0x77, 0x11));
}

#[test]
fn system_ports_set_the_palette() {
    let mut uxn = UXN::new(8, 8);
    uxn.DEO(0x08, 0x12);
    uxn.DEO(0x09, 0x34);
    uxn.DEO(0x0a, 0x56);
    uxn.DEO(0x0b, 0x78);
    uxn.DEO(0x0c, 0x9a);
    uxn.DEO(0x0d, 0xbc);
    assert_eq!(uxn.screen.color0, Rgb { r: 0x11, g: 0x55, b: 0x99 });
    assert_eq!(uxn.screen.color1, Rgb { r: 0x22, g: 0x66, b: 0xaa });
    assert_eq!(uxn.screen.color2, Rgb { r: 0x33, g: 0x77, b: 0xbb });
    assert_eq!(uxn.screen.color3, Rgb { r: 0x44, g: 0x88, b: 0xcc });
    assert!(uxn.log.is_empty());
    assert_eq!(uxn.DEI(0x08), 0x12);
}

#[test]
fn system_handler_reads_the_device_page() {
    let mut uxn = UXN::new(8, 8);
    uxn.dev[0x08] = 0xf0;
    system(&mut uxn, 0x08, 0x00);
    assert_eq!(uxn.screen.color0.r, 0xff);
    assert_eq!(uxn.screen.color1.r, 0x00);
}

#[test]
fn unlisted_ports_are_noted_and_keep_their_byte() {
    let mut uxn = UXN::new(8, 8);
    uxn.DEO(0x02, 0x11);
    uxn.DEO(0x12, 0x22);
    uxn.DEO(0x27, 0x33);
    uxn.DEO(0x30, 0x44);
    uxn.DEO(0xff, 0x55);
    assert_eq!(
        uxn.log,
        vec![
            Diagnostic::UnmappedDevicePort(0x02),
            Diagnostic::UnmappedDevicePort(0x12),
            Diagnostic::UnmappedDevicePort(0x27),
            Diagnostic::UnmappedDevicePort(0x30),
            Diagnostic::UnmappedDevicePort(0xff),
        ]
    );
    assert_eq!(uxn.DEI(0x02), 0x11);
    assert_eq!(uxn.DEI(0x12), 0x22);
    assert_eq!(uxn.DEI(0x27), 0x33);
    assert_eq!(uxn.DEI(0x30), 0x44);
    assert_eq!(uxn.DEI(0xff), 0x55);
    // the working stack is where it was
    assert_eq!(uxn.wst_get(0xff), 0);
}

#[test]
fn listed_ports_are_not_noted() {
    let mut uxn = UXN::new(8, 8);
    for port in [0x00, 0x01, 0x0f, 0x10, 0x11, 0x18, 0x20, 0x21, 0x26, 0x28, 0x2a, 0x2c] {
        uxn.DEO(port, 0);
    }
    assert!(uxn.log.is_empty());
}

#[test]
fn console_collects_what_is_written() {
    let mut uxn = UXN::new(8, 8);
    uxn.DEO(0x18, b'h');
    uxn.DEO(0x18, b'i');
    assert_eq!(uxn.console.output, b"hi".to_vec());
    console(&mut uxn, 0x18, b'!');
    assert_eq!(uxn.console.output, b"hi!".to_vec());
    console(&mut uxn, 0x13, 0);
    assert_eq!(uxn.log, vec![Diagnostic::UnmappedDevicePort(0x13)]);
}

#[test]
fn devr_and_devw_follow_the_width() {
    let mut uxn = UXN::new(8, 8);
    uxn.DEVW(0x30, 0x1234);
    assert_eq!(uxn.DEI(0x30), 0x34);
    assert_eq!(uxn.DEVR(0x30), 0x34);
    uxn.r2 = true;
    uxn.DEVW(0x40, 0x1234);
    assert_eq!(uxn.DEI(0x40), 0x12);
    assert_eq!(uxn.DEI(0x41), 0x34);
    assert_eq!(uxn.DEVR(0x40), 0x1234);
    // the page closes on itself
    uxn.DEVW(0xff, 0xabcd);
    assert_eq!(uxn.DEI(0xff), 0xab);
    assert_eq!(uxn.DEI(0x00), 0xcd);
    assert_eq!(uxn.DEVR(0xff), 0xabcd);
}

#[test]
fn dev_poke_stores_a_short() {
    let mut uxn = UXN::new(8, 8);
    uxn.dev_poke(0x92, 0x0102);
    assert_eq!(uxn.DEI(0x92), 0x01);
    assert_eq!(uxn.DEI(0x93), 0x02);
    assert!(uxn.log.is_empty());
}

#[test]
fn dei_and_deo_instructions() {
    // LIT 41 LIT 18 DEO ; LIT 18 DEI
    let mut uxn = UXN::new(8, 8);
    uxn.load(vec![0x80, 0x41, 0x80, 0x18, 0x17, 0x80, 0x18, 0x16]);
    assert_eq!(uxn.eval(0x100), Ok(Exit::Halted));
    assert_eq!(uxn.console.output, vec![0x41]);
    assert_eq!(uxn.wst_get(0xff), 1);
    assert_eq!(uxn.wst_get(0), 0x41);
}

#[test]
fn screen_registers_are_taken_from_the_page() {
    let mut uxn = UXN::new(8, 8);
    deo16(&mut uxn, 0x20, 0x0123);
    deo16(&mut uxn, 0x28, 0x0203);
    deo16(&mut uxn, 0x2a, 0x0405);
    deo16(&mut uxn, 0x2c, 0x0607);
    assert_eq!(uxn.screen.vector(), 0x0123);
    assert_eq!(uxn.screen.x, 0x0203);
    assert_eq!(uxn.screen.y, 0x0405);
    assert_eq!(uxn.screen.addr, 0x0607);
    // the first byte alone changes nothing
    uxn.DEO(0x28, 0xff);
    assert_eq!(uxn.screen.x, 0x0203);
}

#[test]
fn screen_size_ports_resize() {
    let mut uxn = UXN::new(8, 8);
    uxn.screen.screen_write(1, 1, 2, 0);
    uxn.screen.redraw = false;
    deo16(&mut uxn, 0x22, 4);
    assert_eq!(uxn.screen.width, 4);
    assert_eq!(uxn.screen.fg, vec![TRANSPARENT; 32]);
    assert_eq!(uxn.screen.bg, vec![TRANSPARENT; 32]);
    deo16(&mut uxn, 0x24, 2);
    assert_eq!(uxn.screen.height, 2);
    assert_eq!(uxn.screen.fg.len(), 8);
    assert_eq!(uxn.screen.bg.len(), 8);
    deo16(&mut uxn, 0x22, 0);
    assert!(uxn.screen.fg.is_empty());
    assert!(uxn.screen.generate().is_empty());
}

#[test]
fn resize_clears_both_layers() {
    let mut s = ScreenDevice::new(2, 2);
    s.screen_write(0, 0, 1, 0);
    s.screen_write(1, 1, 1, 1);
    s.width = 3;
    s.resize();
    assert_eq!(s.fg, vec![TRANSPARENT; 6]);
    assert_eq!(s.bg, vec![TRANSPARENT; 6]);
}

#[test]
fn write_pixel_checks_bounds_and_layers() {
    let mut s = ScreenDevice::new(4, 3);
    s.screen_write(4, 0, 1, 0);
    s.screen_write(0, 3, 1, 0);
    assert_eq!(s.bg, vec![TRANSPARENT; 12]);
    assert!(!s.redraw);
    s.screen_write(1, 2, 3, 0);
    assert_eq!(s.bg[2 * 4 + 1], 3);
    assert!(s.redraw);
    s.redraw = false;
    // the same value again changes nothing
    s.screen_write(1, 2, 3, 0);
    assert!(!s.redraw);
    // on the background colour 0 is a colour
    s.screen_write(0, 0, 0, 0);
    assert_eq!(s.bg[0], 0);
    assert!(s.redraw);
    s.redraw = false;
    // on the foreground it is transparent
    s.screen_write(0, 0, 0, 0x40);
    assert_eq!(s.fg[0], TRANSPARENT);
    assert!(!s.redraw);
    s.screen_write(0, 0, 2, 0x40);
    assert_eq!(s.fg[0], 2);
    assert!(s.redraw);
    s.screen_write(0, 0, 0, 0x40);
    assert_eq!(s.fg[0], TRANSPARENT);
    // what is no colour index is transparent
    s.screen_write(3, 0, 9, 0);
    assert_eq!(s.bg[3], TRANSPARENT);
}

#[test]
fn pixel_drawn_on_the_background_shows_in_the_frame() {
    let mut uxn = UXN::new(1, 1);
    deo16(&mut uxn, 0x22, 8);
    deo16(&mut uxn, 0x24, 8);
    deo16(&mut uxn, 0x24, 8);
    deo16(&mut uxn, 0x28, 3);
    deo16(&mut uxn, 0x2a, 3);
    uxn.DEO(0x2e, 0x02);
    assert!(uxn.screen.redraw);
    let frame = uxn.screen.generate();
    assert_eq!(frame.len(), 64);
    for y in 0..8 {
        for x in 0..8 {
            let want = if (x, y) == (3, 3) { LIGHT } else { BLACK };
            assert_eq!(frame[y * 8 + x], want);
        }
    }
    // no auto-advance was asked for
    assert_eq!(uxn.screen.x, 3);
    assert_eq!(uxn.screen.y, 3);
}

#[test]
fn foreground_lies_over_the_background() {
    let mut s = ScreenDevice::new(2, 1);
    s.screen_write(0, 0, 1, 0);
    s.screen_write(1, 0, 1, 0);
    s.screen_write(1, 0, 3, 0x40);
    assert_eq!(s.generate(), vec![DARK, WHITE]);
    s.screen_write(1, 0, 0, 0x40);
    assert_eq!(s.generate(), vec![DARK, DARK]);
}

#[test]
fn frame_follows_the_palette() {
    let mut uxn = UXN::new(2, 1);
    uxn.screen.screen_write(0, 0, 1, 0);
    uxn.DEO(0x08, 0x5a);
    assert_eq!(
        uxn.screen.generate(),
        vec![Rgb { r: 0xaa, g: 96, b: 96 }, Rgb { r: 0x55, g: 0, b: 0 }]
    );
}

#[test]
fn generate_twice_gives_the_same_frame() {
    let mut uxn = UXN::new(8, 8);
    uxn.DEO(0x2e, 0x41);
    deo16(&mut uxn, 0x28, 5);
    uxn.DEO(0x2e, 0x03);
    assert!(uxn.screen.redraw);
    let first = uxn.screen.generate();
    assert!(uxn.screen.redraw);
    uxn.screen.redraw = false;
    let second = uxn.screen.generate();
    assert_eq!(first, second);
    assert!(!uxn.screen.redraw);
    assert_eq!(first[0], DARK);
    assert_eq!(first[5], WHITE);
}

#[test]
fn bg_color_fills_what_was_not_drawn() {
    let mut uxn = UXN::new(2, 2);
    uxn.screen.screen_write(1, 0, 2, 0);
    uxn.bg_color();
    assert_eq!(uxn.screen.bg, vec![0, 2, 0, 0]);
    assert_eq!(uxn.screen.fg, vec![TRANSPARENT; 4]);
}

#[test]
fn pixel_port_auto_advances_the_cursor() {
    let mut uxn = UXN::new(8, 8);
    uxn.DEO(0x26, 0x01);
    deo16(&mut uxn, 0x28, 2);
    deo16(&mut uxn, 0x2a, 1);
    uxn.DEO(0x2e, 0x01);
    uxn.DEO(0x2e, 0x02);
    assert_eq!(uxn.screen.bg[8 + 2], 1);
    assert_eq!(uxn.screen.bg[8 + 3], 2);
    assert_eq!(uxn.screen.x, 4);
    assert_eq!(uxn.screen.y, 1);
    assert_eq!(uxn.DEVR(0x29), 4);
    uxn.DEO(0x26, 0x03);
    uxn.DEO(0x2e, 0x43);
    assert_eq!(uxn.screen.fg[8 + 4], 3);
    assert_eq!((uxn.screen.x, uxn.screen.y), (5, 2));
    assert_eq!((uxn.DEI(0x28), uxn.DEI(0x29)), (0, 5));
    assert_eq!((uxn.DEI(0x2a), uxn.DEI(0x2b)), (0, 2));
}

#[test]
fn pixel_port_cursor_wraps_in_16_bits() {
    let mut uxn = UXN::new(8, 8);
    uxn.DEO(0x26, 0x03);
    deo16(&mut uxn, 0x28, 0xffff);
    deo16(&mut uxn, 0x2a, 0xffff);
    uxn.DEO(0x2e, 0x01);
    assert_eq!((uxn.screen.x, uxn.screen.y), (0, 0));
    assert_eq!((uxn.DEI(0x28), uxn.DEI(0x29)), (0, 0));
    assert_eq!(uxn.screen.bg, vec![TRANSPARENT; 64]);
}

#[test]
fn blit_reads_bit_7_as_column_0() {
    let mut s = ScreenDevice::new(8, 8);
    let sprite = [0b1011_0000u8, 0, 0, 0, 0, 0, 0, 0];
    // selector 1 maps class c to colour c, and draws class 0
    s.screen_blit(0, 0, 0, &sprite, 1, 0, 0, 0, BLENDING[4][1]);
    assert_eq!(&s.bg[0..8], &[1, 0, 1, 1, 0, 0, 0, 0]);
    assert_eq!(&s.bg[8..], &[0u8; 56][..]);
    assert_eq!(s.fg, vec![TRANSPARENT; 64]);
    assert!(s.redraw);
}

#[test]
fn blit_flips() {
    let sprite = [0b1011_0000u8, 0, 0, 0, 0, 0, 0, 0b0000_0001];
    let mut s = ScreenDevice::new(8, 8);
    s.screen_blit(0, 0, 0, &sprite, 1, 0x10, 0, 0, 1);
    assert_eq!(&s.bg[0..8], &[0, 0, 0, 0, 1, 1, 0, 1]);
    assert_eq!(&s.bg[56..64], &[1, 0, 0, 0, 0, 0, 0, 0]);
    let mut s = ScreenDevice::new(8, 8);
    s.screen_blit(0, 0, 0, &sprite, 1, 0, 0x20, 0, 1);
    assert_eq!(&s.bg[56..64], &[1, 0, 1, 1, 0, 0, 0, 0]);
    assert_eq!(&s.bg[0..8], &[0, 0, 0, 0, 0, 0, 0, 1]);
    let mut s = ScreenDevice::new(8, 8);
    s.screen_blit(0, 0, 0, &sprite, 1, 0x10, 0x20, 0, 1);
    assert_eq!(&s.bg[56..64], &[0, 0, 0, 0, 1, 1, 0, 1]);
    assert_eq!(&s.bg[0..8], &[1, 0, 0, 0, 0, 0, 0, 0]);
}

#[test]
fn blit_of_two_planes_joins_their_bits() {
    let mut sprite = [0u8; 16];
    sprite[0] = 0b1100_0000;
    sprite[8] = 0b1010_0000;
    let mut s = ScreenDevice::new(8, 8);
    s.screen_blit(0, 0, 0, &sprite, 1, 0, 0, 1, 1);
    assert_eq!(&s.bg[0..8], &[3, 1, 2, 0, 0, 0, 0, 0]);
    // with one plane the second is not read
    let mut s = ScreenDevice::new(8, 8);
    s.screen_blit(0, 0, 0, &sprite, 1, 0, 0, 0, 1);
    assert_eq!(&s.bg[0..8], &[1, 1, 0, 0, 0, 0, 0, 0]);
}

#[test]
fn blit_skips_class_0_unless_opaque() {
    let sprite = [0b1000_0000u8, 0, 0, 0, 0, 0, 0, 0];
    let mut s = ScreenDevice::new(8, 8);
    // selector 5: class 1 is colour 1, class 0 is not drawn
    s.screen_blit(0, 0, 0, &sprite, 5, 0, 0, 0, BLENDING[4][5]);
    assert_eq!(s.bg[0], 1);
    assert_eq!(&s.bg[1..], &[TRANSPARENT; 63][..]);
    // a blank tile that is not opaque changes nothing
    let mut s = ScreenDevice::new(8, 8);
    s.screen_blit(0, 0, 0, &[0u8; 8], 5, 0, 0, 0, 0);
    assert_eq!(s.bg, vec![TRANSPARENT; 64]);
    assert!(!s.redraw);
}

#[test]
fn blit_uses_the_blending_table() {
    let sprite = [0b1000_0000u8, 0, 0, 0, 0, 0, 0, 0];
    let mut s = ScreenDevice::new(8, 8);
    // selector 0xa: class 1 is colour 2, class 0 is colour 0; on the
    // foreground colour 0 is transparent
    s.screen_blit(0x40, 0, 0, &sprite, 0xa, 0, 0, 0, 1);
    assert_eq!(s.fg[0], 2);
    assert_eq!(&s.fg[1..], &[TRANSPARENT; 63][..]);
    assert_eq!(s.bg, vec![TRANSPARENT; 64]);
    assert_eq!(BLENDING[0][4], 1);
    assert_eq!(BLENDING[3][6], 1);
    assert_eq!(BLENDING[4][0xf], 0);
}

#[test]
fn blit_clips_at_the_edges_and_wraps_in_16_bits() {
    let sprite = [0xffu8; 8];
    let mut s = ScreenDevice::new(8, 8);
    s.screen_blit(0, 6, 7, &sprite, 1, 0, 0, 0, 1);
    let mut want = vec![TRANSPARENT; 64];
    want[7 * 8 + 6] = 1;
    want[7 * 8 + 7] = 1;
    assert_eq!(s.bg, want);
    let mut s = ScreenDevice::new(8, 8);
    s.screen_blit(0, 0xfffe, 0xffff, &sprite, 1, 0, 0, 0, 1);
    // columns 2..8 of the tile land on columns 0..6, rows 1..8 on rows 0..7
    for y in 0..8 {
        for x in 0..8 {
            let want = if x < 6 && y < 7 { 1 } else { TRANSPARENT };
            assert_eq!(s.bg[y * 8 + x], want);
        }
    }
}

#[test]
fn sprite_port_draws_a_run() {
    let mut uxn = UXN::new(24, 8);
    for i in 0..8 {
        uxn.ram[0x300 + i] = 0x80;
        uxn.ram[0x308 + i] = 0x40;
        uxn.ram[0x310 + i] = 0x20;
    }
    // three tiles, each 8 to the right of the one before
    uxn.DEO(0x26, 0x22);
    deo16(&mut uxn, 0x2c, 0x0300);
    uxn.DEO(0x2f, 0x01);
    for y in 0..8 {
        for x in 0..24 {
            let want = if x == 0 || x == 9 || x == 18 { 1 } else { 0 };
            assert_eq!(uxn.screen.bg[y * 24 + x], want);
        }
    }
    assert_eq!(uxn.screen.addr, 0x318);
    assert_eq!((uxn.DEI(0x2c), uxn.DEI(0x2d)), (0x03, 0x18));
    // the cursor has moved one step in y, the direction bit 1 names
    assert_eq!((uxn.screen.x, uxn.screen.y), (0, 8));
    assert_eq!((uxn.DEI(0x2a), uxn.DEI(0x2b)), (0, 8));
    assert_eq!((uxn.DEI(0x28), uxn.DEI(0x29)), (0, 0));
    assert!(uxn.log.is_empty());
}

#[test]
fn sprite_port_steps_down_with_bit_0() {
    let mut uxn = UXN::new(8, 16);
    for i in 0..16 {
        uxn.ram[0x300 + i] = 0xff;
    }
    uxn.DEO(0x26, 0x11);
    deo16(&mut uxn, 0x2c, 0x0300);
    uxn.DEO(0x2f, 0x41);
    assert_eq!(uxn.screen.fg, vec![1; 128]);
    assert_eq!((uxn.screen.x, uxn.screen.y), (8, 0));
    assert_eq!(uxn.screen.addr, 0x310);
}

#[test]
fn sprite_port_reads_two_planes() {
    let mut uxn = UXN::new(8, 8);
    uxn.ram[0x300] = 0b1100_0000;
    uxn.ram[0x308] = 0b1010_0000;
    deo16(&mut uxn, 0x2c, 0x0300);
    uxn.DEO(0x2f, 0x81);
    assert_eq!(&uxn.screen.bg[0..4], &[3, 1, 2, 0]);
    assert_eq!(uxn.screen.addr, 0x310);
}

#[test]
fn sprite_run_past_the_end_of_memory_is_dropped() {
    let mut uxn = UXN::new(8, 8);
    uxn.DEO(0x26, 0x10);
    deo16(&mut uxn, 0x28, 1);
    deo16(&mut uxn, 0x2c, 0xfff1);
    uxn.DEO(0x2f, 0x01);
    assert_eq!(uxn.log, vec![Diagnostic::SpriteReadOutOfBounds(0xfff1)]);
    assert_eq!(uxn.screen.bg, vec![TRANSPARENT; 64]);
    assert_eq!(uxn.screen.addr, 0xfff1);
    assert_eq!(uxn.screen.x, 1);
    assert_eq!((uxn.DEI(0x2c), uxn.DEI(0x2d)), (0xff, 0xf1));
    assert!(!uxn.screen.redraw);
    // one byte lower the run fits
    deo16(&mut uxn, 0x2c, 0xfff0);
    uxn.DEO(0x2f, 0x01);
    assert_eq!(uxn.log.len(), 1);
    assert_eq!(uxn.screen.addr, 0x10000);
    assert_eq!((uxn.DEI(0x2c), uxn.DEI(0x2d)), (0, 0));
    assert_eq!(uxn.screen.bg[8], TRANSPARENT);
    assert_eq!(uxn.screen.bg[9], 0);
}

#[test]
fn screen_handler_can_be_called_alone() {
    let mut uxn = UXN::new(8, 8);
    uxn.dev[0x28] = 0x00;
    uxn.dev[0x29] = 0x07;
    screen(&mut uxn, 0x29, 0);
    assert_eq!(uxn.screen.x, 7);
}

#[test]
fn mouse_vector_is_taken_from_the_page() {
    let mut uxn = UXN::new(8, 8);
    uxn.dev[0x90] = 0x01;
    uxn.dev[0x91] = 0x00;
    mouse(&mut uxn, 0x90, 0x01);
    assert_eq!(uxn.mouse.vector(), 0);
    mouse(&mut uxn, 0x91, 0x00);
    assert_eq!(uxn.mouse.vector(), 0x100);
    mouse(&mut uxn, 0x96, 0x01);
    assert_eq!(uxn.log, vec![Diagnostic::UnmappedDevicePort(0x96)]);
}

#[test]
fn mouse_events_evaluate_the_mouse_vector() {
    // LIT2 with the pointer's x from the page: LIT 92 DEI2
    let mut uxn = UXN::new(8, 8);
    uxn.load(vec![0x80, 0x92, 0x16 | 0x20]);
    assert_eq!(mouse_pos(&mut uxn, 0x0102, 0x0304), Ok(Exit::Idle));
    assert_eq!(uxn.DEVR(0x95), 0x04);
    uxn.mouse.vector = 0x100;
    assert_eq!(mouse_pos(&mut uxn, 0x0506, 0x0708), Ok(Exit::Halted));
    assert_eq!((uxn.wst_get(0), uxn.wst_get(1), uxn.wst_get(0xff)), (0x05, 0x06, 2));
    assert_eq!((uxn.DEI(0x94), uxn.DEI(0x95)), (0x07, 0x08));
    assert_eq!(mouse_down(&mut uxn), Ok(Exit::Halted));
    assert_eq!(uxn.wst_get(0xff), 4);
    assert_eq!(mouse_up(&mut uxn), Ok(Exit::Halted));
    assert_eq!(uxn.wst_get(0xff), 6);
}
