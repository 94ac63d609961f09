use fluid_sim::fixed::FixedPt;
use fluid_sim::fluid::Fluid;
use fluid_sim::oled::{
    OLEDDriver, OLED_COLS, OLED_FRAME_SIZE, OLED_PAGES, OLED_PAGE_HEADER_SIZE,
    OLED_PAGE_SIZE, OLED_PXLS_X, OLED_PXLS_Y,
};
use fluid_sim::particle::Particle;
use fluid_sim::render::{can_draw, draw_particle, draw_particles, PIXELS};
use fluid_sim::vector::FixedPtVec2D;

const HEADER: [u8; 7] = [0x80, 0xB0, 0x80, 0x10, 0x80, 0x00, 0x40];

fn pixel(frame: &[u8], x: usize, y: usize) -> bool {
    frame[(y / 8) * OLED_PAGE_SIZE + OLED_PAGE_HEADER_SIZE + x] & (1 << (y % 8)) != 0
}

fn assert_headers(frame: &[u8]) {
    for page in 0..OLED_PAGES {
        for k in 0..OLED_PAGE_HEADER_SIZE {
            let expected = if k == 1 { 0xB0 + page as u8 } else { HEADER[k] };
            assert_eq!(frame[page * OLED_PAGE_SIZE + k], expected);
        }
    }
}

fn lit_pixels(frame: &[u8]) -> Vec<(usize, usize)> {
    let mut lit = Vec::new();
    for y in 0..OLED_PXLS_Y {
        for x in 0..OLED_PXLS_X {
            if pixel(frame, x, y) {
                lit.push((x, y));
            }
        }
    }
    lit
}

#[test]
fn frame_geometry() {
    assert_eq!(OLED_PXLS_X, 128);
    assert_eq!(OLED_PXLS_Y, 64);
    assert_eq!(OLED_COLS, 128);
    assert_eq!(OLED_PAGES, 8);
    assert_eq!(OLED_PAGE_HEADER_SIZE, 7);
    assert_eq!(OLED_PAGE_SIZE, 135);
    assert_eq!(OLED_FRAME_SIZE, 1080);
    assert_eq!(OLED_FRAME_SIZE, OLED_PAGE_SIZE * OLED_PAGES);
}

#[test]
fn new_frame_is_dark_and_has_its_headers() {
    let display = OLEDDriver::new();
    let frame = display.get_buffer();
    assert_eq!(frame.len(), 1080);
    assert_headers(frame);
    assert!(lit_pixels(frame).is_empty());
    assert_eq!(&frame[0..7], &[0x80, 0xB0, 0x80, 0x10, 0x80, 0x00, 0x40]);
    assert_eq!(&frame[135..142], &[0x80, 0xB1, 0x80, 0x10, 0x80, 0x00, 0x40]);
    assert_eq!(&frame[945..952], &[0x80, 0xB7, 0x80, 0x10, 0x80, 0x00, 0x40]);
}

#[test]
fn headers_are_written_into_any_buffer_that_holds_a_frame() {
    let mut buffer = vec![0x55u8; 1100];
    OLEDDriver::init_oled_buffer(&mut buffer);
    assert_headers(&buffer);
    for (idx, byte) in buffer.iter().enumerate() {
        if idx >= 1080 || idx % 135 >= 7 {
            assert_eq!(*byte, 0x55);
        }
    }
}

#[test]
fn set_pixel_sets_one_bit() {
    let mut display = OLEDDriver::new();
    display.set_pixel(0, 0, true);
    assert_eq!(display.get_buffer()[7], 0b0000_0001);
    display.set_pixel(5, 9, true);
    assert_eq!(display.get_buffer()[135 + 7 + 5], 0b0000_0010);
    display.set_pixel(5, 15, true);
    assert_eq!(display.get_buffer()[135 + 7 + 5], 0b1000_0010);
    display.set_pixel(127, 63, true);
    assert_eq!(display.get_buffer()[1079], 0b1000_0000);
    assert_eq!(lit_pixels(display.get_buffer()), vec![(0, 0), (5, 9), (5, 15), (127, 63)]);
    assert_headers(display.get_buffer());
}

#[test]
fn set_pixel_clears_one_bit() {
    let mut display = OLEDDriver::new();
    display.invert();
    display.set_pixel(5, 9, false);
    assert_eq!(display.get_buffer()[135 + 7 + 5], 0b1111_1101);
    assert_eq!(lit_pixels(display.get_buffer()).len(), 128 * 64 - 1);
    display.set_pixel(5, 9, false);
    assert_eq!(display.get_buffer()[135 + 7 + 5], 0b1111_1101);
    display.set_pixel(5, 9, true);
    assert_eq!(display.get_buffer()[135 + 7 + 5], 0xff);
    assert_headers(display.get_buffer());
}

#[test]
fn invert_flips_every_pixel_and_no_header() {
    let mut display = OLEDDriver::new();
    display.set_pixel(3, 4, true);
    display.set_pixel(100, 40, true);
    display.invert();
    let frame = display.get_buffer();
    assert_headers(frame);
    for y in 0..OLED_PXLS_Y {
        for x in 0..OLED_PXLS_X {
            assert_eq!(pixel(frame, x, y), !((x, y) == (3, 4) || (x, y) == (100, 40)));
        }
    }
    display.invert();
    assert_eq!(lit_pixels(display.get_buffer()), vec![(3, 4), (100, 40)]);
}

#[test]
fn clear_turns_every_pixel_off() {
    let mut display = OLEDDriver::new();
    display.invert();
    display.clear();
    assert!(lit_pixels(display.get_buffer()).is_empty());
    assert_headers(display.get_buffer());
    display.set_pixel(64, 32, true);
    display.clear();
    assert!(lit_pixels(display.get_buffer()).is_empty());
}

#[test]
fn transmission_is_noted_until_the_transport_says_it_ended() {
    let mut display = OLEDDriver::new();
    // nothing was sent: the transport is not even asked
    assert!(!display.tx_active(true));
    assert!(!display.tx_active(false));
    display.set_pixel(1, 1, true);
    let frame = display.tx_frame();
    assert_eq!(&frame[..], display.get_buffer());
    assert!(display.tx_active(true));
    assert!(display.tx_active(true));
    assert!(!display.tx_active(false));
    // once it has ended it stays ended, whatever the transport does next
    assert!(!display.tx_active(true));
    display.set_pixel(2, 2, true);
    assert_eq!(lit_pixels(display.get_buffer()), vec![(1, 1), (2, 2)]);
}

#[test]
fn particle_is_drawn_as_a_disc() {
    let mut display = OLEDDriver::new();
    draw_particle(&mut display, 10, 20);
    let expected: Vec<(usize, usize)> = vec![
        (11, 20), (12, 20),
        (10, 21), (11, 21), (12, 21), (13, 21),
        (10, 22), (11, 22), (12, 22), (13, 22),
        (11, 23), (12, 23),
    ];
    assert_eq!(lit_pixels(display.get_buffer()), expected);
    assert_eq!(PIXELS.len(), 12);
    assert_headers(display.get_buffer());
}

#[test]
fn disc_fits_into_the_far_corner() {
    let mut display = OLEDDriver::new();
    draw_particle(&mut display, 124, 60);
    draw_particle(&mut display, 0, 0);
    let lit = lit_pixels(display.get_buffer());
    assert_eq!(lit.len(), 24);
    assert!(lit.contains(&(127, 61)));
    assert!(lit.contains(&(126, 63)));
    assert!(!lit.contains(&(127, 63)));
    assert!(lit.contains(&(1, 0)));
    assert!(!lit.contains(&(0, 0)));
    assert_headers(display.get_buffer());
}

#[test]
fn drawing_keeps_what_is_lit() {
    let mut display = OLEDDriver::new();
    display.set_pixel(10, 20, true);
    display.set_pixel(50, 50, true);
    draw_particle(&mut display, 10, 20);
    let lit = lit_pixels(display.get_buffer());
    assert_eq!(lit.len(), 14);
    assert!(lit.contains(&(10, 20)));
    assert!(lit.contains(&(50, 50)));
}

#[test]
fn every_particle_of_the_fluid_is_drawn() {
    let mut a = Particle::new(3, 4);
    a.position = FixedPtVec2D { x: FixedPt { value: 3 * 65536 + 65535 }, y: FixedPt { value: 4 * 65536 + 1 } };
    let fluid = Fluid::<3>::from_particles([a, Particle::new(100, 50), Particle::new(124, 60)], 125, 61);
    assert!(can_draw(&fluid));
    let mut display = OLEDDriver::new();
    draw_particles(&mut display, &fluid);
    let mut expected = OLEDDriver::new();
    draw_particle(&mut expected, 3, 4);
    draw_particle(&mut expected, 100, 50);
    draw_particle(&mut expected, 124, 60);
    assert_eq!(display.get_buffer(), expected.get_buffer());
    assert_eq!(lit_pixels(display.get_buffer()).len(), 36);
}

#[test]
fn overlapping_discs_share_pixels() {
    let fluid = Fluid::<2>::from_particles([Particle::new(10, 10), Particle::new(12, 10)], 125, 61);
    let mut display = OLEDDriver::new();
    draw_particles(&mut display, &fluid);
    // the two discs share four pixels
    assert_eq!(lit_pixels(display.get_buffer()).len(), 20);
}

#[test]
fn particles_off_the_display_cannot_be_drawn() {
    let inside = Fluid::<2>::from_particles([Particle::new(0, 0), Particle::new(124, 60)], 125, 61);
    assert!(can_draw(&inside));
    assert!(!can_draw(&Fluid::<1>::from_particles([Particle::new(125, 0)], 125, 61)));
    assert!(!can_draw(&Fluid::<1>::from_particles([Particle::new(0, 61)], 125, 61)));
    assert!(!can_draw(&Fluid::<1>::from_particles([Particle::new(-1, 0)], 125, 61)));
    assert!(!can_draw(&Fluid::<2>::from_particles([Particle::new(1, 1), Particle::new(0, -1)], 125, 61)));
    let mut wrapped = Particle::new(0, 0);
    // the integer part 256 shows as 0 in eight bits, but is off the display
    wrapped.position.x = FixedPt { value: 256 * 65536 };
    assert_eq!(wrapped.get_display_position(), (0, 0));
    assert!(!can_draw(&Fluid::<1>::from_particles([wrapped], 125, 61)));
    assert!(can_draw(&Fluid::<0>::new(125, 61)));
}

#[test]
fn a_stepped_fluid_can_always_be_drawn() {
    let mut fluid = Fluid::<50>::new(125, 61);
    assert!(can_draw(&fluid));
    let mut display = OLEDDriver::new();
    fluid.set_gravity(FixedPt::from_i8(1), FixedPt::from_i8(1));
    for _ in 0..100 {
        fluid.step();
        assert!(can_draw(&fluid));
        display.clear();
        draw_particles(&mut display, &fluid);
        let lit = lit_pixels(display.get_buffer()).len();
        assert!(12 <= lit && lit <= 50 * 12);
    }
}
