use kernel::vga::{
    color_component_to_safe_color, palette_index, pixel_write, Mode13Display, Pixel, Point, Rgb,
};

#[test]
fn quantization_thresholds() {
    assert_eq!(color_component_to_safe_color(0), 0);
    assert_eq!(color_component_to_safe_color(25), 0);
    assert_eq!(color_component_to_safe_color(26), 1);
    assert_eq!(color_component_to_safe_color(76), 1);
    assert_eq!(color_component_to_safe_color(77), 2);
    assert_eq!(color_component_to_safe_color(127), 2);
    assert_eq!(color_component_to_safe_color(128), 3);
    assert_eq!(color_component_to_safe_color(178), 3);
    assert_eq!(color_component_to_safe_color(179), 4);
    assert_eq!(color_component_to_safe_color(229), 4);
    assert_eq!(color_component_to_safe_color(230), 5);
    assert_eq!(color_component_to_safe_color(255), 5);
}

#[test]
fn quantization_monotonic_and_bounded_over_all_intensities() {
    let mut prev: u8 = 0;
    let mut c: u16 = 0;
    while c <= 255 {
        let q = color_component_to_safe_color(c as u8);
        assert!(q <= 5);
        assert!(prev <= q);
        prev = q;
        c += 1;
    }
}

#[test]
fn palette_index_formula_and_range() {
    assert_eq!(palette_index(Rgb { r: 0, g: 0, b: 0 }), 16);
    assert_eq!(palette_index(Rgb { r: 255, g: 255, b: 255 }), 231);
    assert_eq!(palette_index(Rgb { r: 255, g: 0, b: 0 }), 16 + 5);
    assert_eq!(palette_index(Rgb { r: 0, g: 255, b: 0 }), 16 + 30);
    assert_eq!(palette_index(Rgb { r: 0, g: 0, b: 255 }), 16 + 180);
    assert_eq!(palette_index(Rgb { r: 51, g: 102, b: 153 }), 16 + 1 + 2 * 6 + 3 * 36);
}

#[test]
fn pixel_write_in_bounds_offset_and_color() {
    let r = pixel_write(Point { x: 17, y: 3 }, Rgb { r: 255, g: 255, b: 255 });
    assert_eq!(r, Some((17 + 3 * 320, 231)));
    let r = pixel_write(Point { x: 319, y: 199 }, Rgb { r: 0, g: 0, b: 0 });
    assert_eq!(r, Some((319 + 199 * 320, 16)));
}

#[test]
fn pixel_write_out_of_bounds_is_none() {
    let white = Rgb { r: 255, g: 255, b: 255 };
    assert_eq!(pixel_write(Point { x: 320, y: 0 }, white), None);
    assert_eq!(pixel_write(Point { x: -1, y: 0 }, white), None);
    assert_eq!(pixel_write(Point { x: 0, y: 200 }, white), None);
    assert_eq!(pixel_write(Point { x: 0, y: -1 }, white), None);
}

#[test]
fn new_surface_is_black_and_sized() {
    let d = Mode13Display::new();
    assert_eq!(d.size(), (320, 200));
    let mut i: usize = 0;
    while i < 64000 {
        assert_eq!(d.byte_at(i), 0);
        i += 1;
    }
}

#[test]
fn set_pixel_writes_exactly_one_byte() {
    let mut d = Mode13Display::new();
    let r = d.set_pixel(Point { x: 10, y: 5 }, Rgb { r: 255, g: 255, b: 255 });
    assert_eq!(r, Some(()));
    let off: usize = 10 + 5 * 320;
    let mut i: usize = 0;
    while i < 64000 {
        if i == off {
            assert_eq!(d.byte_at(i), 231);
        } else {
            assert_eq!(d.byte_at(i), 0);
        }
        i += 1;
    }
}

#[test]
fn set_pixel_out_of_bounds_writes_nothing() {
    let mut d = Mode13Display::new();
    let white = Rgb { r: 255, g: 255, b: 255 };
    assert_eq!(d.set_pixel(Point { x: 320, y: 0 }, white), None);
    assert_eq!(d.set_pixel(Point { x: 0, y: 200 }, white), None);
    assert_eq!(d.set_pixel(Point { x: -7, y: 4 }, white), None);
    assert_eq!(d.set_pixel(Point { x: 2000, y: 2000 }, white), None);
    let mut i: usize = 0;
    while i < 64000 {
        assert_eq!(d.byte_at(i), 0);
        i += 1;
    }
}

#[test]
fn batched_draw_writes_exactly_the_in_bounds_subset() {
    let mut d = Mode13Display::new();
    let white = Rgb { r: 255, g: 255, b: 255 };
    let black = Rgb { r: 0, g: 0, b: 0 };
    let batch = vec![
        Pixel { coord: Point { x: 0, y: 0 }, color: white },
        Pixel { coord: Point { x: 320, y: 10 }, color: white },
        Pixel { coord: Point { x: 12, y: 199 }, color: Rgb { r: 255, g: 0, b: 0 } },
        Pixel { coord: Point { x: -1, y: -1 }, color: white },
        Pixel { coord: Point { x: 12, y: 300 }, color: white },
        Pixel { coord: Point { x: 100, y: 100 }, color: black },
    ];
    d.draw_iter(&batch);
    let mut nonzero: usize = 0;
    let mut i: usize = 0;
    while i < 64000 {
        if d.byte_at(i) != 0 {
            nonzero += 1;
        }
        i += 1;
    }
    // the two in-bounds non-black pixels; the in-bounds black one wrote index 16
    assert_eq!(nonzero, 3);
    assert_eq!(d.byte_at(0), 231);
    assert_eq!(d.byte_at(12 + 199 * 320), 16 + 5);
    assert_eq!(d.byte_at(100 + 100 * 320), 16);
}

#[test]
fn later_pixel_in_batch_overwrites_earlier() {
    let mut d = Mode13Display::new();
    let batch = vec![
        Pixel { coord: Point { x: 3, y: 3 }, color: Rgb { r: 255, g: 255, b: 255 } },
        Pixel { coord: Point { x: 3, y: 3 }, color: Rgb { r: 255, g: 0, b: 0 } },
    ];
    d.draw_iter(&batch);
    assert_eq!(d.byte_at(3 + 3 * 320), 16 + 5);
}
