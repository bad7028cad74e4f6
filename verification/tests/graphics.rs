use st7789_display::display::geometry::{Pixel, Point, Rectangle, Size};
use st7789_display::display::graphics::{framebuffer, swap_bytes, Clip, Framebuffer, HEIGHT, WIDTH};
use st7789_display::display::transaction::{Progress, Transaction};
use st7789_display::display::{Orientation, ST7789};

fn rect(x: i32, y: i32, w: u32, h: u32) -> Rectangle {
    Rectangle::new(Point::new(x, y), Size::new(w, h))
}

fn portrait() -> ST7789<(), ()> {
    ST7789::new((), None, 240, 240)
}

fn finish(driver: &mut ST7789<(), ()>, txn: Transaction) {
    let mut txn = txn;
    loop {
        match driver.advance::<()>(txn, Ok(())) {
            Progress::Perform(_, rest) => txn = rest,
            Progress::Finished(result) => {
                assert_eq!(result, Ok(()));
                return;
            }
        }
    }
}

fn landscape() -> ST7789<(), ()> {
    let mut driver = portrait();
    let txn = driver.set_orientation(Orientation::Landscape);
    finish(&mut driver, txn);
    driver
}

fn ramp(n: usize) -> Vec<u16> {
    (0..n).map(|i| (i as u16).wrapping_mul(7).wrapping_add(0x0101)).collect()
}

fn reference_clip(bounds: Rectangle, area: Rectangle) -> Rectangle {
    let to = |r: Rectangle| {
        embedded_graphics_core::primitives::Rectangle::new(
            embedded_graphics_core::geometry::Point::new(r.top_left.x, r.top_left.y),
            embedded_graphics_core::geometry::Size::new(r.size.width, r.size.height),
        )
    };
    let r = to(area).intersection(&to(bounds).intersection(&to(area)));
    rect(r.top_left.x, r.top_left.y, r.size.width, r.size.height)
}

#[test]
fn byte_swap_exchanges_the_two_bytes() {
    assert_eq!(swap_bytes(0x1234), 0x3412);
    assert_eq!(swap_bytes(0x00ff), 0xff00);
    assert_eq!(swap_bytes(0xabab), 0xabab);
    assert_eq!(swap_bytes(0), 0);
    assert_eq!(swap_bytes(0xf800), 0xf800u16.swap_bytes());
}

#[test]
fn fresh_mirror_is_blank_and_covers_the_grid() {
    let fb = framebuffer();
    assert_eq!(fb.len(), WIDTH * HEIGHT);
    assert_eq!(fb.len(), 76_800);
    assert!(fb.as_slice().iter().all(|&c| c == 0));
    let other = Framebuffer::new();
    assert_eq!(other.as_slice(), fb.as_slice());
}

#[test]
fn bounding_box_follows_orientation() {
    assert_eq!(portrait().framebuffer_bounding_box(), rect(0, 0, 240, 320));
    assert_eq!(landscape().framebuffer_bounding_box(), rect(0, 0, 320, 240));
    let mut driver = portrait();
    let txn = driver.set_orientation(Orientation::PortraitSwapped);
    finish(&mut driver, txn);
    assert_eq!(driver.framebuffer_bounding_box(), rect(0, 0, 240, 320));
    let txn = driver.set_orientation(Orientation::LandscapeSwapped);
    finish(&mut driver, txn);
    assert_eq!(driver.framebuffer_bounding_box(), rect(0, 0, 320, 240));
}

#[test]
fn size_reports_the_visible_area() {
    let driver: ST7789<(), ()> = ST7789::new((), None, 240, 135);
    assert_eq!(driver.size(), Size::new(240, 135));
    assert_eq!(landscape().size(), Size::new(240, 240));
}

#[test]
fn clip_of_rectangle_over_the_top_left_corner() {
    let clip = portrait().clip(&rect(-5, -5, 10, 10));
    assert_eq!(
        clip,
        Some(Clip {
            area: rect(0, 0, 5, 5),
            skip_top_left: Point::new(5, 5),
            skip_bottom_right: Point::new(0, 0),
        })
    );
}

#[test]
fn clip_of_rectangle_over_the_bottom_right_corner() {
    let clip = portrait().clip(&rect(230, 310, 20, 30));
    assert_eq!(
        clip,
        Some(Clip {
            area: rect(230, 310, 10, 10),
            skip_top_left: Point::new(0, 0),
            skip_bottom_right: Point::new(10, 20),
        })
    );
}

#[test]
fn clip_is_none_where_nothing_is_visible() {
    let driver = portrait();
    assert_eq!(driver.clip(&rect(240, 0, 10, 10)), None);
    assert_eq!(driver.clip(&rect(0, 320, 10, 10)), None);
    assert_eq!(driver.clip(&rect(-10, 0, 10, 10)), None);
    assert_eq!(driver.clip(&rect(0, -10, 10, 10)), None);
    assert_eq!(driver.clip(&rect(10, 10, 0, 5)), None);
    assert_eq!(driver.clip(&rect(10, 10, 5, 0)), None);
    assert_eq!(driver.clip(&rect(-3, -3, 0, 0)), None);
    assert_eq!(driver.clip(&rect(i32::MIN, i32::MIN, 10, 10)), None);
    assert_eq!(driver.clip(&rect(i32::MAX - 10, 0, 10, 10)), None);
}

#[test]
fn clip_agrees_with_the_graphics_library() {
    let drivers = [portrait(), landscape()];
    let xs = [-400, -5, 0, 7, 200, 239, 240, 300, 319, 320, 1000];
    let sizes = [0u32, 1, 5, 240, 241, 330, 1500];
    for driver in drivers.iter() {
        let bounds = driver.framebuffer_bounding_box();
        for &x in xs.iter() {
            for &y in xs.iter() {
                for &w in sizes.iter() {
                    for &h in sizes.iter() {
                        let area = rect(x, y, w, h);
                        let expected = reference_clip(bounds, area);
                        match driver.clip(&area) {
                            None => assert!(w == 0 || h == 0 || expected.is_zero_sized()),
                            Some(clip) => {
                                assert_eq!(clip.area, expected);
                                assert_eq!(clip.skip_top_left.x, expected.top_left.x - x);
                                assert_eq!(clip.skip_top_left.y, expected.top_left.y - y);
                                assert_eq!(
                                    clip.skip_bottom_right.x as i64,
                                    (x as i64 + w as i64)
                                        - (expected.top_left.x as i64 + expected.size.width as i64)
                                );
                                assert_eq!(
                                    clip.skip_bottom_right.y as i64,
                                    (y as i64 + h as i64)
                                        - (expected.top_left.y as i64 + expected.size.height as i64)
                                );
                            }
                        }
                    }
                }
            }
        }
    }
}

#[test]
fn fill_off_the_grid_takes_nothing_and_writes_nothing() {
    let driver = portrait();
    let mut fb = framebuffer();
    let colors = ramp(100);
    assert_eq!(driver.fill_contiguous(&mut fb, &rect(240, 0, 10, 10), &colors), 0);
    assert_eq!(driver.fill_contiguous(&mut fb, &rect(-10, -10, 10, 10), &colors), 0);
    assert_eq!(driver.fill_contiguous(&mut fb, &rect(0, 320, 10, 10), &colors), 0);
    assert_eq!(driver.fill_contiguous(&mut fb, &rect(3, 3, 0, 10), &colors), 0);
    // no pixel is asked for where none is shown
    assert_eq!(driver.fill_contiguous(&mut fb, &rect(500, 500, 10, 10), &[]), 0);
    assert!(fb.as_slice().iter().all(|&c| c == 0));
}

#[test]
fn fill_inside_the_grid_stores_every_pixel_in_its_cell() {
    let driver = portrait();
    let mut fb = framebuffer();
    let area = rect(10, 20, 7, 3);
    let colors = ramp(21);
    assert_eq!(driver.fill_contiguous(&mut fb, &area, &colors), 21);
    for i in 0..fb.len() {
        let (x, y) = ((i % 240) as i32, (i / 240) as i32);
        let inside = (10..17).contains(&x) && (20..23).contains(&y);
        let expected = if inside {
            swap_bytes(colors[((y - 20) * 7 + (x - 10)) as usize])
        } else {
            0
        };
        assert_eq!(fb.get(i), expected, "cell {}", i);
    }
    // row-major order: first row of the rectangle first
    assert_eq!(fb.get(10 + 20 * 240), swap_bytes(colors[0]));
    assert_eq!(fb.get(16 + 20 * 240), swap_bytes(colors[6]));
    assert_eq!(fb.get(10 + 21 * 240), swap_bytes(colors[7]));
    assert_eq!(fb.get(16 + 22 * 240), swap_bytes(colors[20]));
}

#[test]
fn fill_overwrites_what_the_cells_held() {
    let driver = portrait();
    let mut fb = framebuffer();
    driver.fill_contiguous(&mut fb, &rect(0, 0, 2, 2), &[0xffff; 4]);
    driver.fill_contiguous(&mut fb, &rect(1, 0, 1, 1), &[0x1234]);
    assert_eq!(fb.get(0), 0xffff);
    assert_eq!(fb.get(1), 0x3412);
    assert_eq!(fb.get(240), 0xffff);
}

#[test]
fn fill_over_the_top_left_corner_keeps_the_bottom_right_block() {
    let driver = portrait();
    let mut fb = framebuffer();
    let colors = ramp(100);
    let consumed = driver.fill_contiguous(&mut fb, &rect(-5, -5, 10, 10), &colors);
    assert_eq!(consumed, 100);
    for i in 0..fb.len() {
        let (x, y) = (i % 240, i / 240);
        let expected = if x < 5 && y < 5 {
            swap_bytes(colors[(y + 5) * 10 + (x + 5)])
        } else {
            0
        };
        assert_eq!(fb.get(i), expected, "cell {}", i);
    }
}

#[test]
fn fill_over_the_right_edge_passes_over_the_cut_columns() {
    let driver = portrait();
    let mut fb = framebuffer();
    // columns 236..244, rows 2..5: 4 of 8 columns are visible
    let colors = ramp(24);
    let consumed = driver.fill_contiguous(&mut fb, &rect(236, 2, 8, 3), &colors);
    assert_eq!(consumed, 24);
    for row in 0..3 {
        for col in 0..4 {
            assert_eq!(fb.get(236 + col + (2 + row) * 240), swap_bytes(colors[row * 8 + col]));
        }
        // the cells after the row's end belong to the next row and stay
        if row < 2 {
            assert_eq!(fb.get(240 + (2 + row) * 240), 0);
        }
    }
    let written = fb.as_slice().iter().filter(|&&c| c != 0).count();
    assert_eq!(written, 12);
}

#[test]
fn fill_over_the_bottom_edge_leaves_the_rows_below_unread() {
    let driver = portrait();
    let mut fb = framebuffer();
    // rows 318..323: two are visible, three are below the grid
    let colors = ramp(4 * 5);
    let consumed = driver.fill_contiguous(&mut fb, &rect(0, 318, 4, 5), &colors);
    assert_eq!(consumed, 8);
    for col in 0..4 {
        assert_eq!(fb.get(col + 318 * 240), swap_bytes(colors[col]));
        assert_eq!(fb.get(col + 319 * 240), swap_bytes(colors[4 + col]));
    }
    // the pixels of the visible rows are enough
    let mut again = framebuffer();
    assert_eq!(driver.fill_contiguous(&mut again, &rect(0, 318, 4, 5), &colors[..8]), 8);
    assert_eq!(again.as_slice(), fb.as_slice());
}

#[test]
fn fill_over_the_top_edge_passes_over_whole_rows() {
    let driver = portrait();
    let mut fb = framebuffer();
    let colors = ramp(3 * 4);
    // rows -2..2, columns 100..103
    let consumed = driver.fill_contiguous(&mut fb, &rect(100, -2, 3, 4), &colors);
    assert_eq!(consumed, 12);
    for row in 0..2 {
        for col in 0..3 {
            assert_eq!(fb.get(100 + col + row * 240), swap_bytes(colors[(row + 2) * 3 + col]));
        }
    }
    assert_eq!(fb.as_slice().iter().filter(|&&c| c != 0).count(), 6);
}

#[test]
fn fill_takes_what_is_there_of_the_last_trailing_skip() {
    let driver = portrait();
    let mut fb = framebuffer();
    // one row, columns 238..243: two visible, three cut off at the right;
    // the sequence ends one pixel into the cut off part
    let colors = ramp(3);
    let consumed = driver.fill_contiguous(&mut fb, &rect(238, 0, 5, 1), &colors);
    assert_eq!(consumed, 3);
    assert_eq!(fb.get(238), swap_bytes(colors[0]));
    assert_eq!(fb.get(239), swap_bytes(colors[1]));
    assert_eq!(fb.get(240), 0);
}

#[test]
fn fill_of_the_whole_portrait_grid_fills_the_mirror() {
    let driver = portrait();
    let mut fb = framebuffer();
    let colors = vec![0xf81fu16; 240 * 320];
    let consumed = driver.fill_contiguous(&mut fb, &rect(0, 0, 240, 320), &colors);
    assert_eq!(consumed, 76_800);
    assert_eq!(
        driver.clip(&rect(0, 0, 240, 320)),
        Some(Clip {
            area: rect(0, 0, 240, 320),
            skip_top_left: Point::new(0, 0),
            skip_bottom_right: Point::new(0, 0),
        })
    );
    assert!(fb.as_slice().iter().all(|&c| c == 0x1ff8));
}

#[test]
fn fill_of_the_whole_landscape_grid_wraps_long_rows() {
    let driver = landscape();
    let mut fb = framebuffer();
    let colors = vec![0xf81fu16; 320 * 240];
    let consumed = driver.fill_contiguous(&mut fb, &rect(0, 0, 320, 240), &colors);
    assert_eq!(consumed, 76_800);
    // a row of the mirror has 240 cells: the last pixel, (319, 239), lands in
    // cell 319 + 239 * 240
    for i in 0..fb.len() {
        let expected = if i <= 319 + 239 * 240 { 0x1ff8 } else { 0 };
        assert_eq!(fb.get(i), expected, "cell {}", i);
    }
}

#[test]
fn fill_in_landscape_lower_row_wins_a_shared_cell() {
    let driver = landscape();
    let mut fb = framebuffer();
    // two rows of 300 pixels: pixel (240 + x, 0) shares its cell with (x, 1)
    let colors = ramp(600);
    assert_eq!(driver.fill_contiguous(&mut fb, &rect(0, 0, 300, 2), &colors), 600);
    for x in 0..240 {
        assert_eq!(fb.get(x), swap_bytes(colors[x]));
    }
    for x in 0..300 {
        assert_eq!(fb.get(240 + x), swap_bytes(colors[300 + x]));
    }
    assert_eq!(fb.get(540), 0);
}

#[test]
fn single_pixel_inside_toggles_its_cell() {
    let driver = portrait();
    let mut fb = framebuffer();
    driver.fill_contiguous(&mut fb, &rect(3, 2, 1, 1), &[0x00ff]);
    assert_eq!(fb.get(3 + 2 * 240), 0xff00);
    driver.draw_iter(&mut fb, &[Pixel(Point::new(3, 2), 0x1234)]);
    assert_eq!(fb.get(3 + 2 * 240), 0xff00 ^ 0x3412);
    // toggling again restores the cell
    driver.draw_iter(&mut fb, &[Pixel(Point::new(3, 2), 0x1234)]);
    assert_eq!(fb.get(3 + 2 * 240), 0xff00);
    assert_eq!(fb.as_slice().iter().filter(|&&c| c != 0).count(), 1);
}

#[test]
fn single_pixels_outside_the_square_are_dropped() {
    let driver = portrait();
    let mut fb = framebuffer();
    driver.draw_iter(
        &mut fb,
        &[
            Pixel(Point::new(-1, 0), 0xffff),
            Pixel(Point::new(0, -1), 0xffff),
            Pixel(Point::new(240, 0), 0xffff),
            Pixel(Point::new(0, 240), 0xffff),
            Pixel(Point::new(10, 319), 0xffff),
            Pixel(Point::new(i32::MIN, i32::MAX), 0xffff),
        ],
    );
    assert!(fb.as_slice().iter().all(|&c| c == 0));
    driver.draw_iter(
        &mut fb,
        &[Pixel(Point::new(0, 0), 0x0001), Pixel(Point::new(239, 239), 0x8000)],
    );
    assert_eq!(fb.get(0), 0x0100);
    assert_eq!(fb.get(239 + 239 * 240), 0x0080);
    assert_eq!(fb.as_slice().iter().filter(|&&c| c != 0).count(), 2);
}

#[test]
fn single_pixels_are_painted_in_order() {
    let driver = landscape();
    let mut fb = framebuffer();
    driver.draw_iter(
        &mut fb,
        &[
            Pixel(Point::new(5, 5), 0x0f0f),
            Pixel(Point::new(6, 5), 0x1111),
            Pixel(Point::new(5, 5), 0x00ff),
        ],
    );
    assert_eq!(fb.get(5 + 5 * 240), 0x0f0f ^ 0xff00);
    assert_eq!(fb.get(6 + 5 * 240), 0x1111);
    driver.draw_iter(&mut fb, &[]);
    assert_eq!(fb.get(6 + 5 * 240), 0x1111);
}

#[test]
fn corner_in_range_tells_whether_the_corner_fits_i32() {
    assert!(rect(0, 0, 240, 320).corner_in_range());
    assert!(rect(i32::MAX, i32::MAX, 0, 7).corner_in_range());
    assert!(rect(i32::MAX - 10, 0, 10, 10).corner_in_range());
    assert!(!rect(i32::MAX - 10, 0, 11, 10).corner_in_range());
    assert!(!rect(0, i32::MAX, 1, 1).corner_in_range());
    assert!(!rect(-10, -10, 0x8000_0000, 1).corner_in_range());
    assert!(rect(i32::MIN, i32::MIN, 0x7fff_ffff, 0x7fff_ffff).corner_in_range());
    assert_eq!(rect(2, 3, 4, 5).bottom_right(), Some(Point::new(5, 7)));
    assert_eq!(rect(2, 3, 0, 5).bottom_right(), None);
    assert!(rect(2, 3, 0, 5).is_zero_sized());
    assert_eq!(Rectangle::zero(), rect(0, 0, 0, 0));
    assert_eq!(Point::new(5, 7).offset_from(Point::new(-1, 9)), Point::new(6, -2));
}

#[test]
fn can_fill_asks_for_the_pixels_up_to_the_last_stored_one() {
    let driver = portrait();
    // columns -1..3 and rows -1..2: the last stored pixel is the last of all
    assert!(driver.can_fill(&rect(-1, -1, 4, 3), 12));
    assert!(!driver.can_fill(&rect(-1, -1, 4, 3), 11));
    // columns 238..243, rows 0..2: the last stored pixel has index 5 + 1
    assert!(driver.can_fill(&rect(238, 0, 5, 2), 7));
    assert!(!driver.can_fill(&rect(238, 0, 5, 2), 6));
    // nothing visible: nothing is asked for
    assert!(driver.can_fill(&rect(500, 0, 5, 2), 0));
    assert!(!driver.can_fill(&rect(i32::MAX, 0, 5, 2), 100));
    assert!(driver.can_fill(&rect(0, 0, 240, 320), 76_800));
    assert!(!driver.can_fill(&rect(0, 0, 240, 320), 76_799));
    let wide = landscape();
    assert!(wide.can_fill(&rect(0, 0, 320, 240), 76_800));
    assert!(!wide.can_fill(&rect(0, 0, 320, 241), 76_799));
}
