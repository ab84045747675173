use mandelterm::bitmap::{centre_offset, circle_shade, floor_sqrt, Bitmap};

const BG: &str = "\x1b[38;5;7m\x1b[48;5;0m ";
const SOLID: &str = "\u{2593}";

#[test]
fn new_bitmap_is_zeroed_and_in_colour_mode() {
    let b = Bitmap::new(4, 3);
    assert_eq!(b.width(), 4);
    assert_eq!(b.height(), 3);
    assert_eq!(b.mode(), 1);
    for y in 0..3 {
        for x in 0..4 {
            assert_eq!(b.get(x, y), 0);
        }
    }
}

#[test]
fn set_writes_one_cell_row_major() {
    let mut b = Bitmap::new(3, 2);
    b.set(2, 1, 9);
    b.set(0, 1, -1);
    for y in 0..2 {
        for x in 0..3 {
            let want = if (x, y) == (2, 1) {
                9
            } else if (x, y) == (0, 1) {
                -1
            } else {
                0
            };
            assert_eq!(b.get(x, y), want);
        }
    }
    b.set_mode(2);
    assert_eq!(b.display(), format!("{s}{s}{s}\r\n{bg}{s}{s}\r", s = SOLID, bg = BG));
}

#[test]
fn set_mode_keeps_the_cells() {
    let mut b = Bitmap::new(5, 4);
    b.fill_circle();
    b.set(1, 1, -1);
    let before: Vec<i32> = (0..20).map(|i| b.get(i % 5, i / 5)).collect();
    b.set_mode(2);
    assert_eq!(b.mode(), 2);
    let outline: Vec<i32> = (0..20).map(|i| b.get(i % 5, i / 5)).collect();
    b.set_mode(1);
    assert_eq!(b.mode(), 1);
    let colour: Vec<i32> = (0..20).map(|i| b.get(i % 5, i / 5)).collect();
    assert_eq!(before, outline);
    assert_eq!(before, colour);
    assert_eq!(b.width(), 5);
    assert_eq!(b.height(), 4);
}

#[test]
fn single_cell_fill() {
    let mut b = Bitmap::new(1, 1);
    b.fill_with(|x, y| 17 + x + y);
    assert_eq!(b.get(0, 0), 17);
    b.set_mode(2);
    assert_eq!(b.display(), format!("{}\r", SOLID));
    b.fill_with(|_, _| -1);
    assert_eq!(b.display(), format!("{}\r", BG));
    b.fill_circle();
    assert_eq!(b.get(0, 0), 0);
}

#[test]
fn fill_with_hands_out_column_then_row() {
    let mut b = Bitmap::new(7, 3);
    b.fill_with(|x, y| 100 * y + x);
    for y in 0..3 {
        for x in 0..7 {
            assert_eq!(b.get(x, y), 100 * y + x);
        }
    }
}

#[test]
fn fill_circle_measures_distance_from_centre() {
    let mut b = Bitmap::new(5, 4);
    b.fill_circle();
    let want = [[2, 2, 2, 2, 2], [2, 1, 1, 1, 2], [2, 1, 0, 1, 2], [2, 1, 1, 1, 2]];
    for y in 0..4 {
        for x in 0..5 {
            assert_eq!(b.get(x, y), want[y as usize][x as usize]);
        }
    }
}

#[test]
fn fill_circle_on_a_wide_row() {
    let mut b = Bitmap::new(201, 1);
    b.fill_circle();
    assert_eq!(b.get(0, 0), 100);
    assert_eq!(b.get(100, 0), 0);
    assert_eq!(b.get(200, 0), 100);
    assert_eq!(b.get(93, 0), 7);
}

#[test]
fn circle_shade_values() {
    assert_eq!(circle_shade(0, 0, 8, 6), 5);
    assert_eq!(circle_shade(4, 3, 8, 6), 0);
    assert_eq!(circle_shade(7, 5, 8, 6), 3);
    assert_eq!(circle_shade(0, 0, 2_000_000_000, 1), 1_000_000_000);
}

#[test]
fn floor_sqrt_values() {
    assert_eq!(floor_sqrt(0), 0);
    assert_eq!(floor_sqrt(1), 1);
    assert_eq!(floor_sqrt(3), 1);
    assert_eq!(floor_sqrt(4), 2);
    assert_eq!(floor_sqrt(24), 4);
    assert_eq!(floor_sqrt(25), 5);
    assert_eq!(floor_sqrt(1 << 62), 1 << 31);
    assert_eq!(floor_sqrt(u64::MAX), (1 << 32) - 1);
    for n in 0..2000u64 {
        let r = floor_sqrt(n);
        assert!(r * r <= n && n < (r + 1) * (r + 1));
    }
}

#[test]
fn display_outline_marks_sentinel_as_background() {
    let mut b = Bitmap::new(2, 2);
    b.set(0, 0, -1);
    b.set(1, 0, 5);
    b.set(0, 1, 0);
    b.set(1, 1, -1);
    let want = format!("{bg}{s}\r\n{s}{bg}\r", s = SOLID, bg = BG);
    assert_eq!(b.display_outline(), want);
    assert_ne!(b.display(), want);
    b.set_mode(2);
    assert_eq!(b.display(), want);
    b.set_mode(7);
    assert_eq!(b.display(), want);
}

#[test]
fn display_color_uses_the_palette() {
    let mut b = Bitmap::new(3, 1);
    b.set(0, 0, -1);
    b.set(1, 0, 7);
    b.set(2, 0, 40);
    let want = format!(
        "{}{}{}\r",
        BG, "\x1b[48;5;4m\x1b[38;5;12m\u{2592}", "\x1b[48;5;0m\x1b[38;5;4m "
    );
    assert_eq!(b.display_color(), want);
    assert_eq!(b.display(), want);
}

#[test]
fn display_of_an_empty_grid_is_empty() {
    assert_eq!(Bitmap::new(0, 0).display(), "");
    assert_eq!(Bitmap::new(0, 5).display(), "");
    assert_eq!(Bitmap::new(5, 0).display_outline(), "");
}

#[test]
fn display_separates_rows() {
    let mut b = Bitmap::new(1, 3);
    b.set_mode(2);
    assert_eq!(b.display(), format!("{s}\r\n{s}\r\n{s}\r", s = SOLID));
}

#[test]
fn centre_offset_values() {
    assert_eq!(centre_offset(0, 70), -35);
    assert_eq!(centre_offset(35, 70), 0);
    assert_eq!(centre_offset(69, 70), 34);
    assert_eq!(centre_offset(0, 1), 0);
    assert_eq!(centre_offset(4, 5), 2);
    assert_eq!(centre_offset(0, 5), -2);
}
