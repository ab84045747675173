use mandelterm::bitmap::Bitmap;
use mandelterm::screen::display_all;
use mandelterm::term::{push_decimal, push_signed};

const HOME: &str = "\x1b[1;1H";
const BG: &str = "\x1b[38;5;7m\x1b[48;5;0m ";
const SOLID: &str = "\u{2593}";

fn kernel(cx: f64, cy: f64, n: i64) -> i32 {
    let (mut x, mut y) = (0.0f64, 0.0f64);
    for _ in 0..n {
        let (sx, sy) = (x * x - y * y, x * y + y * x);
        x = sx + cx;
        y = sy + cy;
    }
    let len = (x * x + y * y).sqrt();
    if len.is_nan() {
        -1
    } else {
        (len * 100.0).round() as i32
    }
}

fn plane(px: i32, py: i32, w: i32, h: i32) -> (f64, f64) {
    let nx = (px - w / 2) as f64 / w as f64;
    let ny = (py - h / 2) as f64 / h as f64;
    ((w as f64 / h as f64) * nx, 2.0 * ny)
}

#[test]
fn push_decimal_values() {
    for n in [0u64, 7, 9, 10, 11, 99, 100, 12345, 1_000_000, u64::MAX] {
        let mut out = String::from("n=");
        push_decimal(&mut out, n);
        assert_eq!(out, format!("n={}", n));
    }
}

#[test]
fn push_signed_values() {
    for n in [0i32, 1, -1, -5, 42, -1000, i32::MAX, i32::MIN] {
        let mut out = String::new();
        push_signed(&mut out, n);
        assert_eq!(out, format!("{}", n));
    }
}

#[test]
fn repaint_starts_at_the_top_left() {
    let mut b = Bitmap::new(2, 1);
    b.set_mode(2);
    b.set(1, 0, -1);
    assert_eq!(display_all(&b, false, "0,0-0", 7), format!("{}{}{}\r", HOME, SOLID, BG));
}

#[test]
fn help_panel_is_laid_over_the_frame() {
    let mut b = Bitmap::new(1, 1);
    b.set_mode(2);
    let want = format!(
        "{home}{s}\r{home}{bg}pos:0.5,-1-0.2\r\n? - Open this message\r\nArrows- Move Slower\r\n\
         wasd  - Move\r\nWASD  - Move Faster\r\n+-    - Zoom\r\n()    - Depth 12\r\n\
         1     - Color mode\r\n2     - Outline mode\r\nq     - Quit\r\n",
        home = HOME,
        s = SOLID,
        bg = BG
    );
    assert_eq!(display_all(&b, true, "0.5,-1-0.2", 12), want);
}

#[test]
fn kernel_far_outside_gives_the_sentinel() {
    assert_eq!(kernel(10.0, 10.0, 100), -1);
    assert_eq!(kernel(5.0, 5.0, 700), -1);
    assert_eq!(kernel(0.0, 0.0, 700), 0);
}

#[test]
fn outline_of_the_start_view() {
    let (w, h) = (70, 40);
    let mut b = Bitmap::new(w, h);
    b.fill_with(|px, py| {
        let (cx, cy) = plane(px, py, w, h);
        kernel(cx, cy, 700)
    });
    b.set_mode(2);
    assert_eq!(plane(35, 20, w, h), (0.0, 0.0));
    assert_eq!(b.get(35, 20), 0);
    assert_eq!(b.get(0, 0), -1);
    b.set(1, 0, kernel(5.0, 5.0, 700));
    let mut want = String::new();
    for y in 0..h {
        if y != 0 {
            want.push('\n');
        }
        for x in 0..w {
            want.push_str(if b.get(x, y) == -1 { BG } else { SOLID });
        }
        want.push('\r');
    }
    let text = b.display();
    assert_eq!(text, want);
    assert!(text.starts_with(&format!("{}{}", BG, BG)));
    let row: Vec<&str> = text.split('\r').collect();
    assert_eq!(row.len(), 41);
    assert!(row[20].contains(SOLID));
    assert_eq!(display_all(&b, false, "", 7), format!("{}{}", HOME, want));
}

#[test]
fn fill_is_repeatable() {
    let (w, h) = (12, 6);
    let mut a = Bitmap::new(w, h);
    let mut b = Bitmap::new(w, h);
    a.fill_with(|px, py| kernel(plane(px, py, w, h).0, plane(px, py, w, h).1, 100));
    b.fill_with(|px, py| kernel(plane(px, py, w, h).0, plane(px, py, w, h).1, 100));
    assert_eq!(a.display(), b.display());
}
