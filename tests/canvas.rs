use font8x8::UnicodeFonts;
use worldgen::canvas::Canvas;

const BG: [u8; 3] = [0, 0, 0];
const INK: [u8; 3] = [255, 255, 255];

fn at(c: &Canvas, x: u32, y: u32) -> [u8; 3] {
    c.pixels[(y * c.width + x) as usize]
}

#[test]
fn new_canvas_is_filled() {
    let c = Canvas::new(3, 2, [1, 2, 3]);
    assert_eq!(c.pixels, vec![[1, 2, 3]; 6]);
}

#[test]
fn fill_rect_is_clipped() {
    let mut c = Canvas::new(4, 3, BG);
    c.fill_rect(2, 1, 5, 5, INK);
    for y in 0..3 {
        for x in 0..4 {
            let inside = x >= 2 && y >= 1;
            assert_eq!(at(&c, x, y), if inside { INK } else { BG }, "pixel {x},{y}");
        }
    }
}

#[test]
fn outline_rect_draws_border_only() {
    let mut c = Canvas::new(5, 5, BG);
    c.outline_rect(1, 1, 3, 3, INK);
    for y in 0..5 {
        for x in 0..5 {
            let border = (1..=3).contains(&x) && (1..=3).contains(&y) && !(x == 2 && y == 2);
            assert_eq!(at(&c, x, y), if border { INK } else { BG }, "pixel {x},{y}");
        }
    }
}

#[test]
fn draw_char_matches_the_basic_font() {
    let glyph = font8x8::BASIC_FONTS.get('A').unwrap();
    let mut c = Canvas::new(20, 18, BG);
    c.draw_char('A', 1, 2, INK);
    let mut lit = 0;
    for y in 0..18u32 {
        for x in 0..20u32 {
            let on = x >= 1
                && y >= 2
                && x < 17
                && y < 18
                && glyph[((y - 2) / 2) as usize] & (1 << ((x - 1) / 2)) != 0;
            if on {
                lit += 1;
            }
            assert_eq!(at(&c, x, y), if on { INK } else { BG }, "pixel {x},{y}");
        }
    }
    assert!(lit > 0);
}

#[test]
fn draw_char_outside_the_basic_block_draws_nothing() {
    let mut c = Canvas::new(16, 16, BG);
    c.draw_char('é', 0, 0, INK);
    assert_eq!(c.pixels, vec![BG; 256]);
}

#[test]
fn draw_str_places_characters_side_by_side() {
    let mut a = Canvas::new(40, 16, BG);
    a.draw_str(&vec!['H', 'i'], 2, 0, INK);
    let mut b = Canvas::new(40, 16, BG);
    b.draw_char('H', 2, 0, INK);
    b.draw_char('i', 18, 0, INK);
    assert_eq!(a.pixels, b.pixels);
    assert!(a.pixels.iter().any(|&p| p == INK));
}
