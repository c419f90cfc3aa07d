use sysmon::gauge::{band, fill_count, layout, render_bar, Band, Category};

fn plain_bar(filled: usize, empty: usize) -> String {
    format!("[{}{}]", "\u{2588}".repeat(filled), " ".repeat(empty))
}

#[test]
fn fill_rounds_share_of_width() {
    assert_eq!(fill_count(0, 20), 0);
    assert_eq!(fill_count(10000, 20), 20);
    assert_eq!(fill_count(5000, 20), 10);
    assert_eq!(fill_count(2500, 10), 3); // 2.5 rounds up
    assert_eq!(fill_count(2499, 10), 2);
    assert_eq!(fill_count(3333, 20), 7);
}

#[test]
fn fill_clamps_above_full() {
    assert_eq!(fill_count(25000, 20), 20);
    assert_eq!(fill_count(u64::MAX, 10), 10);
    assert_eq!(fill_count(u64::MAX, usize::MAX), usize::MAX);
}

#[test]
fn layout_cells_add_up_to_width() {
    for w in 1..30usize {
        for p in (0..=10000u64).step_by(37) {
            let l = layout(p, w, Category::Load);
            assert_eq!(l.filled + l.empty, w);
            assert_eq!(l.filled as u64, (p * w as u64 + 5000) / 10000);
        }
    }
}

#[test]
fn load_band_edges() {
    assert_eq!(band(6000, Category::Load), Band::Red);
    assert_eq!(band(5999, Category::Load), Band::Yellow);
    assert_eq!(band(5000, Category::Load), Band::Yellow);
    assert_eq!(band(4999, Category::Load), Band::Green);
    assert_eq!(band(0, Category::Load), Band::Green);
}

#[test]
fn charge_band_edges() {
    assert_eq!(band(6000, Category::Charge), Band::Green);
    assert_eq!(band(5999, Category::Charge), Band::Yellow);
    assert_eq!(band(5000, Category::Charge), Band::Yellow);
    assert_eq!(band(4999, Category::Charge), Band::Red);
}

#[test]
fn bar_text_has_width_cells() {
    let r = render_bar(4000, 20, Category::Load);
    let plain = plain_bar(8, 12);
    let colored = format!("[\u{1b}[32m{}\u{1b}[0m{}]", "\u{2588}".repeat(8), " ".repeat(12));
    assert!(r == plain || r == colored);
}

#[test]
fn bar_colored_when_forced() {
    colored::control::set_override(true);
    let r = render_bar(6000, 10, Category::Load);
    assert_eq!(r, format!("[\u{1b}[31m{}\u{1b}[0m{}]", "\u{2588}".repeat(6), " ".repeat(4)));
    let r = render_bar(5000, 10, Category::Charge);
    assert_eq!(r, format!("[\u{1b}[33m{}\u{1b}[0m{}]", "\u{2588}".repeat(5), " ".repeat(5)));
    let r = render_bar(4999, 10, Category::Charge);
    assert_eq!(r, format!("[\u{1b}[31m{}\u{1b}[0m{}]", "\u{2588}".repeat(5), " ".repeat(5)));
}

#[test]
fn bar_empty_and_full() {
    colored::control::set_override(true);
    assert_eq!(render_bar(0, 5, Category::Load), "[\u{1b}[32m\u{1b}[0m     ]");
    assert_eq!(
        render_bar(15000, 5, Category::Load),
        format!("[\u{1b}[31m{}\u{1b}[0m]", "\u{2588}".repeat(5))
    );
}
