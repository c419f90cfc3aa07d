//! Gauge bars: a percentage drawn as a bracketed run of block glyphs whose
//! color band depends on whether a high value is alarming or reassuring.
use colored::Colorize;
use vstd::prelude::*;

verus! {

/// Percentages are held in basis points: `10000` stands for 100.00%.
pub const FULL_SCALE: u64 = 10000;

/// Lower edge of the upper color band (60.00%).
pub const HIGH_EDGE: u64 = 6000;

/// Lower edge of the middle color band (50.00%).
pub const MID_EDGE: u64 = 5000;

/// What a gauge measures: a load (CPU, memory), where a high value is bad,
/// or a charge (battery), where a high value is good.
#[derive(Clone, Copy, Debug, PartialEq, Eq, Structural)]
pub enum Category {
    Load,
    Charge,
}

/// The color of a gauge's filled part.
#[derive(Clone, Copy, Debug, PartialEq, Eq, Structural)]
pub enum Band {
    Red,
    Yellow,
    Green,
}

/// The color band of a percentage (in basis points) for a category.
pub open spec fn band_of(bps: nat, category: Category) -> Band {
    match category {
        Category::Load => if bps >= HIGH_EDGE {
            Band::Red
        } else if bps >= MID_EDGE {
            Band::Yellow
        } else {
            Band::Green
        },
        Category::Charge => if bps >= HIGH_EDGE {
            Band::Green
        } else if bps >= MID_EDGE {
            Band::Yellow
        } else {
            Band::Red
        },
    }
}

/// Filled cells: `round(bps / 10000 * width)`, halves rounded up, clamped to `width`.
pub open spec fn fill_of(bps: nat, width: nat) -> nat {
    let f = ((bps * width + 5000) / 10000) as nat;
    if f > width {
        width
    } else {
        f
    }
}

/// The block glyph of a filled cell.
pub open spec fn glyph() -> char {
    '\u{2588}'
}

/// `n` copies of `c`.
pub open spec fn run_of(c: char, n: nat) -> Seq<char> {
    Seq::new(n, |i: int| c)
}

/// The SGR foreground code of a band, as colored writes it.
pub open spec fn sgr_code(band: Band) -> Seq<char> {
    match band {
        Band::Red => seq!['3', '1'],
        Band::Green => seq!['3', '2'],
        Band::Yellow => seq!['3', '3'],
    }
}

/// `s` framed by the escape sequence that sets the band's foreground color
/// and the one that resets all attributes.
pub open spec fn ansi_colored(band: Band, s: Seq<char>) -> Seq<char> {
    seq!['\u{1b}', '['] + sgr_code(band) + seq!['m'] + s + seq!['\u{1b}', '[', '0', 'm']
}

/// The bar around a (possibly colored) filled part and `empty` blank cells.
pub open spec fn bar_text(painted: Seq<char>, empty: nat) -> Seq<char> {
    seq!['['] + painted + run_of(' ', empty) + seq![']']
}

/// The shape of a gauge: how many cells are filled and blank, and the color.
#[derive(Clone, Copy, Debug, PartialEq, Eq, Structural)]
pub struct BarLayout {
    pub filled: usize,
    pub empty: usize,
    pub band: Band,
}

/// The color band of a percentage for a category.
pub fn band(bps: u64, category: Category) -> (r: Band)
    ensures
        r == band_of(bps as nat, category),
{
    match category {
        Category::Load => if bps >= HIGH_EDGE {
            Band::Red
        } else if bps >= MID_EDGE {
            Band::Yellow
        } else {
            Band::Green
        },
        Category::Charge => if bps >= HIGH_EDGE {
            Band::Green
        } else if bps >= MID_EDGE {
            Band::Yellow
        } else {
            Band::Red
        },
    }
}

/// Number of filled cells of a bar of `width` cells at `bps` basis points.
pub fn fill_count(bps: u64, width: usize) -> (r: usize)
    ensures
        r as nat == fill_of(bps as nat, width as nat),
        r <= width,
{
    proof {
        assert(bps as nat * width as nat <= u64::MAX as nat * u64::MAX as nat) by (nonlinear_arith)
            requires
                bps as nat <= u64::MAX as nat,
                width as nat <= u64::MAX as nat,
        ;
    }
    let prod: u128 = (bps as u128) * (width as u128);
    let f: u128 = (prod + 5000) / 10000;
    if f > width as u128 {
        width
    } else {
        f as usize
    }
}

/// The layout of a gauge: filled and blank cells add up to `width`, the filled
/// part is the rounded share of `width`, clamped, and the band follows the category.
pub fn layout(bps: u64, width: usize, category: Category) -> (r: BarLayout)
    ensures
        r.filled as nat == fill_of(bps as nat, width as nat),
        r.filled + r.empty == width,
        r.band == band_of(bps as nat, category),
{
    let filled = fill_count(bps, width);
    BarLayout { filled, empty: width - filled, band: band(bps, category) }
}

/// `n` copies of the block glyph.
pub fn glyph_run(n: usize) -> (r: String)
    ensures
        r@ == run_of(glyph(), n as nat),
{
    let mut s = String::new();
    let mut i: usize = 0;
    while i < n
        invariant
            i <= n,
            s@ == run_of(glyph(), i as nat),
        decreases n - i,
    {
        proof {
            reveal_strlit("\u{2588}");
        }
        s.append("\u{2588}");
        i = i + 1;
        assert(s@ =~= run_of(glyph(), i as nat));
    }
    s
}

/// The bar around an already painted filled part and `empty` blank cells.
pub fn frame(painted: &str, empty: usize) -> (r: String)
    ensures
        r@ == bar_text(painted@, empty as nat),
{
    proof {
        reveal_strlit("[");
        reveal_strlit("]");
        reveal_strlit(" ");
    }
    let mut s = String::from_str("[");
    s.append(painted);
    let mut i: usize = 0;
    while i < empty
        invariant
            i <= empty,
            s@ == seq!['['] + painted@ + run_of(' ', i as nat),
        decreases empty - i,
    {
        proof {
            reveal_strlit(" ");
        }
        s.append(" ");
        i = i + 1;
        assert(s@ =~= seq!['['] + painted@ + run_of(' ', i as nat));
    }
    s.append("]");
    assert(s@ =~= bar_text(painted@, empty as nat));
    s
}

/// No escape character in `s`, so colored leaves it unchanged inside the
/// color sequences.
pub open spec fn escape_free(s: Seq<char>) -> bool {
    forall|i: int| 0 <= i < s.len() ==> s[i] != '\u{1b}'
}

/// Relies on colored's `Colorize::red` and its `Display` of `ColoredString`:
/// with coloring on, an escape-free text is written between `ESC[31m` and the
/// reset `ESC[0m`; with coloring off (by the environment or a non-terminal
/// stdout) it is written as is.
#[verifier::external_body]
fn paint_red(s: &str) -> (r: String)
    requires
        escape_free(s@),
    ensures
        r@ == s@ || r@ == ansi_colored(Band::Red, s@),
{
    s.red().to_string()
}

/// Relies on colored's `Colorize::yellow` and its `Display` of `ColoredString`:
/// with coloring on, an escape-free text is written between `ESC[33m` and the
/// reset `ESC[0m`; with coloring off it is written as is.
#[verifier::external_body]
fn paint_yellow(s: &str) -> (r: String)
    requires
        escape_free(s@),
    ensures
        r@ == s@ || r@ == ansi_colored(Band::Yellow, s@),
{
    s.yellow().to_string()
}

/// Relies on colored's `Colorize::green` and its `Display` of `ColoredString`:
/// with coloring on, an escape-free text is written between `ESC[32m` and the
/// reset `ESC[0m`; with coloring off it is written as is.
#[verifier::external_body]
fn paint_green(s: &str) -> (r: String)
    requires
        escape_free(s@),
    ensures
        r@ == s@ || r@ == ansi_colored(Band::Green, s@),
{
    s.green().to_string()
}

/// `s` in the band's color, where the terminal takes color.
fn paint(s: &str, band: Band) -> (r: String)
    requires
        escape_free(s@),
    ensures
        r@ == s@ || r@ == ansi_colored(band, s@),
{
    match band {
        Band::Red => paint_red(s),
        Band::Yellow => paint_yellow(s),
        Band::Green => paint_green(s),
    }
}

/// A gauge bar of `width` cells for a percentage in basis points (over 100%
/// fills the bar). Whether the filled part carries color escapes depends on
/// the terminal; either way the cells are exactly those of `layout`.
pub fn render_bar(bps: u64, width: usize, category: Category) -> (r: String)
    ensures
        ({
            let f = fill_of(bps as nat, width as nat);
            let run = run_of(glyph(), f);
            r@ == bar_text(run, (width - f) as nat) || r@ == bar_text(
                ansi_colored(band_of(bps as nat, category), run),
                (width - f) as nat,
            )
        }),
{
    let l = layout(bps, width, category);
    let run = glyph_run(l.filled);
    let painted = paint(run.as_str(), l.band);
    frame(painted.as_str(), l.empty)
}

/// For a percentage within 0..=100% the rounded share needs no clamping, and
/// the bar holds exactly `width` cells between its brackets: the filled ones,
/// plain or colored, then the blank ones.
pub proof fn lemma_bar_cells(bps: nat, width: nat)
    requires
        bps <= FULL_SCALE,
    ensures
        fill_of(bps, width) == (bps * width + 5000) / 10000,
        fill_of(bps, width) <= width,
        bar_text(run_of(glyph(), fill_of(bps, width)), (width - fill_of(bps, width)) as nat).len()
            == width + 2,
        bar_text(run_of(glyph(), fill_of(bps, width)), (width - fill_of(bps, width)) as nat).subrange(
            1,
            (width + 1) as int,
        ) == run_of(glyph(), fill_of(bps, width)) + run_of(' ', (width - fill_of(bps, width)) as nat),
{
    assert((bps * width + 5000) / 10000 <= width) by (nonlinear_arith)
        requires
            bps <= 10000,
    ;
    let f = fill_of(bps, width);
    let t = bar_text(run_of(glyph(), f), (width - f) as nat);
    assert(t.subrange(1, (width + 1) as int) =~= run_of(glyph(), f) + run_of(' ', (width - f) as nat));
}

} // verus!
