//! Terminal color swatches for the one-line summary of a document.
use vstd::prelude::*;
use crate::color::{byte_at, canonical_hex, parse_hex_rgb};
use crate::model::{Skyset, SkysetView};
use crate::text::push_char_to;

verus! {

pub open spec fn digit_char(d: int) -> char {
    if d == 0 {
        '0'
    } else if d == 1 {
        '1'
    } else if d == 2 {
        '2'
    } else if d == 3 {
        '3'
    } else if d == 4 {
        '4'
    } else if d == 5 {
        '5'
    } else if d == 6 {
        '6'
    } else if d == 7 {
        '7'
    } else if d == 8 {
        '8'
    } else {
        '9'
    }
}

/// Decimal digits of `n`, without leading zeros.
pub open spec fn decimal(n: nat) -> Seq<char>
    decreases n,
{
    if n < 10 {
        seq![digit_char(n as int)]
    } else {
        decimal(n / 10) + seq![digit_char((n % 10) as int)]
    }
}

/// A swatch: two spaces on the color's background, or `??` where the text is no color.
pub open spec fn block_text(value: Seq<char>) -> Seq<char> {
    match canonical_hex(value) {
        Some(c) => "\x1b[48;2;"@ + decimal(byte_at(c, 1) as nat) + ";"@ + decimal(byte_at(c, 3) as nat)
            + ";"@ + decimal(byte_at(c, 5) as nat) + "m  \x1b[0m"@,
        None => "??"@,
    }
}

/// The swatches of a list of colors, one after another.
pub open spec fn blocks_text(values: Seq<Seq<char>>) -> Seq<char>
    decreases values.len(),
{
    if values.len() == 0 {
        Seq::empty()
    } else {
        blocks_text(values.drop_last()) + block_text(values.last())
    }
}

fn digit(d: u8) -> (r: char)
    requires
        d < 10,
    ensures
        r == digit_char(d as int),
{
    if d == 0 {
        '0'
    } else if d == 1 {
        '1'
    } else if d == 2 {
        '2'
    } else if d == 3 {
        '3'
    } else if d == 4 {
        '4'
    } else if d == 5 {
        '5'
    } else if d == 6 {
        '6'
    } else if d == 7 {
        '7'
    } else if d == 8 {
        '8'
    } else {
        '9'
    }
}

fn decimal_text(n: u8) -> (r: String)
    ensures
        r@ == decimal(n as nat),
{
    let mut s = String::new();
    if n >= 100 {
        push_char_to(&mut s, digit(n / 100));
    }
    if n >= 10 {
        push_char_to(&mut s, digit((n / 10) % 10));
    }
    push_char_to(&mut s, digit(n % 10));
    proof {
        let m = n as nat;
        if m >= 10 {
            assert(decimal(m) == decimal(m / 10) + seq![digit_char((m % 10) as int)]);
            if m >= 100 {
                assert(decimal(m / 10) == decimal(m / 100) + seq![digit_char(((m / 10) % 10) as int)]);
                assert(decimal(m / 100) == seq![digit_char((m / 100) as int)]);
            } else {
                assert(decimal(m / 10) == seq![digit_char((m / 10) as int)]);
                assert((m / 10) % 10 == m / 10);
            }
        }
        assert(s@ =~= decimal(m));
    }
    s
}

/// A swatch for one color.
pub fn color_block(value: &str) -> (r: String)
    ensures
        r@ == block_text(value@),
{
    match parse_hex_rgb(value) {
        Some((red, green, blue)) => {
            let mut s = String::from_str("\x1b[48;2;");
            s.append(decimal_text(red).as_str());
            s.append(";");
            s.append(decimal_text(green).as_str());
            s.append(";");
            s.append(decimal_text(blue).as_str());
            s.append("m  \x1b[0m");
            s
        },
        None => String::from_str("??"),
    }
}

/// The swatches of a list of colors, one after another.
pub fn gradient_blocks(values: &[String]) -> (r: String)
    ensures
        r@ == blocks_text(values@.map_values(|s: String| s@)),
{
    let ghost vs = values@.map_values(|s: String| s@);
    let mut out = String::new();
    let mut i: usize = 0;
    while i < values.len()
        invariant
            vs == values@.map_values(|s: String| s@),
            i <= values@.len(),
            out@ == blocks_text(vs.subrange(0, i as int)),
        decreases values@.len() - i,
    {
        let block = color_block(values[i].as_str());
        out.append(block.as_str());
        assert(vs.subrange(0, i + 1).drop_last() =~= vs.subrange(0, i as int));
        i = i + 1;
    }
    assert(vs.subrange(0, values@.len() as int) =~= vs);
    out
}

/// The one-line summary of a document stored at `path`: the accent, the message,
/// the palette and both gradients as swatches.
pub open spec fn summary_text(path: Seq<char>, m: SkysetView) -> Seq<char> {
    path + " "@ + block_text(m.accent) + " | msg=\""@ + m.message + "\" | palette: "@ + block_text(
        m.primary,
    ) + block_text(m.secondary) + block_text(m.tertiary) + " | background: "@ + blocks_text(
        m.background,
    ) + " | hero: "@ + blocks_text(m.hero)
}

/// The one-line summary of a document, `path` being how its file is shown.
pub fn summary_line(path: &str, skyset: &Skyset) -> (r: String)
    ensures
        r@ == summary_text(path@, skyset@),
{
    let mut line = String::from_str(path);
    line.append(" ");
    line.append(color_block(skyset.theme.accent.as_str()).as_str());
    line.append(" | msg=\"");
    line.append(skyset.message.as_str());
    line.append("\" | palette: ");
    line.append(color_block(skyset.palette.primary.as_str()).as_str());
    line.append(color_block(skyset.palette.secondary.as_str()).as_str());
    line.append(color_block(skyset.palette.tertiary.as_str()).as_str());
    line.append(" | background: ");
    line.append(gradient_blocks(skyset.gradients.background.as_slice()).as_str());
    line.append(" | hero: ");
    line.append(gradient_blocks(skyset.gradients.hero.as_slice()).as_str());
    line
}

} // verus!
