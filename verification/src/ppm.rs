//! Rendering a canvas in the plain-text PPM image format.
//! (See the netpbm documentation for the format itself.)

use vstd::prelude::*;
use vstd::string::StringExecFns;
use crate::canvas::Canvas;
use crate::color::Color;
use crate::mathf::fx;
use crate::mathf::fx::Fx;

verus! {

/// A channel value scaled to a byte: clamped to [0, 1], multiplied by 255
/// and rounded up.
pub open spec fn byte_s(v: int) -> int {
    let clamped = if v < 0 {
        0
    } else if v > fx::SCALE as int {
        fx::SCALE as int
    } else {
        v
    };
    (clamped * 255 + (fx::SCALE as int) - 1) / (fx::SCALE as int)
}

/// The decimal digits of `n`, most significant first.
pub open spec fn dec_s(n: nat) -> Seq<char>
    decreases n,
{
    if n < 10 {
        seq![digit_char(n)]
    } else {
        dec_s(n / 10).push(digit_char(n % 10))
    }
}

pub open spec fn digit_char(d: nat) -> char {
    if d == 0 {
        '0'
    } else if d == 1 {
        '1'
    } else if d == 2 {
        '2'
    } else if d == 3 {
        '3'
    } else if d == 4 {
        '4'
    } else if d == 5 {
        '5'
    } else if d == 6 {
        '6'
    } else if d == 7 {
        '7'
    } else if d == 8 {
        '8'
    } else {
        '9'
    }
}

/// One pixel's line: the three byte values separated by single spaces.
pub open spec fn pixel_str_s(c: Color) -> Seq<char> {
    dec_s(byte_s(c.r@) as nat) + seq![' '] + dec_s(byte_s(c.g@) as nat) + seq![' '] + dec_s(
        byte_s(c.b@) as nat,
    )
}

/// The header: the P3 magic, the dimensions, and the maximum byte value.
pub open spec fn header_s(width: nat, height: nat) -> Seq<char> {
    "P3\n"@ + dec_s(width) + " "@ + dec_s(height) + "\n255\n"@
}

/// One row of pixel data: each pixel's line, newline-terminated.
pub open spec fn row_data_s(row: Seq<Color>) -> Seq<char>
    decreases row.len(),
{
    if row.len() == 0 {
        Seq::empty()
    } else {
        row_data_s(row.drop_last()) + pixel_str_s(row.last()) + "\n"@
    }
}

/// The pixel data of all rows, top to bottom.
pub open spec fn data_s(pixels: Seq<Vec<Color>>) -> Seq<char>
    decreases pixels.len(),
{
    if pixels.len() == 0 {
        Seq::empty()
    } else {
        data_s(pixels.drop_last()) + row_data_s(pixels.last()@)
    }
}

/// Relies on `num::clamp`: the value itself when it lies within the
/// bounds, else the nearer bound.
#[verifier::external_body]
fn clamp_fx(value: Fx, min: i128, max: i128) -> (r: Fx)
    requires
        min <= max,
    ensures
        r.n == if value.n < min {
            min
        } else if value.n > max {
            max
        } else {
            value.n
        },
{
    Fx { n: num::clamp(value.n, min, max) }
}

/// Converts a channel value nominally in [0, 1] to a byte: values outside
/// the range are clamped, and the scaled value rounds up.
pub fn convert_rbg_value_to_byte(value: Fx) -> (r: u8)
    requires
        value.wf(),
    ensures
        r as int == byte_s(value@),
{
    let clamped = clamp_fx(value, 0, fx::SCALE);
    let num: i128 = clamped.n * 255 + fx::SCALE - 1;
    proof {
        vstd::arithmetic::div_mod::lemma_div_pos_is_pos(num as int, fx::SCALE as int);
        vstd::arithmetic::div_mod::lemma_div_is_ordered(
            num as int,
            255 * (fx::SCALE as int) + (fx::SCALE as int) - 1,
            fx::SCALE as int,
        );
    }
    (((num as u128) / (fx::SCALE as u128)) as u8)
}

/// The single-character string of one decimal digit.
fn digit_str(d: u8) -> (s: String)
    requires
        d < 10,
    ensures
        s@ == seq![digit_char(d as nat)],
{
    proof {
        reveal_strlit("0");
        reveal_strlit("1");
        reveal_strlit("2");
        reveal_strlit("3");
        reveal_strlit("4");
        reveal_strlit("5");
        reveal_strlit("6");
        reveal_strlit("7");
        reveal_strlit("8");
        reveal_strlit("9");
    }
    let s = match d {
        0 => String::from_str("0"),
        1 => String::from_str("1"),
        2 => String::from_str("2"),
        3 => String::from_str("3"),
        4 => String::from_str("4"),
        5 => String::from_str("5"),
        6 => String::from_str("6"),
        7 => String::from_str("7"),
        8 => String::from_str("8"),
        _ => String::from_str("9"),
    };
    proof {
        assert(s@ =~= seq![digit_char(d as nat)]);
    }
    s
}

/// The decimal form of a size, most significant digit first.
fn dec_of_usize(n: usize) -> (s: String)
    ensures
        s@ == dec_s(n as nat),
    decreases n,
{
    if n < 10 {
        digit_str(n as u8)
    } else {
        let mut s = dec_of_usize(n / 10);
        let d = digit_str((n % 10) as u8);
        s.append(d.as_str());
        proof {
            assert(s@ =~= dec_s(n as nat));
        }
        s
    }
}

/// One pixel's line of the PPM body: three bytes separated by spaces.
pub fn color_to_ppm_pixel(color: &Color) -> (s: String)
    requires
        color.wf(),
    ensures
        s@ == pixel_str_s(*color),
{
    let red = convert_rbg_value_to_byte(color.r);
    let green = convert_rbg_value_to_byte(color.g);
    let blue = convert_rbg_value_to_byte(color.b);
    let mut s = dec_of_usize(red as usize);
    proof {
        reveal_strlit(" ");
    }
    s.append(" ");
    let g = dec_of_usize(green as usize);
    s.append(g.as_str());
    s.append(" ");
    let b = dec_of_usize(blue as usize);
    s.append(b.as_str());
    proof {
        assert(s@ =~= pixel_str_s(*color));
    }
    s
}

/// The PPM header: the P3 flavor identifier, the canvas size, and the
/// maximum color value (255) the bytes are scaled to.
pub fn ppm_header(canvas: &Canvas) -> (s: String)
    ensures
        s@ == header_s(canvas.width as nat, canvas.height as nat),
{
    proof {
        reveal_strlit("P3\n");
        reveal_strlit(" ");
        reveal_strlit("\n255\n");
    }
    let mut s = String::from_str("P3\n");
    let w = dec_of_usize(canvas.width);
    s.append(w.as_str());
    s.append(" ");
    let h = dec_of_usize(canvas.height);
    s.append(h.as_str());
    s.append("\n255\n");
    proof {
        assert(s@ =~= header_s(canvas.width as nat, canvas.height as nat));
    }
    s
}

/// The PPM body: every pixel in row-major order, one line each.
pub fn ppm_pixel_data(canvas: &Canvas) -> (s: String)
    requires
        canvas.wf(),
    ensures
        s@ == data_s(canvas.pixels@),
{
    proof {
        reveal_strlit("\n");
    }
    let mut pixel_data = String::new();
    let mut y: usize = 0;
    while y < canvas.height
        invariant
            canvas.wf(),
            y <= canvas.height,
            pixel_data@ == data_s(canvas.pixels@.take(y as int)),
        decreases canvas.height - y,
    {
        proof {
            reveal_strlit("\n");
            assert(canvas.pixels@.take(y as int + 1).drop_last() =~= canvas.pixels@.take(
                y as int,
            ));
            assert(canvas.pixels@.take(y as int + 1).last() == canvas.pixels@[y as int]);
        }
        let row = &canvas.pixels[y];
        let mut x: usize = 0;
        while x < row.len()
            invariant
                canvas.wf(),
                y < canvas.height,
                row == &canvas.pixels@[y as int],
                row@.len() == canvas.width,
                x <= row@.len(),
                pixel_data@ == data_s(canvas.pixels@.take(y as int)) + row_data_s(
                    row@.take(x as int),
                ),
            decreases row@.len() - x,
        {
            proof {
                reveal_strlit("\n");
                assert(row@.take(x as int + 1).drop_last() =~= row@.take(x as int));
                assert(row@.take(x as int + 1).last() == row@[x as int]);
            }
            let line = color_to_ppm_pixel(&row[x]);
            pixel_data.append(line.as_str());
            pixel_data.append("\n");
            x = x + 1;
        }
        proof {
            assert(row@.take(row@.len() as int) =~= row@);
        }
        y = y + 1;
    }
    proof {
        assert(canvas.pixels@.take(canvas.pixels@.len() as int) =~= canvas.pixels@);
    }
    pixel_data
}

/// The whole PPM rendering of a canvas: the header followed by the pixel
/// data.
pub fn canvas_to_ppm(canvas: &Canvas) -> (s: String)
    requires
        canvas.wf(),
    ensures
        s@ == header_s(canvas.width as nat, canvas.height as nat) + data_s(canvas.pixels@),
{
    let mut s = ppm_header(canvas);
    let data = ppm_pixel_data(canvas);
    s.append(data.as_str());
    s
}

} // verus!
