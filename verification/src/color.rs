//! Colours and their encoding as text.

use crate::scalar::Scalar;
use crate::vec3::Vec3;
use vstd::prelude::*;
use vstd::string::StringExecFns;

verus! {

/// A colour as red, green and blue in `x`, `y` and `z`, each by convention
/// between zero and one before gamma correction.
pub type Color<S> = Vec3<S>;

/// The character of the decimal digit `d`.
pub open spec fn digit_char(d: int) -> char {
    if d == 0 {
        '0'
    } else if d == 1 {
        '1'
    } else if d == 2 {
        '2'
    } else if d == 3 {
        '3'
    } else if d == 4 {
        '4'
    } else if d == 5 {
        '5'
    } else if d == 6 {
        '6'
    } else if d == 7 {
        '7'
    } else if d == 8 {
        '8'
    } else {
        '9'
    }
}

/// The decimal numeral of `n`, without leading zeros.
pub open spec fn decimal(n: nat) -> Seq<char>
    decreases n,
{
    if n < 10 {
        seq![digit_char(n as int)]
    } else {
        decimal(n / 10).push(digit_char((n % 10) as int))
    }
}

/// The gamma-corrected value of a linear component, for gamma two: its
/// square root.
pub open spec fn linear_to_gamma_spec<S: Scalar>(linear_component: S) -> S {
    linear_component.sqrt_spec()
}

/// The factor that spreads the unit range over a byte: 255.999999.
pub open spec fn channel_scale<S: Scalar>() -> S {
    S::from_int_spec(255_999_999).div_spec(S::from_int_spec(1_000_000))
}

/// The byte that encodes a linear component: its gamma-corrected value
/// times [`channel_scale`], cut to its integer part.
pub open spec fn channel_byte<S: Scalar>(linear_component: S) -> u8 {
    channel_scale::<S>().mul_spec(linear_to_gamma_spec(linear_component)).to_byte_spec()
}

/// The text of a pixel from its three bytes: their numerals, a space
/// between each two.
pub open spec fn pixel_text(red: u8, green: u8, blue: u8) -> Seq<char> {
    decimal(red as nat) + seq![' '] + decimal(green as nat) + seq![' '] + decimal(blue as nat)
}

/// The line of a pixel: its text and a line feed.
pub open spec fn pixel_line<S: Scalar>(pixel: Color<S>) -> Seq<char> {
    pixel_text(channel_byte(pixel.x), channel_byte(pixel.y), channel_byte(pixel.z)) + seq!['\n']
}

/// The lines of `pixels`, one after the other.
pub open spec fn pixel_lines<S: Scalar>(pixels: Seq<Color<S>>) -> Seq<char>
    decreases pixels.len(),
{
    if pixels.len() == 0 {
        Seq::empty()
    } else {
        pixel_lines(pixels.drop_last()) + pixel_line(pixels.last())
    }
}

/// A plain-text image: the header `P3`, the width and the height, the
/// greatest channel value 255, then one line for each pixel and an empty
/// line at the end.
pub open spec fn ppm_text<S: Scalar>(width: u32, height: u32, pixels: Seq<Color<S>>) -> Seq<char> {
    seq!['P', '3', '\n'] + decimal(width as nat) + seq![' '] + decimal(height as nat) + seq![
        '\n',
        '2',
        '5',
        '5',
        '\n',
    ] + pixel_lines(pixels) + seq!['\n']
}

/// Applies the linear-to-gamma transform for gamma two.
pub fn linear_to_gamma<S: Scalar>(linear_component: S) -> (r: S)
    ensures
        r == linear_to_gamma_spec(linear_component),
{
    linear_component.sqrt()
}

/// The one-character text of the digit `d`.
fn digit_text(d: u8) -> (r: &'static str)
    requires
        d < 10,
    ensures
        r@ == seq![digit_char(d as int)],
{
    proof {
        reveal_strlit("0");
        reveal_strlit("1");
        reveal_strlit("2");
        reveal_strlit("3");
        reveal_strlit("4");
        reveal_strlit("5");
        reveal_strlit("6");
        reveal_strlit("7");
        reveal_strlit("8");
        reveal_strlit("9");
    }
    let r = if d == 0 {
        "0"
    } else if d == 1 {
        "1"
    } else if d == 2 {
        "2"
    } else if d == 3 {
        "3"
    } else if d == 4 {
        "4"
    } else if d == 5 {
        "5"
    } else if d == 6 {
        "6"
    } else if d == 7 {
        "7"
    } else if d == 8 {
        "8"
    } else {
        "9"
    };
    assert(r@ =~= seq![digit_char(d as int)]);
    r
}

/// Appends the decimal numeral of `n` to `text`.
fn append_decimal(text: &mut String, n: u32)
    ensures
        final(text)@ == old(text)@ + decimal(n as nat),
    decreases n,
{
    if n >= 10 {
        append_decimal(text, n / 10);
    }
    text.append(digit_text((n % 10) as u8));
    assert(text@ =~= old(text)@ + decimal(n as nat));
}

impl<S: Scalar> Vec3<S> {
    /// The colour as text: the bytes of red, green and blue in decimal,
    /// separated by single spaces.
    pub fn ppm_format(self) -> (r: String)
        ensures
            r@ == pixel_text(channel_byte(self.x), channel_byte(self.y), channel_byte(self.z)),
    {
        let scale = S::from_int(255_999_999).div(S::from_int(1_000_000));

        // Apply a linear to gamma transform for gamma 2
        let r_corrected = linear_to_gamma(self.x());
        let g_corrected = linear_to_gamma(self.y());
        let b_corrected = linear_to_gamma(self.z());

        proof {
            reveal_strlit(" ");
        }
        let mut text = String::new();
        append_decimal(&mut text, scale.mul(r_corrected).to_byte() as u32);
        text.append(" ");
        append_decimal(&mut text, scale.mul(g_corrected).to_byte() as u32);
        text.append(" ");
        append_decimal(&mut text, scale.mul(b_corrected).to_byte() as u32);
        assert(text@ =~= pixel_text(
            channel_byte(self.x),
            channel_byte(self.y),
            channel_byte(self.z),
        ));
        text
    }

    /// [`Self::ppm_format`] followed by a line feed.
    pub fn ppm_format_ln(self) -> (r: String)
        ensures
            r@ == pixel_text(channel_byte(self.x), channel_byte(self.y), channel_byte(self.z))
                + seq!['\n'],
    {
        proof {
            reveal_strlit("\n");
        }
        let mut text = self.ppm_format();
        text.append("\n");
        assert(text@ =~= pixel_text(
            channel_byte(self.x),
            channel_byte(self.y),
            channel_byte(self.z),
        ) + seq!['\n']);
        text
    }
}

/// The image of the given size as plain text, with `pixels` in row-major
/// order from the upper left corner.
pub fn ppm_image<S: Scalar>(width: u32, height: u32, pixels: &[Color<S>]) -> (r: String)
    ensures
        r@ == ppm_text(width, height, pixels@),
{
    proof {
        reveal_strlit("P3\n");
        reveal_strlit(" ");
        reveal_strlit("\n255\n");
        reveal_strlit("\n");
    }
    let mut text = String::new();
    text.append("P3\n");
    append_decimal(&mut text, width);
    text.append(" ");
    append_decimal(&mut text, height);
    text.append("\n255\n");
    let ghost header = text@;
    assert(header =~= seq!['P', '3', '\n'] + decimal(width as nat) + seq![' '] + decimal(
        height as nat,
    ) + seq!['\n', '2', '5', '5', '\n']);

    let mut i: usize = 0;
    while i < pixels.len()
        invariant
            0 <= i <= pixels@.len(),
            text@ == header + pixel_lines(pixels@.take(i as int)),
        decreases pixels@.len() - i,
    {
        let line = pixels[i].ppm_format_ln();
        proof {
            assert(pixels@.take(i + 1).drop_last() =~= pixels@.take(i as int));
            assert(pixels@.take(i + 1).last() == pixels@[i as int]);
            assert(header + pixel_lines(pixels@.take(i as int)) + line@ =~= header + (pixel_lines(
                pixels@.take(i as int),
            ) + line@));
        }
        text.append(line.as_str());
        i += 1;
    }
    proof {
        assert(pixels@.take(i as int) =~= pixels@);
    }
    text.append("\n");
    text
}

} // verus!
