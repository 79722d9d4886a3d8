use crate::canvas::Canvas;
use crate::rgb::{packed, Rgb};
use vstd::prelude::*;

verus! {

/// The ASCII digit for `d < 10`.
pub open spec fn digit_char(d: nat) -> char {
    if d == 0 { '0' }
    else if d == 1 { '1' }
    else if d == 2 { '2' }
    else if d == 3 { '3' }
    else if d == 4 { '4' }
    else if d == 5 { '5' }
    else if d == 6 { '6' }
    else if d == 7 { '7' }
    else if d == 8 { '8' }
    else { '9' }
}

/// `n` written in decimal, without leading zeros.
pub open spec fn decimal(n: nat) -> Seq<char>
    decreases n,
{
    if n < 10 {
        seq![digit_char(n)]
    } else {
        decimal(n / 10) + seq![digit_char(n % 10)]
    }
}

/// The header of a plain (P3) PPM image: magic number, size, largest value.
pub open spec fn ppm_header(width: nat, height: nat) -> Seq<char> {
    seq!['P', '3', '\n'] + decimal(width) + seq![' '] + decimal(height) + seq![
        '\n',
        '2',
        '5',
        '5',
        '\n',
    ]
}

/// One pixel as a line of the PPM body: the three channels in decimal,
/// separated by spaces.
pub open spec fn ppm_pixel(p: Rgb) -> Seq<char> {
    decimal(p.r as nat) + seq![' '] + decimal(p.g as nat) + seq![' '] + decimal(p.b as nat) + seq![
        '\n',
    ]
}

/// The body of a PPM image: one line per pixel, in order.
pub open spec fn ppm_body(pixels: Seq<Rgb>) -> Seq<char>
    decreases pixels.len(),
{
    if pixels.len() == 0 {
        seq![]
    } else {
        ppm_body(pixels.drop_last()) + ppm_pixel(pixels.last())
    }
}

/// The whole PPM text of a `width × height` image with the given pixels.
pub open spec fn ppm_text(width: nat, height: nat, pixels: Seq<Rgb>) -> Seq<char> {
    ppm_header(width, height) + ppm_body(pixels)
}

/// The one-character string holding the digit `d`.
fn digit_str(d: usize) -> (s: &'static str)
    requires
        d < 10,
    ensures
        s@ == seq![digit_char(d as nat)],
{
    if d == 0 {
        proof { reveal_strlit("0"); }
        "0"
    } else if d == 1 {
        proof { reveal_strlit("1"); }
        "1"
    } else if d == 2 {
        proof { reveal_strlit("2"); }
        "2"
    } else if d == 3 {
        proof { reveal_strlit("3"); }
        "3"
    } else if d == 4 {
        proof { reveal_strlit("4"); }
        "4"
    } else if d == 5 {
        proof { reveal_strlit("5"); }
        "5"
    } else if d == 6 {
        proof { reveal_strlit("6"); }
        "6"
    } else if d == 7 {
        proof { reveal_strlit("7"); }
        "7"
    } else if d == 8 {
        proof { reveal_strlit("8"); }
        "8"
    } else {
        proof { reveal_strlit("9"); }
        "9"
    }
}

/// Appends `n` in decimal to `out`.
pub fn push_decimal(out: &mut String, n: usize)
    ensures
        final(out)@ == old(out)@ + decimal(n as nat),
    decreases n,
{
    if n >= 10 {
        push_decimal(out, n / 10);
    }
    out.append(digit_str(n % 10));
    proof {
        if n >= 10 {
            assert(decimal(n as nat) == decimal((n / 10) as nat) + seq![digit_char((n % 10) as nat)]);
        }
    }
    assert(final(out)@ =~= old(out)@ + decimal(n as nat));
}

/// Appends the PPM line of one pixel to `out`.
fn push_pixel(out: &mut String, p: Rgb)
    ensures
        final(out)@ == old(out)@ + ppm_pixel(p),
{
    proof {
        reveal_strlit(" ");
        reveal_strlit("\n");
    }
    push_decimal(out, p.r as usize);
    out.append(" ");
    push_decimal(out, p.g as usize);
    out.append(" ");
    push_decimal(out, p.b as usize);
    out.append("\n");
    assert(final(out)@ =~= old(out)@ + ppm_pixel(p));
}

impl Canvas<Rgb> {
    /// The canvas as a display buffer: one packed `0x00RRGGBB` value per
    /// pixel, in row-major order.
    pub fn to_buffer(&self) -> (buf: Vec<u32>)
        requires
            self.wf(),
        ensures
            buf@.len() == self.cells().len(),
            forall|i: int| 0 <= i < buf@.len() ==> #[trigger] buf@[i] == packed(self.cells()[i]),
    {
        let pixels = self.pixels();
        let mut buf: Vec<u32> = Vec::with_capacity(pixels.len());
        let mut i: usize = 0;
        while i < pixels.len()
            invariant
                pixels@ == self.cells(),
                i <= pixels@.len(),
                buf@.len() == i,
                forall|j: int| 0 <= j < i ==> #[trigger] buf@[j] == packed(self.cells()[j]),
            decreases pixels@.len() - i,
        {
            buf.push(pixels[i].to_u32());
            i = i + 1;
        }
        buf
    }

    /// The canvas as plain PPM text: the header `P3\n{width} {height}\n255\n`,
    /// then one line `r g b` per pixel in row-major order.
    pub fn to_ppm(&self) -> (text: String)
        requires
            self.wf(),
        ensures
            text@ == ppm_text(self.spec_width(), self.spec_height(), self.cells()),
    {
        let mut out = String::new();
        proof {
            reveal_strlit("P3\n");
            reveal_strlit(" ");
            reveal_strlit("\n255\n");
        }
        out.append("P3\n");
        push_decimal(&mut out, self.width());
        out.append(" ");
        push_decimal(&mut out, self.height());
        out.append("\n255\n");
        assert(out@ =~= ppm_header(self.spec_width(), self.spec_height()));
        let pixels = self.pixels();
        let mut i: usize = 0;
        while i < pixels.len()
            invariant
                pixels@ == self.cells(),
                i <= pixels@.len(),
                out@ == ppm_header(self.spec_width(), self.spec_height()) + ppm_body(
                    pixels@.take(i as int),
                ),
            decreases pixels@.len() - i,
        {
            push_pixel(&mut out, pixels[i]);
            proof {
                assert(pixels@.take(i + 1).drop_last() =~= pixels@.take(i as int));
            }
            assert(out@ =~= ppm_header(self.spec_width(), self.spec_height()) + ppm_body(
                pixels@.take(i + 1),
            ));
            i = i + 1;
        }
        assert(pixels@.take(i as int) =~= pixels@);
        out
    }
}

} // verus!
