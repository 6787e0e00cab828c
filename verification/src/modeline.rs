//! Rendering a timing as an X-server modeline: a quoted name carrying the
//! resolution and rounded refresh rate, the pixel clock in megahertz, the
//! four horizontal and four vertical stage boundaries, and the polarity and
//! interlace flags.

use vstd::prelude::*;
use vstd::string::StringExecFns;
use crate::arith::{lemma_div_lt, lemma_div_rem};
use crate::model::TimingsModel;
use crate::timing::CvtTimings;

verus! {

/// The decimal digit character for `d`.
pub open spec fn digit_char(d: int) -> char {
    if d == 0 {
        '0'
    } else if d == 1 {
        '1'
    } else if d == 2 {
        '2'
    } else if d == 3 {
        '3'
    } else if d == 4 {
        '4'
    } else if d == 5 {
        '5'
    } else if d == 6 {
        '6'
    } else if d == 7 {
        '7'
    } else if d == 8 {
        '8'
    } else {
        '9'
    }
}

/// The decimal rendering of a non-negative integer, most significant digit
/// first, with no leading zeroes except for zero itself.
pub open spec fn dec_seq(n: int) -> Seq<char>
    decreases n,
{
    if n <= 9 {
        seq![digit_char(n)]
    } else {
        dec_seq(n / 10).push(digit_char(n % 10))
    }
}

/// Two decimal digits, zero padded; for the hundredths of the refresh rate.
pub open spec fn pad2_seq(n: int) -> Seq<char> {
    seq![digit_char(n / 10), digit_char(n % 10)]
}

/// The fractional megahertz digits of the pixel clock: nothing when the
/// clock is a whole number of megahertz, otherwise a point and up to three
/// digits with trailing zeroes dropped, the shortest decimal that still
/// names the clock to the thousandth.
pub open spec fn clock_frac_seq(f: int) -> Seq<char> {
    if f == 0 {
        Seq::<char>::empty()
    } else if f % 100 == 0 {
        seq!['.', digit_char(f / 100)]
    } else if f % 10 == 0 {
        seq!['.', digit_char(f / 100), digit_char((f / 10) % 10)]
    } else {
        seq!['.', digit_char(f / 100), digit_char((f / 10) % 10), digit_char(f % 10)]
    }
}

/// The pixel clock in megahertz: whole part, then the fraction.
pub open spec fn clock_seq(khz: int) -> Seq<char> {
    dec_seq(khz / 1000) + clock_frac_seq(khz % 1000)
}

/// The full modeline for a timing, character by character.
pub open spec fn modeline_spec(t: TimingsModel) -> Seq<char> {
    "Modeline \""@ + dec_seq(t.h_active) + "x"@ + dec_seq(t.v_active) + "_"@
        + dec_seq(t.v_freq_centihz / 100) + "."@ + pad2_seq(t.v_freq_centihz % 100)
        + (if t.interlaced { "i"@ } else { Seq::<char>::empty() })
        + "\" "@ + clock_seq(t.pixel_clock_khz)
        + " "@ + dec_seq(t.h_active)
        + " "@ + dec_seq(t.h_active + t.h_front_porch)
        + " "@ + dec_seq(t.h_active + t.h_front_porch + t.h_sync)
        + " "@ + dec_seq(t.h_total)
        + " "@ + dec_seq(t.v_active)
        + " "@ + dec_seq(t.v_active + t.v_front_porch)
        + " "@ + dec_seq(t.v_active + t.v_front_porch + t.v_sync)
        + " "@ + dec_seq(t.v_total)
        + " "@ + (if t.h_sync_polarity { "+HSync"@ } else { "-HSync"@ })
        + " "@ + (if t.v_sync_polarity { "+VSync"@ } else { "-VSync"@ })
        + " "@ + (if t.interlaced { "Interlace"@ } else { Seq::<char>::empty() })
}

/// Appends one decimal digit.
fn push_digit(s: &mut String, d: u64)
    requires
        d < 10,
    ensures
        final(s)@ == old(s)@.push(digit_char(d as int)),
{
    proof {
        reveal_strlit("0");
        reveal_strlit("1");
        reveal_strlit("2");
        reveal_strlit("3");
        reveal_strlit("4");
        reveal_strlit("5");
        reveal_strlit("6");
        reveal_strlit("7");
        reveal_strlit("8");
        reveal_strlit("9");
    }
    match d {
        0 => s.append("0"),
        1 => s.append("1"),
        2 => s.append("2"),
        3 => s.append("3"),
        4 => s.append("4"),
        5 => s.append("5"),
        6 => s.append("6"),
        7 => s.append("7"),
        8 => s.append("8"),
        _ => s.append("9"),
    }
    assert(final(s)@ =~= old(s)@.push(digit_char(d as int)));
}

/// Appends the decimal rendering of `n`.
fn append_dec(s: &mut String, n: u64)
    ensures
        final(s)@ == old(s)@ + dec_seq(n as int),
    decreases n,
{
    if n <= 9 {
        push_digit(s, n);
        assert(final(s)@ =~= old(s)@ + dec_seq(n as int));
    } else {
        proof {
            vstd::arithmetic::div_mod::lemma_div_is_strictly_smaller(n as int, 10);
            lemma_div_rem(n as int, 10);
        }
        append_dec(s, n / 10);
        push_digit(s, n % 10);
        assert(final(s)@ =~= old(s)@ + dec_seq(n as int));
    }
}

impl CvtTimings {
    /// Renders the timing as one modeline: `Modeline "<W>x<H>_<rate>[i]"
    /// <clock MHz> <h boundaries> <v boundaries> <polarities> [Interlace]`.
    /// The trailing flag is empty for a progressive timing, as the
    /// conventional rendering leaves it.
    pub fn generate_modeline(&self) -> (s: String)
        ensures
            s@ == modeline_spec(self@),
    {
        let mut s = String::new();
        s.append("Modeline \"");
        append_dec(&mut s, self.h_active as u64);
        s.append("x");
        append_dec(&mut s, self.v_active as u64);
        s.append("_");
        append_dec(&mut s, self.v_freq / 100);
        s.append(".");
        let f2: u64 = self.v_freq % 100;
        proof {
            lemma_div_lt(f2 as int, 10, 9);
        }
        push_digit(&mut s, f2 / 10);
        push_digit(&mut s, f2 % 10);
        if self.interlaced {
            s.append("i");
        }
        s.append("\" ");
        append_dec(&mut s, self.pixel_clock / 1000);
        let f3: u64 = self.pixel_clock % 1000;
        proof {
            lemma_div_lt(f3 as int, 100, 9);
            lemma_div_lt(f3 as int, 10, 99);
        }
        if f3 != 0 {
            s.append(".");
            if f3 % 100 == 0 {
                push_digit(&mut s, f3 / 100);
            } else if f3 % 10 == 0 {
                push_digit(&mut s, f3 / 100);
                push_digit(&mut s, (f3 / 10) % 10);
            } else {
                push_digit(&mut s, f3 / 100);
                push_digit(&mut s, (f3 / 10) % 10);
                push_digit(&mut s, f3 % 10);
            }
        }
        proof {
            reveal_strlit(".");
            assert(s@ =~= "Modeline \""@ + dec_seq(self@.h_active) + "x"@ + dec_seq(self@.v_active)
                + "_"@ + dec_seq(self@.v_freq_centihz / 100) + "."@
                + pad2_seq(self@.v_freq_centihz % 100)
                + (if self@.interlaced { "i"@ } else { Seq::<char>::empty() })
                + "\" "@ + clock_seq(self@.pixel_clock_khz));
        }
        s.append(" ");
        append_dec(&mut s, self.h_active as u64);
        s.append(" ");
        append_dec(&mut s, self.h_active as u64 + self.h_front_porch as u64);
        s.append(" ");
        append_dec(&mut s, self.h_active as u64 + self.h_front_porch as u64 + self.h_sync as u64);
        s.append(" ");
        append_dec(&mut s, self.h_total as u64);
        s.append(" ");
        append_dec(&mut s, self.v_active as u64);
        s.append(" ");
        append_dec(&mut s, self.v_active as u64 + self.v_front_porch as u64);
        s.append(" ");
        append_dec(&mut s, self.v_active as u64 + self.v_front_porch as u64 + self.v_sync as u64);
        s.append(" ");
        append_dec(&mut s, self.v_total as u64);
        s.append(" ");
        if self.h_sync_polarity {
            s.append("+HSync");
        } else {
            s.append("-HSync");
        }
        s.append(" ");
        if self.v_sync_polarity {
            s.append("+VSync");
        } else {
            s.append("-VSync");
        }
        s.append(" ");
        if self.interlaced {
            s.append("Interlace");
        }
        assert(s@ =~= modeline_spec(self@));
        s
    }
}

} // verus!
