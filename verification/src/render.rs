//! Human-readable rendering of a display snapshot.
//!
//! The form is `[id:<source_id>] <friendly_name> \u{2014} <width>x<height>
//! @ <scaling_current>%`, with ` (rec <scaling_recommended>%)` appended only
//! when the current scaling differs from the recommendation.

use vstd::prelude::*;
use vstd::string::StringExecFns;

use crate::model::DisplayInfo;

verus! {

/// The decimal digit character for `d`.
pub open spec fn spec_digit_char(d: nat) -> char {
    if d == 0 {
        '0'
    } else if d == 1 {
        '1'
    } else if d == 2 {
        '2'
    } else if d == 3 {
        '3'
    } else if d == 4 {
        '4'
    } else if d == 5 {
        '5'
    } else if d == 6 {
        '6'
    } else if d == 7 {
        '7'
    } else if d == 8 {
        '8'
    } else {
        '9'
    }
}

/// The decimal rendering of `n`, most significant digit first, with no sign
/// and no leading zero (a single `0` for zero itself).
pub open spec fn spec_dec(n: nat) -> Seq<char>
    decreases n,
{
    if n < 10 {
        seq![spec_digit_char(n)]
    } else {
        spec_dec(n / 10).push(spec_digit_char(n % 10))
    }
}

/// Append the decimal rendering of `n`.
fn append_decimal(s: &mut String, n: u32)
    ensures
        final (s)@ == old(s)@ + spec_dec(n as nat),
    decreases n,
{
    if n >= 10 {
        append_decimal(s, n / 10);
    }
    let d: u32 = n % 10;
    let ds: &str = if d == 0 {
        "0"
    } else if d == 1 {
        "1"
    } else if d == 2 {
        "2"
    } else if d == 3 {
        "3"
    } else if d == 4 {
        "4"
    } else if d == 5 {
        "5"
    } else if d == 6 {
        "6"
    } else if d == 7 {
        "7"
    } else if d == 8 {
        "8"
    } else {
        "9"
    };
    proof {
        reveal_strlit("0");
        reveal_strlit("1");
        reveal_strlit("2");
        reveal_strlit("3");
        reveal_strlit("4");
        reveal_strlit("5");
        reveal_strlit("6");
        reveal_strlit("7");
        reveal_strlit("8");
        reveal_strlit("9");
        assert(ds@ =~= seq![spec_digit_char((n % 10) as nat)]);
    }
    s.append(ds);
    proof {
        assert(s@ =~= old(s)@ + spec_dec(n as nat));
    }
}

/// The rendering every snapshot gets, before any recommendation suffix.
pub open spec fn spec_render_base(d: DisplayInfo) -> Seq<char> {
    "[id:"@ + spec_dec(d.source_id as nat) + "] "@ + d.friendly_name@ + " \u{2014} "@ + spec_dec(
        d.width as nat,
    ) + "x"@ + spec_dec(d.height as nat) + " @ "@ + spec_dec(d.scaling_current as nat) + "%"@
}

/// The suffix naming the OS recommendation.
pub open spec fn spec_render_rec_suffix(d: DisplayInfo) -> Seq<char> {
    " (rec "@ + spec_dec(d.scaling_recommended as nat) + "%)"@
}

/// The full rendering of a snapshot.
pub open spec fn spec_render(d: DisplayInfo) -> Seq<char> {
    if d.scaling_current == d.scaling_recommended {
        spec_render_base(d)
    } else {
        spec_render_base(d) + spec_render_rec_suffix(d)
    }
}

/// A snapshot whose current scaling equals the recommendation renders as the
/// base form alone, with no recommendation suffix; any other snapshot
/// renders as the base form with the suffix appended.
pub proof fn lemma_render_suffix(d: DisplayInfo)
    ensures
        d.scaling_current == d.scaling_recommended ==> spec_render(d) == spec_render_base(d),
        d.scaling_current != d.scaling_recommended ==> spec_render(d) == spec_render_base(d)
            + spec_render_rec_suffix(d),
{
}

impl DisplayInfo {
    /// Render this snapshot for human eyes.
    pub fn render(&self) -> (r: String)
        requires
            self.scaling_current >= 0,
            self.scaling_recommended >= 0,
        ensures
            r@ == spec_render(*self),
    {
        let mut s = String::new();
        s.append("[id:");
        append_decimal(&mut s, self.source_id);
        s.append("] ");
        s.append(self.friendly_name.as_str());
        s.append(" \u{2014} ");
        append_decimal(&mut s, self.width);
        s.append("x");
        append_decimal(&mut s, self.height);
        s.append(" @ ");
        append_decimal(&mut s, self.scaling_current as u32);
        s.append("%");
        if self.scaling_current != self.scaling_recommended {
            s.append(" (rec ");
            append_decimal(&mut s, self.scaling_recommended as u32);
            s.append("%)");
            proof {
                assert(s@ =~= spec_render(*self));
            }
        } else {
            proof {
                assert(s@ =~= spec_render(*self));
            }
        }
        s
    }
}

} // verus!
