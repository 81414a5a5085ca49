//! Verified text building: decimal numbers, zero- and space-padding, and the
//! clock reading in `HH:MM:SS.mmm` form.

use vstd::prelude::*;

use crate::config::Padding;
use vstd::string::StrSliceExecFns;
use vstd::string::StringExecFns;

verus! {

/// The decimal digit `d` as a character, for `0 <= d <= 9`.
pub open spec fn digit_char(d: int) -> char {
    if d == 0 {
        '0'
    } else if d == 1 {
        '1'
    } else if d == 2 {
        '2'
    } else if d == 3 {
        '3'
    } else if d == 4 {
        '4'
    } else if d == 5 {
        '5'
    } else if d == 6 {
        '6'
    } else if d == 7 {
        '7'
    } else if d == 8 {
        '8'
    } else {
        '9'
    }
}

/// The decimal digits of `n`, most significant first, with no leading zeros
/// (a single `0` for zero itself).
pub open spec fn dec_digits(n: nat) -> Seq<char>
    decreases n,
{
    if n < 10 {
        seq![digit_char(n as int)]
    } else {
        dec_digits(n / 10) + seq![digit_char((n % 10) as int)]
    }
}

/// `n` spaces.
pub open spec fn spaces(n: nat) -> Seq<char> {
    Seq::new(n, |i: int| ' ')
}

/// `n` zeros.
pub open spec fn zeros(n: nat) -> Seq<char> {
    Seq::new(n, |i: int| '0')
}

/// The decimal digits of `n`, left-padded with zeros to at least `w`
/// characters.
pub open spec fn dec_padded(n: nat, w: nat) -> Seq<char> {
    if dec_digits(n).len() < w {
        zeros((w - dec_digits(n).len()) as nat) + dec_digits(n)
    } else {
        dec_digits(n)
    }
}

/// A label aligned per `rule`: `LeftAlign(w)` right-pads with spaces to width
/// `w`, `RightAlign(w)` left-pads, `Off` leaves it alone. A label at least
/// `w` characters long is unchanged.
pub open spec fn pad_spec(label: Seq<char>, rule: Padding) -> Seq<char> {
    match rule {
        Padding::Off => label,
        Padding::LeftAlign(w) => if label.len() < w {
            label + spaces((w - label.len()) as nat)
        } else {
            label
        },
        Padding::RightAlign(w) => if label.len() < w {
            spaces((w - label.len()) as nat) + label
        } else {
            label
        },
    }
}

/// A clock reading of `ms` milliseconds, as zero-padded
/// `HH:MM:SS.mmm` text (hours take more than two characters when they need
/// them).
pub open spec fn time_text(ms: u64) -> Seq<char> {
    dec_padded(ms as nat / 3600000, 2) + seq![':'] + dec_padded((ms as nat / 60000) % 60, 2)
        + seq![':'] + dec_padded((ms as nat / 1000) % 60, 2) + seq!['.'] + dec_padded(
        ms as nat % 1000,
        3,
    )
}

/// One decimal digit as text.
fn digit_str(d: u64) -> (s: &'static str)
    requires
        d < 10,
    ensures
        s@ == seq![digit_char(d as int)],
{
    if d == 0 {
        proof {
            reveal_strlit("0");
            assert("0"@ =~= seq![digit_char(0)]);
        }
        "0"
    } else if d == 1 {
        proof {
            reveal_strlit("1");
            assert("1"@ =~= seq![digit_char(1)]);
        }
        "1"
    } else if d == 2 {
        proof {
            reveal_strlit("2");
            assert("2"@ =~= seq![digit_char(2)]);
        }
        "2"
    } else if d == 3 {
        proof {
            reveal_strlit("3");
            assert("3"@ =~= seq![digit_char(3)]);
        }
        "3"
    } else if d == 4 {
        proof {
            reveal_strlit("4");
            assert("4"@ =~= seq![digit_char(4)]);
        }
        "4"
    } else if d == 5 {
        proof {
            reveal_strlit("5");
            assert("5"@ =~= seq![digit_char(5)]);
        }
        "5"
    } else if d == 6 {
        proof {
            reveal_strlit("6");
            assert("6"@ =~= seq![digit_char(6)]);
        }
        "6"
    } else if d == 7 {
        proof {
            reveal_strlit("7");
            assert("7"@ =~= seq![digit_char(7)]);
        }
        "7"
    } else if d == 8 {
        proof {
            reveal_strlit("8");
            assert("8"@ =~= seq![digit_char(8)]);
        }
        "8"
    } else {
        proof {
            reveal_strlit("9");
            assert("9"@ =~= seq![digit_char(9)]);
        }
        "9"
    }
}

/// The decimal digits of `n`, as a string.
pub fn dec_string(n: u64) -> (s: String)
    ensures
        s@ == dec_digits(n as nat),
    decreases n,
{
    if n < 10 {
        digit_str(n).to_owned()
    } else {
        let mut s = dec_string(n / 10);
        s.append(digit_str(n % 10));
        s
    }
}

/// The decimal digits of `n`, left-padded with zeros to at least `w`
/// characters.
pub fn dec_string_padded(n: u64, w: usize) -> (s: String)
    ensures
        s@ == dec_padded(n as nat, w as nat),
{
    let digits = dec_string(n);
    let len: usize = digits.as_str().unicode_len();
    let mut s = String::new();
    let mut i: usize = len;
    while i < w
        invariant
            len == dec_digits(n as nat).len(),
            len <= i,
            i <= w || i == len,
            s@ =~= zeros((i - len) as nat),
        decreases w - i,
    {
        proof {
            reveal_strlit("0");
            assert(s@ + "0"@ =~= zeros((i + 1 - len) as nat));
        }
        s.append("0");
        i = i + 1;
    }
    s.append(digits.as_str());
    proof {
        assert(s@ =~= dec_padded(n as nat, w as nat));
    }
    s
}

/// A label aligned per `rule`, as [`pad_spec`] describes.
pub fn pad_label(label: &str, rule: Padding) -> (s: String)
    ensures
        s@ == pad_spec(label@, rule),
{
    match rule {
        Padding::Off => label.to_owned(),
        Padding::LeftAlign(w) => {
            let mut s = label.to_owned();
            let len: usize = label.unicode_len();
            if len < w {
                append_spaces(&mut s, w - len);
            }
            proof {
                assert(s@ =~= pad_spec(label@, rule));
            }
            s
        },
        Padding::RightAlign(w) => {
            let mut s = String::new();
            let len: usize = label.unicode_len();
            if len < w {
                append_spaces(&mut s, w - len);
            }
            s.append(label);
            proof {
                assert(s@ =~= pad_spec(label@, rule));
            }
            s
        },
    }
}

/// Appends `n` spaces.
fn append_spaces(s: &mut String, n: usize)
    ensures
        final(s)@ == old(s)@ + spaces(n as nat),
{
    let mut i: usize = 0;
    while i < n
        invariant
            i <= n,
            s@ =~= old(s)@ + spaces(i as nat),
        decreases n - i,
    {
        proof {
            reveal_strlit(" ");
            assert(s@ + " "@ =~= old(s)@ + spaces((i + 1) as nat));
        }
        s.append(" ");
        i = i + 1;
    }
}

/// The clock reading of `ms` milliseconds, as [`time_text`] describes.
pub fn time_string(ms: u64) -> (s: String)
    ensures
        s@ == time_text(ms),
{
    let mut s = dec_string_padded(ms / 3600000, 2);
    let minutes = dec_string_padded((ms / 60000) % 60, 2);
    let seconds = dec_string_padded((ms / 1000) % 60, 2);
    let millis = dec_string_padded(ms % 1000, 3);
    proof {
        reveal_strlit(":");
        reveal_strlit(".");
        assert(":"@ =~= seq![':']);
        assert("."@ =~= seq!['.']);
    }
    s.append(":");
    s.append(minutes.as_str());
    s.append(":");
    s.append(seconds.as_str());
    s.append(".");
    s.append(millis.as_str());
    proof {
        assert(s@ =~= time_text(ms));
    }
    s
}

} // verus!
