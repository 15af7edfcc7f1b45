//! Text building: the rendering trait shared by everything that can be
//! shown to a user, and decimal numbers.

use vstd::prelude::*;
use vstd::string::StringExecFns;

verus! {

/// Values that have a user-facing text.
pub trait Render {
    /// The text of the value.
    spec fn rendered(&self) -> Seq<char>;

    /// Builds the text of the value.
    fn render(&self) -> (s: String)
        ensures
            s@ == self.rendered(),
    ;
}

/// The character of a decimal digit.
pub open spec fn digit_char(d: nat) -> char {
    if d == 0 {
        '0'
    } else if d == 1 {
        '1'
    } else if d == 2 {
        '2'
    } else if d == 3 {
        '3'
    } else if d == 4 {
        '4'
    } else if d == 5 {
        '5'
    } else if d == 6 {
        '6'
    } else if d == 7 {
        '7'
    } else if d == 8 {
        '8'
    } else {
        '9'
    }
}

/// The decimal notation of `n`, without leading zeros.
pub open spec fn decimal(n: nat) -> Seq<char>
    decreases n,
{
    if n < 10 {
        seq![digit_char(n)]
    } else {
        decimal(n / 10).push(digit_char(n % 10))
    }
}

/// The suffix that turns a noun into its plural for `n` things: an `s` for
/// two or more, nothing for one and for none.
pub open spec fn plural(n: nat) -> Seq<char> {
    if n > 1 {
        "s"@
    } else {
        Seq::empty()
    }
}

/// The one-character text of the digit `d`.
fn digit_str(d: usize) -> (s: &'static str)
    requires
        d < 10,
    ensures
        s@ == seq![digit_char(d as nat)],
{
    proof {
        reveal_strlit("0");
        reveal_strlit("1");
        reveal_strlit("2");
        reveal_strlit("3");
        reveal_strlit("4");
        reveal_strlit("5");
        reveal_strlit("6");
        reveal_strlit("7");
        reveal_strlit("8");
        reveal_strlit("9");
    }
    let s: &'static str = if d == 0 {
        "0"
    } else if d == 1 {
        "1"
    } else if d == 2 {
        "2"
    } else if d == 3 {
        "3"
    } else if d == 4 {
        "4"
    } else if d == 5 {
        "5"
    } else if d == 6 {
        "6"
    } else if d == 7 {
        "7"
    } else if d == 8 {
        "8"
    } else {
        "9"
    };
    assert(s@ =~= seq![digit_char(d as nat)]);
    s
}

/// Writes `n` in decimal notation.
pub fn decimal_string(n: usize) -> (s: String)
    ensures
        s@ == decimal(n as nat),
    decreases n,
{
    if n < 10 {
        String::from_str(digit_str(n))
    } else {
        let mut s = decimal_string(n / 10);
        s.append(digit_str(n % 10));
        assert(s@ =~= decimal(n as nat));
        s
    }
}

/// Whether two texts are the same.
pub fn same_text(a: &str, b: &str) -> (same: bool)
    ensures
        same == (a@ == b@),
{
    String::from_str(a) == String::from_str(b)
}

/// The plural suffix for `n` things.
pub fn plural_str(n: usize) -> (s: &'static str)
    ensures
        s@ == plural(n as nat),
{
    if n > 1 {
        "s"
    } else {
        proof {
            reveal_strlit("");
        }
        let s: &'static str = "";
        assert(s@ =~= Seq::<char>::empty());
        s
    }
}

/// The texts of the given items, one after the other.
pub open spec fn joined<T>(items: Seq<T>, line: spec_fn(T) -> Seq<char>) -> Seq<char>
    decreases items.len(),
{
    if items.len() == 0 {
        Seq::empty()
    } else {
        joined(items.drop_last(), line) + line(items.last())
    }
}

/// The heading of a group of `n` variables of the given kind.
pub open spec fn heading(n: nat, kind: Seq<char>) -> Seq<char> {
    "Got "@ + decimal(n) + " "@ + kind + " variable"@ + plural(n) + "\n"@
}

/// Appends the heading of a group of `n` variables of the given kind.
pub fn push_heading(out: &mut String, n: usize, kind: &str)
    ensures
        final(out)@ == old(out)@ + heading(n as nat, kind@),
{
    out.append("Got ");
    let count = decimal_string(n);
    out.append(count.as_str());
    out.append(" ");
    out.append(kind);
    out.append(" variable");
    out.append(plural_str(n));
    out.append("\n");
    assert(out@ =~= old(out)@ + heading(n as nat, kind@));
}

} // verus!
