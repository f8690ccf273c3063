//! Compact textual rendering of changes: the status letter, the paths,
//! and the sizes in bytes, with the numerals rendered by a verified
//! decimal formatter.

use vstd::prelude::*;
use vstd::string::{StringExecFns, StrSliceExecFns};

use crate::change::{Added, Change, ChangeView, Deleted, Modified, Renamed};

verus! {

/// The decimal digit character for `d`.
pub open spec fn dec_digit(d: nat) -> char
    recommends
        d < 10,
{
    if d == 0 {
        '0'
    } else if d == 1 {
        '1'
    } else if d == 2 {
        '2'
    } else if d == 3 {
        '3'
    } else if d == 4 {
        '4'
    } else if d == 5 {
        '5'
    } else if d == 6 {
        '6'
    } else if d == 7 {
        '7'
    } else if d == 8 {
        '8'
    } else {
        '9'
    }
}

/// The decimal numeral of `n`, most significant digit first, with no
/// leading zeroes.
pub open spec fn dec_str(n: nat) -> Seq<char>
    decreases n,
{
    if n < 10 {
        seq![dec_digit(n)]
    } else {
        dec_str(n / 10).push(dec_digit(n % 10))
    }
}

/// A sequence read back to front.
spec fn rev_chars(s: Seq<char>) -> Seq<char> {
    Seq::new(s.len(), |j: int| s[s.len() - 1 - j])
}

fn digit_char(d: usize) -> (c: char)
    requires
        d < 10,
    ensures
        c == dec_digit(d as nat),
{
    if d == 0 {
        '0'
    } else if d == 1 {
        '1'
    } else if d == 2 {
        '2'
    } else if d == 3 {
        '3'
    } else if d == 4 {
        '4'
    } else if d == 5 {
        '5'
    } else if d == 6 {
        '6'
    } else if d == 7 {
        '7'
    } else if d == 8 {
        '8'
    } else {
        '9'
    }
}

/// Relies on String's FromIterator over characters: the collected
/// string is exactly the given character sequence.
#[verifier::external_body]
fn chars_to_string(chars: &Vec<char>) -> (r: String)
    ensures
        r@ == chars@,
{
    chars.iter().collect()
}

/// Renders `n` as its decimal numeral.
#[verifier::loop_isolation(false)]
pub fn usize_to_decimal(n: usize) -> (r: String)
    ensures
        r@ == dec_str(n as nat),
{
    if n == 0 {
        let mut out: Vec<char> = Vec::new();
        out.push('0');
        proof {
            assert(out@ =~= seq!['0']);
            assert(dec_str(0) =~= seq!['0']);
        }
        return chars_to_string(&out);
    }
    let mut digits: Vec<char> = Vec::new();
    let mut m: usize = n;
    proof {
        assert(rev_chars(digits@) =~= Seq::<char>::empty());
        assert(dec_str(n as nat) =~= dec_str(m as nat) + rev_chars(digits@));
    }
    while m > 0
        invariant
            if m > 0 {
                dec_str(n as nat) == dec_str(m as nat) + rev_chars(digits@)
            } else {
                dec_str(n as nat) == rev_chars(digits@)
            },
        decreases m,
    {
        let ghost digits_before = digits@;
        let ghost m_before = m as nat;
        let d = m % 10;
        digits.push(digit_char(d));
        m = m / 10;
        proof {
            assert(rev_chars(digits@) =~= seq![dec_digit(m_before % 10)] + rev_chars(digits_before));
            if m > 0 {
                assert(dec_str(m_before) == dec_str(m_before / 10).push(dec_digit(m_before % 10)));
                assert(dec_str(m_before / 10).push(dec_digit(m_before % 10)) + rev_chars(
                    digits_before,
                ) =~= dec_str(m_before / 10) + (seq![dec_digit(m_before % 10)] + rev_chars(
                    digits_before,
                )));
            } else {
                assert(dec_str(m_before) =~= seq![dec_digit(m_before % 10)]);
                assert(seq![dec_digit(m_before % 10)] + rev_chars(digits_before) =~= rev_chars(
                    digits@,
                ));
            }
        }
    }
    let len = digits.len();
    let mut out: Vec<char> = Vec::new();
    let mut i: usize = len;
    while i > 0
        invariant
            i <= len,
            len == digits@.len(),
            out@.len() == len - i,
            forall|j: int| 0 <= j < out@.len() ==> out@[j] == digits@[len - 1 - j],
        decreases i,
    {
        i = i - 1;
        out.push(digits[i]);
    }
    proof {
        assert(out@ =~= rev_chars(digits@));
    }
    chars_to_string(&out)
}

/// The compact rendering of a change: the status letter, the path (or
/// the old and new path of a rename), and the sizes in bytes.
pub open spec fn display_of(c: ChangeView) -> Seq<char> {
    match c {
        ChangeView::Added { path, size } => "A "@ + path + " ("@ + dec_str(size) + " bytes)"@,
        ChangeView::Modified { path, old_size, new_size } => "M "@ + path + " ("@ + dec_str(old_size)
            + " -> "@ + dec_str(new_size) + " bytes)"@,
        ChangeView::Deleted { path, size } => "D "@ + path + " ("@ + dec_str(size) + " bytes)"@,
        ChangeView::Renamed { old_path, new_path, size } => "R "@ + old_path + " -> "@ + new_path
            + " ("@ + dec_str(size) + " bytes)"@,
    }
}

impl Added {
    /// Renders this change like `A path (123 bytes)`.
    pub fn display_string(&self) -> (r: String)
        ensures
            r@ == display_of(ChangeView::Added { path: self.path@, size: self.size as nat }),
    {
        let mut s = String::from_str("A ");
        s.append(self.path.as_str());
        s.append(" (");
        let num = usize_to_decimal(self.size);
        s.append(num.as_str());
        s.append(" bytes)");
        s
    }
}

impl Modified {
    /// Renders this change like `M path (10 -> 20 bytes)`.
    pub fn display_string(&self) -> (r: String)
        ensures
            r@ == display_of(ChangeView::Modified {
                path: self.path@,
                old_size: self.old_size as nat,
                new_size: self.new_size as nat,
            }),
    {
        let mut s = String::from_str("M ");
        s.append(self.path.as_str());
        s.append(" (");
        let old_num = usize_to_decimal(self.old_size);
        s.append(old_num.as_str());
        s.append(" -> ");
        let new_num = usize_to_decimal(self.new_size);
        s.append(new_num.as_str());
        s.append(" bytes)");
        s
    }
}

impl Deleted {
    /// Renders this change like `D path (123 bytes)`.
    pub fn display_string(&self) -> (r: String)
        ensures
            r@ == display_of(ChangeView::Deleted { path: self.path@, size: self.size as nat }),
    {
        let mut s = String::from_str("D ");
        s.append(self.path.as_str());
        s.append(" (");
        let num = usize_to_decimal(self.size);
        s.append(num.as_str());
        s.append(" bytes)");
        s
    }
}

impl Renamed {
    /// Renders this change like `R old -> new (123 bytes)`.
    pub fn display_string(&self) -> (r: String)
        ensures
            r@ == display_of(ChangeView::Renamed {
                old_path: self.old_path@,
                new_path: self.new_path@,
                size: self.size as nat,
            }),
    {
        let mut s = String::from_str("R ");
        s.append(self.old_path.as_str());
        s.append(" -> ");
        s.append(self.new_path.as_str());
        s.append(" (");
        let num = usize_to_decimal(self.size);
        s.append(num.as_str());
        s.append(" bytes)");
        s
    }
}

impl Change {
    /// Renders the change compactly, one line per change.
    pub fn display_string(&self) -> (r: String)
        ensures
            r@ == display_of(self@),
    {
        match self {
            Change::Added(c) => c.display_string(),
            Change::Modified(c) => c.display_string(),
            Change::Deleted(c) => c.display_string(),
            Change::Renamed(c) => c.display_string(),
        }
    }
}

} // verus!
