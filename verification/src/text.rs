//! Small operations on text that the rest of the crate shares.

use vstd::prelude::*;

verus! {

/// Whether two texts hold the same characters.
pub(crate) fn same(a: &str, b: &str) -> (r: bool)
    ensures
        r == (a@ == b@),
{
    let n: usize = a.unicode_len();
    if b.unicode_len() != n {
        return false;
    }
    let mut i: usize = 0;
    while i < n
        invariant
            i <= n,
            n == a@.len(),
            n == b@.len(),
            forall|j: int| 0 <= j < i ==> a@[j] == b@[j],
        decreases n - i,
    {
        if a.get_char(i) != b.get_char(i) {
            return false;
        }
        i += 1;
    }
    assert(a@ =~= b@);
    true
}

/// A list of texts as contracts see it.
pub open spec fn texts(list: Seq<String>) -> Seq<Seq<char>> {
    Seq::new(list.len(), |i: int| list[i]@)
}

/// The decimal digit for a number below ten.
pub open spec fn digit(d: nat) -> char
    recommends
        d < 10,
{
    "0123456789"@[d as int]
}

/// A natural number in decimal digits, without leading zeros.
pub open spec fn decimal(n: nat) -> Seq<char>
    decreases n,
{
    if n < 10 {
        seq![digit(n)]
    } else {
        decimal(n / 10).push(digit(n % 10))
    }
}

/// An integer in decimal digits, with `-` before a negative one.
pub open spec fn signed_decimal(n: int) -> Seq<char> {
    if n < 0 {
        seq!['-'] + decimal((-n) as nat)
    } else {
        decimal(n as nat)
    }
}

/// Writes a natural number in decimal digits.
pub fn to_decimal(n: u32) -> (out: String)
    ensures
        out@ == decimal(n as nat),
    decreases n,
{
    let digits = "0123456789";
    proof {
        reveal_strlit("0123456789");
    }
    if n < 10 {
        let out = String::from_str(digits.substring_char(n as usize, n as usize + 1));
        out
    } else {
        let mut out = to_decimal(n / 10);
        let last: usize = (n % 10) as usize;
        out.append(digits.substring_char(last, last + 1));
        out
    }
}

/// Writes an integer in decimal digits, with `-` before a negative one.
pub fn to_signed_decimal(n: i32) -> (out: String)
    ensures
        out@ == signed_decimal(n as int),
{
    if n < 0 {
        let mut out = String::from_str("-");
        proof {
            reveal_strlit("-");
        }
        let magnitude: u32 = if n == i32::MIN {
            2147483648u32
        } else {
            (-n) as u32
        };
        out.append(to_decimal(magnitude).as_str());
        out
    } else {
        to_decimal(n as u32)
    }
}

/// The first place at which a character stands in a text.
pub fn first_index(text: &str, c: char) -> (place: Option<usize>)
    ensures
        match place {
            Some(i) => text@.index_of_first(c) == Some(i as int) && i < text@.len(),
            None => text@.index_of_first(c) is None,
        },
{
    let n: usize = text.unicode_len();
    let mut i: usize = 0;
    proof {
        text@.index_of_first_ensures(c);
    }
    while i < n
        invariant
            i <= n,
            n == text@.len(),
            forall|j: int| 0 <= j < i ==> text@[j] != c,
        decreases n - i,
    {
        if text.get_char(i) == c {
            proof {
                text@.index_of_first_ensures(c);
            }
            return Some(i);
        }
        i += 1;
    }
    None
}

/// The last place at which a character stands in a text.
pub fn last_index(text: &str, c: char) -> (place: Option<usize>)
    ensures
        match place {
            Some(i) => text@.index_of_last(c) == Some(i as int) && i < text@.len(),
            None => text@.index_of_last(c) is None,
        },
{
    let n: usize = text.unicode_len();
    let mut i: usize = n;
    proof {
        text@.index_of_last_ensures(c);
    }
    while i > 0
        invariant
            i <= n,
            n == text@.len(),
            forall|j: int| i <= j < n ==> text@[j] != c,
        decreases i,
    {
        i -= 1;
        if text.get_char(i) == c {
            proof {
                text@.index_of_last_ensures(c);
            }
            return Some(i);
        }
    }
    None
}

} // verus!
