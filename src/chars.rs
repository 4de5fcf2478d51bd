//! Character and string primitives from std that the validation rules rely on.
use vstd::prelude::*;
use vstd::string::*;

verus! {

/// Whether std classifies the character as alphabetic or numeric.
pub uninterp spec fn alphanumeric(c: char) -> bool;

/// The characters std's lowercase mapping gives for one character.
pub uninterp spec fn lowercase_of(c: char) -> Seq<char>;

/// The string with std's leading and trailing white space removed.
pub uninterp spec fn trimmed(s: Seq<char>) -> Seq<char>;

/// The decimal digit for `d` (`0 <= d < 10`).
pub open spec fn digit_char(d: nat) -> char {
    if d == 0 { '0' } else if d == 1 { '1' } else if d == 2 { '2' } else if d == 3 { '3' } else if d == 4 {
        '4'
    } else if d == 5 { '5' } else if d == 6 { '6' } else if d == 7 { '7' } else if d == 8 { '8' } else { '9' }
}

/// The decimal digits of `n`, without leading zeros (`"0"` for zero).
pub open spec fn digits(n: nat) -> Seq<char>
    decreases n,
{
    if n < 10 {
        seq![digit_char(n)]
    } else {
        digits(n / 10).push(digit_char(n % 10))
    }
}

/// An integer in decimal, with a leading `-` when negative.
pub open spec fn decimal_of(i: i64) -> Seq<char> {
    if i < 0 {
        seq!['-'] + digits((-(i as int)) as nat)
    } else {
        digits(i as nat)
    }
}

/// Relies on `<i64 as ToString>::to_string`: the integer in decimal, with a
/// leading `-` when negative.
#[verifier::external_body]
pub(crate) fn i64_to_string(i: i64) -> (r: String)
    ensures
        r@ == decimal_of(i),
{
    i.to_string()
}

/// An unsigned integer in decimal.
pub open spec fn decimal_of_u64(i: u64) -> Seq<char> {
    digits(i as nat)
}

/// Relies on `<u64 as ToString>::to_string`: the integer in decimal.
#[verifier::external_body]
pub(crate) fn u64_to_string(i: u64) -> (r: String)
    ensures
        r@ == decimal_of_u64(i),
{
    i.to_string()
}

/// Relies on `<char as ToString>::to_string`: a string of the one character.
#[verifier::external_body]
pub(crate) fn char_to_string(c: char) -> (r: String)
    ensures
        r@ == seq![c],
{
    c.to_string()
}

/// Relies on `char::is_alphanumeric`: the Unicode alphabetic-or-numeric test.
#[verifier::external_body]
pub(crate) fn char_is_alphanumeric(c: char) -> (r: bool)
    ensures
        r == alphanumeric(c),
{
    c.is_alphanumeric()
}

/// Relies on `char::to_lowercase`: the lowercase mapping of one character,
/// collected into a string.
#[verifier::external_body]
pub(crate) fn char_to_lowercase(c: char) -> (r: String)
    ensures
        r@ == lowercase_of(c),
{
    c.to_lowercase().collect()
}

/// Relies on `str::trim`: the slice without leading and trailing white space.
#[verifier::external_body]
pub(crate) fn trim_str<'a>(s: &'a str) -> (r: &'a str)
    ensures
        r@ == trimmed(s@),
{
    s.trim()
}

/// Whether two strings hold the same characters.
pub fn str_eq(a: &str, b: &str) -> (r: bool)
    ensures
        r == (a@ == b@),
{
    let n = a.unicode_len();
    if n != b.unicode_len() {
        return false;
    }
    let mut i: usize = 0;
    while i < n
        invariant
            n == a@.len(),
            n == b@.len(),
            i <= n,
            forall|j: int| 0 <= j < i ==> a@[j] == b@[j],
        decreases n - i,
    {
        if a.get_char(i) != b.get_char(i) {
            return false;
        }
        i += 1;
    }
    assert(a@ =~= b@);
    true
}

/// ASCII white space, as std's `char::is_ascii_whitespace` defines it.
pub open spec fn is_ascii_space(c: char) -> bool {
    c == ' ' || c == '\t' || c == '\n' || c == '\x0C' || c == '\r'
}

/// Words completed within the first `n` characters of `s`, and the word
/// still being read after them.
pub open spec fn split_state(s: Seq<char>, n: nat) -> (Seq<Seq<char>>, Seq<char>)
    decreases n,
{
    if n == 0 || n > s.len() {
        (Seq::empty(), Seq::empty())
    } else {
        let (done, cur) = split_state(s, (n - 1) as nat);
        let c = s[n - 1];
        if is_ascii_space(c) {
            if cur.len() > 0 {
                (done.push(cur), Seq::empty())
            } else {
                (done, Seq::empty())
            }
        } else {
            (done, cur.push(c))
        }
    }
}

/// The words of `s`: its maximal runs of characters that are not ASCII
/// white space, in order.
pub open spec fn words(s: Seq<char>) -> Seq<Seq<char>> {
    let (done, cur) = split_state(s, s.len());
    if cur.len() > 0 {
        done.push(cur)
    } else {
        done
    }
}

/// Split a string at ASCII white space, dropping empty words.
pub fn split_words(s: &str) -> (r: Vec<String>)
    ensures
        r@.len() == words(s@).len(),
        forall|i: int| 0 <= i < r@.len() ==> (#[trigger] r@[i])@ == words(s@)[i],
{
    let n = s.unicode_len();
    let mut done: Vec<String> = Vec::new();
    let mut start: usize = 0;
    let mut i: usize = 0;
    while i < n
        invariant
            n == s@.len(),
            start <= i <= n,
            done@.len() == split_state(s@, i as nat).0.len(),
            forall|j: int| 0 <= j < done@.len() ==> (#[trigger] done@[j])@ == split_state(s@, i as nat).0[j],
            s@.subrange(start as int, i as int) == split_state(s@, i as nat).1,
        decreases n - i,
    {
        let c = s.get_char(i);
        if c == ' ' || c == '\t' || c == '\n' || c == '\x0C' || c == '\r' {
            if start < i {
                done.push(s.substring_char(start, i).to_owned());
            }
            start = i + 1;
            assert(s@.subrange(start as int, i + 1) =~= Seq::<char>::empty());
        } else {
            assert(s@.subrange(start as int, i + 1) =~= s@.subrange(start as int, i as int).push(c));
        }
        i += 1;
    }
    if start < n {
        done.push(s.substring_char(start, n).to_owned());
    }
    done
}

} // verus!
