//! Small operations on text that the other modules share.

use vstd::prelude::*;
use vstd::string::StringSliceAdditionalSpecFns;

verus! {

/// Whether two pieces of text hold the same characters.
pub fn same_text(a: &str, b: &str) -> (r: bool)
    ensures
        r == (a@ == b@),
{
    let n: usize = a.unicode_len();
    if n != b.unicode_len() {
        return false;
    }
    let mut i: usize = 0;
    while i < n
        invariant
            n == a@.len(),
            n == b@.len(),
            i <= n,
            forall|k: int| 0 <= k < i ==> a@[k] == b@[k],
        decreases n - i,
    {
        if a.get_char(i) != b.get_char(i) {
            return false;
        }
        i += 1;
    }
    assert(a@ =~= b@);
    true
}

/// `list` holds an entry with the characters of `item`.
pub open spec fn lists(list: Seq<String>, item: Seq<char>) -> bool {
    exists|i: int| 0 <= i < list.len() && (#[trigger] list[i])@ == item
}

/// Whether `list` holds `item`.
pub fn contains_text(list: &Vec<String>, item: &str) -> (r: bool)
    ensures
        r == lists(list@, item@),
{
    let mut i: usize = 0;
    while i < list.len()
        invariant
            i <= list.len(),
            forall|k: int| 0 <= k < i ==> (#[trigger] list@[k])@ != item@,
        decreases list.len() - i,
    {
        if same_text(list[i].as_str(), item) {
            return true;
        }
        i += 1;
    }
    false
}

/// `s` without the run of `c` at its end.
pub open spec fn without_trailing(s: Seq<char>, c: char) -> Seq<char>
    decreases s.len(),
{
    if s.len() > 0 && s.last() == c {
        without_trailing(s.drop_last(), c)
    } else {
        s
    }
}

/// `s` with every `c` at its end removed.
pub fn trim_trailing(s: &str, c: char) -> (r: String)
    ensures
        r@ == without_trailing(s@, c),
{
    let mut end: usize = s.unicode_len();
    assert(s@.subrange(0, end as int) =~= s@);
    while end > 0 && s.get_char(end - 1) == c
        invariant
            end <= s@.len(),
            without_trailing(s@, c) == without_trailing(s@.subrange(0, end as int), c),
        decreases end,
    {
        proof {
            let cur = s@.subrange(0, end as int);
            assert(cur.last() == s@[end - 1]);
            assert(cur.drop_last() =~= s@.subrange(0, end - 1));
        }
        end -= 1;
    }
    s.substring_char(0, end).to_owned()
}

/// `s` without the run of `a` and `b` at its end.
pub open spec fn without_trailing_pair(s: Seq<char>, a: char, b: char) -> Seq<char>
    decreases s.len(),
{
    if s.len() > 0 && (s.last() == a || s.last() == b) {
        without_trailing_pair(s.drop_last(), a, b)
    } else {
        s
    }
}

/// `s` with every `a` and every `b` at its end removed.
pub fn trim_trailing_pair(s: &str, a: char, b: char) -> (r: String)
    ensures
        r@ == without_trailing_pair(s@, a, b),
{
    let mut end: usize = s.unicode_len();
    assert(s@.subrange(0, end as int) =~= s@);
    loop
        invariant
            end <= s@.len(),
            without_trailing_pair(s@, a, b) == without_trailing_pair(
                s@.subrange(0, end as int),
                a,
                b,
            ),
        ensures
            without_trailing_pair(s@, a, b) == s@.subrange(0, end as int),
        decreases end,
    {
        if end == 0 {
            break;
        }
        let last = s.get_char(end - 1);
        proof {
            let cur = s@.subrange(0, end as int);
            assert(cur.last() == last);
            assert(cur.drop_last() =~= s@.subrange(0, end - 1));
        }
        if last != a && last != b {
            break;
        }
        end -= 1;
    }
    s.substring_char(0, end).to_owned()
}

/// The decimal digit of a value below ten.
pub open spec fn digit_char(value: int) -> char {
    if value == 0 {
        '0'
    } else if value == 1 {
        '1'
    } else if value == 2 {
        '2'
    } else if value == 3 {
        '3'
    } else if value == 4 {
        '4'
    } else if value == 5 {
        '5'
    } else if value == 6 {
        '6'
    } else if value == 7 {
        '7'
    } else if value == 8 {
        '8'
    } else {
        '9'
    }
}

/// A natural number in decimal digits, without leading zeros.
pub open spec fn natural_text(n: nat) -> Seq<char>
    decreases n,
{
    if n < 10 {
        seq![digit_char(n as int)]
    } else {
        natural_text(n / 10).push(digit_char((n % 10) as int))
    }
}

/// An integer in decimal digits, with `-` before a negative one.
pub open spec fn integer_text(n: int) -> Seq<char> {
    if n < 0 {
        seq!['-'] + natural_text((-n) as nat)
    } else {
        natural_text(n as nat)
    }
}

fn digit_text(value: u64) -> (r: &'static str)
    requires
        value < 10,
    ensures
        r@ == seq![digit_char(value as int)],
{
    proof {
        reveal_strlit("0");
        reveal_strlit("1");
        reveal_strlit("2");
        reveal_strlit("3");
        reveal_strlit("4");
        reveal_strlit("5");
        reveal_strlit("6");
        reveal_strlit("7");
        reveal_strlit("8");
        reveal_strlit("9");
    }
    let r = if value == 0 {
        "0"
    } else if value == 1 {
        "1"
    } else if value == 2 {
        "2"
    } else if value == 3 {
        "3"
    } else if value == 4 {
        "4"
    } else if value == 5 {
        "5"
    } else if value == 6 {
        "6"
    } else if value == 7 {
        "7"
    } else if value == 8 {
        "8"
    } else {
        "9"
    };
    assert(r@ =~= seq![digit_char(value as int)]);
    r
}

/// Writes a natural number in decimal digits.
pub fn natural_to_text(n: u64) -> (r: String)
    ensures
        r@ == natural_text(n as nat),
    decreases n,
{
    if n < 10 {
        digit_text(n).to_owned()
    } else {
        let mut out = natural_to_text(n / 10);
        out.append(digit_text(n % 10));
        out
    }
}

/// Writes an integer in decimal digits.
pub fn integer_to_text(n: i64) -> (r: String)
    ensures
        r@ == integer_text(n as int),
{
    if n < 0 {
        let magnitude: u64 = (-(n + 1)) as u64 + 1;
        let digits = natural_to_text(magnitude);
        proof {
            reveal_strlit("-");
            assert("-"@ =~= seq!['-']);
        }
        join("-", digits.as_str())
    } else {
        natural_to_text(n as u64)
    }
}

/// `a` followed by `b`.
pub fn join(a: &str, b: &str) -> (r: String)
    ensures
        r@ == a@ + b@,
{
    let mut out = a.to_owned();
    out.append(b);
    out
}

/// The bytes that a URL carries as they are: letters, digits and `- . _ ~`.
pub open spec fn is_unreserved(byte: u8) -> bool {
    ||| 0x30 <= byte <= 0x39
    ||| 0x41 <= byte <= 0x5a
    ||| 0x61 <= byte <= 0x7a
    ||| byte == 0x2d
    ||| byte == 0x2e
    ||| byte == 0x5f
    ||| byte == 0x7e
}

/// The upper-case hexadecimal digit of a value below sixteen.
pub open spec fn hex_digit(value: u8) -> char {
    if value < 10 {
        (0x30 + value) as u8 as char
    } else {
        (0x41 + value - 10) as u8 as char
    }
}

/// One byte, percent-encoded: itself where it is unreserved, else `%` and
/// its two hexadecimal digits.
pub open spec fn percent_encoded_byte(byte: u8) -> Seq<char> {
    if is_unreserved(byte) {
        seq![byte as char]
    } else {
        seq!['%', hex_digit(byte / 16), hex_digit(byte % 16)]
    }
}

/// A run of bytes, percent-encoded byte by byte.
pub open spec fn percent_encoded(bytes: Seq<u8>) -> Seq<char>
    decreases bytes.len(),
{
    if bytes.len() == 0 {
        Seq::empty()
    } else {
        percent_encoded(bytes.drop_last()) + percent_encoded_byte(bytes.last())
    }
}

/// Text made of unreserved bytes alone is its own percent-encoding.
pub proof fn law_unreserved_bytes_unchanged(bytes: Seq<u8>)
    requires
        forall|i: int| 0 <= i < bytes.len() ==> is_unreserved(#[trigger] bytes[i]),
    ensures
        percent_encoded(bytes) == bytes.map_values(|b: u8| b as char),
    decreases bytes.len(),
{
    let plain = bytes.map_values(|b: u8| b as char);
    if bytes.len() == 0 {
        assert(percent_encoded(bytes) =~= plain);
    } else {
        let front = bytes.drop_last();
        assert forall|i: int| 0 <= i < front.len() implies is_unreserved(#[trigger] front[i]) by {
            assert(front[i] == bytes[i]);
        }
        law_unreserved_bytes_unchanged(front);
        assert(is_unreserved(bytes[bytes.len() - 1]));
        assert(percent_encoded(bytes) =~= plain);
    }
}

/// Calls `urlencoding::encode`, which percent-encodes every byte of the
/// text's UTF-8 form but letters, digits and `- . _ ~`, with upper-case
/// hexadecimal digits.
#[verifier::external_body]
pub(crate) fn percent_encode(text: &str) -> (r: String)
    ensures
        r@ == percent_encoded(text.spec_bytes()),
{
    urlencoding::encode(text).into_owned()
}

/// The text without the white space at its two ends, as `str::trim` leaves
/// it.
pub uninterp spec fn trimmed(text: Seq<char>) -> Seq<char>;

/// Calls `str::trim`, which returns the text without its leading and
/// trailing white space. The result is named, not described.
#[verifier::external_body]
pub(crate) fn trim_whitespace(text: &str) -> (r: String)
    ensures
        r@ == trimmed(text@),
{
    text.trim().to_owned()
}

} // verus!
