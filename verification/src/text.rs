//! Small verified text utilities: the prefix test hostname routing is built
//! on, and the scan that picks a public URL out of a line of tunnel-helper
//! output.

use vstd::prelude::*;
use vstd::string::StrSliceExecFns;

verus! {

/// Every byte is ASCII.
pub open spec fn ascii_bytes(b: Seq<u8>) -> bool {
    forall|i: int| 0 <= i < b.len() ==> b[i] < 128
}

/// The characters an ASCII byte sequence spells.
pub open spec fn chars_of(b: Seq<u8>) -> Seq<char> {
    Seq::new(b.len(), |i: int| b[i] as char)
}

/// Relies on String::from_utf8: ASCII bytes are valid UTF-8 and decode to
/// the characters with the same code points.
#[verifier::external_body]
pub(crate) fn string_from_ascii(bytes: Vec<u8>) -> (r: String)
    requires
        ascii_bytes(bytes@),
    ensures
        r@ == chars_of(bytes@),
{
    match String::from_utf8(bytes) {
        Ok(s) => s,
        Err(_) => String::new(),
    }
}

/// `p` is an initial segment of `s`.
pub open spec fn text_prefix(p: Seq<char>, s: Seq<char>) -> bool {
    p.len() <= s.len() && s.subrange(0, p.len() as int) == p
}

/// Whether `s` starts with `prefix`, character by character.
pub fn str_starts_with(s: &String, prefix: &String) -> (r: bool)
    ensures
        r == text_prefix(prefix@, s@),
{
    let np = prefix.as_str().unicode_len();
    let ns = s.as_str().unicode_len();
    if np > ns {
        return false;
    }
    let mut i: usize = 0;
    while i < np
        invariant
            i <= np,
            np == prefix@.len(),
            ns == s@.len(),
            np <= ns,
            forall|j: int| 0 <= j < i ==> s@[j] == prefix@[j],
        decreases np - i,
    {
        if s.as_str().get_char(i) != prefix.as_str().get_char(i) {
            proof {
                assert(s@.subrange(0, np as int)[i as int] == s@[i as int]);
            }
            return false;
        }
        i = i + 1;
    }
    proof {
        assert(s@.subrange(0, np as int) =~= prefix@);
    }
    true
}

/// The decimal digit `d` as a character.
pub open spec fn digit_char(d: nat) -> char
    recommends
        d < 10,
{
    ((48 + d) as u8) as char
}

/// The decimal spelling of `n`, most significant digit first, no sign and
/// no leading zero.
pub open spec fn spec_dec(n: nat) -> Seq<char>
    decreases n,
{
    if n < 10 {
        seq![digit_char(n)]
    } else {
        spec_dec(n / 10).push(digit_char(n % 10))
    }
}

/// The decimal digit bytes of `n`.
fn dec_bytes(n: u16) -> (r: Vec<u8>)
    ensures
        ascii_bytes(r@),
        chars_of(r@) == spec_dec(n as nat),
    decreases n,
{
    if n < 10 {
        let mut v: Vec<u8> = Vec::new();
        v.push(48 + (n as u8));
        proof {
            assert(chars_of(v@) =~= spec_dec(n as nat));
        }
        v
    } else {
        let mut v = dec_bytes(n / 10);
        v.push(48 + ((n % 10) as u8));
        proof {
            assert(chars_of(v@) =~= spec_dec(n as nat));
        }
        v
    }
}

/// Writes `n` in decimal.
pub fn u16_to_string(n: u16) -> (r: String)
    ensures
        r@ == spec_dec(n as nat),
{
    string_from_ascii(dec_bytes(n))
}

/// Every character is a decimal digit.
pub open spec fn all_digits(s: Seq<char>) -> bool {
    forall|i: int| 0 <= i < s.len() ==> '0' <= #[trigger] s[i] <= '9'
}

/// The numeric value of a digit string, most significant digit first.
pub open spec fn dec_value(s: Seq<char>) -> int
    recommends
        all_digits(s),
    decreases s.len(),
{
    if s.len() == 0 {
        0
    } else {
        dec_value(s.drop_last()) * 10 + (s.last() as int - 48)
    }
}

/// A digit string's value is never negative.
proof fn lemma_dec_nonneg(s: Seq<char>)
    requires
        all_digits(s),
    ensures
        dec_value(s) >= 0,
    decreases s.len(),
{
    if s.len() > 0 {
        assert(all_digits(s.drop_last()));
        lemma_dec_nonneg(s.drop_last());
    }
}

/// Extending a digit string with further digits never shrinks its value.
proof fn lemma_dec_prefix(s: Seq<char>, i: int)
    requires
        all_digits(s),
        0 <= i <= s.len(),
    ensures
        dec_value(s.subrange(0, i)) <= dec_value(s),
    decreases s.len() - i,
{
    if i == s.len() {
        assert(s.subrange(0, i) =~= s);
    } else {
        assert(s.subrange(0, i + 1).drop_last() =~= s.subrange(0, i));
        assert(s.subrange(0, i + 1).last() == s[i]);
        assert(all_digits(s.subrange(0, i)));
        lemma_dec_nonneg(s.subrange(0, i));
        lemma_dec_prefix(s, i + 1);
    }
}

/// Reads a decimal number, as the configuration input fields do: the whole
/// string must be digits and the value must fit, else nothing.
pub fn parse_u16(s: &String) -> (r: Option<u16>)
    ensures
        match r {
            Some(v) => s@.len() > 0 && all_digits(s@) && dec_value(s@) == v as int,
            None => s@.len() == 0 || !all_digits(s@) || dec_value(s@) > u16::MAX,
        },
{
    let n = s.as_str().unicode_len();
    if n == 0 {
        return None;
    }
    let mut acc: u32 = 0;
    let mut i: usize = 0;
    while i < n
        invariant
            n == s@.len(),
            i <= n,
            all_digits(s@.subrange(0, i as int)),
            acc <= 65535,
            acc as int == dec_value(s@.subrange(0, i as int)),
        decreases n - i,
    {
        let c = s.as_str().get_char(i);
        if !(c >= '0' && c <= '9') {
            return None;
        }
        let d: u32 = (c as u32) - 48;
        let next: u32 = acc * 10 + d;
        proof {
            assert(s@.subrange(0, i + 1).drop_last() =~= s@.subrange(0, i as int));
            assert(s@.subrange(0, i + 1).last() == s@[i as int]);
            assert(all_digits(s@.subrange(0, i + 1)));
        }
        if next > 65535 {
            proof {
                if all_digits(s@) {
                    lemma_dec_prefix(s@, i + 1);
                }
            }
            return None;
        }
        acc = next;
        i = i + 1;
    }
    proof {
        assert(s@.subrange(0, n as int) =~= s@);
    }
    Some(acc as u16)
}

/// A character that ends a URL in a line of helper output: a path slash or
/// whitespace.
pub open spec fn url_break(c: char) -> bool {
    c == '/' || c == ' ' || c == '\t' || c == '\r' || c == '\n' || c == '\u{b}' || c == '\u{c}'
}

/// A public URL begins at `i`: the scheme, then at least one character that
/// does not end it.
pub open spec fn url_starts_at(s: Seq<char>, i: int) -> bool {
    &&& 0 <= i
    &&& i + 8 < s.len()
    &&& s.subrange(i, i + 8) == "https://"@
    &&& !url_break(s[i + 8])
}

/// Where the URL running from `j` ends: the first breaking character at or
/// after `j`, or the end of the line.
pub open spec fn url_end_from(s: Seq<char>, j: int) -> int
    decreases s.len() - j,
{
    if j < 0 || j >= s.len() {
        s.len() as int
    } else if url_break(s[j]) {
        j
    } else {
        url_end_from(s, j + 1)
    }
}

/// Whether the scheme literal stands at offset `i`.
fn scheme_at(line: &String, i: usize) -> (r: bool)
    requires
        line@.len() <= usize::MAX,
        i + 8 <= line@.len(),
    ensures
        r == (line@.subrange(i as int, i + 8) == "https://"@),
{
    proof {
        reveal_strlit("https://");
        assert("https://"@[0] == 'h');
        assert("https://"@[1] == 't');
        assert("https://"@[2] == 't');
        assert("https://"@[3] == 'p');
        assert("https://"@[4] == 's');
        assert("https://"@[5] == ':');
        assert("https://"@[6] == '/');
        assert("https://"@[7] == '/');
    }
    let s = line.as_str();
    let r = s.get_char(i) == 'h' && s.get_char(i + 1) == 't' && s.get_char(i + 2) == 't'
        && s.get_char(i + 3) == 'p' && s.get_char(i + 4) == 's' && s.get_char(i + 5) == ':'
        && s.get_char(i + 6) == '/' && s.get_char(i + 7) == '/';
    proof {
        let sub = line@.subrange(i as int, i + 8);
        if r {
            assert(sub =~= "https://"@);
        } else {
            assert(sub.len() == 8);
            assert(forall|k: int| 0 <= k < 8 ==> sub[k] == line@[i + k]);
        }
    }
    r
}

/// Whether this character ends a URL.
fn is_url_break(c: char) -> (r: bool)
    ensures
        r == url_break(c),
{
    c == '/' || c == ' ' || c == '\t' || c == '\r' || c == '\n' || c == '\u{b}' || c == '\u{c}'
}

/// Picks the first public URL out of a line of tunnel-helper output: the
/// leftmost `https://` followed by at least one character, extended as far
/// as the first slash or whitespace.
pub fn find_https_url(line: &String) -> (r: Option<String>)
    ensures
        match r {
            Some(u) => exists|i: int|
                {
                    &&& #[trigger] url_starts_at(line@, i)
                    &&& forall|k: int| 0 <= k < i ==> !url_starts_at(line@, k)
                    &&& u@ == line@.subrange(i, url_end_from(line@, i + 8))
                },
            None => forall|i: int| !url_starts_at(line@, i),
        },
{
    let n = line.as_str().unicode_len();
    let mut i: usize = 0;
    while i < n && n - i > 8
        invariant
            n == line@.len(),
            i <= n,
            forall|k: int| 0 <= k < i ==> !url_starts_at(line@, k),
        decreases n - i,
    {
        if scheme_at(line, i) && !is_url_break(line.as_str().get_char(i + 8)) {
            let ghost start = i as int;
            assert(url_starts_at(line@, start));
            let mut e: usize = i + 8;
            while e < n && !is_url_break(line.as_str().get_char(e))
                invariant
                    n == line@.len(),
                    i + 8 <= e <= n,
                    url_end_from(line@, i + 8) == url_end_from(line@, e as int),
                decreases n - e,
            {
                e = e + 1;
            }
            proof {
                if e < n {
                    assert(url_end_from(line@, e as int) == e);
                }
            }
            let u = line.as_str().substring_char(i, e).to_owned();
            return Some(u);
        }
        proof {
            assert(!url_starts_at(line@, i as int));
        }
        i = i + 1;
    }
    proof {
        assert forall|k: int| !url_starts_at(line@, k) implies true by {}
        assert forall|k: int| 0 <= k implies !url_starts_at(line@, k) by {
            if k < i {
            } else {
                assert(k + 8 >= i + 8 >= n);
            }
        }
    }
    None
}

} // verus!
