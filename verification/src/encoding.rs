//! Character-level building blocks for the requests the library writes:
//! percent-encoding of URI path segments, form-urlencoding of query
//! values, and hex digits.
//!
//! Encoding is defined over the UTF-8 bytes of the input string; the output
//! is a sequence of ASCII characters.  A byte that is kept is emitted as the
//! character it stands for; a byte that is not is emitted as `%` followed by
//! two uppercase hex digits.

use vstd::prelude::*;
use vstd::string::*;

verus! {

/// The uppercase hex digit of a value below 16.
pub open spec fn spec_hex_upper(n: u8) -> char {
    if n == 0 {
        '0'
    } else if n == 1 {
        '1'
    } else if n == 2 {
        '2'
    } else if n == 3 {
        '3'
    } else if n == 4 {
        '4'
    } else if n == 5 {
        '5'
    } else if n == 6 {
        '6'
    } else if n == 7 {
        '7'
    } else if n == 8 {
        '8'
    } else if n == 9 {
        '9'
    } else if n == 10 {
        'A'
    } else if n == 11 {
        'B'
    } else if n == 12 {
        'C'
    } else if n == 13 {
        'D'
    } else if n == 14 {
        'E'
    } else {
        'F'
    }
}

/// The lowercase hex digit of a value below 16.
pub open spec fn spec_hex_lower(n: u8) -> char {
    if n == 0 {
        '0'
    } else if n == 1 {
        '1'
    } else if n == 2 {
        '2'
    } else if n == 3 {
        '3'
    } else if n == 4 {
        '4'
    } else if n == 5 {
        '5'
    } else if n == 6 {
        '6'
    } else if n == 7 {
        '7'
    } else if n == 8 {
        '8'
    } else if n == 9 {
        '9'
    } else if n == 10 {
        'a'
    } else if n == 11 {
        'b'
    } else if n == 12 {
        'c'
    } else if n == 13 {
        'd'
    } else if n == 14 {
        'e'
    } else {
        'f'
    }
}

/// The percent-escape of a byte: `%` and two uppercase hex digits.
pub open spec fn spec_pct(b: u8) -> Seq<char> {
    seq!['%', spec_hex_upper(b / 16), spec_hex_upper(b % 16)]
}

/// Whether a byte passes through a URI path segment unescaped: printable
/// ASCII, except the characters the path-segment encode set escapes
/// (space, `"`, `#`, `%`, `/`, `<`, `>`, `?`, `\`, backtick, `{`, `}`).
pub open spec fn spec_path_seg_plain(b: u8) -> bool {
    &&& 0x21 <= b <= 0x7e
    &&& b != 0x22  // '"'
    &&& b != 0x23  // '#'
    &&& b != 0x25  // '%'
    &&& b != 0x2f  // '/'
    &&& b != 0x3c  // '<'
    &&& b != 0x3e  // '>'
    &&& b != 0x3f  // '?'
    &&& b != 0x5c  // '\'
    &&& b != 0x60  // '`'
    &&& b != 0x7b  // '{'
    &&& b != 0x7d  // '}'
}

/// One byte of a path segment, encoded.
pub open spec fn spec_path_seg_enc_byte(b: u8) -> Seq<char> {
    if spec_path_seg_plain(b) {
        seq![b as char]
    } else {
        spec_pct(b)
    }
}

/// A whole path segment, encoded byte by byte.
pub open spec fn spec_path_seg_enc(bs: Seq<u8>) -> Seq<char>
    decreases bs.len(),
{
    if bs.len() == 0 {
        Seq::empty()
    } else {
        spec_path_seg_enc_byte(bs[0]) + spec_path_seg_enc(bs.drop_first())
    }
}

/// Whether a byte passes through form-urlencoding unescaped: ASCII
/// alphanumerics and `*`, `-`, `.`, `_`.
pub open spec fn spec_form_plain(b: u8) -> bool {
    ||| 0x30 <= b <= 0x39  // '0'..='9'
    ||| 0x41 <= b <= 0x5a  // 'A'..='Z'
    ||| 0x61 <= b <= 0x7a  // 'a'..='z'
    ||| b == 0x2a  // '*'
    ||| b == 0x2d  // '-'
    ||| b == 0x2e  // '.'
    ||| b == 0x5f  // '_'
}

/// One byte, form-urlencoded: kept, or space as `+`, or percent-escaped.
pub open spec fn spec_form_enc_byte(b: u8) -> Seq<char> {
    if spec_form_plain(b) {
        seq![b as char]
    } else if b == 0x20 {
        seq!['+']
    } else {
        spec_pct(b)
    }
}

/// A whole value, form-urlencoded byte by byte.
pub open spec fn spec_form_enc(bs: Seq<u8>) -> Seq<char>
    decreases bs.len(),
{
    if bs.len() == 0 {
        Seq::empty()
    } else {
        spec_form_enc_byte(bs[0]) + spec_form_enc(bs.drop_first())
    }
}

/// Path-segment encoding of a concatenation is the concatenation of the
/// encodings.
pub proof fn lemma_path_seg_enc_snoc(bs: Seq<u8>, b: u8)
    ensures
        spec_path_seg_enc(bs.push(b)) == spec_path_seg_enc(bs) + spec_path_seg_enc_byte(b),
    decreases bs.len(),
{
    if bs.len() == 0 {
        assert(bs =~= Seq::<u8>::empty());
        assert(spec_path_seg_enc(Seq::<u8>::empty()) == Seq::<char>::empty());
        assert(bs.push(b).drop_first() =~= Seq::<u8>::empty());
        assert(bs.push(b)[0] == b);
        assert(spec_path_seg_enc(bs.push(b)) == spec_path_seg_enc_byte(b) + Seq::<char>::empty());
        assert(spec_path_seg_enc_byte(b) + Seq::<char>::empty() =~= spec_path_seg_enc_byte(b));
        assert(Seq::<char>::empty() + spec_path_seg_enc_byte(b) =~= spec_path_seg_enc_byte(b));
    } else {
        assert(bs.push(b).drop_first() =~= bs.drop_first().push(b));
        lemma_path_seg_enc_snoc(bs.drop_first(), b);
        assert(spec_path_seg_enc(bs.push(b)) =~= spec_path_seg_enc(bs)
            + spec_path_seg_enc_byte(b));
    }
}

/// Form-urlencoding of a concatenation is the concatenation of the
/// encodings.
pub proof fn lemma_form_enc_snoc(bs: Seq<u8>, b: u8)
    ensures
        spec_form_enc(bs.push(b)) == spec_form_enc(bs) + spec_form_enc_byte(b),
    decreases bs.len(),
{
    if bs.len() == 0 {
        assert(bs =~= Seq::<u8>::empty());
        assert(spec_form_enc(Seq::<u8>::empty()) == Seq::<char>::empty());
        assert(bs.push(b).drop_first() =~= Seq::<u8>::empty());
        assert(bs.push(b)[0] == b);
        assert(spec_form_enc(bs.push(b)) == spec_form_enc_byte(b) + Seq::<char>::empty());
        assert(spec_form_enc_byte(b) + Seq::<char>::empty() =~= spec_form_enc_byte(b));
        assert(Seq::<char>::empty() + spec_form_enc_byte(b) =~= spec_form_enc_byte(b));
    } else {
        assert(bs.push(b).drop_first() =~= bs.drop_first().push(b));
        lemma_form_enc_snoc(bs.drop_first(), b);
        assert(spec_form_enc(bs.push(b)) =~= spec_form_enc(bs) + spec_form_enc_byte(b));
    }
}

/// The uppercase hex digit of a value below 16.
pub fn hex_upper(n: u8) -> (c: char)
    requires
        n < 16,
    ensures
        c == spec_hex_upper(n),
{
    if n == 0 {
        '0'
    } else if n == 1 {
        '1'
    } else if n == 2 {
        '2'
    } else if n == 3 {
        '3'
    } else if n == 4 {
        '4'
    } else if n == 5 {
        '5'
    } else if n == 6 {
        '6'
    } else if n == 7 {
        '7'
    } else if n == 8 {
        '8'
    } else if n == 9 {
        '9'
    } else if n == 10 {
        'A'
    } else if n == 11 {
        'B'
    } else if n == 12 {
        'C'
    } else if n == 13 {
        'D'
    } else if n == 14 {
        'E'
    } else {
        'F'
    }
}

/// The lowercase hex digit of a value below 16.
pub fn hex_lower(n: u8) -> (c: char)
    requires
        n < 16,
    ensures
        c == spec_hex_lower(n),
{
    if n == 0 {
        '0'
    } else if n == 1 {
        '1'
    } else if n == 2 {
        '2'
    } else if n == 3 {
        '3'
    } else if n == 4 {
        '4'
    } else if n == 5 {
        '5'
    } else if n == 6 {
        '6'
    } else if n == 7 {
        '7'
    } else if n == 8 {
        '8'
    } else if n == 9 {
        '9'
    } else if n == 10 {
        'a'
    } else if n == 11 {
        'b'
    } else if n == 12 {
        'c'
    } else if n == 13 {
        'd'
    } else if n == 14 {
        'e'
    } else {
        'f'
    }
}

/// Append the characters of `s` to `out`.
pub fn push_str_chars(out: &mut Vec<char>, s: &str)
    ensures
        final(out)@ == old(out)@ + s@,
{
    let n = s.unicode_len();
    let mut i: usize = 0;
    while i < n
        invariant
            i <= n,
            n == s@.len(),
            out@ == old(out)@ + s@.subrange(0, i as int),
        decreases n - i,
    {
        let c = s.get_char(i);
        out.push(c);
        proof {
            assert(s@.subrange(0, i + 1 as int) =~= s@.subrange(0, i as int).push(s@[i as int]));
            assert(old(out)@ + s@.subrange(0, i + 1 as int) =~= (old(out)@ + s@.subrange(
                0,
                i as int,
            )).push(s@[i as int]));
        }
        i = i + 1;
    }
    proof {
        assert(s@.subrange(0, n as int) =~= s@);
    }
}

/// Append the percent-escape of one byte to `out`.
fn push_pct(out: &mut Vec<char>, b: u8)
    ensures
        final(out)@ == old(out)@ + spec_pct(b),
{
    out.push('%');
    out.push(hex_upper(b / 16));
    out.push(hex_upper(b % 16));
    proof {
        assert(old(out)@ + spec_pct(b) =~= old(out)@.push('%').push(spec_hex_upper(b / 16)).push(
            spec_hex_upper(b % 16),
        ));
    }
}

/// Append `segment`, encoded as one URI path segment, to `out`.
pub fn push_path_segment(out: &mut Vec<char>, segment: &str)
    ensures
        final(out)@ == old(out)@ + spec_path_seg_enc(segment.spec_bytes()),
{
    let bs = segment.as_bytes();
    let mut i: usize = 0;
    while i < bs.len()
        invariant
            i <= bs.len(),
            bs@ == segment.spec_bytes(),
            out@ == old(out)@ + spec_path_seg_enc(bs@.subrange(0, i as int)),
        decreases bs.len() - i,
    {
        let b = bs[i];
        if 0x21 <= b && b <= 0x7e && b != 0x22 && b != 0x23 && b != 0x25 && b != 0x2f && b != 0x3c
            && b != 0x3e && b != 0x3f && b != 0x5c && b != 0x60 && b != 0x7b && b != 0x7d {
            out.push(b as char);
        } else {
            push_pct(out, b);
        }
        proof {
            assert(bs@.subrange(0, i + 1 as int) =~= bs@.subrange(0, i as int).push(bs@[i as int]));
            lemma_path_seg_enc_snoc(bs@.subrange(0, i as int), bs@[i as int]);
            assert(out@ =~= old(out)@ + spec_path_seg_enc(bs@.subrange(0, i + 1 as int)));
        }
        i = i + 1;
    }
    proof {
        assert(bs@.subrange(0, bs@.len() as int) =~= bs@);
    }
}

/// Append `value`, form-urlencoded, to `out`.
pub fn push_form_encoded(out: &mut Vec<char>, value: &str)
    ensures
        final(out)@ == old(out)@ + spec_form_enc(value.spec_bytes()),
{
    let bs = value.as_bytes();
    let mut i: usize = 0;
    while i < bs.len()
        invariant
            i <= bs.len(),
            bs@ == value.spec_bytes(),
            out@ == old(out)@ + spec_form_enc(bs@.subrange(0, i as int)),
        decreases bs.len() - i,
    {
        let b = bs[i];
        if (0x30 <= b && b <= 0x39) || (0x41 <= b && b <= 0x5a) || (0x61 <= b && b <= 0x7a) || b
            == 0x2a || b == 0x2d || b == 0x2e || b == 0x5f {
            out.push(b as char);
        } else if b == 0x20 {
            out.push('+');
        } else {
            push_pct(out, b);
        }
        proof {
            assert(bs@.subrange(0, i + 1 as int) =~= bs@.subrange(0, i as int).push(bs@[i as int]));
            lemma_form_enc_snoc(bs@.subrange(0, i as int), bs@[i as int]);
            assert(out@ =~= old(out)@ + spec_form_enc(bs@.subrange(0, i + 1 as int)));
        }
        i = i + 1;
    }
    proof {
        assert(bs@.subrange(0, bs@.len() as int) =~= bs@);
    }
}

/// Relies on `String::from_iter` over `char`: collecting characters yields
/// the string whose characters they are.
#[verifier::external_body]
pub fn string_from_chars(v: Vec<char>) -> (r: String)
    ensures
        r@ == v@,
{
    String::from_iter(v)
}

} // verus!
