//! Small text helpers: decimal numerals, byte prefixes, lists of lines,
//! and prefixes of UTF-8 encodings.
use vstd::prelude::*;
use vstd::string::*;
use vstd::utf8::{
    encode_scalar,
    encode_utf8,
    has_width_1_encoding,
    has_width_2_encoding,
    has_width_3_encoding,
    is_ascii_chars,
    leading_byte_width_1,
    leading_byte_width_2,
    leading_byte_width_3,
    leading_byte_width_4,
};

verus! {

/// The character of a decimal digit.
pub open spec fn digit_char(d: nat) -> char
    recommends
        d < 10,
{
    (48 + d) as char
}

/// The decimal numeral of `n`, without leading zeros ("0" for zero).
pub open spec fn decimal(n: nat) -> Seq<char>
    decreases n,
{
    if n < 10 {
        seq![digit_char(n)]
    } else {
        decimal(n / 10).push(digit_char(n % 10))
    }
}

/// The number that a numeral of decimal digits reads as.
pub open spec fn numeral_value(digits: Seq<char>) -> int
    decreases digits.len(),
{
    if digits.len() == 0 {
        0
    } else {
        numeral_value(digits.drop_last()) * 10 + (digits.last() as int - 48)
    }
}

/// The decimal numeral of `n` is made of the digits '0' to '9' and reads
/// back as `n`.
pub proof fn law_decimal_reads_back(n: nat)
    ensures
        decimal(n).len() > 0,
        forall|i: int| 0 <= i < decimal(n).len() ==> '0' <= #[trigger] decimal(n)[i] <= '9',
        numeral_value(decimal(n)) == n,
    decreases n,
{
    if n < 10 {
        assert(decimal(n) =~= seq![digit_char(n)]);
        assert(decimal(n).drop_last() =~= Seq::<char>::empty());
        assert(digit_char(n) as int == 48 + n);
        assert(numeral_value(decimal(n)) == numeral_value(Seq::<char>::empty()) * 10 + (
        digit_char(n) as int - 48));
    } else {
        law_decimal_reads_back(n / 10);
        let d = decimal(n);
        assert(d == decimal(n / 10).push(digit_char(n % 10)));
        assert(d.drop_last() =~= decimal(n / 10));
        assert forall|i: int| 0 <= i < d.len() implies '0' <= #[trigger] d[i] <= '9' by {
            if i < d.len() - 1 {
                assert(d[i] == decimal(n / 10)[i]);
            }
        }
        assert(digit_char(n % 10) as int == 48 + n % 10);
        assert(d.last() == digit_char(n % 10));
        assert(numeral_value(d) == numeral_value(decimal(n / 10)) * 10 + (n % 10));
        assert(n == (n / 10) * 10 + n % 10) by (nonlinear_arith);
    }
}

/// `String::push` appends one character.
#[verifier::external_body]
pub(crate) fn push_char(s: &mut String, c: char)
    ensures
        final(s)@ == old(s)@.push(c),
{
    s.push(c);
}

fn digit(d: u8) -> (c: char)
    requires
        d < 10,
    ensures
        c == digit_char(d as nat),
{
    (48u8 + d) as char
}

/// Appends the decimal numeral of `n` to `s`.
pub fn append_decimal(s: &mut String, n: usize)
    ensures
        final(s)@ == old(s)@ + decimal(n as nat),
    decreases n,
{
    if n < 10 {
        push_char(s, digit(n as u8));
        assert(decimal(n as nat) == seq![digit_char(n as nat)]);
        assert(old(s)@.push(digit_char(n as nat)) =~= old(s)@ + seq![digit_char(n as nat)]);
    } else {
        append_decimal(s, n / 10);
        push_char(s, digit((n % 10) as u8));
        assert(decimal(n as nat) == decimal((n / 10) as nat).push(digit_char((n % 10) as nat)));
        assert((old(s)@ + decimal((n / 10) as nat)).push(digit_char((n % 10) as nat))
            =~= old(s)@ + decimal((n / 10) as nat).push(digit_char((n % 10) as nat)));
    }
}

/// The decimal numeral of `n`.
pub fn decimal_string(n: usize) -> (r: String)
    ensures
        r@ == decimal(n as nat),
{
    let mut s = String::new();
    append_decimal(&mut s, n);
    assert(Seq::<char>::empty() + decimal(n as nat) =~= decimal(n as nat));
    s
}

/// Whether `bytes` begins with `prefix`.
pub fn starts_with(bytes: &[u8], prefix: &[u8]) -> (r: bool)
    ensures
        r == (prefix@.len() <= bytes@.len() && bytes@.subrange(0, prefix@.len() as int) == prefix@),
{
    if prefix.len() > bytes.len() {
        return false;
    }
    let n = prefix.len();
    let mut i: usize = 0;
    while i < n
        invariant
            n == prefix@.len(),
            n <= bytes@.len(),
            i <= n,
            forall|j: int| 0 <= j < i ==> bytes@[j] == prefix@[j],
        decreases n - i,
    {
        if bytes[i] != prefix[i] {
            assert(bytes@.subrange(0, n as int)[i as int] != prefix@[i as int]);
            return false;
        }
        i = i + 1;
    }
    assert(bytes@.subrange(0, n as int) =~= prefix@);
    true
}

/// The texts of a list of lines.
pub open spec fn lines_view(lines: Seq<String>) -> Seq<Seq<char>> {
    lines.map_values(|l: String| l@)
}

/// No lines.
pub fn no_lines() -> (r: Vec<String>)
    ensures
        lines_view(r@) == Seq::<Seq<char>>::empty(),
{
    let v: Vec<String> = Vec::new();
    assert(lines_view(v@) =~= Seq::<Seq<char>>::empty());
    v
}

/// One line.
pub fn one_line(line: String) -> (r: Vec<String>)
    ensures
        lines_view(r@) == seq![line@],
{
    let mut v: Vec<String> = Vec::new();
    v.push(line);
    assert(lines_view(v@) =~= seq![line@]);
    v
}

/// Two lines.
pub fn two_lines(first: String, second: String) -> (r: Vec<String>)
    ensures
        lines_view(r@) == seq![first@, second@],
{
    let mut v: Vec<String> = Vec::new();
    v.push(first);
    v.push(second);
    assert(lines_view(v@) =~= seq![first@, second@]);
    v
}

/// The UTF-8 encoding of `chars` begins with the encoding of a non-empty
/// `chars`'s first character.
proof fn lemma_encode_first(chars: Seq<char>)
    requires
        chars.len() > 0,
    ensures
        encode_utf8(chars) == encode_scalar(chars[0] as u32) + encode_utf8(chars.drop_first()),
{
}

/// The first byte of a character's UTF-8 encoding is below 0x80 only for
/// an ASCII character, whose encoding is that one byte.
proof fn lemma_scalar_first_byte(c: char)
    requires
        encode_scalar(c as u32)[0] < 0x80,
    ensures
        (c as u32) < 0x80,
        encode_scalar(c as u32) == seq![leading_byte_width_1(c as u32)],
{
    let v = c as u32;
    vstd::utf8::char_is_scalar(c);
    if has_width_1_encoding(v) {
    } else if has_width_2_encoding(v) {
        assert(leading_byte_width_2(v) >= 0x80) by (bit_vector);
    } else if has_width_3_encoding(v) {
        assert(leading_byte_width_3(v) >= 0x80) by (bit_vector);
    } else {
        assert(leading_byte_width_4(v) >= 0x80) by (bit_vector);
    }
}

/// Where the UTF-8 encoding of `text` begins with that of the ASCII text
/// `prefix`, `text` begins with `prefix`.
pub proof fn lemma_ascii_prefix(text: Seq<char>, prefix: Seq<char>)
    requires
        is_ascii_chars(prefix),
        encode_utf8(prefix).len() <= encode_utf8(text).len(),
        encode_utf8(text).subrange(0, encode_utf8(prefix).len() as int) == encode_utf8(prefix),
    ensures
        prefix.len() <= text.len(),
        text.subrange(0, prefix.len() as int) == prefix,
    decreases prefix.len(),
{
    if prefix.len() == 0 {
        assert(text.subrange(0, 0) =~= prefix);
    } else {
        let ep = encode_utf8(prefix);
        let et = encode_utf8(text);
        if text.len() == 0 {
            lemma_encode_first(prefix);
            assert(et.len() == 0);
            assert(false);
        }
        lemma_encode_first(text);
        lemma_encode_first(prefix);
        let vt = text[0] as u32;
        let vp = prefix[0] as u32;
        assert('\0' <= prefix[0] <= '\u{7f}');
        assert(vp <= 0x7f);
        assert(leading_byte_width_1(vp) < 0x80) by (bit_vector);
        assert(encode_scalar(vp) == seq![leading_byte_width_1(vp)]);
        assert(et[0] == ep[0]) by {
            assert(et.subrange(0, ep.len() as int)[0] == et[0]);
        }
        assert(et[0] == encode_scalar(vt)[0]);
        lemma_scalar_first_byte(text[0]);
        assert(leading_byte_width_1(vt) == leading_byte_width_1(vp));
        assert(vt == vp) by (bit_vector)
            requires
                vt < 0x80,
                vp < 0x80,
                leading_byte_width_1(vt) == leading_byte_width_1(vp),
        ;
        vstd::utf8::char_u32_cast(text[0], vt);
        vstd::utf8::char_u32_cast(prefix[0], vp);
        assert(text[0] == prefix[0]);
        let rt = text.drop_first();
        let rp = prefix.drop_first();
        assert(is_ascii_chars(rp)) by {
            assert forall|i| 0 <= i < rp.len() implies '\0' <= #[trigger] rp[i] <= '\u{7f}' by {
                assert(rp[i] == prefix[i + 1]);
            }
        }
        let ert = encode_utf8(rt);
        let erp = encode_utf8(rp);
        assert(et =~= seq![leading_byte_width_1(vt)] + ert);
        assert(ep =~= seq![leading_byte_width_1(vp)] + erp);
        assert forall|i: int| 0 <= i < erp.len() implies ert[i] == erp[i] by {
            assert(et.subrange(0, ep.len() as int)[i + 1] == ep[i + 1]);
            assert(et[i + 1] == ert[i]);
            assert(ep[i + 1] == erp[i]);
        }
        assert(ert.subrange(0, erp.len() as int) =~= erp);
        lemma_ascii_prefix(rt, rp);
        assert(text.subrange(0, prefix.len() as int) =~= seq![text[0]] + rt.subrange(0, rp.len() as int));
        assert(prefix =~= seq![prefix[0]] + rp);
    }
}

} // verus!
