//! Text encodings used by the protocol: decimal numerals, lowercase hexadecimal,
//! big-endian integers, and the identifiers of skipped message keys.
use vstd::prelude::*;

verus! {

/// The ASCII code of the decimal digit `d` (`d < 10`).
pub open spec fn decimal_digit(d: nat) -> u8 {
    (48 + d) as u8
}

/// The ASCII decimal numeral of `n`, most significant digit first, without leading zeros.
pub open spec fn decimal_digits(n: nat) -> Seq<u8>
    decreases n,
{
    if n < 10 {
        seq![decimal_digit(n)]
    } else {
        decimal_digits(n / 10).push(decimal_digit(n % 10))
    }
}

/// The decimal numeral of `n` as characters.
pub open spec fn decimal_chars(n: nat) -> Seq<char> {
    ascii_chars(decimal_digits(n))
}

/// The characters of an ASCII byte string.
pub open spec fn ascii_chars(s: Seq<u8>) -> Seq<char> {
    s.map_values(|b: u8| b as char)
}

/// The ASCII code of the lowercase hexadecimal digit `d` (`d < 16`).
pub open spec fn hex_digit(d: nat) -> u8 {
    if d < 10 {
        (48 + d) as u8
    } else {
        (87 + d) as u8
    }
}

/// The lowercase hexadecimal encoding of `bytes`: two digits per byte, high nibble first.
pub open spec fn hex_encode(bytes: Seq<u8>) -> Seq<u8>
    decreases bytes.len(),
{
    if bytes.len() == 0 {
        seq![]
    } else {
        hex_encode(bytes.drop_last()) + seq![
            hex_digit((bytes.last() / 16) as nat),
            hex_digit((bytes.last() % 16) as nat),
        ]
    }
}

/// The four bytes of `n` in big-endian order.
pub open spec fn be_bytes(n: u32) -> Seq<u8> {
    seq![(n / 16777216) as u8, ((n / 65536) % 256) as u8, ((n / 256) % 256) as u8, (n % 256) as u8]
}

/// The identifier under which a skipped message key is stored: the prefix (the
/// hexadecimal encoding of the sender's ratchet key, or `none`), a colon, and the
/// decimal message number.
pub open spec fn key_id(prefix: Seq<u8>, n: u32) -> Seq<u8> {
    prefix + seq![58u8] + decimal_digits(n as nat)
}

/// The preview of a byte string shown by the demos: its hexadecimal encoding if that
/// has at most `max` characters, else its first `max` characters and an ellipsis.
pub open spec fn hex_preview_spec(bytes: Seq<u8>, max: nat) -> Seq<char> {
    let full = ascii_chars(hex_encode(bytes));
    if full.len() <= max {
        full
    } else {
        full.take(max as int).push('\u{2026}')
    }
}

pub proof fn lemma_hex_encode_len(bytes: Seq<u8>)
    ensures
        hex_encode(bytes).len() == 2 * bytes.len(),
    decreases bytes.len(),
{
    if bytes.len() > 0 {
        lemma_hex_encode_len(bytes.drop_last());
    }
}

/// Decimal numerals of different numbers differ.
pub proof fn lemma_decimal_digits_injective(a: nat, b: nat)
    requires
        decimal_digits(a) == decimal_digits(b),
    ensures
        a == b,
    decreases a + b,
{
    if a < 10 && b < 10 {
        assert(decimal_digits(a)[0] == decimal_digit(a));
        assert(decimal_digits(b)[0] == decimal_digit(b));
        assert(decimal_digit(a) == 48 + a);
        assert(decimal_digit(b) == 48 + b);
    } else if a < 10 {
        lemma_decimal_digits_nonempty((b / 10) as nat);
        assert(decimal_digits(b) == decimal_digits((b / 10) as nat).push(decimal_digit((b % 10) as nat)));
        assert(decimal_digits(a).len() == 1);
    } else if b < 10 {
        lemma_decimal_digits_nonempty((a / 10) as nat);
        assert(decimal_digits(a) == decimal_digits((a / 10) as nat).push(decimal_digit((a % 10) as nat)));
        assert(decimal_digits(b).len() == 1);
    } else {
        let da = decimal_digits((a / 10) as nat);
        let db = decimal_digits((b / 10) as nat);
        assert(decimal_digits(a) == da.push(decimal_digit((a % 10) as nat)));
        assert(decimal_digits(b) == db.push(decimal_digit((b % 10) as nat)));
        assert(da =~= decimal_digits(a).drop_last());
        assert(db =~= decimal_digits(b).drop_last());
        assert(decimal_digits(a).last() == decimal_digits(b).last());
        assert(decimal_digits(a).last() == decimal_digit((a % 10) as nat));
        assert(decimal_digits(b).last() == decimal_digit((b % 10) as nat));
        lemma_decimal_digits_injective((a / 10) as nat, (b / 10) as nat);
        assert(decimal_digit((a % 10) as nat) == 48 + a % 10);
        assert(decimal_digit((b % 10) as nat) == 48 + b % 10);
        assert(a % 10 == b % 10);
        assert(a == (a / 10) * 10 + a % 10) by (nonlinear_arith);
        assert(b == (b / 10) * 10 + b % 10) by (nonlinear_arith);
    }
}

/// A decimal numeral has at least one digit.
pub proof fn lemma_decimal_digits_nonempty(n: nat)
    ensures
        decimal_digits(n).len() >= 1,
    decreases n,
{
    if n >= 10 {
        lemma_decimal_digits_nonempty((n / 10) as nat);
    }
}

/// Identifiers with the same prefix and different numbers differ.
pub proof fn lemma_key_id_injective(prefix: Seq<u8>, a: u32, b: u32)
    requires
        key_id(prefix, a) == key_id(prefix, b),
    ensures
        a == b,
{
    let k = prefix.len() + 1;
    assert(key_id(prefix, a).skip(k as int) =~= decimal_digits(a as nat));
    assert(key_id(prefix, b).skip(k as int) =~= decimal_digits(b as nat));
    lemma_decimal_digits_injective(a as nat, b as nat);
}

/// Appends `other` to `v`.
pub fn append_bytes(v: &mut Vec<u8>, other: &[u8])
    ensures
        final(v)@ == old(v)@ + other@,
{
    let ghost start = v@;
    let mut i: usize = 0;
    while i < other.len()
        invariant
            i <= other@.len(),
            v@ == start + other@.take(i as int),
        decreases other@.len() - i,
    {
        v.push(other[i]);
        i = i + 1;
        assert(other@.take(i as int) == other@.take((i - 1) as int).push(other@[i - 1]));
    }
    assert(other@.take(i as int) == other@);
}

/// Copies a byte slice into a new vector.
pub fn bytes_to_vec(s: &[u8]) -> (v: Vec<u8>)
    ensures
        v@ == s@,
{
    let mut v = Vec::new();
    append_bytes(&mut v, s);
    assert(Seq::<u8>::empty() + s@ == s@);
    v
}

/// The bytes of `s` from `start` (inclusive) to `end` (exclusive), in a new vector.
pub fn copy_range(s: &[u8], start: usize, end: usize) -> (v: Vec<u8>)
    requires
        start <= end <= s@.len(),
    ensures
        v@ == s@.subrange(start as int, end as int),
{
    let mut v: Vec<u8> = Vec::new();
    let mut i: usize = start;
    while i < end
        invariant
            start <= i <= end,
            end <= s@.len(),
            v@ == s@.subrange(start as int, i as int),
        decreases end - i,
    {
        v.push(s[i]);
        i = i + 1;
        assert(s@.subrange(start as int, i as int) == s@.subrange(start as int, (i - 1) as int).push(s@[i - 1]));
    }
    v
}

/// Whether two byte strings are equal.
pub fn bytes_equal(a: &[u8], b: &[u8]) -> (r: bool)
    ensures
        r == (a@ == b@),
{
    if a.len() != b.len() {
        return false;
    }
    let mut i: usize = 0;
    while i < a.len()
        invariant
            a@.len() == b@.len(),
            i <= a@.len(),
            forall|j: int| 0 <= j < i ==> a@[j] == b@[j],
        decreases a@.len() - i,
    {
        if a[i] != b[i] {
            return false;
        }
        i = i + 1;
    }
    assert(a@ =~= b@);
    true
}

/// Appends the decimal numeral of `n` to `v`.
pub fn push_decimal(v: &mut Vec<u8>, n: u64)
    ensures
        final(v)@ == old(v)@ + decimal_digits(n as nat),
    decreases n,
{
    if n >= 10 {
        push_decimal(v, n / 10);
    }
    v.push(48u8 + (n % 10) as u8);
    proof {
        if n >= 10 {
            assert(decimal_digits(n as nat) == decimal_digits((n / 10) as nat).push(decimal_digit((n % 10) as nat)));
        }
    }
}

/// Appends `c` to `s`.
///
/// Trusted: calls `String::push`, which std documents as appending the given `char`
/// to the end of the string.
#[verifier::external_body]
pub(crate) fn string_push(s: &mut String, c: char)
    ensures
        final(s)@ == old(s)@.push(c),
{
    s.push(c)
}

/// Appends the ASCII bytes `b` to `s`, one character each.
pub fn push_ascii(s: &mut String, b: &[u8])
    ensures
        final(s)@ == old(s)@ + ascii_chars(b@),
{
    let ghost start = s@;
    let mut i: usize = 0;
    while i < b.len()
        invariant
            i <= b@.len(),
            s@ == start + ascii_chars(b@.take(i as int)),
        decreases b@.len() - i,
    {
        string_push(s, b[i] as char);
        i = i + 1;
        assert(ascii_chars(b@.take(i as int)) == ascii_chars(b@.take((i - 1) as int)).push(b@[i - 1] as char));
    }
    assert(b@.take(i as int) == b@);
}

/// Appends the decimal numeral of `n` to `s`.
pub fn push_decimal_str(s: &mut String, n: u64)
    ensures
        final(s)@ == old(s)@ + decimal_chars(n as nat),
{
    let mut digits: Vec<u8> = Vec::new();
    push_decimal(&mut digits, n);
    assert(Seq::<u8>::empty() + decimal_digits(n as nat) == decimal_digits(n as nat));
    push_ascii(s, digits.as_slice());
}

/// The lowercase hexadecimal encoding of `bytes`.
pub fn hex_encode_bytes(bytes: &[u8]) -> (h: Vec<u8>)
    ensures
        h@ == hex_encode(bytes@),
{
    let mut h: Vec<u8> = Vec::new();
    let mut i: usize = 0;
    while i < bytes.len()
        invariant
            i <= bytes@.len(),
            h@ == hex_encode(bytes@.take(i as int)),
        decreases bytes@.len() - i,
    {
        let b = bytes[i];
        let hi = b / 16;
        let lo = b % 16;
        let dhi: u8 = if hi < 10 { 48 + hi } else { 87 + hi };
        let dlo: u8 = if lo < 10 { 48 + lo } else { 87 + lo };
        h.push(dhi);
        h.push(dlo);
        i = i + 1;
        proof {
            let t = bytes@.take(i as int);
            assert(t.drop_last() == bytes@.take((i - 1) as int));
            assert(t.last() == b);
        }
    }
    assert(bytes@.take(i as int) == bytes@);
    h
}

/// The four bytes of `n` in big-endian order.
pub fn u32_to_be_bytes(n: u32) -> (b: Vec<u8>)
    ensures
        b@ == be_bytes(n),
{
    let mut b: Vec<u8> = Vec::new();
    b.push((n / 16777216) as u8);
    b.push(((n / 65536) % 256) as u8);
    b.push(((n / 256) % 256) as u8);
    b.push((n % 256) as u8);
    assert(b@ =~= be_bytes(n));
    b
}

/// Appends to `v` the identifier of a skipped message key: the prefix, a colon and the
/// decimal message number.
pub fn push_key_id(v: &mut Vec<u8>, n: u32)
    ensures
        final(v)@ == old(v)@ + seq![58u8] + decimal_digits(n as nat),
{
    v.push(58u8);
    push_decimal(v, n as u64);
}

/// The text of a byte string read as UTF-8, each invalid sequence replaced by the
/// replacement character.
pub uninterp spec fn utf8_lossy(bytes: Seq<u8>) -> Seq<char>;

/// The text of a byte string read as UTF-8, each invalid sequence replaced by the
/// replacement character.
///
/// Trusted: calls `String::from_utf8_lossy`; claims the result is the named text of the
/// bytes, and, as std documents, that valid UTF-8 is returned as the text it encodes.
#[verifier::external_body]
pub(crate) fn utf8_lossy_text(bytes: &[u8]) -> (s: String)
    ensures
        s@ == utf8_lossy(bytes@),
        vstd::utf8::valid_utf8(bytes@) ==> s@ == vstd::utf8::decode_utf8(bytes@),
{
    String::from_utf8_lossy(bytes).into_owned()
}

/// The preview of a byte string shown by the demos: its lowercase hexadecimal encoding
/// if that has at most `max` characters, else its first `max` characters followed by
/// an ellipsis.
pub fn hex_preview(bytes: &[u8], max: usize) -> (s: String)
    ensures
        s@ == hex_preview_spec(bytes@, max as nat),
{
    let full = hex_encode_bytes(bytes);
    let mut s = String::new();
    if full.len() <= max {
        push_ascii(&mut s, full.as_slice());
        assert(Seq::<char>::empty() + ascii_chars(full@) == ascii_chars(full@));
    } else {
        let head = copy_range(full.as_slice(), 0, max);
        push_ascii(&mut s, head.as_slice());
        string_push(&mut s, '\u{2026}');
        assert(ascii_chars(full@.subrange(0, max as int)) == ascii_chars(full@).take(max as int));
        assert(Seq::<char>::empty() + ascii_chars(head@) == ascii_chars(head@));
    }
    s
}

} // verus!
