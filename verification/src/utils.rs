//! Text helpers: decimal and hexadecimal renderings, Latin-1 decoding and
//! the MD5 hex digest used by the login message.
use vstd::prelude::*;

verus! {

// ---------------------------------------------------------------------------
// Building strings
// ---------------------------------------------------------------------------

/// Calls `String::push`, which appends one character.
#[verifier::external_body]
pub(crate) fn push_char(s: &mut String, c: char)
    ensures
        final(s)@ == old(s)@.push(c),
{
    s.push(c);
}

/// What `str::to_lowercase` gives (the Unicode lower case of each
/// character).
pub uninterp spec fn lowercase(s: Seq<char>) -> Seq<char>;

/// Calls `str::to_lowercase`; what it gives is named by `lowercase`.
#[verifier::external_body]
pub(crate) fn to_lowercase(s: &str) -> (r: String)
    ensures
        r@ == lowercase(s@),
{
    s.to_lowercase()
}

/// Appends the characters of `t` to `s`.
pub(crate) fn push_str(s: &mut String, t: &str)
    ensures
        final(s)@ == old(s)@ + t@,
{
    s.append(t);
}

/// Calls `chrono::Local::now` and writes the time it gives as
/// `YYYY-MM-DD HH:MM:SS` in the machine's time zone. The text depends on
/// the clock and the time zone, so nothing is stated of it.
#[verifier::external_body]
pub(crate) fn now_as_string() -> (r: String) {
    format!("{}", chrono::Local::now().format("%Y-%m-%d %H:%M:%S"))
}

// ---------------------------------------------------------------------------
// Decimal numbers
// ---------------------------------------------------------------------------

/// The character of the decimal digit `d` (`d < 10`).
pub open spec fn digit_char(d: nat) -> char {
    ((48 + d) as u8) as char
}

/// The decimal rendering of `n`, without leading zeros.
pub open spec fn decimal(n: nat) -> Seq<char>
    decreases n,
{
    if n < 10 {
        seq![digit_char(n)]
    } else {
        decimal(n / 10).push(digit_char(n % 10))
    }
}

fn digit(d: u64) -> (c: char)
    requires
        d < 10,
    ensures
        c == digit_char(d as nat),
{
    ((48 + d) as u8) as char
}

/// Appends the decimal rendering of `n`.
pub fn push_decimal(s: &mut String, n: u64)
    ensures
        final(s)@ == old(s)@ + decimal(n as nat),
    decreases n,
{
    if n >= 10 {
        push_decimal(s, n / 10);
    }
    push_char(s, digit(n % 10));
    assert(old(s)@ + decimal(n as nat) =~= s@) by {
        if n >= 10 {
            assert(decimal(n as nat) == decimal((n / 10) as nat).push(digit_char((n % 10) as nat)));
        }
    }
}

/// The decimal rendering of `n` as a new string.
pub fn decimal_string(n: u64) -> (r: String)
    ensures
        r@ == decimal(n as nat),
{
    let mut r = String::new();
    push_decimal(&mut r, n);
    assert(Seq::<char>::empty() + decimal(n as nat) =~= decimal(n as nat));
    r
}

// ---------------------------------------------------------------------------
// Hexadecimal bytes
// ---------------------------------------------------------------------------

/// The hexadecimal digit of `d` (`d < 16`), in upper or lower case.
pub open spec fn hex_char(d: nat, upper: bool) -> char {
    if d < 10 {
        digit_char(d)
    } else if upper {
        ((55 + d) as u8) as char
    } else {
        ((87 + d) as u8) as char
    }
}

fn hex_digit(d: u8, upper: bool) -> (c: char)
    requires
        d < 16,
    ensures
        c == hex_char(d as nat, upper),
{
    if d < 10 {
        ((48 + d) as u8) as char
    } else if upper {
        ((55 + d) as u8) as char
    } else {
        ((87 + d) as u8) as char
    }
}

/// Every byte as two lower-case hexadecimal digits.
pub open spec fn hex_lower(bytes: Seq<u8>) -> Seq<char>
    decreases bytes.len(),
{
    if bytes.len() == 0 {
        Seq::empty()
    } else {
        hex_lower(bytes.drop_last()) + seq![
            hex_char((bytes.last() / 16) as nat, false),
            hex_char((bytes.last() % 16) as nat, false),
        ]
    }
}

/// Every byte as two upper-case hexadecimal digits followed by a space.
pub open spec fn hex_upper_spaced(bytes: Seq<u8>) -> Seq<char>
    decreases bytes.len(),
{
    if bytes.len() == 0 {
        Seq::empty()
    } else {
        hex_upper_spaced(bytes.drop_last()) + seq![
            hex_char((bytes.last() / 16) as nat, true),
            hex_char((bytes.last() % 16) as nat, true),
            ' ',
        ]
    }
}

/// Renders bytes as `"0A FF "`: two upper-case digits and a space each.
pub fn bytes_to_hex(bytes: &Vec<u8>) -> (r: String)
    ensures
        r@ == hex_upper_spaced(bytes@),
{
    let mut r = String::new();
    let n = bytes.len();
    let mut i: usize = 0;
    while i < n
        invariant
            n == bytes@.len(),
            i <= n,
            r@ == hex_upper_spaced(bytes@.take(i as int)),
        decreases n - i,
    {
        let b = bytes[i];
        push_char(&mut r, hex_digit(b / 16, true));
        push_char(&mut r, hex_digit(b % 16, true));
        push_char(&mut r, ' ');
        i = i + 1;
        assert(bytes@.take(i as int).drop_last() =~= bytes@.take(i - 1));
        assert(r@ =~= hex_upper_spaced(bytes@.take(i as int)));
    }
    assert(bytes@.take(n as int) =~= bytes@);
    r
}

/// Renders bytes as lower-case hexadecimal, two digits each.
pub fn hex_lower_string(bytes: &[u8]) -> (r: String)
    ensures
        r@ == hex_lower(bytes@),
{
    let mut r = String::new();
    let n = bytes.len();
    let mut i: usize = 0;
    while i < n
        invariant
            n == bytes@.len(),
            i <= n,
            r@ == hex_lower(bytes@.take(i as int)),
        decreases n - i,
    {
        let b = bytes[i];
        push_char(&mut r, hex_digit(b / 16, false));
        push_char(&mut r, hex_digit(b % 16, false));
        i = i + 1;
        assert(bytes@.take(i as int).drop_last() =~= bytes@.take(i - 1));
        assert(r@ =~= hex_lower(bytes@.take(i as int)));
    }
    assert(bytes@.take(n as int) =~= bytes@);
    r
}

// ---------------------------------------------------------------------------
// Latin-1
// ---------------------------------------------------------------------------

/// Each byte read as the character with that code point.
pub open spec fn latin1(bytes: Seq<u8>) -> Seq<char> {
    bytes.map_values(|b: u8| b as char)
}

/// Decodes Latin-1 text: each byte becomes the character with that code.
pub fn latin1_to_string(s: &[u8]) -> (r: String)
    ensures
        r@ == latin1(s@),
{
    let mut r = String::new();
    let n = s.len();
    let mut i: usize = 0;
    while i < n
        invariant
            n == s@.len(),
            i <= n,
            r@ == latin1(s@.take(i as int)),
        decreases n - i,
    {
        let c = s[i];
        push_char(&mut r, c as char);
        i = i + 1;
        assert(r@ =~= latin1(s@.take(i as int)));
    }
    assert(s@.take(n as int) =~= s@);
    r
}

// ---------------------------------------------------------------------------
// MD5
// ---------------------------------------------------------------------------

/// The MD5 digest of `data` (RFC 1321), as computed by the `md-5` crate.
pub uninterp spec fn md5(data: Seq<u8>) -> Seq<u8>;

/// Calls `<md5::Md5 as Digest>::digest`. Its output type has 16 bytes.
#[verifier::external_body]
fn md5_bytes(data: &[u8]) -> (r: Vec<u8>)
    ensures
        r@ == md5(data@),
        r@.len() == 16,
{
    <md5::Md5 as md5::Digest>::digest(data).to_vec()
}

/// The MD5 digest of `data` as 32 lower-case hexadecimal digits.
pub fn md5_digest(data: &[u8]) -> (r: String)
    ensures
        r@ == hex_lower(md5(data@)),
        r@.len() == 32,
{
    let digest = md5_bytes(data);
    let r = hex_lower_string(digest.as_slice());
    proof {
        lemma_hex_lower_len(digest@);
    }
    r
}

proof fn lemma_hex_lower_len(bytes: Seq<u8>)
    ensures
        hex_lower(bytes).len() == 2 * bytes.len(),
    decreases bytes.len(),
{
    if bytes.len() > 0 {
        lemma_hex_lower_len(bytes.drop_last());
    }
}

// ---------------------------------------------------------------------------
// Grouped decimal numbers
// ---------------------------------------------------------------------------

/// Three decimal digits of `n` (`n < 1000`), with leading zeros.
pub open spec fn three_digits(n: nat) -> Seq<char> {
    seq![digit_char(n / 100), digit_char(n / 10 % 10), digit_char(n % 10)]
}

/// The decimal rendering of `n` with a comma between groups of three
/// digits, counted from the right, as in `1,234,567`.
pub open spec fn grouped_decimal(n: nat) -> Seq<char>
    decreases n,
{
    if n < 1000 {
        decimal(n)
    } else {
        grouped_decimal(n / 1000) + seq![','] + three_digits(n % 1000)
    }
}

/// Calls `num_format::Buffer::write_formatted` with `Locale::en`, whose
/// separator is a comma and whose grouping is by three digits; the crate
/// documents the result as the decimal digits so grouped.
#[verifier::external_body]
fn format_grouped(n: u64) -> (r: String)
    ensures
        r@ == grouped_decimal(n as nat),
{
    let mut buf = num_format::Buffer::default();
    buf.write_formatted(&n, &num_format::Locale::en);
    buf.as_str().to_owned()
}

/// A count with its thousands separated by commas, such as `12,345`.
pub fn num_as_str(num: u64) -> (r: String)
    ensures
        r@ == grouped_decimal(num as nat),
{
    format_grouped(num)
}

// ---------------------------------------------------------------------------
// Byte sizes
// ---------------------------------------------------------------------------

/// What `byte_unit` prints for `n` bytes in the nearest decimal unit, with
/// two decimals (such as `"123.45 MB"`).
pub uninterp spec fn byte_unit_text(n: u64) -> Seq<char>;

/// Calls `byte_unit::Byte::from_u64(n).get_appropriate_unit(Decimal)` and
/// prints the result with two decimals. Nothing is stated of the text but
/// that it is a function of `n`.
#[verifier::external_body]
fn byte_unit_format(n: u64) -> (r: String)
    ensures
        r@ == byte_unit_text(n),
{
    format!("{:.2}", byte_unit::Byte::from_u64(n).get_appropriate_unit(byte_unit::UnitType::Decimal))
}

/// A byte count in the nearest decimal unit, such as `123.45 MB`.
pub fn num_as_bytes(num: u64) -> (r: String)
    ensures
        r@ == byte_unit_text(num),
{
    byte_unit_format(num)
}

} // verus!
