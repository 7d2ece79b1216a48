use vstd::prelude::*;
use crate::text::push_char;

verus! {

/// A colour stored as `0x00RRGGBB`.
#[derive(Clone, Copy, Debug, PartialEq, Eq, Structural)]
pub struct CustomColor(pub u32);

// ---------------------------------------------------------------------------
// The textual form of a colour
// ---------------------------------------------------------------------------

/// Removes every leading `"0x"` (as `str::trim_start_matches("0x")` does).
pub open spec fn strip_0x(s: Seq<char>) -> Seq<char>
    decreases s.len(),
{
    if s.len() >= 2 && s[0] == '0' && s[1] == 'x' {
        strip_0x(s.subrange(2, s.len() as int))
    } else {
        s
    }
}

/// Removes every leading `'#'`.
pub open spec fn strip_hash(s: Seq<char>) -> Seq<char>
    decreases s.len(),
{
    if s.len() >= 1 && s[0] == '#' {
        strip_hash(s.drop_first())
    } else {
        s
    }
}

/// Whether a character is a hexadecimal digit (either case).
pub open spec fn is_hex_digit(c: char) -> bool {
    ('0' <= c && c <= '9') || ('a' <= c && c <= 'f') || ('A' <= c && c <= 'F')
}

/// The value of a hexadecimal digit.
pub open spec fn hex_digit_value(c: char) -> nat {
    if '0' <= c && c <= '9' {
        (c as u32 - '0' as u32) as nat
    } else if 'a' <= c && c <= 'f' {
        (c as u32 - 'a' as u32 + 10) as nat
    } else {
        (c as u32 - 'A' as u32 + 10) as nat
    }
}

/// Whether every character is a hexadecimal digit.
pub open spec fn all_hex(d: Seq<char>) -> bool {
    forall|i: int| 0 <= i < d.len() ==> is_hex_digit(#[trigger] d[i])
}

/// The number that a sequence of hexadecimal digits denotes.
pub open spec fn hex_value(d: Seq<char>) -> nat
    decreases d.len(),
{
    if d.len() == 0 {
        0
    } else {
        hex_value(d.drop_last()) * 16 + hex_digit_value(d.last())
    }
}

/// What `u32::from_str_radix(s, 16)` accepts: an optional `+`, then at least
/// one hexadecimal digit, with a value that fits in 32 bits.
pub open spec fn spec_parse_hex_u32(s: Seq<char>) -> Option<u32> {
    if s.len() == 0 {
        None
    } else {
        let digits = if s[0] == '+' { s.drop_first() } else { s };
        if digits.len() > 0 && all_hex(digits) && hex_value(digits) <= u32::MAX {
            Some(hex_value(digits) as u32)
        } else {
            None
        }
    }
}

/// The colour a text denotes: leading `0x` and `#` are skipped, the rest is
/// read as a hexadecimal number.
pub open spec fn spec_parse_color(s: Seq<char>) -> Option<u32> {
    spec_parse_hex_u32(strip_hash(strip_0x(s)))
}

/// The upper-case hexadecimal digit for a value below 16.
pub open spec fn upper_digit(v: nat) -> char {
    if v < 10 {
        ((v + '0' as u32) as u32) as char
    } else {
        ((v - 10 + 'A' as u32) as u32) as char
    }
}

/// The shortest upper-case hexadecimal form of a number (`"0"` for zero).
pub open spec fn hex_digits(v: nat) -> Seq<char>
    decreases v,
{
    if v < 16 {
        seq![upper_digit(v)]
    } else {
        hex_digits(v / 16).push(upper_digit(v % 16))
    }
}

/// Left-pads with `'0'` to at least six characters.
pub open spec fn pad6(d: Seq<char>) -> Seq<char> {
    if d.len() >= 6 {
        d
    } else {
        Seq::new((6 - d.len()) as nat, |i: int| '0') + d
    }
}

/// The text that a colour is written as: `#` and at least six upper-case
/// hexadecimal digits.
pub open spec fn spec_format_color(v: u32) -> Seq<char> {
    seq!['#'] + pad6(hex_digits(v as nat))
}

fn hex_digit(c: char) -> (r: Option<u32>)
    ensures
        is_hex_digit(c) ==> r == Some(hex_digit_value(c) as u32),
        !is_hex_digit(c) ==> r is None,
{
    if '0' <= c && c <= '9' {
        Some(c as u32 - '0' as u32)
    } else if 'a' <= c && c <= 'f' {
        Some(c as u32 - 'a' as u32 + 10)
    } else if 'A' <= c && c <= 'F' {
        Some(c as u32 - 'A' as u32 + 10)
    } else {
        None
    }
}

/// A prefix of a digit string never denotes more than the whole string.
proof fn lemma_hex_value_prefix(d: Seq<char>, k: int)
    requires
        0 <= k <= d.len(),
    ensures
        hex_value(d.subrange(0, k)) <= hex_value(d),
    decreases d.len(),
{
    if k == d.len() {
        assert(d.subrange(0, k) =~= d);
    } else {
        lemma_hex_value_prefix(d.drop_last(), k);
        assert(d.drop_last().subrange(0, k) =~= d.subrange(0, k));
    }
}

/// Reads the colour from its textual form (`#RRGGBB`, `0xRRGGBB` or
/// `RRGGBB`, in either case); `None` where the text is no colour.
pub fn parse_color(s: &str) -> (r: Option<u32>)
    ensures
        r == spec_parse_color(s@),
{
    let n = s.unicode_len();
    let mut i: usize = 0;
    assert(s@.subrange(0, n as int) =~= s@);
    while n - i >= 2 && s.get_char(i) == '0' && s.get_char(i + 1) == 'x'
        invariant
            n == s@.len(),
            i <= n,
            strip_0x(s@) == strip_0x(s@.subrange(i as int, n as int)),
        decreases n - i,
    {
        assert(s@.subrange(i as int, n as int).subrange(2, n - i) =~= s@.subrange(i + 2, n as int));
        i = i + 2;
    }
    let ghost no_prefix = s@.subrange(i as int, n as int);
    assert(strip_0x(s@) == no_prefix);
    while i < n && s.get_char(i) == '#'
        invariant
            n == s@.len(),
            i <= n,
            strip_hash(no_prefix) == strip_hash(s@.subrange(i as int, n as int)),
        decreases n - i,
    {
        assert(s@.subrange(i as int, n as int).drop_first() =~= s@.subrange(i + 1, n as int));
        i = i + 1;
    }
    let ghost rest = s@.subrange(i as int, n as int);
    assert(strip_hash(no_prefix) == rest);
    if i == n {
        return None;
    }
    let mut j: usize = i;
    if s.get_char(i) == '+' {
        j = i + 1;
    }
    let ghost digits = s@.subrange(j as int, n as int);
    assert(digits =~= (if rest[0] == '+' { rest.drop_first() } else { rest }));
    if j == n {
        return None;
    }
    assert(spec_parse_color(s@) == (if digits.len() > 0 && all_hex(digits) && hex_value(digits) <= u32::MAX {
        Some(hex_value(digits) as u32)
    } else {
        None
    }));
    let mut acc: u64 = 0;
    let mut k: usize = j;
    while k < n
        invariant
            n == s@.len(),
            j < n,
            j <= k <= n,
            digits == s@.subrange(j as int, n as int),
            spec_parse_color(s@) == (if digits.len() > 0 && all_hex(digits) && hex_value(digits) <= u32::MAX {
                Some(hex_value(digits) as u32)
            } else {
                None
            }),
            all_hex(s@.subrange(j as int, k as int)),
            acc == hex_value(s@.subrange(j as int, k as int)),
            acc <= u32::MAX,
        decreases n - k,
    {
        let c = s.get_char(k);
        let ghost before = s@.subrange(j as int, k as int);
        let ghost after = s@.subrange(j as int, k + 1);
        assert(after.drop_last() =~= before);
        assert(after.last() == c);
        match hex_digit(c) {
            None => {
                assert(digits[k - j] == c);
                assert(!all_hex(digits));
                return None;
            },
            Some(v) => {
                acc = acc * 16 + v as u64;
                assert(acc == hex_value(after));
                if acc > u32::MAX as u64 {
                    proof {
                        lemma_hex_value_prefix(digits, k + 1 - j);
                        assert(digits.subrange(0, k + 1 - j) =~= after);
                    }
                    return None;
                }
                assert forall|t: int| 0 <= t < after.len() implies is_hex_digit(#[trigger] after[t]) by {
                    if t < before.len() {
                        assert(after[t] == before[t]);
                    }
                }
                k = k + 1;
            },
        }
    }
    assert(s@.subrange(j as int, k as int) =~= digits);
    Some(acc as u32)
}

fn upper_digit_char(v: u32) -> (c: char)
    requires
        v < 16,
    ensures
        c == upper_digit(v as nat),
        is_hex_digit(c),
        hex_digit_value(c) == v,
{
    if v < 10 {
        ((v as u8) + 48u8) as char
    } else {
        ((v as u8) - 10 + 65u8) as char
    }
}

/// The number of digits in the shortest hexadecimal form of `v`.
fn hex_len(v: u32) -> (n: usize)
    ensures
        n == hex_digits(v as nat).len(),
        n <= 8,
    decreases v,
{
    if v < 16 {
        1
    } else {
        let m = hex_len(v / 16);
        proof {
            reveal_with_fuel(pow16, 9);
            lemma_hex_digits_len_bound(v as nat, 8);
        }
        m + 1
    }
}

/// `16` to the power `k`.
pub open spec fn pow16(k: nat) -> nat
    decreases k,
{
    if k == 0 {
        1
    } else {
        16 * pow16((k - 1) as nat)
    }
}

/// A number below `16^k` has at most `k` hexadecimal digits.
proof fn lemma_hex_digits_len_bound(v: nat, k: nat)
    requires
        k >= 1,
        v < pow16(k),
    ensures
        hex_digits(v).len() <= k,
    decreases v,
{
    if v >= 16 {
        if k == 1 {
            assert(pow16(1) == 16 * pow16(0));
        } else {
            let p = pow16((k - 1) as nat);
            assert(v / 16 < p) by (nonlinear_arith)
                requires
                    v < 16 * p,
            ;
            lemma_hex_digits_len_bound(v / 16, (k - 1) as nat);
        }
    }
}

/// Appends the shortest upper-case hexadecimal form of `v`.
fn push_hex_digits(s: &mut String, v: u32)
    ensures
        final(s)@ == old(s)@ + hex_digits(v as nat),
    decreases v,
{
    if v < 16 {
        let c = upper_digit_char(v);
        push_char(s, c);
        assert(hex_digits(v as nat) =~= seq![c]);
    } else {
        push_hex_digits(s, v / 16);
        let c = upper_digit_char(v % 16);
        push_char(s, c);
        assert(final(s)@ =~= old(s)@ + hex_digits(v as nat));
    }
}

/// Writes a colour as `#` followed by at least six upper-case hexadecimal
/// digits (`#FF00AA`).
pub fn format_color(v: u32) -> (s: String)
    ensures
        s@ == spec_format_color(v),
{
    let mut s = String::new();
    push_char(&mut s, '#');
    let n = hex_len(v);
    let mut k: usize = n;
    while k < 6
        invariant
            n <= k <= 6 || (n > 6 && k == n),
            n == hex_digits(v as nat).len(),
            s@ == seq!['#'] + Seq::new((k - n) as nat, |i: int| '0'),
        decreases 6 - k,
    {
        push_char(&mut s, '0');
        assert(s@ =~= seq!['#'] + Seq::new((k + 1 - n) as nat, |i: int| '0'));
        k = k + 1;
    }
    push_hex_digits(&mut s, v);
    proof {
        if n >= 6 {
            assert(Seq::new((k - n) as nat, |i: int| '0') =~= Seq::<char>::empty());
        }
    }
    assert(s@ =~= spec_format_color(v));
    s
}

proof fn lemma_upper_digit(v: nat)
    requires
        v < 16,
    ensures
        is_hex_digit(upper_digit(v)),
        hex_digit_value(upper_digit(v)) == v,
        upper_digit(v) != '#',
        upper_digit(v) != '+',
{
}

/// The shortest form of a number consists of digits and denotes the number.
proof fn lemma_hex_digits(v: nat)
    ensures
        hex_digits(v).len() > 0,
        all_hex(hex_digits(v)),
        hex_value(hex_digits(v)) == v,
        hex_digits(v)[0] != '#',
        hex_digits(v)[0] != '+',
    decreases v,
{
    lemma_upper_digit(v % 16);
    if v < 16 {
        let d = seq![upper_digit(v)];
        assert(d.drop_last() =~= Seq::<char>::empty());
        assert(hex_value(d.drop_last()) == 0);
        assert(hex_value(d) == hex_digit_value(upper_digit(v)));
    } else {
        lemma_hex_digits(v / 16);
        let d = hex_digits(v);
        assert(d.drop_last() =~= hex_digits(v / 16));
        assert(d.last() == upper_digit(v % 16));
        assert(hex_value(d) == hex_value(hex_digits(v / 16)) * 16 + hex_digit_value(upper_digit(v % 16)));
        assert((v / 16) * 16 + v % 16 == v);
        assert forall|i: int| 0 <= i < d.len() implies is_hex_digit(#[trigger] d[i]) by {
            if i < d.len() - 1 {
                assert(d[i] == hex_digits(v / 16)[i]);
            }
        }
    }
}

/// Leading zeros do not change the value of a digit string.
proof fn lemma_leading_zeros(k: nat, d: Seq<char>)
    ensures
        hex_value(Seq::new(k, |i: int| '0') + d) == hex_value(d),
    decreases d.len(), k,
{
    let z = Seq::new(k, |i: int| '0');
    if d.len() == 0 {
        assert(z + d =~= z);
        if k > 0 {
            assert(z.drop_last() =~= Seq::new((k - 1) as nat, |i: int| '0'));
            lemma_leading_zeros((k - 1) as nat, d);
            assert(Seq::new((k - 1) as nat, |i: int| '0') + d =~= Seq::new((k - 1) as nat, |i: int| '0'));
        }
    } else {
        assert((z + d).drop_last() =~= z + d.drop_last());
        lemma_leading_zeros(k, d.drop_last());
    }
}

/// Reading back the text that a colour is written as gives the colour.
pub proof fn lemma_color_text_round_trip(v: u32)
    ensures
        spec_parse_color(spec_format_color(v)) == Some(v),
{
    let d = hex_digits(v as nat);
    lemma_hex_digits(v as nat);
    let p = pad6(d);
    let s = spec_format_color(v);
    assert(strip_0x(s) == s);
    assert(s.drop_first() =~= p);
    if d.len() >= 6 {
        assert(p == d);
    } else {
        let z = Seq::new((6 - d.len()) as nat, |i: int| '0');
        assert(p == z + d);
        assert(p[0] == '0');
        lemma_leading_zeros((6 - d.len()) as nat, d);
        assert forall|i: int| 0 <= i < p.len() implies is_hex_digit(#[trigger] p[i]) by {
            if i >= z.len() {
                assert(p[i] == d[i - z.len()]);
            }
        }
    }
    assert(strip_hash(p) == p);
    assert(strip_hash(s) == strip_hash(p));
}

// ---------------------------------------------------------------------------
// Channels
// ---------------------------------------------------------------------------

/// The red channel: bits 16 to 23.
pub open spec fn spec_red(v: u32) -> u8 {
    ((v >> 16u32) & 0xffu32) as u8
}

/// The green channel: bits 8 to 15.
pub open spec fn spec_green(v: u32) -> u8 {
    ((v >> 8u32) & 0xffu32) as u8
}

/// The blue channel: bits 0 to 7.
pub open spec fn spec_blue(v: u32) -> u8 {
    (v & 0xffu32) as u8
}

/// The packed value `(r << 16) | (g << 8) | b`, shifted within 32 bits.
pub open spec fn spec_pack(r: u32, g: u32, b: u32) -> u32 {
    (r << 16u32) | (g << 8u32) | b
}

impl CustomColor {
    /// The red, green and blue channels, each taken from its byte of the
    /// packed value (the top byte is ignored).
    pub fn channels(&self) -> (rgb: (u8, u8, u8))
        ensures
            rgb == (spec_red(self.0), spec_green(self.0), spec_blue(self.0)),
    {
        let hex = self.0;
        let r = ((hex >> 16) & 0xFF) as u8;
        let g = ((hex >> 8) & 0xFF) as u8;
        let b = (hex & 0xFF) as u8;
        (r, g, b)
    }

    /// Packs channel values as `(r << 16) | (g << 8) | b`. Values above 255
    /// are not masked: their high bits overlap the neighbouring channel or
    /// are shifted out, as the plain bit operations do.
    pub fn from_channels(r: u32, g: u32, b: u32) -> (c: CustomColor)
        ensures
            c.0 == spec_pack(r, g, b),
    {
        CustomColor((r << 16) | (g << 8) | b)
    }

    /// Reads a colour from text (`#RRGGBB`, `0xRRGGBB` or `RRGGBB`, any case;
    /// repeated `0x` and `#` prefixes are skipped, an optional `+` may
    /// follow them); `None` where the rest is not a hexadecimal number that
    /// fits in 32 bits.
    pub fn parse(s: &str) -> (r: Option<CustomColor>)
        ensures
            r == (match spec_parse_color(s@) {
                Some(v) => Some(CustomColor(v)),
                None => None::<CustomColor>,
            }),
    {
        match parse_color(s) {
            Some(v) => Some(CustomColor(v)),
            None => None,
        }
    }

    /// The text a colour is stored as: `#` and at least six upper-case
    /// hexadecimal digits.
    pub fn to_hex_string(&self) -> (s: String)
        ensures
            s@ == spec_format_color(self.0),
    {
        format_color(self.0)
    }
}

/// Packing three bytes and reading the channels back gives the bytes.
pub proof fn lemma_channels_of_pack(r: u32, g: u32, b: u32)
    requires
        r < 256,
        g < 256,
        b < 256,
    ensures
        spec_red(spec_pack(r, g, b)) == r,
        spec_green(spec_pack(r, g, b)) == g,
        spec_blue(spec_pack(r, g, b)) == b,
{
    assert(((((r << 16u32) | (g << 8u32) | b) >> 16u32) & 0xffu32) == r) by (bit_vector)
        requires
            r < 256u32,
            g < 256u32,
            b < 256u32,
    ;
    assert(((((r << 16u32) | (g << 8u32) | b) >> 8u32) & 0xffu32) == g) by (bit_vector)
        requires
            r < 256u32,
            g < 256u32,
            b < 256u32,
    ;
    assert((((r << 16u32) | (g << 8u32) | b) & 0xffu32) == b) by (bit_vector)
        requires
            r < 256u32,
            g < 256u32,
            b < 256u32,
    ;
}

/// A colour within `0xFFFFFF` is packed back from its own channels.
pub proof fn lemma_pack_of_channels(v: u32)
    requires
        v <= 0xffffff,
    ensures
        spec_pack(spec_red(v) as u32, spec_green(v) as u32, spec_blue(v) as u32) == v,
{
    let r = (v >> 16u32) & 0xffu32;
    let g = (v >> 8u32) & 0xffu32;
    let b = v & 0xffu32;
    assert(r < 256 && g < 256 && b < 256) by (bit_vector)
        requires
            r == (v >> 16u32) & 0xffu32,
            g == (v >> 8u32) & 0xffu32,
            b == v & 0xffu32,
    ;
    assert((r << 16u32) | (g << 8u32) | b == v) by (bit_vector)
        requires
            v <= 0xffffffu32,
            r == (v >> 16u32) & 0xffu32,
            g == (v >> 8u32) & 0xffu32,
            b == v & 0xffu32,
    ;
}

proof fn lemma_pow16_positive(k: nat)
    ensures
        pow16(k) > 0,
    decreases k,
{
    if k > 0 {
        lemma_pow16_positive((k - 1) as nat);
    }
}

proof fn lemma_pow16_monotonic(i: nat, j: nat)
    requires
        i <= j,
    ensures
        pow16(i) <= pow16(j),
    decreases j,
{
    if i < j {
        lemma_pow16_monotonic(i, (j - 1) as nat);
        lemma_pow16_positive((j - 1) as nat);
    }
}

/// The shortest form of `v` has `n` digits with `16^(n-1) <= v < 16^n`
/// (for `v >= 16`), and its digit at position `j` is the digit of weight
/// `16^(n-1-j)`.
proof fn lemma_hex_digits_positional(v: nat)
    ensures
        v < pow16(hex_digits(v).len()),
        hex_digits(v).len() == 1 || pow16((hex_digits(v).len() - 1) as nat) <= v,
        hex_digits(v).len() >= 1,
        forall|j: int|
            0 <= j < hex_digits(v).len() ==> #[trigger] hex_digits(v)[j] == upper_digit(
                (v / pow16((hex_digits(v).len() - 1 - j) as nat)) % 16,
            ),
    decreases v,
{
    let d = hex_digits(v);
    if v < 16 {
        assert(pow16(1) == 16 * pow16(0));
        assert(d.len() == 1);
        assert(v / pow16(0) == v);
    } else {
        let q = v / 16;
        lemma_hex_digits_positional(q);
        let dq = hex_digits(q);
        let n = d.len();
        assert(d == dq.push(upper_digit(v % 16)));
        assert(n == dq.len() + 1);
        lemma_pow16_positive(dq.len());
        assert(pow16(n as nat) == 16 * pow16(dq.len()));
        assert(v < pow16(n as nat)) by (nonlinear_arith)
            requires
                q < pow16(dq.len()),
                q == v / 16,
                pow16(n as nat) == 16 * pow16(dq.len()),
        ;
        if dq.len() == 1 {
            assert(pow16(1) == 16 * pow16(0));
        } else {
            assert(pow16((n - 1) as nat) == 16 * pow16((dq.len() - 1) as nat));
            assert(pow16((n - 1) as nat) <= v) by (nonlinear_arith)
                requires
                    pow16((dq.len() - 1) as nat) <= q,
                    q == v / 16,
                    pow16((n - 1) as nat) == 16 * pow16((dq.len() - 1) as nat),
            ;
        }
        assert forall|j: int| 0 <= j < n implies #[trigger] d[j] == upper_digit(
            (v / pow16((n - 1 - j) as nat)) % 16,
        ) by {
            if j == n - 1 {
                assert(v / pow16(0) == v);
            } else {
                let e = (dq.len() - 1 - j) as nat;
                assert(d[j] == dq[j]);
                lemma_pow16_positive(e);
                assert(pow16((n - 1 - j) as nat) == 16 * pow16(e));
                vstd::arithmetic::div_mod::lemma_div_denominator(v as int, 16, pow16(e) as int);
            }
        }
    }
}

/// The text of a colour is `#` followed by its digits, most significant
/// first, zero-padded to at least six: the text has at least seven
/// characters, the value is below `16^k` for the `k` digits written, a
/// leading digit beyond the sixth is never zero, and the digit at each
/// position is the upper-case hexadecimal digit of that position's weight.
pub proof fn lemma_color_text_digits(v: u32)
    ensures
        spec_format_color(v)[0] == '#',
        spec_format_color(v).len() >= 7,
        v < pow16((spec_format_color(v).len() - 1) as nat),
        spec_format_color(v).len() == 7 || pow16((spec_format_color(v).len() - 2) as nat) <= v,
        forall|j: int|
            1 <= j < spec_format_color(v).len() ==> {
                let c = #[trigger] spec_format_color(v)[j];
                let digit = ((v as nat) / pow16((spec_format_color(v).len() - 1 - j) as nat)) % 16;
                ||| digit < 10 && '0' <= c && c <= '9' && c as u32 - '0' as u32 == digit
                ||| digit >= 10 && 'A' <= c && c <= 'F' && c as u32 - 'A' as u32 + 10 == digit
            },
{
    let d = hex_digits(v as nat);
    let n = d.len();
    let t = spec_format_color(v);
    lemma_hex_digits_positional(v as nat);
    assert(pow16(8) == 0x100000000) by {
        reveal_with_fuel(pow16, 9);
    }
    lemma_hex_digits_len_bound(v as nat, 8);
    assert forall|x: nat| x < 16 implies {
        let c = #[trigger] upper_digit(x);
        ||| x < 10 && '0' <= c && c <= '9' && c as u32 - '0' as u32 == x
        ||| x >= 10 && 'A' <= c && c <= 'F' && c as u32 - 'A' as u32 + 10 == x
    } by {}
    if n >= 6 {
        assert(t == seq!['#'] + d);
        assert forall|j: int| 1 <= j < t.len() implies #[trigger] t[j] == upper_digit(
            ((v as nat) / pow16((t.len() - 1 - j) as nat)) % 16,
        ) by {
            assert(t[j] == d[j - 1]);
        }
    } else {
        let z = Seq::new((6 - n) as nat, |i: int| '0');
        assert(t == seq!['#'] + (z + d));
        assert(t.len() == 7);
        lemma_pow16_monotonic(n as nat, 6);
        assert forall|j: int| 1 <= j < t.len() implies #[trigger] t[j] == upper_digit(
            ((v as nat) / pow16((t.len() - 1 - j) as nat)) % 16,
        ) by {
            if j - 1 < 6 - n {
                assert(t[j] == '0');
                let e = (t.len() - 1 - j) as nat;
                lemma_pow16_monotonic(n as nat, e);
                vstd::arithmetic::div_mod::lemma_basic_div(v as int, pow16(e) as int);
                assert(upper_digit(0) == '0');
            } else {
                assert(t[j] == d[j - 1 - (6 - n)]);
            }
        }
    }
}

} // verus!
