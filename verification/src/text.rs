//! Text building blocks: decimal and hexadecimal rendering of integers,
//! zero padding, lexicographic order of strings and integer parsing,
//! each with the meaning that Rust's formatting and parsing give them.
use vstd::prelude::*;
use vstd::string::*;

verus! {

/// Appends `c` to `s` (`String::push`).
#[verifier::external_body]
pub(crate) fn push_char(s: &mut String, c: char)
    ensures
        final(s)@ == old(s)@.push(c),
{
    s.push(c);
}

/// The characters of `s`, in order.
pub fn chars_of(s: &str) -> (res: Vec<char>)
    ensures
        res@ == s@,
{
    let mut v: Vec<char> = Vec::new();
    for c in it: s.chars()
        invariant
            v@ == it.seq().take(it.index() as int),
            it.seq() == s@,
    {
        v.push(c);
    }
    v
}

/// Appends every character of `src` to `dst`.
pub(crate) fn append_str(dst: &mut String, src: &str)
    ensures
        final(dst)@ == old(dst)@ + src@,
{
    dst.append(src);
}

/// Whether `a` and `b` hold the same characters.
pub fn str_eq(a: &str, b: &str) -> (res: bool)
    ensures
        res == (a@ == b@),
{
    let ca = chars_of(a);
    let cb = chars_of(b);
    if ca.len() != cb.len() {
        return false;
    }
    let mut i: usize = 0;
    while i < ca.len()
        invariant
            i <= ca@.len(),
            ca@.len() == cb@.len(),
            ca@ == a@,
            cb@ == b@,
            forall|j: int| 0 <= j < i ==> ca@[j] == cb@[j],
        decreases ca@.len() - i,
    {
        if ca[i] != cb[i] {
            return false;
        }
        i = i + 1;
    }
    proof {
        assert(a@ =~= b@);
    }
    true
}

/// The ASCII digit for `d` (below ten).
pub open spec fn digit_char(d: nat) -> char {
    (48 + d) as char
}

/// The upper-case hexadecimal digit for `d` (below sixteen).
pub open spec fn hex_digit_upper(d: nat) -> char {
    if d < 10 {
        (48 + d) as char
    } else {
        (55 + d) as char
    }
}

/// The lower-case hexadecimal digit for `d` (below sixteen).
pub open spec fn hex_digit_lower(d: nat) -> char {
    if d < 10 {
        (48 + d) as char
    } else {
        (87 + d) as char
    }
}

/// Decimal notation of `n`, as `format!("{}", n)` writes it.
pub open spec fn decimal(n: nat) -> Seq<char>
    decreases n,
{
    if n < 10 {
        seq![digit_char(n)]
    } else {
        decimal(n / 10).push(digit_char(n % 10))
    }
}

/// Decimal notation of a signed number: a minus sign before negative ones.
pub open spec fn signed_decimal(i: int) -> Seq<char> {
    if i < 0 {
        seq!['-'] + decimal((-i) as nat)
    } else {
        decimal(i as nat)
    }
}

/// `s` padded on the left with `'0'` to at least `width` characters
/// (`format!("{:0width$}", ..)`).
pub open spec fn zero_padded(s: Seq<char>, width: nat) -> Seq<char> {
    if s.len() < width {
        Seq::new((width - s.len()) as nat, |i: int| '0') + s
    } else {
        s
    }
}

/// The last `width` hexadecimal digits of `v`, upper case or not.
pub open spec fn hex_fixed(v: nat, width: nat, upper: bool) -> Seq<char>
    decreases width,
{
    if width == 0 {
        seq![]
    } else {
        hex_fixed(v / 16, (width - 1) as nat, upper).push(
            if upper {
                hex_digit_upper(v % 16)
            } else {
                hex_digit_lower(v % 16)
            },
        )
    }
}

/// Two hexadecimal digits for every byte (`{:02X}` / `{:02x}` on each byte).
pub open spec fn hex_bytes(bytes: Seq<u8>, upper: bool) -> Seq<char>
    decreases bytes.len(),
{
    if bytes.len() == 0 {
        seq![]
    } else {
        hex_bytes(bytes.drop_last(), upper) + hex_fixed(bytes.last() as nat, 2, upper)
    }
}

/// Ten to the power `k`.
pub open spec fn pow10(k: nat) -> nat
    decreases k,
{
    if k == 0 {
        1
    } else {
        10 * pow10((k - 1) as nat)
    }
}

pub proof fn lemma_decimal_len(n: nat, k: nat)
    requires
        1 <= k,
        n < pow10(k),
    ensures
        1 <= decimal(n).len() <= k,
    decreases n,
{
    if n >= 10 {
        assert(k >= 2) by {
            if k == 1 {
                assert(pow10(1) == 10) by {
                    reveal_with_fuel(pow10, 2);
                }
            }
        }
        assert(pow10(k) == 10 * pow10((k - 1) as nat));
        assert(n / 10 < pow10((k - 1) as nat));
        lemma_decimal_len(n / 10, (k - 1) as nat);
    }
}

pub proof fn lemma_decimal_digits(n: nat)
    ensures
        forall|i: int| 0 <= i < decimal(n).len() ==> '0' <= #[trigger] decimal(n)[i] <= '9',
    decreases n,
{
    let d = digit_char(n % 10);
    assert(d as u32 == 48 + n % 10);
    assert('0' <= d <= '9');
    if n >= 10 {
        lemma_decimal_digits(n / 10);
        assert(decimal(n) == decimal(n / 10).push(d));
    } else {
        assert(n % 10 == n);
    }
}

pub proof fn lemma_hex_fixed_len(v: nat, width: nat, upper: bool)
    ensures
        hex_fixed(v, width, upper).len() == width,
    decreases width,
{
    if width > 0 {
        lemma_hex_fixed_len(v / 16, (width - 1) as nat, upper);
    }
}

pub proof fn lemma_hex_bytes_len(bytes: Seq<u8>, upper: bool)
    ensures
        hex_bytes(bytes, upper).len() == 2 * bytes.len(),
    decreases bytes.len(),
{
    if bytes.len() > 0 {
        lemma_hex_bytes_len(bytes.drop_last(), upper);
        lemma_hex_fixed_len(bytes.last() as nat, 2, upper);
    }
}

fn append_decimal(s: &mut String, n: u64)
    ensures
        final(s)@ == old(s)@ + decimal(n as nat),
    decreases n,
{
    if n >= 10 {
        append_decimal(s, n / 10);
    }
    let d: u64 = n % 10;
    let c: char = ((d as u8) + 48u8) as char;
    push_char(s, c);
    proof {
        assert(old(s)@ + decimal(n as nat) =~= old(s)@ + (if n >= 10 {
            decimal((n / 10) as nat)
        } else {
            seq![]
        }) + seq![c]);
    }
}

/// `format!("{}", n)` for an unsigned number.
pub fn u64_to_decimal(n: u64) -> (res: String)
    ensures
        res@ == decimal(n as nat),
{
    let mut s = String::new();
    append_decimal(&mut s, n);
    proof {
        assert(s@ =~= decimal(n as nat));
    }
    s
}

/// `format!("{}", n)` for a signed number.
pub fn i64_to_decimal(n: i64) -> (res: String)
    ensures
        res@ == signed_decimal(n as int),
{
    let mut s = String::new();
    if n < 0 {
        push_char(&mut s, '-');
        let m: u64 = (0i128 - (n as i128)) as u64;
        append_decimal(&mut s, m);
        proof {
            assert(s@ =~= signed_decimal(n as int));
        }
    } else {
        append_decimal(&mut s, n as u64);
        proof {
            assert(s@ =~= signed_decimal(n as int));
        }
    }
    s
}

fn append_hex_fixed(s: &mut String, v: u64, width: u32, upper: bool)
    ensures
        final(s)@ == old(s)@ + hex_fixed(v as nat, width as nat, upper),
    decreases width,
{
    if width == 0 {
        proof {
            assert(old(s)@ + hex_fixed(v as nat, width as nat, upper) =~= old(s)@);
        }
        return;
    }
    append_hex_fixed(s, v / 16, width - 1, upper);
    let d: u8 = (v % 16) as u8;
    let c: char = if d < 10 {
        (d + 48u8) as char
    } else if upper {
        (d + 55u8) as char
    } else {
        (d + 87u8) as char
    };
    push_char(s, c);
    proof {
        assert(old(s)@ + hex_fixed(v as nat, width as nat, upper) =~= old(s)@ + hex_fixed(
            (v / 16) as nat,
            (width - 1) as nat,
            upper,
        ) + seq![c]);
    }
}

/// `format!("{:08X}", v)`: eight upper-case hexadecimal digits.
pub fn u32_to_hex8(v: u32) -> (res: String)
    ensures
        res@ == hex_fixed(v as nat, 8, true),
{
    let mut s = String::new();
    append_hex_fixed(&mut s, v as u64, 8, true);
    proof {
        assert(s@ =~= hex_fixed(v as nat, 8, true));
    }
    s
}

/// Two hexadecimal digits per byte, upper case or lower case.
pub fn bytes_to_hex(bytes: &[u8], upper: bool) -> (res: String)
    ensures
        res@ == hex_bytes(bytes@, upper),
{
    let mut s = String::new();
    let mut i: usize = 0;
    while i < bytes.len()
        invariant
            i <= bytes@.len(),
            s@ == hex_bytes(bytes@.take(i as int), upper),
        decreases bytes@.len() - i,
    {
        let ghost before = s@;
        append_hex_fixed(&mut s, bytes[i] as u64, 2, upper);
        proof {
            let t = bytes@.take(i + 1);
            assert(t.drop_last() =~= bytes@.take(i as int));
            assert(t.last() == bytes@[i as int]);
        }
        i = i + 1;
    }
    proof {
        assert(bytes@.take(bytes@.len() as int) =~= bytes@);
    }
    s
}

/// `format!("{:0width$}", n)`: the decimal notation of `n`, left-padded with zeros.
pub fn u32_to_zero_padded(n: u32, width: u32) -> (res: String)
    ensures
        res@ == zero_padded(decimal(n as nat), width as nat),
{
    let digits = u64_to_decimal(n as u64);
    let cs = chars_of(digits.as_str());
    let mut s = String::new();
    let mut k: usize = cs.len();
    while k < width as usize
        invariant
            cs@.len() <= k,
            k <= cs@.len() || k <= width,
            s@ == Seq::new((k - cs@.len()) as nat, |i: int| '0'),
        decreases width - k,
    {
        push_char(&mut s, '0');
        k = k + 1;
        proof {
            assert(s@ =~= Seq::new((k - cs@.len()) as nat, |i: int| '0'));
        }
    }
    append_str(&mut s, digits.as_str());
    proof {
        assert(s@ =~= zero_padded(decimal(n as nat), width as nat));
    }
    s
}

/// Why a text is not an `i64` (the kinds of `std::num::ParseIntError`).
#[derive(Debug, Clone, Copy, PartialEq, Eq, Structural)]
pub enum IntErrorKind {
    Empty,
    InvalidDigit,
    PosOverflow,
    NegOverflow,
}

pub open spec fn is_ascii_digit(c: char) -> bool {
    '0' <= c <= '9'
}

/// Reads the digits `ds` left to right into `acc`, adding (or, for a
/// negative number, subtracting) each digit, and stops at the first
/// character that is no digit or the first step that leaves the `i64` range.
pub open spec fn scan_digits(ds: Seq<char>, acc: int, positive: bool) -> Result<int, IntErrorKind>
    decreases ds.len(),
{
    if ds.len() == 0 {
        Ok(acc)
    } else if !is_ascii_digit(ds[0]) {
        Err(IntErrorKind::InvalidDigit)
    } else {
        let d = ds[0] as int - 48;
        let next = if positive {
            acc * 10 + d
        } else {
            acc * 10 - d
        };
        if next > i64::MAX {
            Err(IntErrorKind::PosOverflow)
        } else if next < i64::MIN {
            Err(IntErrorKind::NegOverflow)
        } else {
            scan_digits(ds.drop_first(), next, positive)
        }
    }
}

/// What `s.parse::<i64>()` gives: an optional sign, then decimal digits.
pub open spec fn parse_i64_spec(s: Seq<char>) -> Result<int, IntErrorKind> {
    if s.len() == 0 {
        Err(IntErrorKind::Empty)
    } else if (s[0] == '+' || s[0] == '-') && s.len() == 1 {
        Err(IntErrorKind::InvalidDigit)
    } else if s[0] == '+' {
        scan_digits(s.drop_first(), 0, true)
    } else if s[0] == '-' {
        scan_digits(s.drop_first(), 0, false)
    } else {
        scan_digits(s, 0, true)
    }
}

/// `s.parse::<i64>()`.
pub fn parse_i64(s: &str) -> (res: Result<i64, IntErrorKind>)
    ensures
        match res {
            Ok(v) => parse_i64_spec(s@) == Ok::<int, IntErrorKind>(v as int),
            Err(e) => parse_i64_spec(s@) == Err::<int, IntErrorKind>(e),
        },
{
    let cs = chars_of(s);
    let n = cs.len();
    if n == 0 {
        return Err(IntErrorKind::Empty);
    }
    let first = cs[0];
    if (first == '+' || first == '-') && n == 1 {
        return Err(IntErrorKind::InvalidDigit);
    }
    let positive = first != '-';
    let start: usize = if first == '+' || first == '-' { 1 } else { 0 };
    let ghost ds = cs@.skip(start as int);
    proof {
        if first == '+' || first == '-' {
            assert(ds =~= s@.drop_first());
        } else {
            assert(ds =~= s@);
        }
        assert(parse_i64_spec(s@) == scan_digits(ds, 0, positive));
    }
    let mut acc: i64 = 0;
    let mut i: usize = start;
    while i < n
        invariant
            start <= i <= n,
            n == cs@.len(),
            ds == cs@.skip(start as int),
            parse_i64_spec(s@) == scan_digits(cs@.skip(i as int), acc as int, positive),
        decreases n - i,
    {
        let c = cs[i];
        let ghost rest = cs@.skip(i as int);
        assert(rest[0] == c);
        assert(rest.drop_first() =~= cs@.skip(i + 1));
        if !('0' <= c && c <= '9') {
            return Err(IntErrorKind::InvalidDigit);
        }
        let d: i128 = (c as u32 - 48u32) as i128;
        let next: i128 = if positive {
            (acc as i128) * 10 + d
        } else {
            (acc as i128) * 10 - d
        };
        if next > i64::MAX as i128 {
            return Err(IntErrorKind::PosOverflow);
        }
        if next < i64::MIN as i128 {
            return Err(IntErrorKind::NegOverflow);
        }
        acc = next as i64;
        i = i + 1;
    }
    proof {
        assert(cs@.skip(i as int).len() == 0);
    }
    Ok(acc)
}

proof fn lemma_scan_push(xs: Seq<char>, c: char, acc: int, positive: bool)
    requires
        scan_digits(xs, acc, positive) is Ok,
    ensures
        scan_digits(xs.push(c), acc, positive) == scan_digits(
            seq![c],
            scan_digits(xs, acc, positive)->Ok_0,
            positive,
        ),
    decreases xs.len(),
{
    if xs.len() == 0 {
        assert(xs.push(c) =~= seq![c]);
    } else {
        let d = xs[0] as int - 48;
        let next = if positive {
            acc * 10 + d
        } else {
            acc * 10 - d
        };
        assert(xs.push(c).drop_first() =~= xs.drop_first().push(c));
        assert(xs.push(c)[0] == xs[0]);
        lemma_scan_push(xs.drop_first(), c, next, positive);
    }
}

proof fn lemma_digit_char(d: nat)
    requires
        d < 10,
    ensures
        is_ascii_digit(digit_char(d)),
        digit_char(d) as int - 48 == d,
{
    assert(digit_char(d) as u32 == 48 + d);
}

proof fn lemma_scan_decimal(n: nat, positive: bool)
    requires
        positive ==> n <= i64::MAX,
        !positive ==> n <= 0x8000_0000_0000_0000,
    ensures
        scan_digits(decimal(n), 0, positive) == Ok::<int, IntErrorKind>(
            if positive {
                n as int
            } else {
                -n
            },
        ),
    decreases n,
{
    let d = digit_char(n % 10);
    lemma_digit_char(n % 10);
    reveal_with_fuel(scan_digits, 2);
    assert(seq![d].drop_first() =~= Seq::<char>::empty());
    if n < 10 {
        assert(n % 10 == n);
        assert(decimal(n) == seq![d]);
    } else {
        lemma_scan_decimal(n / 10, positive);
        lemma_scan_push(decimal(n / 10), d, 0, positive);
        assert((n / 10) * 10 + n % 10 == n);
        assert(decimal(n) == decimal(n / 10).push(d));
        let prev: int = if positive { (n / 10) as int } else { -((n / 10) as int) };
        assert(scan_digits(decimal(n / 10), 0, positive) == Ok::<int, IntErrorKind>(prev));
        let nxt: int = if positive { prev * 10 + (n % 10) } else { prev * 10 - (n % 10) };
        assert(nxt == if positive { n as int } else { -n });
    }
}

/// Parsing the decimal notation of an `i64` gives the number back.
pub proof fn lemma_parse_decimal_roundtrip(i: i64)
    ensures
        parse_i64_spec(signed_decimal(i as int)) == Ok::<int, IntErrorKind>(i as int),
{
    lemma_decimal_digits(((if i < 0 { -i } else { i as int })) as nat);
    if i < 0 {
        let m = (-i) as nat;
        lemma_scan_decimal(m, false);
        lemma_decimal_len_pos(m);
        let t = signed_decimal(i as int);
        assert(t[0] == '-');
        assert(t.drop_first() =~= decimal(m));
    } else {
        let n = i as nat;
        lemma_scan_decimal(n, true);
        lemma_decimal_len_pos(n);
        let t = decimal(n);
        assert('0' <= t[0] <= '9');
    }
}

proof fn lemma_decimal_len_pos(n: nat)
    ensures
        decimal(n).len() >= 1,
    decreases n,
{
    if n >= 10 {
        lemma_decimal_len_pos(n / 10);
    }
}

} // verus!
