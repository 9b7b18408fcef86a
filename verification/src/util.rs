//! Small helpers of the service: masking a mobile number and reading the clock.
use vstd::prelude::*;
use vstd::utf8::{
    encode_utf8, is_char_boundary, is_char_boundary_iff_not_is_continuation_byte,
    encode_utf8_valid_utf8, length_of_first_scalar, pop_first_scalar, valid_utf8,
};
use vstd::string::*;
use std::time::{Duration, SystemTime};
use crate::text::append_str;

verus! {

/// The UTF-8 bytes of a concatenation are the bytes of its parts, one after the other.
pub proof fn lemma_encode_utf8_concat(x: Seq<char>, y: Seq<char>)
    ensures
        encode_utf8(x + y) == encode_utf8(x) + encode_utf8(y),
    decreases x.len(),
{
    if x.len() == 0 {
        assert(x + y =~= y);
        assert(encode_utf8(x) =~= Seq::<u8>::empty());
        assert(encode_utf8(x) + encode_utf8(y) =~= encode_utf8(y));
    } else {
        assert((x + y).drop_first() =~= x.drop_first() + y);
        assert((x + y)[0] == x[0]);
        lemma_encode_utf8_concat(x.drop_first(), y);
        assert(encode_utf8(x + y) =~= encode_utf8(x) + encode_utf8(y));
    }
}

/// In valid UTF-8 that starts with `k` ASCII bytes, byte `k` starts a character.
proof fn lemma_ascii_prefix_boundary(bytes: Seq<u8>, k: int)
    requires
        valid_utf8(bytes),
        0 <= k <= bytes.len(),
        forall|i: int| 0 <= i < k ==> #[trigger] bytes[i] < 128,
    ensures
        is_char_boundary(bytes, k),
    decreases k,
{
    if k > 0 {
        assert(bytes.len() != 0);
        assert(length_of_first_scalar(bytes) == 1);
        let rest = pop_first_scalar(bytes);
        assert(rest =~= bytes.subrange(1, bytes.len() as int));
        assert(valid_utf8(rest));
        assert forall|i: int| 0 <= i < k - 1 implies #[trigger] rest[i] < 128 by {
            assert(rest[i] == bytes[i + 1]);
        }
        lemma_ascii_prefix_boundary(rest, k - 1);
    }
}

proof fn lemma_stars_bytes()
    ensures
        encode_utf8("****"@) == seq![42u8, 42u8, 42u8, 42u8],
{
    reveal_strlit("****");
    let star = seq!['*'];
    assert('*' as u32 == 42);
    assert((42u32 & 0x7F) as u8 == 42u8) by (bit_vector);
    assert(encode_utf8(star) =~= seq![42u8]) by {
        reveal_with_fuel(encode_utf8, 2);
    }
    assert("****"@ =~= star + star + star + star);
    lemma_encode_utf8_concat(star, star);
    lemma_encode_utf8_concat(star + star, star);
    lemma_encode_utf8_concat(star + star + star, star);
    assert(encode_utf8("****"@) =~= seq![42u8, 42u8, 42u8, 42u8]);
}

/// What `mask_mobile` does to the UTF-8 bytes of its argument: a text of
/// fewer than eleven bytes becomes `****`; otherwise the four bytes that
/// end four bytes before the end become `*`.
pub open spec fn masked_bytes(b: Seq<u8>) -> Seq<u8> {
    if b.len() < 11 {
        seq![42u8, 42u8, 42u8, 42u8]
    } else {
        b.take(b.len() - 8) + seq![42u8, 42u8, 42u8, 42u8] + b.skip(b.len() - 4)
    }
}

/// Whether `mask_mobile` can mask `b` in place: the bytes it overwrites are ASCII.
pub open spec fn maskable(b: Seq<u8>) -> bool {
    b.len() >= 11 ==> forall|i: int| b.len() - 8 <= i < b.len() - 4 ==> #[trigger] b[i] < 128
}

/// Hides the middle of a mobile number: `13712345678` becomes `137****5678`.
pub fn mask_mobile(s: String) -> (res: String)
    requires
        maskable(encode_utf8(s@)),
    ensures
        encode_utf8(res@) == masked_bytes(encode_utf8(s@)),
{
    proof {
        lemma_stars_bytes();
    }
    let st: &str = s.as_str();
    let n = st.as_bytes().len();
    if n < 11 {
        let r = "****".to_owned();
        proof {
            assert(encode_utf8(r@) == masked_bytes(encode_utf8(s@)));
        }
        return r;
    }
    let ghost b = encode_utf8(s@);
    proof {
        encode_utf8_valid_utf8(s@);
        assert(b[n - 8] < 128);
        is_char_boundary_iff_not_is_continuation_byte(b, n - 8);
    }
    let (head, rest) = s.as_str().split_at(n - 8);
    proof {
        let r = rest.spec_bytes();
        encode_utf8_valid_utf8(rest@);
        assert forall|i: int| 0 <= i < 4 implies #[trigger] r[i] < 128 by {
            assert(r[i] == b[n - 8 + i]);
            assert(b[n - 8 + i] < 128);
        }
        lemma_ascii_prefix_boundary(r, 4);
    }
    let (_, tail) = rest.split_at(4);
    let mut out = head.to_owned();
    append_str(&mut out, "****");
    append_str(&mut out, tail);
    proof {
        lemma_encode_utf8_concat(head@, "****"@);
        lemma_encode_utf8_concat(head@ + "****"@, tail@);
        assert(tail.spec_bytes() =~= b.skip(n - 4));
        assert(head.spec_bytes() =~= b.take(n - 8));
        assert(encode_utf8(out@) =~= masked_bytes(b));
    }
    out
}

#[verifier::external_type_specification]
#[verifier::external_body]
pub struct ExSystemTime(SystemTime);

/// `SystemTime::now()`: the reading of the system clock, of which nothing is known.
#[verifier::external_body]
fn system_time_now() -> SystemTime {
    SystemTime::now()
}

/// `t.duration_since(UNIX_EPOCH)`, as `None` where `t` lies before 1970.
/// Nothing is stated of the duration: it depends on the clock reading `t`.
#[verifier::external_body]
fn since_unix_epoch(t: SystemTime) -> Option<Duration> {
    t.duration_since(std::time::UNIX_EPOCH).ok()
}

/// `Duration::as_secs`: the whole seconds of `d`.
#[verifier::external_body]
fn duration_secs(d: &Duration) -> u64 {
    d.as_secs()
}

/// `Duration::subsec_millis`: the whole milliseconds of the fraction of a
/// second of `d`, which its documentation places below 1000.
#[verifier::external_body]
fn duration_subsec_millis(d: &Duration) -> (ms: u32)
    ensures
        ms < 1000,
{
    d.subsec_millis()
}

/// Milliseconds since 1970 of a clock reading of `secs` whole seconds and
/// `subsec_millis` further milliseconds.
pub fn millis_since_epoch(secs: u64, subsec_millis: u32) -> (res: u64)
    requires
        secs * 1000 + subsec_millis <= u64::MAX,
    ensures
        res == secs * 1000 + subsec_millis,
{
    secs * 1000 + subsec_millis as u64
}

/// What a clock reading of `secs` whole seconds and `millis` further
/// milliseconds since 1970 gives in milliseconds; nothing where that does
/// not fit in a `u64`, or for a reading before 1970 (`None`).
pub open spec fn clock_millis(reading: Option<(u64, u32)>) -> Option<int> {
    match reading {
        None => None,
        Some((secs, millis)) => if secs * 1000 + millis <= u64::MAX {
            Some(secs * 1000 + millis)
        } else {
            None
        },
    }
}

/// Milliseconds since 1970 of the clock reading `reading`, which holds
/// whole seconds and the milliseconds of the fraction of a second.
pub fn millis_of_reading(reading: Option<(u64, u32)>) -> (res: Option<u64>)
    requires
        reading matches Some((_, ms)) ==> ms < 1000,
    ensures
        match clock_millis(reading) {
            Some(v) => res == Some(v as u64),
            None => res is None,
        },
{
    match reading {
        Some((secs, ms)) => {
            let room: u64 = (u64::MAX - ms as u64) / 1000;
            if secs <= room {
                assert(secs * 1000 + ms <= u64::MAX) by (nonlinear_arith)
                    requires
                        secs <= room,
                        room == (u64::MAX - ms) / 1000,
                        ms < 1000,
                ;
                Some(millis_since_epoch(secs, ms))
            } else {
                assert(secs * 1000 + ms > u64::MAX) by (nonlinear_arith)
                    requires
                        secs > room,
                        room == (u64::MAX - ms) / 1000,
                        ms < 1000,
                ;
                None
            }
        },
        None => None,
    }
}

/// The time in milliseconds since 1970, read from the system clock; `None`
/// where the clock reads before 1970 or beyond the range of `u64`
/// milliseconds (see `clock_millis`).
pub fn now_in_milliseconds() -> (res: Option<u64>)
    ensures
        exists|reading: Option<(u64, u32)>|
            match #[trigger] clock_millis(reading) {
                Some(v) => res == Some(v as u64),
                None => res is None,
            },
{
    let reading = match since_unix_epoch(system_time_now()) {
        Some(d) => Some((duration_secs(&d), duration_subsec_millis(&d))),
        None => None,
    };
    millis_of_reading(reading)
}

} // verus!
