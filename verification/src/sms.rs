//! Verification codes sent by SMS.
use vstd::prelude::*;
use crate::error::ServiceError;
use crate::random::{gen_range_u32, thread_rng};
use crate::text::{
    append_str, decimal, lemma_decimal_digits, lemma_decimal_len, pow10, u32_to_zero_padded,
    zero_padded,
};

verus! {

/// How verification codes are sent.
#[derive(Debug, Clone, Copy, PartialEq, Eq, Structural)]
pub enum SmsRoute {
    /// through the SMS provider
    Local,
    /// through a proxy service
    Proxy,
    /// not at all: a code is made up
    Fake,
}

/// The SMS service.
pub struct SmsService {}

/// A verification code: the number `n` in six digits.
pub open spec fn sms_code_text(n: u32) -> Seq<char> {
    zero_padded(decimal(n as nat), 6)
}

/// A verification code is six decimal digits.
pub proof fn lemma_sms_code_shape(n: u32)
    requires
        n < 1_000_000,
    ensures
        sms_code_text(n).len() == 6,
        forall|i: int| 0 <= i < 6 ==> '0' <= #[trigger] sms_code_text(n)[i] <= '9',
{
    assert(pow10(6) == 1_000_000) by {
        reveal_with_fuel(pow10, 7);
    }
    lemma_decimal_len(n as nat, 6);
    lemma_decimal_digits(n as nat);
    let d = decimal(n as nat);
    let t = sms_code_text(n);
    assert forall|i: int| 0 <= i < 6 implies '0' <= #[trigger] t[i] <= '9' by {
        if d.len() < 6 {
            let pad = (6 - d.len()) as nat;
            if i >= pad {
                assert(t[i] == d[i - pad]);
            }
        } else {
            assert(t[i] == d[i]);
        }
    }
}

impl SmsService {
    pub fn new() -> (res: Result<SmsService, ServiceError>)
        ensures
            res is Ok,
    {
        Ok(SmsService {})
    }

    /// The way codes are sent in switcher mode `mode`: `1` proxy, `2` fake, else local.
    pub fn route(mode: u8) -> (res: SmsRoute)
        ensures
            res == (if mode == 1 {
                SmsRoute::Proxy
            } else if mode == 2 {
                SmsRoute::Fake
            } else {
                SmsRoute::Local
            }),
    {
        match mode {
            1 => SmsRoute::Proxy,
            2 => SmsRoute::Fake,
            _ => SmsRoute::Local,
        }
    }

    /// The code `n` in six digits (`format!("{:06}", n)`).
    pub fn format_sms_code(n: u32) -> (res: String)
        ensures
            res@ == sms_code_text(n),
    {
        u32_to_zero_padded(n, 6)
    }

    /// A fresh random verification code, from 000001 to 999998.
    pub fn gen_sms_code() -> (res: String)
        ensures
            exists|n: u32| 1 <= n < 999999 && res@ == #[trigger] sms_code_text(n),
            res@.len() == 6,
            forall|i: int| 0 <= i < 6 ==> '0' <= #[trigger] res@[i] <= '9',
    {
        let mut rng = thread_rng();
        let n = gen_range_u32(&mut rng, 1, 999999);
        proof {
            lemma_sms_code_shape(n);
        }
        Self::format_sms_code(n)
    }

    /// The made-up verification code of the fake mode.
    pub fn get_vc_fake(&self, mobile: &str) -> (res: Result<String, ServiceError>)
        ensures
            res matches Ok(code) && code@.len() == 6 && exists|n: u32|
                1 <= n < 999999 && code@ == #[trigger] sms_code_text(n),
    {
        Ok(Self::gen_sms_code())
    }

    /// The number a code is sent to: `mobile` behind the country code of China.
    pub fn phone_number(mobile: &str) -> (res: String)
        ensures
            res@ == "+86"@ + mobile@,
    {
        let mut s = "+86".to_owned();
        append_str(&mut s, mobile);
        s
    }
}

} // verus!
