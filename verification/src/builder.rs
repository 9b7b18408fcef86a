//! Builders that hand out the services and data access objects.
use vstd::prelude::*;
use crate::sms::SmsService;
use crate::wxauth::WxAuthService;
use crate::wxpay::WxPayService;

verus! {

/// Hands out the data access objects.
pub struct DaoBuilder {}

impl DaoBuilder {
    pub fn new() -> DaoBuilder {
        DaoBuilder {}
    }
}

/// Hands out the services.
pub struct ServiceBuilder {}

impl ServiceBuilder {
    pub fn new() -> ServiceBuilder {
        ServiceBuilder {}
    }

    pub fn build_wxauth(&self) -> WxAuthService {
        WxAuthService {}
    }

    pub fn build_sms(&self) -> SmsService {
        SmsService {}
    }

    pub fn build_pay(&self) -> WxPayService {
        WxPayService {}
    }
}

} // verus!
