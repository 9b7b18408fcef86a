//! The decisions of the administrator service: who may log in, and what
//! stands for a missing record.
use vstd::prelude::*;
use crate::error::{is_custom, ServiceError, RC_FAIL};
use crate::model::{
    status_text_spec, AdminLoginRequest, AdminPo, AdminStatus, CustomerServicePo, INVALID_SQN,
};
use crate::text::append_str;

verus! {

pub open spec fn no_account_msg() -> Seq<char> {
    "账号不存在"@
}

pub open spec fn wrong_password_msg() -> Seq<char> {
    "密码错误"@
}

/// The message for an account that is not in the normal state.
pub open spec fn account_state_msg(s: AdminStatus) -> Seq<char> {
    "账号已"@ + status_text_spec(s)
}

/// The outcome of a login with `info`, given the account found under its
/// name (if any): the account, if it exists, is in the normal state and
/// its password is the one given; else an error saying which of these failed.
pub fn check_login(found: Option<AdminPo>, info: &AdminLoginRequest) -> (res: Result<
    AdminPo,
    ServiceError,
>)
    ensures
        match found {
            None => res matches Err(e) && is_custom(e, RC_FAIL, no_account_msg()),
            Some(po) => if po.status != AdminStatus::Normal {
                res matches Err(e) && is_custom(e, RC_FAIL, account_state_msg(po.status))
            } else if po.pass@ != info.pass@ {
                res matches Err(e) && is_custom(e, RC_FAIL, wrong_password_msg())
            } else {
                res == Ok::<AdminPo, ServiceError>(po)
            },
        },
{
    let po = match found {
        Some(po) => po,
        None => {
            return Err(ServiceError::Custom(RC_FAIL, "账号不存在".to_owned()));
        },
    };
    match po.status {
        AdminStatus::Normal => {},
        n => {
            let mut m = "账号已".to_owned();
            append_str(&mut m, n.text().as_str());
            return Err(ServiceError::Custom(RC_FAIL, m));
        },
    }
    if po.pass != info.pass {
        return Err(ServiceError::Custom(RC_FAIL, "密码错误".to_owned()));
    }
    Ok(po)
}

/// The account found for a session, or an error if there is none.
pub fn check_account(found: Option<AdminPo>) -> (res: Result<AdminPo, ServiceError>)
    ensures
        match found {
            None => res matches Err(e) && is_custom(e, RC_FAIL, no_account_msg()),
            Some(po) => res == Ok::<AdminPo, ServiceError>(po),
        },
{
    match found {
        Some(po) => Ok(po),
        None => Err(ServiceError::Custom(RC_FAIL, "账号不存在".to_owned())),
    }
}

/// The service desk record found, or an empty one with the invalid serial number.
pub fn customer_service_or_default(found: Option<CustomerServicePo>) -> (res: CustomerServicePo)
    ensures
        match found {
            Some(r) => res == r,
            None => res.sqn == INVALID_SQN && res.wechat@.len() == 0 && res.mobile@.len() == 0
                && res.address@.len() == 0,
        },
{
    match found {
        Some(r) => r,
        None => CustomerServicePo {
            sqn: INVALID_SQN,
            wechat: String::new(),
            mobile: String::new(),
            address: String::new(),
        },
    }
}

} // verus!
