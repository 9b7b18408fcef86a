//! The records of the service: accounts as stored in the database, the
//! requests and answers of its HTTP interface and of the WeChat gateway.
use vstd::prelude::*;

verus! {

/// The serial number that no record has.
pub const INVALID_SQN: u32 = 0;

#[derive(Debug, Clone, Copy, PartialEq, Eq, Structural)]
pub enum Sex {
    Male,
    Female,
}

/// The sex stored as code `n`.
pub open spec fn sex_of_code(n: i8) -> Option<Sex> {
    if n == 0 {
        Some(Sex::Male)
    } else if n == 1 {
        Some(Sex::Female)
    } else {
        None
    }
}

/// The status stored as code `n`.
pub open spec fn status_of_code(n: i8) -> Option<AdminStatus> {
    if n == 0 {
        Some(AdminStatus::Normal)
    } else if n == 1 {
        Some(AdminStatus::Denied)
    } else if n == 2 {
        Some(AdminStatus::Cancelled)
    } else {
        None
    }
}

impl Sex {
    /// The sex stored as `n` in the database: `0` male, `1` female.
    pub fn from_i8(n: i8) -> (res: Option<Sex>)
        ensures
            res == sex_of_code(n),
    {
        if n == 0 {
            Some(Sex::Male)
        } else if n == 1 {
            Some(Sex::Female)
        } else {
            None
        }
    }
}

#[derive(Debug, Clone, Copy, PartialEq, Eq, Structural)]
pub enum AdminStatus {
    Normal,
    Denied,
    Cancelled,
}

/// How a status is shown to users.
pub open spec fn status_text_spec(s: AdminStatus) -> Seq<char> {
    match s {
        AdminStatus::Normal => "正常"@,
        AdminStatus::Denied => "禁用"@,
        AdminStatus::Cancelled => "注销"@,
    }
}

impl AdminStatus {
    /// The status stored as `n` in the database: `0` normal, `1` denied, `2` cancelled.
    pub fn from_i8(n: i8) -> (res: Option<AdminStatus>)
        ensures
            res == status_of_code(n),
    {
        if n == 0 {
            Some(AdminStatus::Normal)
        } else if n == 1 {
            Some(AdminStatus::Denied)
        } else if n == 2 {
            Some(AdminStatus::Cancelled)
        } else {
            None
        }
    }

    /// How the status is shown to users (`String::from(status)`).
    pub fn text(self) -> (res: String)
        ensures
            res@ == status_text_spec(self),
    {
        match self {
            AdminStatus::Normal => "正常".to_owned(),
            AdminStatus::Denied => "禁用".to_owned(),
            AdminStatus::Cancelled => "注销".to_owned(),
        }
    }
}

/// The number of columns of a row that holds an administrator account.
pub const ADMIN_ROW_COLUMNS: usize = 11;

/// An administrator account.
#[derive(Debug)]
pub struct AdminPo {
    pub sqn: u32,
    pub account: String,
    pub pass: String,
    pub status: AdminStatus,
    pub name: String,
    pub sex: Sex,
    pub mobile: String,
    pub email: String,
    pub icon: String,
    pub remark: String,
    pub ctime: String,
}

impl AdminPo {
    /// The account read from the columns of a row: a status or sex code
    /// that names none reads as `Normal` or `Male`.
    pub fn from_row_values(
        sqn: u32,
        account: String,
        pass: String,
        status: i8,
        name: String,
        sex: i8,
        mobile: String,
        email: String,
        icon: String,
        remark: String,
        ctime: String,
    ) -> (res: AdminPo)
        ensures
            res.sqn == sqn,
            res.account == account,
            res.pass == pass,
            res.status == (match status_of_code(status) {
                Some(s) => s,
                None => AdminStatus::Normal,
            }),
            res.name == name,
            res.sex == (match sex_of_code(sex) {
                Some(s) => s,
                None => Sex::Male,
            }),
            res.mobile == mobile,
            res.email == email,
            res.icon == icon,
            res.remark == remark,
            res.ctime == ctime,
    {
        AdminPo {
            sqn,
            account,
            pass,
            status: match AdminStatus::from_i8(status) {
                Some(s) => s,
                None => AdminStatus::Normal,
            },
            name,
            sex: match Sex::from_i8(sex) {
                Some(s) => s,
                None => Sex::Male,
            },
            mobile,
            email,
            icon,
            remark,
            ctime,
        }
    }
}

/// How customers reach the service desk.
#[derive(Debug)]
pub struct CustomerServicePo {
    pub sqn: u32,
    pub wechat: String,
    pub mobile: String,
    pub address: String,
}

pub open spec fn text_or_empty(o: Option<String>) -> Seq<char> {
    match o {
        Some(s) => s@,
        None => Seq::empty(),
    }
}

fn unwrap_or_empty(o: Option<String>) -> (res: String)
    ensures
        res@ == text_or_empty(o),
{
    match o {
        Some(s) => s,
        None => String::new(),
    }
}

impl CustomerServicePo {
    /// The record read from the columns of a row: a missing text reads as empty.
    pub fn from_row_values(
        sqn: u32,
        wechat: Option<String>,
        mobile: Option<String>,
        address: Option<String>,
    ) -> (res: CustomerServicePo)
        ensures
            res.sqn == sqn,
            res.wechat@ == text_or_empty(wechat),
            res.mobile@ == text_or_empty(mobile),
            res.address@ == text_or_empty(address),
    {
        CustomerServicePo {
            sqn,
            wechat: unwrap_or_empty(wechat),
            mobile: unwrap_or_empty(mobile),
            address: unwrap_or_empty(address),
        }
    }
}

/// A page of a list.
pub struct PageList<T> {
    pub total: u32,
    pub page: u32,
    pub items_per_page: u16,
    pub data: Vec<T>,
}

/// A login: account and password, each of 1 to 64 characters.
#[derive(Debug)]
pub struct AdminLoginRequest {
    pub account: String,
    pub pass: String,
}

#[derive(Debug)]
pub struct AdminLoginResponse {
    pub token: String,
    pub name: String,
}

#[derive(Debug)]
pub struct AdminLogoutRequest {
    pub token: String,
}

/// A request to the WeChat authentication gateway.
#[derive(Debug)]
pub struct WxAuthRequest {
    pub ath_code: String,
    pub apl_idntfir: String,
    pub spl_type: i8,
    pub vector: String,
    pub cryption: String,
}

/// The user WeChat authenticated.
#[derive(Debug)]
pub struct WxAuthResponse {
    pub open_id: String,
    pub union_id: String,
    pub url_head: String,
    pub usr_nick: String,
    pub usr_sex: Sex,
}

/// A request to the WeChat payment gateway.
#[derive(Debug)]
pub struct WxPayRequest {
    pub result: String,
    pub url_callback: String,
    pub spl_type: String,
    /// two decimals
    pub amt_total: String,
    pub odr_internal: String,
    pub message: String,
    pub acc_idntfir: String,
}

#[derive(Debug)]
pub struct WxPayResponse {
    pub tkn_income: String,
}

} // verus!
