//! The configuration of the service, as read from its YAML file.
use vstd::prelude::*;
use crate::discover::ServiceDiscoverConfig;

verus! {

pub struct RedisConfig {
    pub url: String,
    pub pool_size: u16,
}

pub struct SessionConfig {
    /// seconds
    pub expire_time: u32,
}

pub struct WebConfig {
    pub listen: String,
    pub workers: i16,
}

pub struct MysqlConfig {
    pub url: String,
    pub pool_size: u16,
}

pub struct DaoConfig {
    pub admin_db: String,
}

pub struct BusinessConfig {
    pub wx_auth: WxAuthConfig,
    pub wx_pay: WxPayConfig,
    pub sms: SmsServiceConfig,
}

pub struct WxAuthConfig {
    pub app_id: String,
    pub app_secret: String,
}

pub struct WxPayConfig {
    pub call_back_base_url: String,
    pub app_id: String,
    pub app_secret: String,
    /// merchant id
    pub mch_id: String,
}

pub struct SmsServiceConfig {
    pub secret_id: String,
    pub secret_key: String,
    pub sdk_app_id: String,
    pub template: String,
    pub signature: String,
}

/// How the service reaches the WeChat and SMS providers: `0` (or any value
/// not listed) directly, `1` through a proxy, `2` with made-up answers
/// (for authentication and SMS only).
pub struct SwitcherConfig {
    pub wx_auth_mode: u8,
    pub sms_mode: u8,
    pub wx_pay_mode: u8,
    pub vc_check: bool,
}

pub struct Config {
    pub web: WebConfig,
    pub redis: RedisConfig,
    pub mysql: MysqlConfig,
    pub session: SessionConfig,
    pub dao: DaoConfig,
    pub service_discover: ServiceDiscoverConfig,
    pub business: BusinessConfig,
    pub switcher: SwitcherConfig,
}

} // verus!
