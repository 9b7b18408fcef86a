use service_starter::admin::{check_account, check_login, customer_service_or_default};
use service_starter::builder::{DaoBuilder, ServiceBuilder};
use service_starter::discover::{
    ServiceDiscover, ServiceDiscoverConfig, ServiceInfo, AUTHORIZOR_SERVICE, PAY_SERVICE,
    SMS_SERVICE,
};
use service_starter::error::{ServiceError, RC_FAIL};
use service_starter::model::{
    AdminLoginRequest, AdminPo, AdminStatus, CustomerServicePo, Sex, INVALID_SQN,
};
use service_starter::transaction::{transaction_end, TransactionEnd};
use service_starter::util::{millis_of_reading, millis_since_epoch, now_in_milliseconds};

fn admin(status: i8, pass: &str) -> AdminPo {
    AdminPo::from_row_values(
        5,
        "root".to_string(),
        pass.to_string(),
        status,
        "Root".to_string(),
        1,
        "137".to_string(),
        "r@x".to_string(),
        "".to_string(),
        "".to_string(),
        "2020-01-01".to_string(),
    )
}

fn login(pass: &str) -> AdminLoginRequest {
    AdminLoginRequest { account: "root".to_string(), pass: pass.to_string() }
}

fn custom(m: &str) -> ServiceError {
    ServiceError::Custom(RC_FAIL, m.to_string())
}

#[test]
fn row_values() {
    let a = admin(1, "p");
    assert_eq!(a.sqn, 5);
    assert_eq!(a.status, AdminStatus::Denied);
    assert_eq!(a.sex, Sex::Female);
    assert_eq!(admin(9, "p").status, AdminStatus::Normal);
    assert_eq!(Sex::from_i8(0), Some(Sex::Male));
    assert_eq!(Sex::from_i8(3), None);
    assert_eq!(AdminStatus::from_i8(2), Some(AdminStatus::Cancelled));
    assert_eq!(AdminStatus::from_i8(-1), None);
    assert_eq!(AdminStatus::Normal.text(), "正常");
    assert_eq!(AdminStatus::Denied.text(), "禁用");
    assert_eq!(AdminStatus::Cancelled.text(), "注销");
    let c = CustomerServicePo::from_row_values(3, Some("w".to_string()), None, None);
    assert_eq!((c.sqn, c.wechat.as_str(), c.mobile.as_str(), c.address.as_str()), (3, "w", "", ""));
}

#[test]
fn login_checks() {
    assert_eq!(check_login(None, &login("p")).err(), Some(custom("账号不存在")));
    assert_eq!(check_login(Some(admin(1, "p")), &login("p")).err(), Some(custom("账号已禁用")));
    assert_eq!(check_login(Some(admin(2, "p")), &login("p")).err(), Some(custom("账号已注销")));
    assert_eq!(check_login(Some(admin(0, "p")), &login("q")).err(), Some(custom("密码错误")));
    let ok = check_login(Some(admin(0, "p")), &login("p")).unwrap();
    assert_eq!(ok.account, "root");
    assert_eq!(check_account(None).err(), Some(custom("账号不存在")));
    assert_eq!(check_account(Some(admin(0, "p"))).unwrap().sqn, 5);
}

#[test]
fn customer_service_default() {
    let d = customer_service_or_default(None);
    assert_eq!(d.sqn, INVALID_SQN);
    assert_eq!(d.wechat, "");
    let r = customer_service_or_default(Some(CustomerServicePo::from_row_values(
        8,
        None,
        Some("m".to_string()),
        Some("a".to_string()),
    )));
    assert_eq!((r.sqn, r.mobile.as_str(), r.address.as_str()), (8, "m", "a"));
}

#[test]
fn service_discovery() {
    let cfg = ServiceDiscoverConfig {
        services: vec![
            (AUTHORIZOR_SERVICE.to_string(), ServiceInfo::new("10.0.0.1:80".to_string())),
            (SMS_SERVICE.to_string(), ServiceInfo::new("10.0.0.2:80".to_string())),
            (AUTHORIZOR_SERVICE.to_string(), ServiceInfo::new("10.0.0.3:80".to_string())),
        ],
    };
    let d = ServiceDiscover::new(&cfg);
    assert_eq!(d.find(AUTHORIZOR_SERVICE).unwrap().select_better(), "10.0.0.3:80");
    assert_eq!(d.find(SMS_SERVICE).unwrap().select_better(), "10.0.0.2:80");
    assert!(d.find(PAY_SERVICE).is_none());
    let info = ServiceInfo::new("h:1".to_string());
    assert_eq!(info.copy().select_better(), "h:1");
}

#[test]
fn builders() {
    let _d = DaoBuilder::new();
    let b = ServiceBuilder::new();
    let _a = b.build_wxauth();
    let _s = b.build_sms();
    let _p = b.build_pay();
}

#[test]
fn clock() {
    assert_eq!(millis_since_epoch(2, 345), 2345);
    assert_eq!(millis_of_reading(None), None);
    assert_eq!(millis_of_reading(Some((2, 345))), Some(2345));
    assert_eq!(millis_of_reading(Some((18446744073709551, 614))), Some(18446744073709551614));
    assert_eq!(millis_of_reading(Some((18446744073709551, 616))), None);
    assert_eq!(millis_of_reading(Some((u64::MAX, 0))), None);
    let before = std::time::SystemTime::now()
        .duration_since(std::time::UNIX_EPOCH)
        .unwrap()
        .as_millis() as u64;
    let now = now_in_milliseconds().unwrap();
    let after = std::time::SystemTime::now()
        .duration_since(std::time::UNIX_EPOCH)
        .unwrap()
        .as_millis() as u64;
    assert!(before <= now && now <= after);
}

#[test]
fn transaction_ends() {
    assert_eq!(transaction_end(true, false), TransactionEnd::Commit);
    assert_eq!(transaction_end(true, true), TransactionEnd::Commit);
    assert_eq!(transaction_end(false, true), TransactionEnd::LeaveToConnection);
    assert_eq!(transaction_end(false, false), TransactionEnd::Rollback);
}
