use service_starter::config::WxPayConfig;
use service_starter::error::{ServiceError, RC_FAIL};
use service_starter::json::{JsonNumber, JsonObject, JsonValue};
use service_starter::model::{Sex, WxAuthRequest};
use service_starter::sms::{SmsRoute, SmsService};
use service_starter::wxauth::{AuthRoute, WxAuthService};
use service_starter::wxpay::{PayRoute, WxLocalPayRequest, WxLocalPayResponse, WxPayService};

fn obj(fields: Vec<(&str, JsonValue)>) -> JsonObject {
    JsonObject { fields: fields.into_iter().map(|(k, v)| (k.to_string(), v)).collect() }
}

fn s(t: &str) -> JsonValue {
    JsonValue::Str(t.to_string())
}

fn expected_sign(pairs: &[(&str, &str)], key: &str) -> String {
    let mut v: Vec<(&str, &str)> = pairs.to_vec();
    v.sort();
    let joined: Vec<String> = v.iter().map(|(k, x)| format!("{}={}", k, x)).collect();
    let text = format!("{}&key={}", joined.join("&"), key);
    format!("{:X}", md5::compute(text.as_bytes()))
}

fn pairs(p: &[(&str, &str)]) -> Vec<(String, String)> {
    p.iter().map(|(k, v)| (k.to_string(), v.to_string())).collect()
}

#[test]
fn sign_of_sorted_parameters() {
    let p = [("b", "2"), ("a", "1"), ("c", "x y")];
    let sign = WxLocalPayRequest::gen_sign(&pairs(&p), "KEY");
    assert_eq!(sign, format!("{:X}", md5::compute("a=1&b=2&c=x y&key=KEY")));
    assert_eq!(sign, expected_sign(&p, "KEY"));
}

#[test]
fn sign_ignores_parameter_order() {
    let p = [("appid", "wx1"), ("mch_id", "m"), ("nonce_str", "N")];
    let q = [("nonce_str", "N"), ("appid", "wx1"), ("mch_id", "m")];
    assert_eq!(
        WxLocalPayRequest::gen_sign(&pairs(&p), "k"),
        WxLocalPayRequest::gen_sign(&pairs(&q), "k")
    );
}

fn pay_config() -> WxPayConfig {
    WxPayConfig {
        call_back_base_url: "https://example.com".to_string(),
        app_id: "wxapp".to_string(),
        app_secret: "secret".to_string(),
        mch_id: "1900".to_string(),
    }
}

#[test]
fn local_pay_request_fields() {
    let r = WxPayService::local_pay_request(&pay_config(), "U1", "ORD1", 1234, "ABCD0123".to_string());
    assert_eq!(r.app_id, "wxapp");
    assert_eq!(r.mch_id, "1900");
    assert_eq!(r.nonce_str, "ABCD0123");
    assert_eq!(r.body, "购买");
    assert_eq!(r.out_trade_no, "ORD1");
    assert_eq!(r.total_fee, 1234);
    assert_eq!(r.spbill_create_ip, "127.0.0.1");
    assert_eq!(r.notify_url, "https://example.com/v1/pay/on_wechat_result_callback");
    assert_eq!(r.trade_type, "JSAPI");
    assert_eq!(r.open_id, "U1");
    assert_eq!(r.sign, "");
}

#[test]
fn build_signs_and_writes_xml() {
    let r = WxPayService::local_pay_request(&pay_config(), "U1", "ORD1", 1234, "ABCD0123".to_string());
    let xml = r.build("paykey").unwrap();
    let sign = expected_sign(
        &[
            ("appid", "wxapp"),
            ("mch_id", "1900"),
            ("nonce_str", "ABCD0123"),
            ("body", "购买"),
            ("out_trade_no", "ORD1"),
            ("total_fee", "1234"),
            ("spbill_create_ip", "127.0.0.1"),
            ("notify_url", "https://example.com/v1/pay/on_wechat_result_callback"),
            ("trade_type", "JSAPI"),
            ("openid", "U1"),
        ],
        "paykey",
    );
    let expected = format!(
        "<xml><appid><![CDATA[wxapp]]></appid><mch_id><![CDATA[1900]]></mch_id>\
<nonce_str><![CDATA[ABCD0123]]></nonce_str><body><![CDATA[购买]]></body>\
<out_trade_no><![CDATA[ORD1]]></out_trade_no><total_fee><![CDATA[1234]]></total_fee>\
<spbill_create_ip><![CDATA[127.0.0.1]]></spbill_create_ip>\
<notify_url><![CDATA[https://example.com/v1/pay/on_wechat_result_callback]]></notify_url>\
<trade_type><![CDATA[JSAPI]]></trade_type><openid><![CDATA[U1]]></openid>\
<sign><![CDATA[{}]]></sign></xml>",
        sign
    );
    assert_eq!(xml, expected);
}

#[test]
fn nonce_is_eight_hex_digits() {
    let n = WxLocalPayRequest::gen_nonce();
    assert_eq!(n.len(), 8);
    assert!(n.chars().all(|c| c.is_ascii_digit() || ('A'..='F').contains(&c)));
}

fn answer(return_code: &str, result_code: &str) -> WxLocalPayResponse {
    WxLocalPayResponse {
        return_code: return_code.to_string(),
        return_msg: "OK".to_string(),
        app_id: "wx1".to_string(),
        mch_id: "m".to_string(),
        nonce_str: "n1".to_string(),
        sign: "S".to_string(),
        result_code: result_code.to_string(),
        err_code: None,
        err_code_des: None,
        trade_type: "JSAPI".to_string(),
        prepay_id: "p1".to_string(),
    }
}

#[test]
fn pay_token_of_an_accepted_order() {
    let t = WxPayService::pay_token_from_response(&answer("SUCCESS", "FAIL"), 1_600_000_000_999, "secret")
        .unwrap();
    let v: serde_json::Value = serde_json::from_str(t.as_str()).unwrap();
    let o = v.as_object().unwrap();
    assert_eq!(o.len(), 6);
    assert_eq!(o["appId"], "wx1");
    assert_eq!(o["package"], "prepay_id=p1");
    assert_eq!(o["nonceStr"], "n1");
    assert_eq!(o["timeStamp"], "1600000000");
    assert_eq!(o["signType"], "MD5");
    let sign = format!(
        "{:X}",
        md5::compute(
            "appId=wx1&nonceStr=n1&package=prepay_id=p1&signType=MD5&timeStamp=1600000000&key=secret"
        )
    );
    assert_eq!(o["sign"], serde_json::Value::String(sign.clone()));
    assert_eq!(
        t,
        format!(
            r#"{{"appId":"wx1","nonceStr":"n1","package":"prepay_id=p1","sign":"{}","signType":"MD5","timeStamp":"1600000000"}}"#,
            sign
        )
    );
}

#[test]
fn pay_token_of_a_refused_order() {
    assert_eq!(
        WxPayService::pay_token_from_response(&answer("FAIL", "FAIL"), 0, "secret"),
        Err(ServiceError::Custom(RC_FAIL, "微信发起支付失败".to_string()))
    );
    assert!(WxPayService::pay_token_from_response(&answer("FAIL", "SUCCESS"), 0, "k").is_ok());
}

#[test]
fn routes_and_urls() {
    assert_eq!(WxPayService::route(1), PayRoute::Proxy);
    assert_eq!(WxPayService::route(0), PayRoute::Local);
    assert_eq!(WxPayService::route(2), PayRoute::Local);
    assert_eq!(WxAuthService::route(0), AuthRoute::Local);
    assert_eq!(WxAuthService::route(1), AuthRoute::Proxy);
    assert_eq!(WxAuthService::route(2), AuthRoute::Debug);
    assert_eq!(WxAuthService::route(9), AuthRoute::Local);
    assert_eq!(SmsService::route(0), SmsRoute::Local);
    assert_eq!(SmsService::route(1), SmsRoute::Proxy);
    assert_eq!(SmsService::route(2), SmsRoute::Fake);
    assert_eq!(
        WxPayService::gen_callback_url("http://h"),
        "http://h/v1/pay/on_wechat_result_callback"
    );
    assert_eq!(
        WxAuthService::auth_url("A", "S", "C"),
        "https://api.weixin.qq.com/sns/jscode2session?appid=A&secret=S&js_code=C&grant_type=authorization_code"
    );
    assert_eq!(SmsService::phone_number("13700001234"), "+8613700001234");
}

#[test]
fn sms_codes() {
    assert_eq!(SmsService::format_sms_code(42), "000042");
    assert_eq!(SmsService::format_sms_code(999998), "999998");
    let service = SmsService::new().unwrap();
    let code = service.get_vc_fake("13700001234").unwrap();
    assert_eq!(code.len(), 6);
    let n: u32 = code.parse().unwrap();
    assert!(n >= 1 && n < 999999);
}

#[test]
fn session_answer_checks() {
    let ok = obj(vec![("openid", s("O1")), ("session_key", s("K1"))]);
    assert_eq!(
        WxAuthService::check_session_answer(&ok),
        Ok(("O1".to_string(), "K1".to_string()))
    );
    let ok0 = obj(vec![
        ("errcode", JsonValue::Number(JsonNumber::PosInt(0))),
        ("openid", s("O1")),
        ("session_key", s("K1")),
    ]);
    assert!(WxAuthService::check_session_answer(&ok0).is_ok());
    let refused = obj(vec![
        ("errcode", JsonValue::Number(JsonNumber::PosInt(40029))),
        ("errmsg", s("invalid code")),
    ]);
    assert_eq!(
        WxAuthService::check_session_answer(&refused),
        Err(ServiceError::Custom(RC_FAIL, "Request unionid error: 40029 invalid code".to_string()))
    );
    let refused_no_msg = obj(vec![("errcode", JsonValue::Number(JsonNumber::NegInt(-1)))]);
    assert_eq!(
        WxAuthService::check_session_answer(&refused_no_msg),
        Err(ServiceError::Custom(RC_FAIL, "Request unionid error: -1 ok".to_string()))
    );
    let no_key = obj(vec![("openid", s("O1"))]);
    assert_eq!(
        WxAuthService::check_session_answer(&no_key),
        Err(ServiceError::Custom(RC_FAIL, "field session_key not found".to_string()))
    );
    let no_openid = obj(vec![("session_key", s("K1"))]);
    assert_eq!(
        WxAuthService::check_session_answer(&no_openid),
        Err(ServiceError::Custom(RC_FAIL, "field openid not found".to_string()))
    );
}

#[test]
fn user_from_decrypted_info() {
    let info = obj(vec![
        ("nickName", s("Nick")),
        ("avatarUrl", s("http://img")),
        ("gender", JsonValue::Number(JsonNumber::PosInt(1))),
    ]);
    let u = WxAuthService::user_from_info("O1".to_string(), &info).unwrap();
    assert_eq!(u.open_id, "O1");
    assert_eq!(u.union_id, "O1");
    assert_eq!(u.url_head, "http://img");
    assert_eq!(u.usr_nick, "Nick");
    assert_eq!(u.usr_sex, Sex::Male);
    let info2 = obj(vec![
        ("nickName", s("N")),
        ("avatarUrl", s("h")),
        ("gender", s("2")),
    ]);
    assert_eq!(WxAuthService::user_from_info("O".to_string(), &info2).unwrap().usr_sex, Sex::Female);
    let missing = obj(vec![("nickName", s("N")), ("gender", s("2"))]);
    assert_eq!(
        WxAuthService::user_from_info("O".to_string(), &missing).err(),
        Some(ServiceError::Custom(RC_FAIL, "field avatarUrl not found".to_string()))
    );
}

#[test]
fn debug_user() {
    let service = WxAuthService::new().unwrap();
    let req = WxAuthRequest {
        ath_code: "c".to_string(),
        apl_idntfir: String::new(),
        spl_type: 2,
        vector: String::new(),
        cryption: String::new(),
    };
    let u = service.auth_debug(req).unwrap();
    assert_eq!(u.open_id, "");
    assert_eq!(u.usr_sex, Sex::Male);
    assert!(u.url_head.starts_with("https://thirdwx.qlogo.cn/"));
}
