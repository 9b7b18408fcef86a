use service_starter::error::{ServiceError, RC_FAIL};
use service_starter::sms::SmsService;
use service_starter::token::Token;
use service_starter::util::mask_mobile;
use service_starter::model::{Sex, WxAuthRequest};
use service_starter::wxauth::WxAuthService;

#[test]
fn test_mask_mobile() {
    assert_eq!(mask_mobile("13700001234".to_string()), "137****1234");
    assert_eq!(mask_mobile("1370001234".to_string()), "****");
}

#[test]
fn test_gen_vc() {
    for _ in 0..1000 {
        let vc = SmsService::gen_sms_code();
        assert!(vc.len() == 6);
    }
}

#[test]
fn test_token() {
    let s = "this is ok";
    let s1 = Token::make_token(s);
    let s2 = Token::make_token(s);
    println!("key {} s1 {} s2 {}", s, s1, s2);
    assert_ne!(s1, s2);
    assert_eq!(Token::make_token("").len(), 32);
    assert_eq!(Token::make_token("1111222233334444555566667777888899990000").len(), 32);
}

#[test]
fn test_wx_decrypt() {
    let session_key = "tiihtNczf5v6AKRyjwEUhQ==";
    let encrypted_data = "CiyLU1Aw2KjvrjMdj8YKliAjtP4gsMZMQmRzooG2xrDcvSnxIMXFufNstNGTyaGS9uT5geRa0W4oTOb1WT7fJlAC+oNPdbB+3hVbJSRgv+4lGOETKUQz6OYStslQ142dNCuabNPGBzlooOmB231qMM85d2/fV6ChevvXvQP8Hkue1poOFtnEtpyxVLW1zAo6/1Xx1COxFvrc2d7UL/lmHInNlxuacJXwu0fjpXfz/YqYzBIBzD6WUfTIF9GRHpOn/Hz7saL8xz+W//FRAUid1OksQaQx4CMs8LOddcQhULW4ucetDf96JcR3g0gfRK4PC7E/r7Z6xNrXd2UIeorGj5Ef7b1pJAYB6Y5anaHqZ9J6nKEBvB4DnNLIVWSgARns/8wR2SiRS7MNACwTyrGvt9ts8p12PKFdlqYTopNHR1Vf7XjfhQlVsAJdNiKdYmYVoKlaRv85IfVunYzO0IKXsyl7JCUjCpoG20f0a04COwfneQAGGwd5oa+T8yO5hzuyDb/XcxxmK01EpqOyuxINew==";
    let iv = "r7BXXKkLb8qrSNn05n0qiA==";
    let _service = WxAuthService::new().unwrap();
    let s = match WxAuthService::decryt(session_key, encrypted_data, iv) {
        Ok(s) => s,
        Err(e) => panic!("decrypt failed: {:?}", e),
    };
    println!("decrypt {}", s);
    let json: serde_json::Value = serde_json::from_str(s.as_str()).unwrap();
    println!("json {:?}", json);
}

#[test]
fn mask_mobile_keeps_all_but_four_digits() {
    assert_eq!(mask_mobile("13712345678".to_string()), "137****5678");
    assert_eq!(mask_mobile("+8613712345678".to_string()), "+86137****5678");
    assert_eq!(mask_mobile("".to_string()), "****");
}

#[test]
fn token_is_md5_of_key_and_nonce() {
    let t = Token::token_from("key", "nonce");
    assert_eq!(t, format!("{:X}", md5::compute("keynonce")));
    let made = Token::make_token("abc");
    assert_eq!(made.len(), 32);
    assert!(made.chars().all(|c| c.is_ascii_digit() || ('A'..='F').contains(&c)));
}

#[test]
fn decrypt_reports_each_failing_step() {
    assert_eq!(
        WxAuthService::decryt("!!!!", "AQIDBAU=", "AAAAAAAAAAAAAAAAAAAAAA=="),
        Err(ServiceError::Custom(RC_FAIL, "decode session_key !!!! failed".to_string()))
    );
    assert_eq!(
        WxAuthService::decryt("AAAAAAAAAAAAAAAAAAAAAA==", "!!!!", "AAAAAAAAAAAAAAAAAAAAAA=="),
        Err(ServiceError::Custom(RC_FAIL, "decode crypt data !!!! failed".to_string()))
    );
    assert_eq!(
        WxAuthService::decryt("AAAAAAAAAAAAAAAAAAAAAA==", "AQIDBAU=", "!!!!"),
        Err(ServiceError::Custom(RC_FAIL, "decode iv !!!! failed".to_string()))
    );
    assert_eq!(
        WxAuthService::decryt("AAAAAAAAAAAAAAAAAAAAAA==", "AQIDBAU=", "AAAA"),
        Err(ServiceError::Custom(
            RC_FAIL,
            "decrypt AQIDBAU= failed: invalid key or iv length".to_string()
        ))
    );
    assert_eq!(
        WxAuthService::decryt("AAAA", "AQIDBAU=", "AAAAAAAAAAAAAAAAAAAAAA=="),
        Err(ServiceError::Custom(
            RC_FAIL,
            "decrypt AQIDBAU= failed: invalid key or iv length".to_string()
        ))
    );
    match WxAuthService::decryt("AAAAAAAAAAAAAAAAAAAAAA==", "AQIDBAU=", "AAAAAAAAAAAAAAAAAAAAAA==") {
        Err(ServiceError::Custom(code, m)) => {
            assert_eq!(code, RC_FAIL);
            assert!(m.starts_with("decrypt AQIDBAU= failed: "));
        }
        other => panic!("unexpected {:?}", other),
    }
}

const SAMPLE_KEY: &str = "tiihtNczf5v6AKRyjwEUhQ==";
const SAMPLE_IV: &str = "r7BXXKkLb8qrSNn05n0qiA==";
const SAMPLE_DATA: &str = "CiyLU1Aw2KjvrjMdj8YKliAjtP4gsMZMQmRzooG2xrDcvSnxIMXFufNstNGTyaGS9uT5geRa0W4oTOb1WT7fJlAC+oNPdbB+3hVbJSRgv+4lGOETKUQz6OYStslQ142dNCuabNPGBzlooOmB231qMM85d2/fV6ChevvXvQP8Hkue1poOFtnEtpyxVLW1zAo6/1Xx1COxFvrc2d7UL/lmHInNlxuacJXwu0fjpXfz/YqYzBIBzD6WUfTIF9GRHpOn/Hz7saL8xz+W//FRAUid1OksQaQx4CMs8LOddcQhULW4ucetDf96JcR3g0gfRK4PC7E/r7Z6xNrXd2UIeorGj5Ef7b1pJAYB6Y5anaHqZ9J6nKEBvB4DnNLIVWSgARns/8wR2SiRS7MNACwTyrGvt9ts8p12PKFdlqYTopNHR1Vf7XjfhQlVsAJdNiKdYmYVoKlaRv85IfVunYzO0IKXsyl7JCUjCpoG20f0a04COwfneQAGGwd5oa+T8yO5hzuyDb/XcxxmK01EpqOyuxINew==";

fn sample_request() -> WxAuthRequest {
    WxAuthRequest {
        ath_code: "code".to_string(),
        apl_idntfir: String::new(),
        spl_type: 2,
        vector: SAMPLE_IV.to_string(),
        cryption: SAMPLE_DATA.to_string(),
    }
}

#[test]
fn auth_from_a_session_answer() {
    let answer = format!(r#"{{"openid": "O1", "session_key": "{}"}}"#, SAMPLE_KEY);
    let user = WxAuthService::auth_from_answer(answer.as_bytes(), &sample_request()).unwrap();
    let plain = WxAuthService::decryt(SAMPLE_KEY, SAMPLE_DATA, SAMPLE_IV).unwrap();
    let info: serde_json::Value = serde_json::from_str(plain.as_str()).unwrap();
    assert_eq!(user.open_id, "O1");
    assert_eq!(user.union_id, "O1");
    assert_eq!(serde_json::Value::String(user.usr_nick.clone()), info["nickName"]);
    assert_eq!(serde_json::Value::String(user.url_head.clone()), info["avatarUrl"]);
    let male = info["gender"].as_i64() == Some(1);
    assert_eq!(user.usr_sex, if male { Sex::Male } else { Sex::Female });
}

#[test]
fn auth_from_a_refused_answer() {
    assert_eq!(
        WxAuthService::auth_from_answer(b"<html>", &sample_request()).err(),
        Some(ServiceError::Json)
    );
    assert_eq!(
        WxAuthService::auth_from_answer(br#"{"errcode": 40163, "errmsg": "code been used"}"#, &sample_request())
            .err(),
        Some(ServiceError::Custom(RC_FAIL, "Request unionid error: 40163 code been used".to_string()))
    );
    assert_eq!(
        WxAuthService::auth_from_answer(br#"{"openid": "O1", "session_key": "!!!!"}"#, &sample_request())
            .err(),
        Some(ServiceError::Custom(RC_FAIL, "decode session_key !!!! failed".to_string()))
    );
}
