//! WeChat login: the session-key request, the checks of its answer, the
//! decryption of the user's data and the user it describes.
use vstd::prelude::*;
use vstd::utf8::{decode_utf8, encode_utf8, valid_utf8};
use crate::error::{is_custom, ServiceError, RC_FAIL};
use crate::json::{
    get_json_integer, get_json_str, json_integer_spec, json_object_in, json_str_spec,
    parse_json_object, JsonObject,
};
use crate::model::{Sex, WxAuthRequest, WxAuthResponse};
use crate::text::{append_str, i64_to_decimal, signed_decimal};

verus! {

/// How users are authenticated.
#[derive(Debug, Clone, Copy, PartialEq, Eq, Structural)]
pub enum AuthRoute {
    /// with the login service of WeChat
    Local,
    /// through a proxy service
    Proxy,
    /// not at all: a made-up user is answered
    Debug,
}

/// The authentication service.
pub struct WxAuthService {}

/// The head image of the made-up user.
pub open spec fn debug_head_url() -> Seq<char> {
    "https://thirdwx.qlogo.cn/mmopen/vi_32/KMELdYwnYP7DQuoPYhd1icNnrtlERh4OJXO9MpiaAapavC5Az2nIRdU0BcNkJt4yE5LJXnKUsYaSrs57RqGo5N0A/132"@
}

/// The address that trades a login code for a session key.
pub open spec fn auth_url_spec(app_id: Seq<char>, app_secret: Seq<char>, code: Seq<char>) -> Seq<
    char,
> {
    "https://api.weixin.qq.com/sns/jscode2session?appid="@ + app_id + "&secret="@ + app_secret
        + "&js_code="@ + code + "&grant_type=authorization_code"@
}

/// The error code of an answer: its `errcode` member, or 0 where it cannot be read.
pub open spec fn answer_errcode(json: JsonObject) -> int {
    match json_integer_spec(json, "errcode"@) {
        Ok(v) => v,
        Err(_) => 0,
    }
}

/// The error message of an answer: its `errmsg` member, or `ok` where it cannot be read.
pub open spec fn answer_errmsg(json: JsonObject) -> Seq<char> {
    match json_str_spec(json, "errmsg"@) {
        Ok(s) => s,
        Err(_) => "ok"@,
    }
}

/// What the answer `json` to a session-key request gives: the open id and
/// the session key, or the message of the error.
pub open spec fn session_answer_spec(json: JsonObject) -> Result<(Seq<char>, Seq<char>), Seq<char>> {
    if answer_errcode(json) != 0 {
        Err(
            "Request unionid error: "@ + signed_decimal(answer_errcode(json)) + " "@
                + answer_errmsg(json),
        )
    } else {
        match (json_str_spec(json, "openid"@), json_str_spec(json, "session_key"@)) {
            (Err(m), _) => Err(m),
            (Ok(_), Err(m)) => Err(m),
            (Ok(o), Ok(k)) => Ok((o, k)),
        }
    }
}

/// The sex of a WeChat gender code: `1` male, anything else female.
pub open spec fn sex_of_gender(gender: int) -> Sex {
    if gender == 1 {
        Sex::Male
    } else {
        Sex::Female
    }
}

/// What the decrypted user data `info` gives: nickname, head image and
/// sex, or the message of the error.
pub open spec fn user_info_spec(info: JsonObject) -> Result<(Seq<char>, Seq<char>, Sex), Seq<char>> {
    match (
        json_str_spec(info, "nickName"@),
        json_str_spec(info, "avatarUrl"@),
        json_integer_spec(info, "gender"@),
    ) {
        (Err(m), _, _) => Err(m),
        (Ok(_), Err(m), _) => Err(m),
        (Ok(_), Ok(_), Err(m)) => Err(m),
        (Ok(nick), Ok(head), Ok(gender)) => Ok((nick, head, sex_of_gender(gender))),
    }
}

/// The base64 decoding of `text` (`openssl::base64::decode_block`), if it is valid base64.
pub uninterp spec fn base64_decoded(text: Seq<char>) -> Option<Seq<u8>>;

/// `openssl::base64::decode_block`: the bytes that `src` (without leading or
/// trailing white space) encodes in base64, or `None` where OpenSSL refuses
/// it; at most three bytes for every four characters, and three more for a
/// last short group (the room the function reserves). The call panics on a
/// text longer than `i32::MAX` bytes.
#[verifier::external_body]
fn decode_block(src: &str) -> (res: Option<Vec<u8>>)
    requires
        encode_utf8(src@).len() <= i32::MAX,
    ensures
        match res {
            Some(v) => base64_decoded(src@) == Some(v@) && v@.len() <= encode_utf8(src@).len()
                / 4 * 3 + 3,
            None => base64_decoded(src@) is None,
        },
{
    openssl::base64::decode_block(src).ok()
}

/// The AES-128-CBC decryption of `data` with `key` and `iv`, padding
/// removed, where it succeeds.
pub uninterp spec fn aes128_cbc_decrypted(key: Seq<u8>, iv: Seq<u8>, data: Seq<u8>) -> Option<
    Seq<u8>,
>;

/// `openssl::symm::decrypt(Cipher::aes_128_cbc(), key, Some(iv), data)`:
/// the plain text, or the text of the OpenSSL error. The error text is not
/// stated: it comes from the OpenSSL library of the machine. The key and
/// the initial vector must have the sixteen bytes that AES-128-CBC takes
/// (`Crypter::new` asks its caller for sizes that suit the cipher, and
/// asserts that they are large enough), and the data must fit in an `i32`,
/// or the call panics.
#[verifier::external_body]
fn aes_128_cbc_decrypt(key: &[u8], iv: &[u8], data: &[u8]) -> (res: Result<Vec<u8>, String>)
    requires
        key@.len() == 16,
        iv@.len() == 16,
        data@.len() <= i32::MAX,
    ensures
        match res {
            Ok(v) => aes128_cbc_decrypted(key@, iv@, data@) == Some(v@),
            Err(_) => aes128_cbc_decrypted(key@, iv@, data@) is None,
        },
{
    openssl::symm::decrypt(openssl::symm::Cipher::aes_128_cbc(), key, Some(iv), data).map_err(
        |e| e.to_string(),
    )
}

/// The text that `String::from_utf8_lossy` reads in `bytes`.
pub uninterp spec fn utf8_lossy(bytes: Seq<u8>) -> Seq<char>;

/// `String::from_utf8_lossy(bytes).to_string()`: the text of `bytes`, with
/// each invalid sequence replaced by U+FFFD; valid UTF-8 reads unchanged.
#[verifier::external_body]
fn from_utf8_lossy(bytes: &[u8]) -> (res: String)
    ensures
        res@ == utf8_lossy(bytes@),
        valid_utf8(bytes@) ==> res@ == decode_utf8(bytes@),
{
    String::from_utf8_lossy(bytes).to_string()
}

/// The user built from decrypted user data is male exactly when its
/// `gender` member reads as the integer 1, and female for every other value
/// (0 for a gender not given, 2 for female); nickname and head image are the
/// `nickName` and `avatarUrl` members.
pub proof fn lemma_user_sex_from_gender(info: JsonObject)
    ensures
        user_info_spec(info) matches Ok((nick, head, sex)) ==> {
            &&& (sex == Sex::Male <==> json_integer_spec(info, "gender"@) == Ok::<int, Seq<char>>(1))
            &&& (sex == Sex::Female <==> json_integer_spec(info, "gender"@) != Ok::<int, Seq<char>>(1))
            &&& json_str_spec(info, "nickName"@) == Ok::<Seq<char>, Seq<char>>(nick)
            &&& json_str_spec(info, "avatarUrl"@) == Ok::<Seq<char>, Seq<char>>(head)
        },
{
}

/// The message for a text too long to be decoded: its length does not fit in an `i32`.
pub open spec fn too_long_msg(what: Seq<char>) -> Seq<char> {
    "decode "@ + what + " failed: text too long"@
}

/// What decrypting the user data gives: the text of the plain text, or the
/// message of the first step that failed. `None` stands for a failed
/// decryption, whose message is `decrypt <data> failed: ` and a reason: the
/// OpenSSL error text, or, for a key or an initial vector that is not
/// sixteen bytes long, a message of the library's own.
pub open spec fn decrypt_spec(session_key: Seq<char>, crypt_data: Seq<char>, iv: Seq<char>) -> Result<
    Seq<char>,
    Option<Seq<char>>,
> {
    if encode_utf8(session_key).len() > i32::MAX {
        Err(Some(too_long_msg("session_key"@)))
    } else {
        match base64_decoded(session_key) {
            None => Err(Some("decode session_key "@ + session_key + " failed"@)),
            Some(sk) => if encode_utf8(crypt_data).len() > i32::MAX {
                Err(Some(too_long_msg("crypt data"@)))
            } else {
                match base64_decoded(crypt_data) {
                    None => Err(Some("decode crypt data "@ + crypt_data + " failed"@)),
                    Some(cd) => if encode_utf8(iv).len() > i32::MAX {
                        Err(Some(too_long_msg("iv"@)))
                    } else {
                        match base64_decoded(iv) {
                            None => Err(Some("decode iv "@ + iv + " failed"@)),
                            Some(ivb) => if sk.len() != 16 || ivb.len() != 16 {
                                Err(None)
                            } else {
                                match aes128_cbc_decrypted(sk, ivb, cd) {
                                    None => Err(None),
                                    Some(data) => Ok(utf8_lossy(data)),
                                }
                            },
                        }
                    },
                }
            },
        }
    }
}

/// Whether the UTF-8 bytes of `s` fit in an `i32` length.
fn fits_i32(s: &str) -> (res: bool)
    ensures
        res == (encode_utf8(s@).len() <= i32::MAX),
{
    s.as_bytes().len() <= 0x7fff_ffffusize
}

fn message3(a: &str, b: &str, c: &str) -> (res: String)
    ensures
        res@ == a@ + b@ + c@,
{
    let mut m = a.to_owned();
    append_str(&mut m, b);
    append_str(&mut m, c);
    m
}

impl WxAuthService {
    pub fn new() -> (res: Result<WxAuthService, ServiceError>)
        ensures
            res is Ok,
    {
        Ok(WxAuthService {})
    }

    /// The way users are authenticated in switcher mode `mode`: `1` proxy,
    /// `2` debug, else local.
    pub fn route(mode: u8) -> (res: AuthRoute)
        ensures
            res == (if mode == 1 {
                AuthRoute::Proxy
            } else if mode == 2 {
                AuthRoute::Debug
            } else {
                AuthRoute::Local
            }),
    {
        match mode {
            1 => AuthRoute::Proxy,
            2 => AuthRoute::Debug,
            _ => AuthRoute::Local,
        }
    }

    /// The made-up user of the debug mode.
    pub fn auth_debug(&self, req: WxAuthRequest) -> (res: Result<WxAuthResponse, ServiceError>)
        ensures
            res matches Ok(r) && r.open_id@.len() == 0 && r.union_id@.len() == 0 && r.url_head@
                == debug_head_url() && r.usr_nick@.len() == 0 && r.usr_sex == Sex::Male,
    {
        Ok(
            WxAuthResponse {
                open_id: String::new(),
                union_id: String::new(),
                url_head: "https://thirdwx.qlogo.cn/mmopen/vi_32/KMELdYwnYP7DQuoPYhd1icNnrtlERh4OJXO9MpiaAapavC5Az2nIRdU0BcNkJt4yE5LJXnKUsYaSrs57RqGo5N0A/132".to_owned(),
                usr_nick: String::new(),
                usr_sex: Sex::Male,
            },
        )
    }

    /// The address that trades the login code `code` for a session key.
    pub fn auth_url(app_id: &str, app_secret: &str, code: &str) -> (res: String)
        ensures
            res@ == auth_url_spec(app_id@, app_secret@, code@),
    {
        let mut s = "https://api.weixin.qq.com/sns/jscode2session?appid=".to_owned();
        append_str(&mut s, app_id);
        append_str(&mut s, "&secret=");
        append_str(&mut s, app_secret);
        append_str(&mut s, "&js_code=");
        append_str(&mut s, code);
        append_str(&mut s, "&grant_type=authorization_code");
        s
    }

    /// The open id and the session key of the answer `json` to a session-key
    /// request; an error where the answer has a non-zero error code, or lacks
    /// either of them.
    pub fn check_session_answer(json: &JsonObject) -> (res: Result<(String, String), ServiceError>)
        ensures
            match session_answer_spec(*json) {
                Err(m) => res matches Err(e) && is_custom(e, RC_FAIL, m),
                Ok((o, k)) => res matches Ok((ro, rk)) && ro@ == o && rk@ == k,
            },
    {
        let errmsg = match get_json_str(json, "errmsg") {
            Ok(s) => s,
            Err(_) => "ok".to_owned(),
        };
        let errcode = match get_json_integer(json, "errcode") {
            Ok(v) => v,
            Err(_) => 0,
        };
        if errcode != 0 {
            let mut m = "Request unionid error: ".to_owned();
            append_str(&mut m, i64_to_decimal(errcode).as_str());
            append_str(&mut m, " ");
            append_str(&mut m, errmsg.as_str());
            return Err(ServiceError::Custom(RC_FAIL, m));
        }
        let open_id = match get_json_str(json, "openid") {
            Ok(v) => v,
            Err(e) => {
                return Err(e);
            },
        };
        let session_key = match get_json_str(json, "session_key") {
            Ok(v) => v,
            Err(e) => {
                return Err(e);
            },
        };
        Ok((open_id, session_key))
    }

    /// The user described by the decrypted user data `info`, whose open id is `open_id`.
    pub fn user_from_info(open_id: String, info: &JsonObject) -> (res: Result<
        WxAuthResponse,
        ServiceError,
    >)
        ensures
            match user_info_spec(*info) {
                Err(m) => res matches Err(e) && is_custom(e, RC_FAIL, m),
                Ok((nick, head, sex)) => res matches Ok(r) && r.open_id@ == open_id@
                    && r.union_id@ == open_id@ && r.url_head@ == head && r.usr_nick@ == nick
                    && r.usr_sex == sex,
            },
    {
        let nick = match get_json_str(info, "nickName") {
            Ok(v) => v,
            Err(e) => {
                return Err(e);
            },
        };
        let head_url = match get_json_str(info, "avatarUrl") {
            Ok(v) => v,
            Err(e) => {
                return Err(e);
            },
        };
        let sex = match get_json_integer(info, "gender") {
            Ok(v) => v,
            Err(e) => {
                return Err(e);
            },
        };
        Ok(
            WxAuthResponse {
                open_id: open_id.clone(),
                union_id: open_id,
                url_head: head_url,
                usr_nick: nick,
                usr_sex: if sex == 1 {
                    Sex::Male
                } else {
                    Sex::Female
                },
            },
        )
    }

    /// Decrypts the user data `crypt_data` with the session key and the
    /// initial vector, all three in base64.
    pub fn decryt(sesion_key: &str, crypt_data: &str, iv: &str) -> (res: Result<
        String,
        ServiceError,
    >)
        ensures
            match decrypt_spec(sesion_key@, crypt_data@, iv@) {
                Ok(t) => res matches Ok(s) && s@ == t,
                Err(Some(m)) => res matches Err(e) && is_custom(e, RC_FAIL, m),
                Err(None) => res matches Err(e) && e matches ServiceError::Custom(c, m) && c
                    == RC_FAIL && exists|t: Seq<char>|
                    m@ == "decrypt "@ + crypt_data@ + " failed: "@ + t,
            },
    {
        if !fits_i32(sesion_key) {
            return Err(ServiceError::Custom(RC_FAIL, message3("decode ", "session_key", " failed: text too long")));
        }
        let sk = match decode_block(sesion_key) {
            Some(v) => v,
            None => {
                return Err(
                    ServiceError::Custom(RC_FAIL, message3("decode session_key ", sesion_key, " failed")),
                );
            },
        };
        if !fits_i32(crypt_data) {
            return Err(ServiceError::Custom(RC_FAIL, message3("decode ", "crypt data", " failed: text too long")));
        }
        let cd = match decode_block(crypt_data) {
            Some(v) => v,
            None => {
                return Err(
                    ServiceError::Custom(RC_FAIL, message3("decode crypt data ", crypt_data, " failed")),
                );
            },
        };
        if !fits_i32(iv) {
            return Err(ServiceError::Custom(RC_FAIL, message3("decode ", "iv", " failed: text too long")));
        }
        let iv_ = match decode_block(iv) {
            Some(v) => v,
            None => {
                return Err(ServiceError::Custom(RC_FAIL, message3("decode iv ", iv, " failed")));
            },
        };
        if sk.len() != 16 || iv_.len() != 16 {
            let mut m = message3("decrypt ", crypt_data, " failed: ");
            append_str(&mut m, "invalid key or iv length");
            return Err(ServiceError::Custom(RC_FAIL, m));
        }
        let data = match aes_128_cbc_decrypt(sk.as_slice(), iv_.as_slice(), cd.as_slice()) {
            Ok(d) => d,
            Err(e) => {
                let m = message3("decrypt ", crypt_data, " failed: ");
                let mut full = m;
                append_str(&mut full, e.as_str());
                return Err(ServiceError::Custom(RC_FAIL, full));
            },
        };
        Ok(from_utf8_lossy(data.as_slice()))
    }

    /// The user that the answer `answer` to a session-key request and the
    /// encrypted data of `req` describe: the answer is read as a JSON object,
    /// checked, its session key decrypts the user data, which is read as a
    /// JSON object and gives the user.
    pub fn auth_from_answer(answer: &[u8], req: &WxAuthRequest) -> (res: Result<
        WxAuthResponse,
        ServiceError,
    >)
        ensures
            match json_object_in(answer@) {
                None => res matches Err(ServiceError::Json),
                Some(json) => match session_answer_spec(json) {
                    Err(m) => res matches Err(e) && is_custom(e, RC_FAIL, m),
                    Ok((open_id, key)) => match decrypt_spec(key, req.cryption@, req.vector@) {
                        Err(Some(m)) => res matches Err(e) && is_custom(e, RC_FAIL, m),
                        Err(None) => res matches Err(e) && e matches ServiceError::Custom(c, m) && c
                            == RC_FAIL && exists|t: Seq<char>|
                            m@ == "decrypt "@ + req.cryption@ + " failed: "@ + t,
                        Ok(text) => match json_object_in(encode_utf8(text)) {
                            None => res matches Err(ServiceError::Json),
                            Some(info) => match user_info_spec(info) {
                                Err(m) => res matches Err(e) && is_custom(e, RC_FAIL, m),
                                Ok((nick, head, sex)) => res matches Ok(r) && r.open_id@ == open_id
                                    && r.union_id@ == open_id && r.url_head@ == head && r.usr_nick@
                                    == nick && r.usr_sex == sex,
                            },
                        },
                    },
                },
            },
    {
        let json = match parse_json_object(answer) {
            Some(j) => j,
            None => {
                return Err(ServiceError::Json);
            },
        };
        let (open_id, session_key) = match Self::check_session_answer(&json) {
            Ok(p) => p,
            Err(e) => {
                return Err(e);
            },
        };
        let text = match Self::decryt(session_key.as_str(), req.cryption.as_str(), req.vector.as_str()) {
            Ok(t) => t,
            Err(e) => {
                return Err(e);
            },
        };
        let info = match parse_json_object(text.as_str().as_bytes()) {
            Some(i) => i,
            None => {
                return Err(ServiceError::Json);
            },
        };
        Self::user_from_info(open_id, &info)
    }
}

} // verus!
