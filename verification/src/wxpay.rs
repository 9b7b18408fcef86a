//! WeChat payment: the signed order request sent to the payment gateway
//! and the signed payment token handed to the client from its answer.
use vstd::prelude::*;
use vstd::relations::total_ordering;
use vstd::seq_lib::lemma_sorted_unique;
use crate::config::WxPayConfig;
use crate::digest::{md5_hex, md5_hex_spec};
use crate::error::{is_custom, ServiceError, RC_FAIL};
use crate::json::{json_string_object, json_string_object_text};
use crate::order::{lemma_pair_order_total, names_distinct, pair_order, pairs_view, sort_pairs};
use crate::random::{next_u32, thread_rng};
use crate::text::{
    append_str, decimal, hex_fixed, lemma_hex_fixed_len, lemma_parse_decimal_roundtrip,
    parse_i64_spec, push_char, str_eq, u32_to_hex8, u64_to_decimal, IntErrorKind,
};

verus! {

/// How payments are made.
#[derive(Debug, Clone, Copy, PartialEq, Eq, Structural)]
pub enum PayRoute {
    /// with the payment gateway of WeChat
    Local,
    /// through a proxy service
    Proxy,
}

/// The payment service.
pub struct WxPayService {}

/// `name=value` pairs joined by `&`.
pub open spec fn join_params(ps: Seq<(Seq<char>, Seq<char>)>) -> Seq<char>
    decreases ps.len(),
{
    if ps.len() == 0 {
        seq![]
    } else if ps.len() == 1 {
        ps[0].0 + seq!['='] + ps[0].1
    } else {
        join_params(ps.drop_last()) + seq!['&'] + ps.last().0 + seq!['='] + ps.last().1
    }
}

/// The text that is signed: the parameters ordered by name, joined, then `&key=` and the key.
pub open spec fn sign_text(params: Seq<(Seq<char>, Seq<char>)>, key: Seq<char>) -> Seq<char> {
    join_params(params.sort_by(pair_order())) + "&key="@ + key
}

/// The signature of `params` under `key`: the MD5 digest of the signed
/// text in upper-case hexadecimal.
pub open spec fn sign_spec(params: Seq<(Seq<char>, Seq<char>)>, key: Seq<char>) -> Seq<char> {
    md5_hex_spec(sign_text(params, key), true)
}

/// A signature depends on the parameters, not on the order they are given in.
pub proof fn lemma_sign_ignores_order(
    p: Seq<(Seq<char>, Seq<char>)>,
    q: Seq<(Seq<char>, Seq<char>)>,
    key: Seq<char>,
)
    requires
        p.to_multiset() == q.to_multiset(),
    ensures
        sign_text(p, key) == sign_text(q, key),
        sign_spec(p, key) == sign_spec(q, key),
{
    lemma_pair_order_total();
    p.lemma_sort_by_ensures(pair_order());
    q.lemma_sort_by_ensures(pair_order());
    lemma_sorted_unique(p.sort_by(pair_order()), q.sort_by(pair_order()), pair_order());
}

/// `<tag><![CDATA[value]]></tag>`
pub open spec fn cdata(tag: Seq<char>, value: Seq<char>) -> Seq<char> {
    "<"@ + tag + "><![CDATA["@ + value + "]]></"@ + tag + ">"@
}

fn push_cdata(s: &mut String, tag: &str, value: &str)
    ensures
        final(s)@ == old(s)@ + cdata(tag@, value@),
{
    append_str(s, "<");
    append_str(s, tag);
    append_str(s, "><![CDATA[");
    append_str(s, value);
    append_str(s, "]]></");
    append_str(s, tag);
    append_str(s, ">");
    proof {
        assert(final(s)@ =~= old(s)@ + cdata(tag@, value@));
    }
}

/// An order as the payment gateway of WeChat takes it.
pub struct WxLocalPayRequest {
    pub app_id: String,
    pub mch_id: String,
    pub nonce_str: String,
    pub body: String,
    pub out_trade_no: String,
    pub total_fee: u32,
    pub spbill_create_ip: String,
    pub notify_url: String,
    pub trade_type: String,
    pub open_id: String,
    pub sign: String,
}

/// The signed parameters of an order.
pub open spec fn pay_params(r: WxLocalPayRequest) -> Seq<(Seq<char>, Seq<char>)> {
    seq![
        ("appid"@, r.app_id@),
        ("mch_id"@, r.mch_id@),
        ("nonce_str"@, r.nonce_str@),
        ("body"@, r.body@),
        ("out_trade_no"@, r.out_trade_no@),
        ("total_fee"@, decimal(r.total_fee as nat)),
        ("spbill_create_ip"@, r.spbill_create_ip@),
        ("notify_url"@, r.notify_url@),
        ("trade_type"@, r.trade_type@),
        ("openid"@, r.open_id@),
    ]
}

proof fn lemma_pay_names_distinct(r: WxLocalPayRequest)
    ensures
        names_distinct(pay_params(r)),
{
    let ps = pay_params(r);
    reveal_strlit("appid");
    reveal_strlit("mch_id");
    reveal_strlit("nonce_str");
    reveal_strlit("body");
    reveal_strlit("out_trade_no");
    reveal_strlit("total_fee");
    reveal_strlit("spbill_create_ip");
    reveal_strlit("notify_url");
    reveal_strlit("trade_type");
    reveal_strlit("openid");
    assert forall|i: int, j: int| 0 <= i < j < ps.len() implies #[trigger] ps[i].0 != #[trigger] ps[j].0 by {
        if ps[i].0.len() == ps[j].0.len() {
            assert(ps[i].0[0] != ps[j].0[0]);
        }
    }
}

/// The XML text of an order with the signature `sign`.
pub open spec fn pay_xml(r: WxLocalPayRequest, sign: Seq<char>) -> Seq<char> {
    "<xml>"@ + cdata("appid"@, r.app_id@) + cdata("mch_id"@, r.mch_id@) + cdata(
        "nonce_str"@,
        r.nonce_str@,
    ) + cdata("body"@, r.body@) + cdata("out_trade_no"@, r.out_trade_no@) + cdata(
        "total_fee"@,
        decimal(r.total_fee as nat),
    ) + cdata("spbill_create_ip"@, r.spbill_create_ip@) + cdata("notify_url"@, r.notify_url@)
        + cdata("trade_type"@, r.trade_type@) + cdata("openid"@, r.open_id@) + cdata("sign"@, sign)
        + "</xml>"@
}

/// The amount of an order, in its signed parameters and in its XML text,
/// is a text that reads back as the order's `total_fee`: the gateway is
/// asked for exactly the amount of the order, and the signature covers it.
pub proof fn lemma_total_fee_reads_back(r: WxLocalPayRequest, sign: Seq<char>)
    ensures
        exists|t: Seq<char>|
            #![trigger pay_params(r).contains(("total_fee"@, t))]
            parse_i64_spec(t) == Ok::<int, IntErrorKind>(r.total_fee as int) && pay_params(
                r,
            ).contains(("total_fee"@, t)) && exists|a: Seq<char>, b: Seq<char>|
                pay_xml(r, sign) == a + #[trigger] cdata("total_fee"@, t) + b,
{
    let t = decimal(r.total_fee as nat);
    lemma_parse_decimal_roundtrip(r.total_fee as i64);
    assert(pay_params(r)[5] == ("total_fee"@, t));
    assert(pay_params(r).contains(("total_fee"@, t)));
    let a = "<xml>"@ + cdata("appid"@, r.app_id@) + cdata("mch_id"@, r.mch_id@) + cdata(
        "nonce_str"@,
        r.nonce_str@,
    ) + cdata("body"@, r.body@) + cdata("out_trade_no"@, r.out_trade_no@);
    let b = cdata("spbill_create_ip"@, r.spbill_create_ip@) + cdata("notify_url"@, r.notify_url@)
        + cdata("trade_type"@, r.trade_type@) + cdata("openid"@, r.open_id@) + cdata("sign"@, sign)
        + "</xml>"@;
    assert(pay_xml(r, sign) =~= a + cdata("total_fee"@, t) + b);
}

fn pair(name: &str, value: &str) -> (res: (String, String))
    ensures
        res.0@ == name@,
        res.1@ == value@,
{
    (name.to_owned(), value.to_owned())
}

impl WxLocalPayRequest {
    /// A fresh random nonce: eight upper-case hexadecimal digits.
    pub fn gen_nonce() -> (res: String)
        ensures
            exists|r: u32| res@ == #[trigger] hex_fixed(r as nat, 8, true),
            res@.len() == 8,
    {
        let mut rng = thread_rng();
        let r = next_u32(&mut rng);
        proof {
            lemma_hex_fixed_len(r as nat, 8, true);
        }
        u32_to_hex8(r)
    }

    /// The signature of the name-value pairs `values` under `key`. The pairs
    /// stand for a map from names to values: each name is given once.
    pub fn gen_sign(values: &Vec<(String, String)>, key: &str) -> (res: String)
        requires
            names_distinct(pairs_view(values@)),
        ensures
            res@ == sign_spec(pairs_view(values@), key@),
            res@.len() == 32,
    {
        let sorted = sort_pairs(values);
        let ghost sv = pairs_view(sorted@);
        let mut sign_str = String::new();
        let mut i: usize = 0;
        while i < sorted.len()
            invariant
                i <= sorted@.len(),
                sv == pairs_view(sorted@),
                sign_str@ == join_params(sv.take(i as int)),
            decreases sorted@.len() - i,
        {
            if i > 0 {
                push_char(&mut sign_str, '&');
            }
            append_str(&mut sign_str, sorted[i].0.as_str());
            push_char(&mut sign_str, '=');
            append_str(&mut sign_str, sorted[i].1.as_str());
            proof {
                let t = sv.take(i + 1);
                assert(t.last() == sv[i as int]);
                assert(t.drop_last() =~= sv.take(i as int));
                if i == 0 {
                    assert(sign_str@ =~= join_params(t));
                } else {
                    assert(sign_str@ =~= join_params(t));
                }
            }
            i = i + 1;
        }
        append_str(&mut sign_str, "&key=");
        append_str(&mut sign_str, key);
        proof {
            assert(sv.take(sv.len() as int) =~= sv);
            assert(sign_str@ =~= sign_text(pairs_view(values@), key@));
        }
        md5_hex(sign_str.as_str(), true)
    }

    /// The XML text of this order, signed under `key`.
    pub fn build(self, key: &str) -> (res: Result<String, ServiceError>)
        ensures
            res matches Ok(x) && x@ == pay_xml(self, sign_spec(pay_params(self), key@)),
    {
        let total_fee = u64_to_decimal(self.total_fee as u64);
        let mut params: Vec<(String, String)> = Vec::new();
        params.push(pair("appid", self.app_id.as_str()));
        params.push(pair("mch_id", self.mch_id.as_str()));
        params.push(pair("nonce_str", self.nonce_str.as_str()));
        params.push(pair("body", self.body.as_str()));
        params.push(pair("out_trade_no", self.out_trade_no.as_str()));
        params.push(pair("total_fee", total_fee.as_str()));
        params.push(pair("spbill_create_ip", self.spbill_create_ip.as_str()));
        params.push(pair("notify_url", self.notify_url.as_str()));
        params.push(pair("trade_type", self.trade_type.as_str()));
        params.push(pair("openid", self.open_id.as_str()));
        proof {
            assert(pairs_view(params@) =~= pay_params(self));
        }
        proof {
            lemma_pay_names_distinct(self);
        }
        let mut req = self;
        req.sign = Self::gen_sign(&params, key);
        let mut s = "<xml>".to_owned();
        push_cdata(&mut s, "appid", req.app_id.as_str());
        push_cdata(&mut s, "mch_id", req.mch_id.as_str());
        push_cdata(&mut s, "nonce_str", req.nonce_str.as_str());
        push_cdata(&mut s, "body", req.body.as_str());
        push_cdata(&mut s, "out_trade_no", req.out_trade_no.as_str());
        push_cdata(&mut s, "total_fee", total_fee.as_str());
        push_cdata(&mut s, "spbill_create_ip", req.spbill_create_ip.as_str());
        push_cdata(&mut s, "notify_url", req.notify_url.as_str());
        push_cdata(&mut s, "trade_type", req.trade_type.as_str());
        push_cdata(&mut s, "openid", req.open_id.as_str());
        push_cdata(&mut s, "sign", req.sign.as_str());
        append_str(&mut s, "</xml>");
        Ok(s)
    }
}

/// What the payment gateway answers to an order.
pub struct WxLocalPayResponse {
    pub return_code: String,
    pub return_msg: String,
    pub app_id: String,
    pub mch_id: String,
    pub nonce_str: String,
    pub sign: String,
    pub result_code: String,
    pub err_code: Option<String>,
    pub err_code_des: Option<String>,
    pub trade_type: String,
    pub prepay_id: String,
}

/// The message of a refused order.
pub open spec fn pay_refused_msg() -> Seq<char> {
    "微信发起支付失败"@
}

/// The signed parameters of the payment token of an answer, at `now_ms` milliseconds.
pub open spec fn token_params(res: WxLocalPayResponse, now_ms: u64) -> Seq<(Seq<char>, Seq<char>)> {
    seq![
        ("appId"@, res.app_id@),
        ("package"@, "prepay_id="@ + res.prepay_id@),
        ("nonceStr"@, res.nonce_str@),
        ("timeStamp"@, decimal((now_ms / 1000) as nat)),
        ("signType"@, "MD5"@),
    ]
}

/// The members of the payment token: its signed parameters and their signature.
pub open spec fn token_members(res: WxLocalPayResponse, now_ms: u64, key: Seq<char>) -> Seq<
    (Seq<char>, Seq<char>),
> {
    token_params(res, now_ms).push(("sign"@, sign_spec(token_params(res, now_ms), key)))
}

/// The payment token carries the whole prepay id of the answer in its
/// `package` member, as `prepay_id=<prepay_id>`, and is signed over it,
/// together with the answer's app id and nonce, the time in seconds and
/// the signature type `MD5`.
pub proof fn lemma_token_carries_prepay_id(res: WxLocalPayResponse, now_ms: u64, key: Seq<char>)
    ensures
        token_params(res, now_ms).contains(("package"@, "prepay_id="@ + res.prepay_id@)),
        token_params(res, now_ms).contains(("appId"@, res.app_id@)),
        token_params(res, now_ms).contains(("nonceStr"@, res.nonce_str@)),
        token_params(res, now_ms).contains(("signType"@, "MD5"@)),
        token_members(res, now_ms, key).contains(("package"@, "prepay_id="@ + res.prepay_id@)),
        token_members(res, now_ms, key).contains(
            ("sign"@, sign_spec(token_params(res, now_ms), key)),
        ),
        token_members(res, now_ms, key).len() == 6,
{
    let p = token_params(res, now_ms);
    let m = token_members(res, now_ms, key);
    assert(p[0] == ("appId"@, res.app_id@));
    assert(p[1] == ("package"@, "prepay_id="@ + res.prepay_id@));
    assert(p[2] == ("nonceStr"@, res.nonce_str@));
    assert(p[4] == ("signType"@, "MD5"@));
    assert(m[1] == ("package"@, "prepay_id="@ + res.prepay_id@));
    assert(m[5] == ("sign"@, sign_spec(p, key)));
}

proof fn lemma_token_names_distinct(res: WxLocalPayResponse, now_ms: u64, key: Seq<char>)
    ensures
        names_distinct(token_params(res, now_ms)),
        names_distinct(token_members(res, now_ms, key)),
{
    let ps = token_members(res, now_ms, key);
    reveal_strlit("appId");
    reveal_strlit("package");
    reveal_strlit("nonceStr");
    reveal_strlit("timeStamp");
    reveal_strlit("signType");
    reveal_strlit("sign");
    assert forall|i: int, j: int| 0 <= i < j < ps.len() implies #[trigger] ps[i].0 != #[trigger] ps[j].0 by {
        if ps[i].0.len() == ps[j].0.len() {
            assert(ps[i].0[0] != ps[j].0[0]);
        }
    }
    let qs = token_params(res, now_ms);
    assert forall|i: int, j: int| 0 <= i < j < qs.len() implies #[trigger] qs[i].0 != #[trigger] qs[j].0 by {
        assert(qs[i] == ps[i] && qs[j] == ps[j]);
    }
}

impl WxPayService {
    pub fn new() -> (res: Result<WxPayService, ServiceError>)
        ensures
            res is Ok,
    {
        Ok(WxPayService {})
    }

    /// The way payments are made in switcher mode `mode`: `1` proxy, else local.
    pub fn route(mode: u8) -> (res: PayRoute)
        ensures
            res == (if mode == 1 {
                PayRoute::Proxy
            } else {
                PayRoute::Local
            }),
    {
        if mode == 1 {
            PayRoute::Proxy
        } else {
            PayRoute::Local
        }
    }

    /// Where the payment gateway reports the result of a payment.
    pub fn gen_callback_url(base_url: &str) -> (res: String)
        ensures
            res@ == base_url@ + "/v1/pay/on_wechat_result_callback"@,
    {
        let mut s = base_url.to_owned();
        append_str(&mut s, "/v1/pay/on_wechat_result_callback");
        s
    }

    /// The order of `total_fee` cents for the order code `order_code`, paid
    /// by the user `union_id`, with the nonce `nonce_str`, not yet signed.
    pub fn local_pay_request(
        cfg: &WxPayConfig,
        union_id: &str,
        order_code: &str,
        total_fee: u32,
        nonce_str: String,
    ) -> (res: WxLocalPayRequest)
        ensures
            res.app_id@ == cfg.app_id@,
            res.mch_id@ == cfg.mch_id@,
            res.nonce_str@ == nonce_str@,
            res.body@ == "购买"@,
            res.out_trade_no@ == order_code@,
            res.total_fee == total_fee,
            res.spbill_create_ip@ == "127.0.0.1"@,
            res.notify_url@ == cfg.call_back_base_url@ + "/v1/pay/on_wechat_result_callback"@,
            res.trade_type@ == "JSAPI"@,
            res.open_id@ == union_id@,
            res.sign@.len() == 0,
    {
        WxLocalPayRequest {
            app_id: cfg.app_id.clone(),
            mch_id: cfg.mch_id.clone(),
            nonce_str,
            body: "购买".to_owned(),
            out_trade_no: order_code.to_owned(),
            total_fee,
            spbill_create_ip: "127.0.0.1".to_owned(),
            notify_url: Self::gen_callback_url(cfg.call_back_base_url.as_str()),
            trade_type: "JSAPI".to_owned(),
            open_id: union_id.to_owned(),
            sign: String::new(),
        }
    }

    /// The payment token handed to the client for the gateway's answer
    /// `res`, at `now_ms` milliseconds, signed under `app_secret`; an error
    /// where both the return code and the result code differ from `SUCCESS`.
    pub fn pay_token_from_response(res: &WxLocalPayResponse, now_ms: u64, app_secret: &str) -> (out:
        Result<String, ServiceError>)
        ensures
            if res.return_code@ != "SUCCESS"@ && res.result_code@ != "SUCCESS"@ {
                out matches Err(e) && is_custom(e, RC_FAIL, pay_refused_msg())
            } else {
                out matches Ok(x) && x@ == json_string_object_text(
                    token_members(*res, now_ms, app_secret@),
                )
            },
    {
        if !str_eq(res.return_code.as_str(), "SUCCESS") && !str_eq(
            res.result_code.as_str(),
            "SUCCESS",
        ) {
            return Err(ServiceError::Custom(RC_FAIL, "微信发起支付失败".to_owned()));
        }
        let ts = u64_to_decimal(now_ms / 1000);
        let mut package = "prepay_id=".to_owned();
        append_str(&mut package, res.prepay_id.as_str());
        let mut params: Vec<(String, String)> = Vec::new();
        params.push(pair("appId", res.app_id.as_str()));
        params.push(pair("package", package.as_str()));
        params.push(pair("nonceStr", res.nonce_str.as_str()));
        params.push(pair("timeStamp", ts.as_str()));
        params.push(pair("signType", "MD5"));
        proof {
            assert(pairs_view(params@) =~= token_params(*res, now_ms));
        }
        proof {
            lemma_token_names_distinct(*res, now_ms, app_secret@);
        }
        let sign = WxLocalPayRequest::gen_sign(&params, app_secret);
        params.push(pair("sign", sign.as_str()));
        proof {
            assert(pairs_view(params@) =~= token_members(*res, now_ms, app_secret@));
        }
        Ok(json_string_object(params))
    }
}

} // verus!
