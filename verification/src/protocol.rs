//! The bodies of the service's HTTP answers.
use vstd::prelude::*;
use crate::json::{
    json_string_object, json_string_object_text, last_index_of, lemma_last_index_of_concat,
    lemma_last_index_of_range, member, JsonObject, JsonValue,
};
use crate::text::{append_str, i64_to_decimal, signed_decimal};

verus! {

/// The members of an answer body: `result` (the code in decimal) and
/// `message`, followed by the members of `others`, which win over them.
pub fn response_body_fields(code: i32, msg: String, others: JsonObject) -> (res: JsonObject)
    ensures
        res.fields@.len() == others.fields@.len() + 2,
        res.fields@[0].0@ == "result"@,
        res.fields@[0].1 matches JsonValue::Str(c) && c@ == signed_decimal(code as int),
        res.fields@[1].0@ == "message"@,
        res.fields@[1].1 == JsonValue::Str(msg),
        res.fields@.skip(2) == others.fields@,
        forall|name: Seq<char>|
            member(others, name) is Some ==> #[trigger] member(res, name) == member(others, name),
        member(others, "result"@) is None ==> (member(res, "result"@) matches Some(
            JsonValue::Str(c),
        ) && c@ == signed_decimal(code as int)),
        member(others, "message"@) is None ==> member(res, "message"@) == Some(JsonValue::Str(msg)),
{
    let mut fields: Vec<(String, JsonValue)> = Vec::new();
    fields.push(("result".to_owned(), JsonValue::Str(i64_to_decimal(code as i64))));
    fields.push(("message".to_owned(), JsonValue::Str(msg)));
    let mut rest = others.fields;
    let ghost rest0 = rest@;
    fields.append(&mut rest);
    let res = JsonObject { fields };
    proof {
        let all = res.fields@;
        let head = all.take(2);
        assert(all.skip(2) =~= rest0);
        assert(all =~= head + rest0);
        assert forall|name: Seq<char>| member(others, name) is Some implies #[trigger] member(
            res,
            name,
        ) == member(others, name) by {
            lemma_last_index_of_concat(head, rest0, name);
            lemma_last_index_of_range(rest0, name);
        }
        reveal_strlit("result");
        reveal_strlit("message");
        assert(head.drop_last() =~= seq![all[0]]);
        assert(seq![all[0]].drop_last() =~= Seq::<(String, JsonValue)>::empty());
        assert(last_index_of(seq![all[0]], "result"@) == 0);
        assert("message"@ != "result"@) by {
            assert("message"@.len() != "result"@.len());
        }
        assert(last_index_of(head, "result"@) == 0);
        lemma_last_index_of_concat(head, rest0, "result"@);
        lemma_last_index_of_concat(head, rest0, "message"@);
    }
    res
}

/// The body of an error answer: the JSON object with `result` (the code)
/// and `message` (the status, a colon and the body of the failed answer).
pub fn error_body(code: i32, status: &str, resp_body: &str) -> (res: String)
    ensures
        res@ == json_string_object_text(
            seq![("result"@, signed_decimal(code as int)), ("message"@, status@ + ": "@ + resp_body@)],
        ),
{
    let c = i64_to_decimal(code as i64);
    let mut m = status.to_owned();
    append_str(&mut m, ": ");
    append_str(&mut m, resp_body);
    let mut members: Vec<(String, String)> = Vec::new();
    members.push(("result".to_owned(), c));
    members.push(("message".to_owned(), m));
    proof {
        assert(crate::order::pairs_view(members@) =~= seq![
            ("result"@, signed_decimal(code as int)),
            ("message"@, status@ + ": "@ + resp_body@),
        ]);
    }
    proof {
        reveal_strlit("result");
        reveal_strlit("message");
        assert("result"@.len() != "message"@.len());
    }
    json_string_object(members)
}

} // verus!
