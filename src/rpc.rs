//! The call protocol between page script and host bindings: a page call
//! arrives as `{id, method, params}`; the host answers with a script that
//! settles the page promise recorded under that id.
use vstd::prelude::*;
use crate::json::{Json, Number, field, find_member, lemma_field_at, lemma_field_absent};

verus! {

/// The character of the decimal digit `d`.
pub open spec fn digit_char(d: nat) -> char {
    seq!['0', '1', '2', '3', '4', '5', '6', '7', '8', '9'][d as int]
}

/// Decimal text of a natural number, without leading zeros.
pub open spec fn decimal(n: nat) -> Seq<char>
    decreases n,
{
    let d = digit_char(n % 10);
    if n < 10 {
        seq![d]
    } else {
        decimal(n / 10).push(d)
    }
}

fn digit(d: u64) -> (r: &'static str)
    requires
        d < 10,
    ensures
        r@ == seq![digit_char(d as nat)],
{
    proof {
        reveal_strlit("0");
        reveal_strlit("1");
        reveal_strlit("2");
        reveal_strlit("3");
        reveal_strlit("4");
        reveal_strlit("5");
        reveal_strlit("6");
        reveal_strlit("7");
        reveal_strlit("8");
        reveal_strlit("9");
    }
    match d {
        0 => "0",
        1 => "1",
        2 => "2",
        3 => "3",
        4 => "4",
        5 => "5",
        6 => "6",
        7 => "7",
        8 => "8",
        _ => "9",
    }
}

/// Appends the decimal text of `n` to `out`.
pub fn push_decimal(out: &mut String, n: u64)
    ensures
        final(out)@ == old(out)@ + decimal(n as nat),
    decreases n,
{
    if n >= 10 {
        push_decimal(out, n / 10);
    }
    out.append(digit(n % 10));
}

/// A page call: the correlation id that the page's shim chose, the name of
/// the bound function, and its arguments.
#[derive(Debug, PartialEq)]
pub struct InvokeMessage {
    pub id: u64,
    pub method: String,
    pub params: Vec<Json>,
}

impl View for InvokeMessage {
    type V = (u64, Seq<char>, Seq<Json>);

    open spec fn view(&self) -> (u64, Seq<char>, Seq<Json>) {
        (self.id, self.method@, self.params@)
    }
}

/// The page call that a payload carries: an object whose member `id` is a
/// non-negative integer, `method` a string and `params` an array. Other
/// members are ignored.
pub open spec fn invoke_of(payload: Json) -> Option<(u64, Seq<char>, Seq<Json>)> {
    match payload {
        Json::Object(members) => match (
            field(members@, "id"@),
            field(members@, "method"@),
            field(members@, "params"@),
        ) {
            (
                Some(Json::Number(Number::Unsigned(id))),
                Some(Json::Str(method)),
                Some(Json::Array(params)),
            ) => Some((id, method@, params@)),
            _ => None,
        },
        _ => None,
    }
}

/// Reads a page call out of an inbound payload; a payload of any other
/// shape gives `None`.
pub fn decode_invoke(payload: Json) -> (r: Option<InvokeMessage>)
    ensures
        r is None <==> invoke_of(payload) is None,
        r matches Some(m) ==> invoke_of(payload) == Some(m@),
{
    let mut members = match payload {
        Json::Object(members) => members,
        _ => return None,
    };
    let ii = match find_member(&members, &String::from_str("id")) {
        Some(i) => i,
        None => return None,
    };
    let im = match find_member(&members, &String::from_str("method")) {
        Some(i) => i,
        None => return None,
    };
    let ip = match find_member(&members, &String::from_str("params")) {
        Some(i) => i,
        None => return None,
    };
    let id = match &members[ii].1 {
        Json::Number(Number::Unsigned(n)) => *n,
        _ => return None,
    };
    let method = match &members[im].1 {
        Json::Str(s) => s.clone(),
        _ => return None,
    };
    match &members[ip].1 {
        Json::Array(_) => {},
        _ => return None,
    }
    let (_, value) = members.remove(ip);
    match value {
        Json::Array(params) => Some(InvokeMessage { id, method, params }),
        _ => None,
    }
}


/// The JSON text of the string `s`.
pub uninterp spec fn json_quoted(s: Seq<char>) -> Seq<char>;

/// Relies on serde_json's `Display` of `Value::String`: the compact JSON
/// string literal for `s`, which depends on `s` alone.
#[verifier::external_body]
fn quote_json(s: &str) -> (r: String)
    ensures
        r@ == json_quoted(s@),
{
    serde_json::Value::String(s.to_owned()).to_string()
}

/// Script run in every document before its own scripts: the bridge through
/// which a page posts its calls to the host.
pub const INVOKE_BRIDGE: &'static str = "window.external = { invoke: s => window.chrome.webview.postMessage(s) };";

pub const SHIM_HEAD: &'static str = "
            (function() {
                var name = '";

pub const SHIM_TAIL: &'static str = "';
                var RPC = window._rpc = (window._rpc || {nextSeq: 1});
                window[name] = function() {
                    var seq = RPC.nextSeq++;
                    var promise = new Promise(function(resolve, reject) {
                        RPC[seq] = {
                            resolve: resolve,
                            reject: reject,
                        };
                    });
                    window.external.invoke({
                        id: seq,
                        method: name,
                        params: Array.prototype.slice.call(arguments),
                    });
                    return promise;
                }
            })()";

/// The page-side stub of a bound function: it defines `window[name]`, which
/// numbers each call from a per-page counter starting at 1, records the
/// call's promise under that number and posts the call to the host.
pub open spec fn shim_text(name: Seq<char>) -> Seq<char> {
    SHIM_HEAD@ + name + SHIM_TAIL@
}

/// Builds the stub script that exposes the host binding `name` to the page.
pub fn shim_script(name: &str) -> (r: String)
    ensures
        r@ == shim_text(name@),
{
    String::from_str(SHIM_HEAD).concat(name).concat(SHIM_TAIL)
}

pub const SETTLE_OPEN: &'static str = "
            window._rpc[";

pub const SETTLE_CALL: &'static str = "].";

pub const SETTLE_ARGS: &'static str = "(";

pub const SETTLE_RELEASE: &'static str = ");
            window._rpc[";

pub const SETTLE_CLOSE: &'static str = "] = undefined;";

pub const RESOLVE: &'static str = "resolve";

pub const REJECT: &'static str = "reject";

/// The script that settles the page promise `id` by calling its `method`
/// (`resolve` or `reject`) with the JSON text `value`, then frees the slot.
pub open spec fn settle_text(id: u64, method: Seq<char>, value: Seq<char>) -> Seq<char> {
    SETTLE_OPEN@ + decimal(id as nat) + SETTLE_CALL@ + method + SETTLE_ARGS@ + value
        + SETTLE_RELEASE@ + decimal(id as nat) + SETTLE_CLOSE@
}

/// The settling method for a status code: 0 resolves, anything else rejects.
pub open spec fn settle_method(status: i32) -> Seq<char> {
    if status == 0 {
        RESOLVE@
    } else {
        REJECT@
    }
}

/// Builds the script that settles the page promise `id` with the JSON text
/// `value`: resolved when `status` is 0, rejected otherwise.
pub fn settle_script(id: u64, status: i32, value: &str) -> (r: String)
    ensures
        r@ == settle_text(id, settle_method(status), value@),
{
    let method = if status == 0 {
        RESOLVE
    } else {
        REJECT
    };
    let mut js = String::from_str(SETTLE_OPEN);
    push_decimal(&mut js, id);
    js.append(SETTLE_CALL);
    js.append(method);
    js.append(SETTLE_ARGS);
    js.append(value);
    js.append(SETTLE_RELEASE);
    push_decimal(&mut js, id);
    js.append(SETTLE_CLOSE);
    assert(js@ =~= settle_text(id, settle_method(status), value@));
    js
}

/// The answer to page call `id`: a binding's result, as JSON text, resolves
/// the page promise; its error message rejects it with that message as a
/// JSON string.
pub open spec fn reply_text(id: u64, outcome: Result<Seq<char>, Seq<char>>) -> Seq<char> {
    match outcome {
        Ok(value) => settle_text(id, RESOLVE@, value),
        Err(message) => settle_text(id, REJECT@, json_quoted(message)),
    }
}

/// Builds the answer to page call `id` from what its binding returned: the
/// JSON text of a result, or an error message.
pub fn reply_script(id: u64, outcome: &Result<String, String>) -> (r: String)
    ensures
        r@ == reply_text(
            id,
            match outcome {
                Ok(v) => Ok(v@),
                Err(e) => Err(e@),
            },
        ),
{
    match outcome {
        Ok(value) => settle_script(id, 0, value.as_str()),
        Err(message) => {
            let quoted = quote_json(message.as_str());
            settle_script(id, 1, quoted.as_str())
        },
    }
}


/// `payload` is the message a page stub posts for call `id` of `method` with
/// arguments `params`: an object of the members `id`, `method` and `params`.
pub open spec fn is_call_message(payload: Json, id: u64, method: Seq<char>, params: Seq<Json>) -> bool {
    payload matches Json::Object(ms) && {
        &&& ms@.len() == 3
        &&& ms@[0].0@ == "id"@ && ms@[0].1 == Json::Number(Number::Unsigned(id))
        &&& ms@[1].0@ == "method"@ && (ms@[1].1 matches Json::Str(m) && m@ == method)
        &&& ms@[2].0@ == "params"@ && (ms@[2].1 matches Json::Array(ps) && ps@ == params)
    }
}

/// A call that a page stub posts is read back with the id, method and
/// arguments it was sent with, and the answer to it settles the promise under
/// that same id: a result `value` resolves it with that value, an error
/// `message` rejects it with that message.
pub proof fn lemma_call_round_trip(
    payload: Json,
    id: u64,
    method: Seq<char>,
    params: Seq<Json>,
    value: Seq<char>,
    message: Seq<char>,
)
    requires
        is_call_message(payload, id, method, params),
    ensures
        invoke_of(payload) == Some((id, method, params)),
        reply_text(id, Ok(value)) == settle_text(id, RESOLVE@, value),
        reply_text(id, Err(message)) == settle_text(id, REJECT@, json_quoted(message)),
{
    reveal_strlit("id");
    reveal_strlit("method");
    reveal_strlit("params");
    let ms = payload->Object_0@;
    assert(ms[0].0@.len() == 2 && "method"@.len() == 6 && "params"@.len() == 6);
    assert(ms[0].0@ != "method"@);
    assert(ms[0].0@ != "params"@);
    assert(ms[1].0@[0] != "params"@[0]);
    assert(ms[1].0@ != "params"@);
    lemma_field_at(ms, "id"@, 0);
    lemma_field_at(ms, "method"@, 1);
    lemma_field_at(ms, "params"@, 2);
}

/// A payload that is not an object, or an object without a `method` member,
/// carries no page call.
pub proof fn lemma_malformed_payload(payload: Json)
    requires
        !(payload is Object) || forall|j: int|
            0 <= j < payload->Object_0@.len() ==> payload->Object_0@[j].0@ != "method"@,
    ensures
        invoke_of(payload) is None,
{
    if payload is Object {
        lemma_field_absent(payload->Object_0@, "method"@);
    }
}

} // verus!
