//! The JSON document of a request to the backend:
//! `{model, messages, functions, function_call: "auto"}`, the last two only
//! where functions are offered.

use vstd::prelude::*;
use crate::chat::{
    declared_functions, get_function_definitions, role_name, ChatRequest, FunctionSpec, Message,
    MessageView, ParamSpec,
};
use crate::json::Json;

verus! {

/// A member named `k` whose value is the string `v`.
pub open spec fn str_field(f: (String, Json), k: Seq<char>, v: Seq<char>) -> bool {
    f.0@ == k && (f.1 matches Json::Str(s) && s@ == v)
}

/// The document of a message: `role`, `content` (null where absent), then
/// `name` and `function_call {name, arguments}` where present.
pub open spec fn message_doc(j: Json, m: MessageView) -> bool {
    j matches Json::Object(fs) && {
        let f = fs@;
        let name_at = 2int;
        let call_at = if m.name is Some {
            3int
        } else {
            2int
        };
        &&& f.len() == call_at + (if m.function_call is Some {
            1int
        } else {
            0int
        })
        &&& str_field(f[0], "role"@, role_name(m.role))
        &&& f[1].0@ == "content"@
        &&& match m.content {
            Some(c) => f[1].1 matches Json::Str(s) && s@ == c,
            None => f[1].1 is Null,
        }
        &&& match m.name {
            Some(n) => str_field(f[name_at], "name"@, n),
            None => true,
        }
        &&& match m.function_call {
            Some((n, a)) => f[call_at].0@ == "function_call"@ && (f[call_at].1 matches Json::Object(
                cf,
            ) && cf@.len() == 2 && str_field(cf@[0], "name"@, n) && str_field(
                cf@[1],
                "arguments"@,
                a,
            )),
            None => true,
        }
    }
}

/// The member of `properties` that declares a parameter.
pub open spec fn param_doc(f: (String, Json), p: ParamSpec) -> bool {
    f.0@ == p.name@ && (f.1 matches Json::Object(pf) && pf@.len() == 2 && str_field(
        pf@[0],
        "type"@,
        "string"@,
    ) && str_field(pf@[1], "description"@, p.description@))
}

/// The names of the required parameters, in order.
pub open spec fn required_names(ps: Seq<ParamSpec>) -> Seq<Seq<char>>
    decreases ps.len(),
{
    if ps.len() == 0 {
        Seq::empty()
    } else {
        let init = required_names(ps.drop_last());
        if ps.last().required {
            init.push(ps.last().name@)
        } else {
            init
        }
    }
}

/// An array of exactly these strings.
pub open spec fn str_list(items: Seq<Json>, names: Seq<Seq<char>>) -> bool {
    items.len() == names.len() && forall|i: int|
        0 <= i < items.len() ==> (#[trigger] items[i] matches Json::Str(s) && s@ == names[i])
}

/// The document of a declared function: `name`, `description` and
/// `parameters {type: "object", properties, required}`.
pub open spec fn function_doc(j: Json, f: FunctionSpec) -> bool {
    j matches Json::Object(fs) && fs@.len() == 3 && str_field(fs@[0], "name"@, f.name@) && str_field(
        fs@[1],
        "description"@,
        f.description@,
    ) && fs@[2].0@ == "parameters"@ && (fs@[2].1 matches Json::Object(pfs) && pfs@.len() == 3
        && str_field(pfs@[0], "type"@, "object"@) && pfs@[1].0@ == "properties"@ && (
    pfs@[1].1 matches Json::Object(props) && props@.len() == f.parameters@.len() && forall|i: int|
        0 <= i < props@.len() ==> param_doc(#[trigger] props@[i], f.parameters@[i])) && pfs@[2].0@
        == "required"@ && (pfs@[2].1 matches Json::Array(req) && str_list(
        req@,
        required_names(f.parameters@),
    )))
}

/// The document of a request.
pub open spec fn request_doc(j: Json, req: ChatRequest) -> bool {
    j matches Json::Object(fs) && {
        let f = fs@;
        &&& str_field(f[0], "model"@, req.model@)
        &&& f[1].0@ == "messages"@
        &&& (f[1].1 matches Json::Array(ms) && ms@.len() == req.messages@.len() && forall|i: int|
            0 <= i < ms@.len() ==> message_doc(#[trigger] ms@[i], req.messages@[i]@))
        &&& if req.offer_functions {
            &&& f.len() == 4
            &&& f[2].0@ == "functions"@
            &&& (f[2].1 matches Json::Array(fns) && exists|defs: Seq<FunctionSpec>|
                declared_functions(defs) && fns@.len() == defs.len() && forall|i: int|
                    0 <= i < fns@.len() ==> function_doc(#[trigger] fns@[i], defs[i]))
            &&& str_field(f[3], "function_call"@, "auto"@)
        } else {
            f.len() == 2
        }
    }
}

fn str_entry(k: &str, v: &str) -> (r: (String, Json))
    ensures
        str_field(r, k@, v@),
{
    (String::from_str(k), Json::Str(String::from_str(v)))
}

/// The document of a message.
pub fn message_document(m: &Message) -> (r: Json)
    ensures
        message_doc(r, m@),
{
    let mut fs: Vec<(String, Json)> = Vec::new();
    fs.push(str_entry("role", m.role.as_str()));
    let content = match &m.content {
        Some(c) => Json::Str(c.clone()),
        None => Json::Null,
    };
    fs.push((String::from_str("content"), content));
    match &m.name {
        Some(n) => fs.push(str_entry("name", n.as_str())),
        None => {},
    }
    match &m.function_call {
        Some(c) => {
            let call = vec![
                str_entry("name", c.name.as_str()),
                str_entry("arguments", c.arguments.as_str()),
            ];
            fs.push((String::from_str("function_call"), Json::Object(call)));
        },
        None => {},
    }
    Json::Object(fs)
}

/// The document of a declared function.
pub fn function_document(f: &FunctionSpec) -> (r: Json)
    ensures
        function_doc(r, *f),
{
    let mut props: Vec<(String, Json)> = Vec::new();
    let mut required: Vec<Json> = Vec::new();
    let mut i: usize = 0;
    while i < f.parameters.len()
        invariant
            i <= f.parameters@.len(),
            props@.len() == i,
            forall|k: int| 0 <= k < i ==> param_doc(#[trigger] props@[k], f.parameters@[k]),
            str_list(required@, required_names(f.parameters@.take(i as int))),
        decreases f.parameters@.len() - i,
    {
        let p = &f.parameters[i];
        let decl = vec![str_entry("type", "string"), str_entry("description", p.description.as_str())];
        props.push((p.name.clone(), Json::Object(decl)));
        let ghost ps = f.parameters@.take(i + 1);
        assert(ps.drop_last() =~= f.parameters@.take(i as int));
        if p.required {
            required.push(Json::Str(p.name.clone()));
        }
        assert(str_list(required@, required_names(ps)));
        i = i + 1;
    }
    assert(f.parameters@.take(i as int) =~= f.parameters@);
    let parameters = vec![
        str_entry("type", "object"),
        (String::from_str("properties"), Json::Object(props)),
        (String::from_str("required"), Json::Array(required)),
    ];
    Json::Object(
        vec![
            str_entry("name", f.name.as_str()),
            str_entry("description", f.description.as_str()),
            (String::from_str("parameters"), Json::Object(parameters)),
        ],
    )
}

/// The document of a request: the model, every message, and, where
/// functions are offered, the declared functions with the backend left to
/// decide when to call them.
pub fn request_document(req: &ChatRequest) -> (r: Json)
    ensures
        request_doc(r, *req),
{
    let mut ms: Vec<Json> = Vec::new();
    let mut i: usize = 0;
    while i < req.messages.len()
        invariant
            i <= req.messages@.len(),
            ms@.len() == i,
            forall|k: int| 0 <= k < i ==> message_doc(#[trigger] ms@[k], req.messages@[k]@),
        decreases req.messages@.len() - i,
    {
        ms.push(message_document(&req.messages[i]));
        i = i + 1;
    }
    let mut fs: Vec<(String, Json)> = Vec::new();
    fs.push(str_entry("model", req.model.as_str()));
    fs.push((String::from_str("messages"), Json::Array(ms)));
    if req.offer_functions {
        let defs = get_function_definitions();
        let mut fns: Vec<Json> = Vec::new();
        let mut k: usize = 0;
        while k < defs.len()
            invariant
                k <= defs@.len(),
                fns@.len() == k,
                forall|m: int| 0 <= m < k ==> function_doc(#[trigger] fns@[m], defs@[m]),
            decreases defs@.len() - k,
        {
            fns.push(function_document(&defs[k]));
            k = k + 1;
        }
        fs.push((String::from_str("functions"), Json::Array(fns)));
        fs.push(str_entry("function_call", "auto"));
        proof {
            let f = fs@;
            assert(f[2].1 matches Json::Array(a) && declared_functions(defs@) && a@.len() == defs@.len()
                && forall|m: int| 0 <= m < a@.len() ==> function_doc(#[trigger] a@[m], defs@[m]));
        }
    }
    Json::Object(fs)
}

} // verus!
