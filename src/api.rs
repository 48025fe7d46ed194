//! The JSON-RPC request and response envelopes.
use rand::Rng;
use vstd::prelude::*;

use crate::error::Error;
use crate::json::{member, str_of, u32_of, JMember, JVal, Json, Member};

verus! {

/// The wire protocol's version tag.
pub const PROTOCOL_VERSION: &'static str = "2.0";

/// The call kind of every request.
pub const CALL_KIND: &'static str = "call";

/// The remote method used when a request names none.
pub const DEFAULT_METHOD: &'static str = "execute_kw";

/// The lowest correlation id a request is given.
pub const ID_LOW: u32 = 1;

/// One past the highest correlation id a request is given.
pub const ID_HIGH: u32 = 10000;

/// Relies on rand's `thread_rng` and `Rng::gen_range`: a value drawn from
/// `low..high`, which is not empty.
#[verifier::external_body]
fn draw_in_range(low: u32, high: u32) -> (r: u32)
    requires
        low < high,
    ensures
        low <= r < high,
{
    rand::thread_rng().gen_range(low..high)
}

/// Where a request goes and what it asks.
#[derive(Debug)]
pub struct RequestParams {
    service: String,
    method: String,
    args: Json,
}

/// A request envelope.
#[derive(Debug)]
pub struct Request {
    id: u32,
    params: RequestParams,
}

/// A response envelope: the correlation id and the result.
#[derive(Debug)]
pub struct Response<T> {
    pub id: u32,
    pub result: T,
}

/// The model of a request.
pub struct RequestModel {
    pub id: u32,
    pub service: Seq<char>,
    pub method: Seq<char>,
    pub args: JVal,
}

impl View for Request {
    type V = RequestModel;

    closed spec fn view(&self) -> RequestModel {
        RequestModel {
            id: self.id,
            service: self.params.service@,
            method: self.params.method@,
            args: self.params.args@,
        }
    }
}

/// An object entry of the model.
pub open spec fn entry(key: Seq<char>, value: JVal) -> JMember {
    JMember { key, value }
}

/// The wire form of the `params` member of a request.
pub open spec fn params_json(r: RequestModel) -> JVal {
    JVal::Object(
        seq![
            entry("service"@, JVal::Str(r.service)),
            entry("method"@, JVal::Str(r.method)),
            entry("args"@, r.args),
        ],
    )
}

/// The wire form of a request.
pub open spec fn request_json(r: RequestModel) -> JVal {
    JVal::Object(
        seq![
            entry("jsonrpc"@, JVal::Str(PROTOCOL_VERSION@)),
            entry("method"@, JVal::Str(CALL_KIND@)),
            entry("id"@, JVal::Int(r.id as int)),
            entry("params"@, params_json(r)),
        ],
    )
}

/// The request that a wire value stands for, if it is a well-formed
/// request envelope.
pub open spec fn parse_request(j: JVal) -> Option<RequestModel> {
    if member(j, "jsonrpc"@) == Some(JVal::Str(PROTOCOL_VERSION@)) && member(j, "method"@) == Some(
        JVal::Str(CALL_KIND@),
    ) && member(j, "id"@) is Some && u32_of(member(j, "id"@)->0) is Some && member(j, "params"@) is Some
        && member(member(j, "params"@)->0, "service"@) is Some && str_of(
        member(member(j, "params"@)->0, "service"@)->0,
    ) is Some && member(member(j, "params"@)->0, "method"@) is Some && str_of(
        member(member(j, "params"@)->0, "method"@)->0,
    ) is Some && member(member(j, "params"@)->0, "args"@) is Some {
        let params = member(j, "params"@)->0;
        Some(
            RequestModel {
                id: u32_of(member(j, "id"@)->0)->0,
                service: str_of(member(params, "service"@)->0)->0,
                method: str_of(member(params, "method"@)->0)->0,
                args: member(params, "args"@)->0,
            },
        )
    } else {
        None
    }
}

/// The correlation id and result that a wire value stands for, if it is a
/// well-formed response envelope.
pub open spec fn parse_response(j: JVal) -> Option<(u32, JVal)> {
    if member(j, "id"@) is Some && u32_of(member(j, "id"@)->0) is Some && member(j, "result"@) is Some {
        Some((u32_of(member(j, "id"@)->0)->0, member(j, "result"@)->0))
    } else {
        None
    }
}

impl Request {
    /// A request to `method` of `service` (the default method where none is
    /// given) with a correlation id drawn at random.
    pub fn new(service: &str, method: Option<&str>, args: Json) -> (r: Request)
        ensures
            ID_LOW <= r@.id < ID_HIGH,
            r@.service == service@,
            r@.method == match method {
                Some(m) => m@,
                None => DEFAULT_METHOD@,
            },
            r@.args == args@,
    {
        let id = draw_in_range(ID_LOW, ID_HIGH);
        Request::with_id(id, service, method, args)
    }

    /// A request with the given correlation id.
    pub fn with_id(id: u32, service: &str, method: Option<&str>, args: Json) -> (r: Request)
        ensures
            r@.id == id,
            r@.service == service@,
            r@.method == match method {
                Some(m) => m@,
                None => DEFAULT_METHOD@,
            },
            r@.args == args@,
    {
        let method = match method {
            Some(m) => m.to_string(),
            None => DEFAULT_METHOD.to_string(),
        };
        Request { id, params: RequestParams { service: service.to_string(), method, args } }
    }

    /// The correlation id.
    pub fn id(&self) -> (r: u32)
        ensures
            r == self@.id,
    {
        self.id
    }

    /// The remote service addressed.
    pub fn service(&self) -> (r: &String)
        ensures
            r@ == self@.service,
    {
        &self.params.service
    }

    /// The remote method addressed.
    pub fn method(&self) -> (r: &String)
        ensures
            r@ == self@.method,
    {
        &self.params.method
    }

    /// The arguments.
    pub fn args(&self) -> (r: &Json)
        ensures
            r@ == self@.args,
    {
        &self.params.args
    }

    /// The wire form of the request.
    pub fn into_json(self) -> (r: Json)
        ensures
            r@ == request_json(self@),
    {
        let ghost model = self@;
        let mut params: Vec<Member> = Vec::new();
        params.push(Member { key: "service".to_string(), value: Json::Str(self.params.service) });
        params.push(Member { key: "method".to_string(), value: Json::Str(self.params.method) });
        params.push(Member { key: "args".to_string(), value: self.params.args });
        let params = Json::Object(params);
        proof {
            crate::json::lemma_object_view(&params);
            assert(params@->Object_0 =~= params_json(model)->Object_0);
        }
        let mut top: Vec<Member> = Vec::new();
        top.push(Member { key: "jsonrpc".to_string(), value: Json::Str(PROTOCOL_VERSION.to_string()) });
        top.push(Member { key: "method".to_string(), value: Json::Str(CALL_KIND.to_string()) });
        top.push(Member { key: "id".to_string(), value: Json::Int(self.id as i64) });
        top.push(Member { key: "params".to_string(), value: params });
        let r = Json::Object(top);
        proof {
            crate::json::lemma_object_view(&r);
            assert(r@->Object_0 =~= request_json(model)->Object_0);
        }
        r
    }

    /// The request that a wire value stands for, if it is a well-formed
    /// request envelope.
    pub fn from_json(j: Json) -> (r: Option<Request>)
        ensures
            match r {
                Some(q) => parse_request(j@) == Some(q@),
                None => parse_request(j@) is None,
            },
    {
        let ghost jv = j@;
        let version_ok = match j.get("jsonrpc") {
            Some(v) => match v.as_string() {
                Some(s) => s == PROTOCOL_VERSION.to_string(),
                None => false,
            },
            None => false,
        };
        let kind_ok = match j.get("method") {
            Some(v) => match v.as_string() {
                Some(s) => s == CALL_KIND.to_string(),
                None => false,
            },
            None => false,
        };
        if !version_ok || !kind_ok {
            return None;
        }
        let id = match j.get("id") {
            Some(v) => match v.as_u32() {
                Some(n) => n,
                None => return None,
            },
            None => return None,
        };
        let params = match j.take("params") {
            Some(p) => p,
            None => return None,
        };
        let ghost pv = params@;
        let service = match params.get("service") {
            Some(v) => match v.as_string() {
                Some(s) => s,
                None => return None,
            },
            None => return None,
        };
        let method = match params.get("method") {
            Some(v) => match v.as_string() {
                Some(s) => s,
                None => return None,
            },
            None => return None,
        };
        let args = match params.take("args") {
            Some(a) => a,
            None => return None,
        };
        let r = Request { id, params: RequestParams { service, method, args } };
        assert(pv == member(jv, "params"@)->0);
        Some(r)
    }
}

impl Response<Json> {
    /// The correlation id and result of a response envelope.
    pub fn from_json(reply: Json) -> (r: Result<Response<Json>, Error>)
        ensures
            match r {
                Ok(resp) => parse_response(reply@) == Some((resp.id, resp.result@)),
                Err(_) => parse_response(reply@) is None,
            },
    {
        let id = match reply.get("id") {
            Some(v) => match v.as_u32() {
                Some(n) => n,
                None => return Err(Error("invalid type: expected u32 for field `id`".to_string())),
            },
            None => return Err(Error("missing field `id`".to_string())),
        };
        match reply.take("result") {
            Some(result) => Ok(Response { id, result }),
            None => Err(Error("missing field `result`".to_string())),
        }
    }
}

/// A request read back from its wire form is the request itself.
pub proof fn lemma_request_round_trip(r: RequestModel)
    ensures
        parse_request(request_json(r)) == Some(r),
{
    reveal_strlit("jsonrpc");
    reveal_strlit("method");
    reveal_strlit("id");
    reveal_strlit("params");
    reveal_strlit("service");
    reveal_strlit("args");
    let top = request_json(r)->Object_0;
    let params = params_json(r)->Object_0;
    assert(top[0].key[1] != "method"@[1]);
    assert(top[0].key.len() != "id"@.len());
    assert(top[1].key != "id"@);
    assert(top[0].key != "params"@);
    assert(top[1].key != "params"@);
    assert(top[2].key != "params"@);
    crate::json::lemma_first_key_unique(top, "jsonrpc"@, 0);
    crate::json::lemma_first_key_unique(top, "method"@, 1);
    crate::json::lemma_first_key_unique(top, "id"@, 2);
    crate::json::lemma_first_key_unique(top, "params"@, 3);
    assert(params[0].key.len() != "method"@.len());
    assert(params[0].key.len() != "args"@.len());
    assert(params[1].key != "args"@);
    crate::json::lemma_first_key_unique(params, "service"@, 0);
    crate::json::lemma_first_key_unique(params, "method"@, 1);
    crate::json::lemma_first_key_unique(params, "args"@, 2);
}

} // verus!
