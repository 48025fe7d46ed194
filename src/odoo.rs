//! The session: connection target, tenant and the identity captured at login.
//!
//! Each operation comes in two halves. The first builds the [`Exchange`] to
//! post; the second takes what the exchange brought back (the decoded reply
//! body, or the transport's error) and decodes it, updating the session
//! where the operation calls for it.
use vstd::prelude::*;
use vstd::string::*;

use crate::api::{parse_response, Request, Response, DEFAULT_METHOD};
use crate::error::Error;
use crate::json::{
    is_first_key, lemma_first_key_unique, member, str_list_of, str_pairs_of, string_pairs_view, strings_view, u32_of, JMember, JVal, Json, Member,
};

verus! {

/// A session with one server and one tenant.
#[derive(Debug)]
pub struct Odoo {
    host: String,
    database: String,
    uid: Option<u32>,
    password: Option<String>,
}

/// The model of a session.
pub struct SessionModel {
    pub host: Seq<char>,
    pub database: Seq<char>,
    pub uid: Option<u32>,
    pub password: Option<Seq<char>>,
}

impl View for Odoo {
    type V = SessionModel;

    closed spec fn view(&self) -> SessionModel {
        SessionModel {
            host: self.host@,
            database: self.database@,
            uid: self.uid,
            password: match self.password {
                Some(p) => Some(p@),
                None => None,
            },
        }
    }
}

/// One HTTP exchange to make: the URL to post to and the request to send.
#[derive(Debug)]
pub struct Exchange {
    pub url: String,
    pub request: Request,
}

/// Whether a session holds an identity and a credential.
pub open spec fn logged_in(s: SessionModel) -> bool {
    s.uid is Some && s.password is Some
}

/// A fresh session.
pub open spec fn fresh_session(host: Seq<char>, database: Seq<char>) -> SessionModel {
    SessionModel { host, database, uid: None, password: None }
}

/// The session after a successful login as `uid` with `password`.
pub open spec fn after_login(s: SessionModel, uid: u32, password: Seq<char>) -> SessionModel {
    SessionModel { uid: Some(uid), password: Some(password), ..s }
}

/// The URL of the endpoint `path` on the session's server.
pub open spec fn endpoint_url(s: SessionModel, path: Seq<char>) -> Seq<char> {
    s.host + "/"@ + path
}

/// The arguments of an authentication request.
pub open spec fn login_args(s: SessionModel, login: Seq<char>, password: Seq<char>) -> JVal {
    JVal::Array(seq![JVal::Str(s.database), JVal::Str(login), JVal::Str(password), JVal::Str(Seq::empty())])
}

/// The arguments of a generic call on a logged-in session.
pub open spec fn call_args(s: SessionModel, model: Seq<char>, method: Seq<char>, args: JVal) -> JVal {
    JVal::Array(
        seq![
            JVal::Str(s.database),
            JVal::Int(s.uid->0 as int),
            JVal::Str(s.password->0),
            JVal::Str(model),
            JVal::Str(method),
            args,
        ],
    )
}

/// The options object of a search-and-read call: the fields always, the
/// limit and the offset only where they are given.
pub open spec fn options_json(fields: Seq<Seq<char>>, limit: Option<u32>, offset: Option<u32>) -> JVal {
    JVal::Object(
        seq![JMember { key: "fields"@, value: JVal::Array(fields.map_values(|f: Seq<char>| JVal::Str(f))) }]
            + match limit {
            Some(n) => seq![JMember { key: "limit"@, value: JVal::Int(n as int) }],
            None => Seq::empty(),
        } + match offset {
            Some(n) => seq![JMember { key: "offset"@, value: JVal::Int(n as int) }],
            None => Seq::empty(),
        },
    )
}

/// The arguments of a search-and-read call on a logged-in session.
pub open spec fn search_read_args(s: SessionModel, model: Seq<char>, domain: JVal, options: JVal) -> JVal {
    JVal::Array(
        seq![
            JVal::Str(s.database),
            JVal::Int(s.uid->0 as int),
            JVal::Str(s.password->0),
            JVal::Str(model),
            JVal::Str("search_read"@),
            JVal::Array(seq![domain]),
            options,
        ],
    )
}

/// The identity and credential that the arguments of an authenticated
/// call carry.
pub open spec fn carried_credentials(args: JVal) -> (JVal, JVal) {
    (args->Array_0[1], args->Array_0[2])
}

/// The result of a reply, if it is a well-formed response envelope.
pub open spec fn reply_result(reply: Result<Json, Error>) -> Option<JVal> {
    match reply {
        Ok(j) => match parse_response(j@) {
            Some((_, v)) => Some(v),
            None => None,
        },
        Err(_) => None,
    }
}

/// The identity that an authentication reply grants, if any.
pub open spec fn granted_uid(reply: Result<Json, Error>) -> Option<u32> {
    match reply_result(reply) {
        Some(v) => u32_of(v),
        None => None,
    }
}

/// Whether `r` carries the transport error of `reply`, where it has one.
pub open spec fn passes_transport_error<T>(reply: Result<Json, Error>, r: Result<T, Error>) -> bool {
    reply is Err ==> r == Err::<T, Error>(reply->Err_0)
}

/// The model of an array is the models of its items.
proof fn lemma_array_model(items: &Vec<Json>)
    ensures
        Json::Array(*items)@ == JVal::Array(Seq::new(items.len() as nat, |i: int| items[i]@)),
{
    let j = Json::Array(*items);
    crate::json::lemma_array_view(&j);
    assert(j@->Array_0 =~= Seq::new(items.len() as nat, |i: int| items[i]@));
}

impl Odoo {
    /// A session with `host` and `database`, not logged in.
    pub fn new(host: &str, database: &str) -> (r: Odoo)
        ensures
            r@ == fresh_session(host@, database@),
    {
        Odoo { host: host.to_string(), database: database.to_string(), uid: None, password: None }
    }

    /// The identity captured at the latest successful login.
    pub fn get_uid(&self) -> (r: Option<u32>)
        ensures
            r == self@.uid,
    {
        self.uid
    }

    /// Whether the session holds an identity and a credential.
    pub fn is_logged_in(&self) -> (r: bool)
        ensures
            r == logged_in(self@),
    {
        self.uid.is_some() && self.password.is_some()
    }

    /// The URL of the endpoint `path` on the server.
    fn endpoint(&self, path: &str) -> (r: String)
        ensures
            r@ == endpoint_url(self@, path@),
    {
        let mut url = self.host.clone();
        url.append("/");
        url.append(path);
        url
    }

    /// The exchange that authenticates `login` with `password` on the
    /// session's tenant.
    pub fn login_request(&self, login: &str, password: &str) -> (r: Exchange)
        ensures
            r.url@ == endpoint_url(self@, "jsonrpc"@),
            r.request@.service == "common"@,
            r.request@.method == "authenticate"@,
            r.request@.args == login_args(self@, login@, password@),
    {
        let mut args: Vec<Json> = Vec::new();
        args.push(Json::Str(self.database.clone()));
        args.push(Json::Str(login.to_string()));
        args.push(Json::Str(password.to_string()));
        args.push(Json::Str(String::new()));
        proof {
            lemma_array_model(&args);
            assert(Seq::new(args.len() as nat, |i: int| args[i]@) =~= login_args(self@, login@, password@)->Array_0);
        }
        let request = Request::new("common", Some("authenticate"), Json::Array(args));
        Exchange { url: self.endpoint("jsonrpc"), request }
    }

    /// Completes a login with `password` from the reply to its exchange.
    /// On success the granted identity and `password` are stored; on
    /// failure the session is left as it was.
    pub fn login(&mut self, password: &str, reply: Result<Json, Error>) -> (r: Result<u32, Error>)
        ensures
            match r {
                Ok(uid) => granted_uid(reply) == Some(uid) && final(self)@ == after_login(
                    old(self)@,
                    uid,
                    password@,
                ),
                Err(_) => granted_uid(reply) is None && final(self)@ == old(self)@,
            },
            passes_transport_error(reply, r),
    {
        let response = match reply {
            Ok(j) => Response::<Json>::from_json(j),
            Err(e) => return Err(e),
        };
        match response {
            Ok(resp) => match resp.result.as_u32() {
                Some(uid) => {
                    self.uid = Some(uid);
                    self.password = Some(password.to_string());
                    Ok(uid)
                },
                None => Err(Error("invalid type: expected u32 for the login result".to_string())),
            },
            Err(e) => Err(e),
        }
    }

    /// A session with `host` and `database`, logged in with `password`
    /// from the reply to the exchange of its login.
    pub fn new_and_login(host: &str, database: &str, password: &str, reply: Result<Json, Error>) -> (r:
        Result<Odoo, Error>)
        ensures
            match r {
                Ok(o) => granted_uid(reply) is Some && o@ == after_login(
                    fresh_session(host@, database@),
                    granted_uid(reply)->0,
                    password@,
                ),
                Err(_) => granted_uid(reply) is None,
            },
    {
        let mut odoo = Odoo::new(host, database);
        match odoo.login(password, reply) {
            Ok(_) => Ok(odoo),
            Err(e) => Err(e),
        }
    }

    /// The exchange that asks the server for its bootstrap parameters.
    pub fn start_request(&self) -> (r: Exchange)
        ensures
            r.url@ == endpoint_url(self@, "start"@),
            r.request@.service == "common"@,
            r.request@.method == "start"@,
            r.request@.args == JVal::Null,
    {
        let request = Request::new("common", Some("start"), Json::Null);
        Exchange { url: self.endpoint("start"), request }
    }

    /// The bootstrap parameters, as key/value pairs, from the reply to the
    /// exchange of [`Odoo::start_request`].
    pub fn start(&self, reply: Result<Json, Error>) -> (r: Result<Vec<(String, String)>, Error>)
        ensures
            match r {
                Ok(v) => reply_result(reply) is Some && str_pairs_of(reply_result(reply)->0) == Some(
                    string_pairs_view(v@),
                ),
                Err(_) => reply_result(reply) is None || str_pairs_of(reply_result(reply)->0) is None,
            },
            passes_transport_error(reply, r),
    {
        let resp = match decode_reply(reply) {
            Ok(resp) => resp,
            Err(e) => return Err(e),
        };
        match resp.result.as_string_pairs() {
            Some(v) => Ok(v),
            None => Err(Error("invalid type: expected a map of strings".to_string())),
        }
    }

    /// The exchange that lists the server's tenants.
    pub fn get_databases_request(&self) -> (r: Exchange)
        ensures
            r.url@ == endpoint_url(self@, "jsonrpc"@),
            r.request@.service == "db"@,
            r.request@.method == "list"@,
            r.request@.args == JVal::Array(seq![JVal::Null]),
    {
        let mut args: Vec<Json> = Vec::new();
        args.push(Json::Null);
        proof {
            lemma_array_model(&args);
            assert(Seq::new(args.len() as nat, |i: int| args[i]@) =~= seq![JVal::Null]);
        }
        let request = Request::new("db", Some("list"), Json::Array(args));
        Exchange { url: self.endpoint("jsonrpc"), request }
    }

    /// The tenant names, in the server's order, from the reply to the
    /// exchange of [`Odoo::get_databases_request`].
    pub fn get_databases(&self, reply: Result<Json, Error>) -> (r: Result<Vec<String>, Error>)
        ensures
            match r {
                Ok(v) => reply_result(reply) is Some && str_list_of(reply_result(reply)->0) == Some(
                    strings_view(v@),
                ),
                Err(_) => reply_result(reply) is None || str_list_of(reply_result(reply)->0) is None,
            },
            passes_transport_error(reply, r),
    {
        let resp = match decode_reply(reply) {
            Ok(resp) => resp,
            Err(e) => return Err(e),
        };
        match resp.result.as_string_list() {
            Some(v) => Ok(v),
            None => Err(Error("invalid type: expected a list of strings".to_string())),
        }
    }
}

/// The field names of a search-and-read call: none where none are given.
pub open spec fn fields_model(fields: Option<Vec<&str>>) -> Seq<Seq<char>> {
    match fields {
        Some(v) => Seq::new(v.len() as nat, |i: int| v[i]@),
        None => Seq::empty(),
    }
}

/// The options object of a search-and-read call.
pub fn search_read_options(fields: Option<Vec<&str>>, limit: Option<u32>, offset: Option<u32>) -> (r: Json)
    ensures
        r@ == options_json(fields_model(fields), limit, offset),
{
    let ghost names = fields_model(fields);
    let names_in: Vec<&str> = match fields {
        Some(v) => v,
        None => Vec::new(),
    };
    let mut items: Vec<Json> = Vec::new();
    let mut i: usize = 0;
    while i < names_in.len()
        invariant
            0 <= i <= names_in.len(),
            names.len() == names_in.len(),
            forall|j: int| 0 <= j < names_in.len() ==> #[trigger] names[j] == names_in[j]@,
            items.len() == i,
            forall|j: int| 0 <= j < i ==> #[trigger] items[j]@ == JVal::Str(names[j]),
        decreases names_in.len() - i,
    {
        items.push(Json::Str(names_in[i].to_string()));
        i = i + 1;
    }
    proof {
        lemma_array_model(&items);
        assert(Seq::new(items.len() as nat, |j: int| items[j]@) =~= names.map_values(|f: Seq<char>| JVal::Str(f)));
    }
    let mut entries: Vec<Member> = Vec::new();
    entries.push(Member { key: "fields".to_string(), value: Json::Array(items) });
    match limit {
        Some(n) => entries.push(Member { key: "limit".to_string(), value: Json::Int(n as i64) }),
        None => {},
    }
    match offset {
        Some(n) => entries.push(Member { key: "offset".to_string(), value: Json::Int(n as i64) }),
        None => {},
    }
    let r = Json::Object(entries);
    proof {
        crate::json::lemma_object_view(&r);
        assert(r@->Object_0 =~= options_json(names, limit, offset)->Object_0);
    }
    r
}

impl Odoo {
    /// The exchange that calls `method` of `model` with `args`, with the
    /// identity and credential of the latest login.
    pub fn call_request(&self, model: &str, method: &str, args: Json) -> (r: Exchange)
        requires
            logged_in(self@),
        ensures
            r.url@ == endpoint_url(self@, "jsonrpc"@),
            r.request@.service == "object"@,
            r.request@.method == DEFAULT_METHOD@,
            r.request@.args == call_args(self@, model@, method@, args@),
    {
        let ghost a = args@;
        let mut items: Vec<Json> = Vec::new();
        items.push(Json::Str(self.database.clone()));
        items.push(self.identity());
        items.push(Json::Str(self.credential()));
        items.push(Json::Str(model.to_string()));
        items.push(Json::Str(method.to_string()));
        items.push(args);
        proof {
            lemma_array_model(&items);
            assert(Seq::new(items.len() as nat, |i: int| items[i]@) =~= call_args(self@, model@, method@, a)->Array_0);
        }
        let request = Request::new("object", None, Json::Array(items));
        Exchange { url: self.endpoint("jsonrpc"), request }
    }

    /// The response to a call, from the reply to the exchange of
    /// [`Odoo::call_request`].
    pub fn call(&self, reply: Result<Json, Error>) -> (r: Result<Response<Json>, Error>)
        ensures
            match r {
                Ok(resp) => reply is Ok && parse_response(reply->Ok_0@) == Some((resp.id, resp.result@)),
                Err(_) => reply is Err || parse_response(reply->Ok_0@) is None,
            },
            passes_transport_error(reply, r),
    {
        decode_reply(reply)
    }

    /// The exchange that searches `model` for the records that match
    /// `domain` and reads their `fields`, from `offset` on and at most
    /// `limit` of them, with the identity and credential of the latest login.
    pub fn search_read_request(
        &self,
        model: &str,
        domain: Json,
        fields: Option<Vec<&str>>,
        limit: Option<u32>,
        offset: Option<u32>,
    ) -> (r: Exchange)
        requires
            logged_in(self@),
        ensures
            r.url@ == endpoint_url(self@, "jsonrpc"@),
            r.request@.service == "object"@,
            r.request@.method == DEFAULT_METHOD@,
            r.request@.args == search_read_args(
                self@,
                model@,
                domain@,
                options_json(fields_model(fields), limit, offset),
            ),
    {
        let ghost d = domain@;
        let options = search_read_options(fields, limit, offset);
        let mut wrapped: Vec<Json> = Vec::new();
        wrapped.push(domain);
        proof {
            lemma_array_model(&wrapped);
            assert(Seq::new(wrapped.len() as nat, |i: int| wrapped[i]@) =~= seq![d]);
        }
        let ghost o = options@;
        let mut items: Vec<Json> = Vec::new();
        items.push(Json::Str(self.database.clone()));
        items.push(self.identity());
        items.push(Json::Str(self.credential()));
        items.push(Json::Str(model.to_string()));
        items.push(Json::Str("search_read".to_string()));
        items.push(Json::Array(wrapped));
        items.push(options);
        proof {
            lemma_array_model(&items);
            assert(Seq::new(items.len() as nat, |i: int| items[i]@) =~= search_read_args(self@, model@, d, o)->Array_0);
        }
        let request = Request::new("object", None, Json::Array(items));
        Exchange { url: self.endpoint("jsonrpc"), request }
    }

    /// The response to a search-and-read call, from the reply to the
    /// exchange of [`Odoo::search_read_request`].
    pub fn search_read(&self, reply: Result<Json, Error>) -> (r: Result<Response<Json>, Error>)
        ensures
            match r {
                Ok(resp) => reply is Ok && parse_response(reply->Ok_0@) == Some((resp.id, resp.result@)),
                Err(_) => reply is Err || parse_response(reply->Ok_0@) is None,
            },
            passes_transport_error(reply, r),
    {
        decode_reply(reply)
    }

    /// The identity, as it travels in a call.
    fn identity(&self) -> (r: Json)
        requires
            logged_in(self@),
        ensures
            r@ == JVal::Int(self@.uid->0 as int),
    {
        match self.uid {
            Some(uid) => Json::Int(uid as i64),
            None => Json::Null,
        }
    }

    /// The credential, as it travels in a call.
    fn credential(&self) -> (r: String)
        requires
            logged_in(self@),
        ensures
            r@ == self@.password->0,
    {
        match &self.password {
            Some(p) => p.clone(),
            None => String::new(),
        }
    }
}

/// A session that was only created holds no identity or credential, so
/// no call or search-and-read request can be built on it; a failed login
/// leaves it that way (see [`Odoo::login`]).
pub proof fn lemma_fresh_session_not_logged_in(host: Seq<char>, database: Seq<char>)
    ensures
        !logged_in(fresh_session(host, database)),
{
}

/// After a successful login, any two calls on the session, generic or
/// search-and-read, carry the same identity and credential: those that
/// the login captured.
pub proof fn lemma_calls_carry_login_credentials(
    s: SessionModel,
    uid: u32,
    password: Seq<char>,
    model1: Seq<char>,
    method1: Seq<char>,
    args1: JVal,
    model2: Seq<char>,
    domain2: JVal,
    options2: JVal,
)
    ensures
        logged_in(after_login(s, uid, password)),
        carried_credentials(call_args(after_login(s, uid, password), model1, method1, args1)) == (
            JVal::Int(uid as int),
            JVal::Str(password),
        ),
        carried_credentials(search_read_args(after_login(s, uid, password), model2, domain2, options2))
            == carried_credentials(call_args(after_login(s, uid, password), model1, method1, args1)),
{
}

/// The options object of a search-and-read call always lists the fields,
/// and has a `limit` or an `offset` key exactly when one is given, holding
/// its value.
pub proof fn lemma_options_keys(fields: Seq<Seq<char>>, limit: Option<u32>, offset: Option<u32>)
    ensures
        member(options_json(fields, limit, offset), "fields"@) == Some(
            JVal::Array(fields.map_values(|f: Seq<char>| JVal::Str(f))),
        ),
        limit is None ==> member(options_json(fields, limit, offset), "limit"@) is None,
        limit is Some ==> member(options_json(fields, limit, offset), "limit"@) == Some(
            JVal::Int(limit->0 as int),
        ),
        offset is None ==> member(options_json(fields, limit, offset), "offset"@) is None,
        offset is Some ==> member(options_json(fields, limit, offset), "offset"@) == Some(
            JVal::Int(offset->0 as int),
        ),
{
    reveal_strlit("fields");
    reveal_strlit("limit");
    reveal_strlit("offset");
    let es = options_json(fields, limit, offset)->Object_0;
    assert(es[0].key.len() != "limit"@.len());
    assert(es[0].key[0] != "offset"@[0]);
    lemma_first_key_unique(es, "fields"@, 0);
    if limit is Some {
        lemma_first_key_unique(es, "limit"@, 1);
        if offset is Some {
            assert(es[1].key.len() != "offset"@.len());
            lemma_first_key_unique(es, "offset"@, 2);
        } else {
            assert(es.len() == 2);
            assert(es[1].key.len() != "offset"@.len());
            assert forall|j: int| !is_first_key(es, "offset"@, j) by {
                if j == 1 {
                    assert(es[1].key.len() != "offset"@.len());
                }
            }
        }
    } else {
        assert forall|j: int| !is_first_key(es, "limit"@, j) by {
            if 0 <= j < es.len() && j == 1 {
                assert(es[1].key == "offset"@);
                assert(es[1].key.len() != "limit"@.len());
            }
        }
        if offset is Some {
            lemma_first_key_unique(es, "offset"@, 1);
        } else {
            assert(es.len() == 1);
            assert forall|j: int| !is_first_key(es, "offset"@, j) by {
            }
        }
    }
}

/// The response envelope of a reply.
pub fn decode_reply(reply: Result<Json, Error>) -> (r: Result<Response<Json>, Error>)
    ensures
        match r {
            Ok(resp) => reply is Ok && parse_response(reply->Ok_0@) == Some((resp.id, resp.result@)),
            Err(_) => reply is Err || parse_response(reply->Ok_0@) is None,
        },
        passes_transport_error(reply, r),
{
    match reply {
        Ok(j) => Response::<Json>::from_json(j),
        Err(e) => Err(e),
    }
}

} // verus!
