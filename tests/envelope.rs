use odoors::api::{Request, Response};
use odoors::error::Error;
use odoors::json::{Json, Member};
use odoors::nullable::{nullable_string, nullable_u32};
use odoors::odoo::{search_read_options, Exchange, Odoo};

fn s(text: &str) -> Json {
    Json::Str(text.to_string())
}

fn object(entries: Vec<(&str, Json)>) -> Json {
    Json::Object(
        entries
            .into_iter()
            .map(|(k, v)| Member { key: k.to_string(), value: v })
            .collect(),
    )
}

fn reply(id: i64, result: Json) -> Result<Json, Error> {
    Ok(object(vec![("jsonrpc", s("2.0")), ("id", Json::Int(id)), ("result", result)]))
}

fn reply_to(exchange: &Exchange, result: Json) -> Result<Json, Error> {
    reply(exchange.request.id() as i64, result)
}

fn args_of(exchange: &Exchange) -> &Vec<Json> {
    exchange.request.args().as_array().unwrap()
}

fn logged_in(uid: i64, password: &str) -> Odoo {
    let mut odoo = Odoo::new("http://host", "mytenant");
    let exchange = odoo.login_request("admin", password);
    odoo.login(password, reply_to(&exchange, Json::Int(uid))).unwrap();
    odoo
}

#[test]
fn request_round_trip_keeps_args() {
    let args = Json::Array(vec![
        s("mytenant"),
        Json::Int(-7),
        Json::Decimal("2.5".to_string()),
        object(vec![("name", s("Test")), ("active", Json::Bool(true))]),
        Json::Null,
    ]);
    let expected = Json::Array(vec![
        s("mytenant"),
        Json::Int(-7),
        Json::Decimal("2.5".to_string()),
        object(vec![("name", s("Test")), ("active", Json::Bool(true))]),
        Json::Null,
    ]);
    let request = Request::new("object", Some("search"), args);
    let id = request.id();
    let back = Request::from_json(request.into_json()).unwrap();
    assert_eq!(back.id(), id);
    assert_eq!(back.service(), "object");
    assert_eq!(back.method(), "search");
    assert_eq!(back.args(), &expected);
}

#[test]
fn request_wire_form() {
    let request = Request::with_id(17, "common", Some("version"), Json::Null);
    let wire = request.into_json();
    let expected = object(vec![
        ("jsonrpc", s("2.0")),
        ("method", s("call")),
        ("id", Json::Int(17)),
        (
            "params",
            object(vec![("service", s("common")), ("method", s("version")), ("args", Json::Null)]),
        ),
    ]);
    assert_eq!(wire, expected);
}

#[test]
fn request_default_method() {
    let request = Request::new("object", None, Json::Null);
    assert_eq!(request.method(), "execute_kw");
}

#[test]
fn request_ids_are_drawn_in_range() {
    let ids: Vec<u32> = (0..64).map(|_| Request::new("db", Some("list"), Json::Null).id()).collect();
    for id in &ids {
        assert!(*id >= 1 && *id < 10000);
    }
    assert!(ids.iter().any(|id| *id != ids[0]));
}

#[test]
fn request_from_json_rejects_other_versions() {
    let wire = object(vec![
        ("jsonrpc", s("1.0")),
        ("method", s("call")),
        ("id", Json::Int(3)),
        ("params", object(vec![("service", s("db")), ("method", s("list")), ("args", Json::Null)])),
    ]);
    assert!(Request::from_json(wire).is_none());
    let no_args = object(vec![
        ("jsonrpc", s("2.0")),
        ("method", s("call")),
        ("id", Json::Int(3)),
        ("params", object(vec![("service", s("db")), ("method", s("list"))])),
    ]);
    assert!(Request::from_json(no_args).is_none());
}

#[test]
fn response_decoding() {
    let ok = Response::from_json(object(vec![("id", Json::Int(9)), ("result", s("x"))])).unwrap();
    assert_eq!(ok.id, 9);
    assert_eq!(ok.result, s("x"));
    assert!(Response::from_json(object(vec![("id", Json::Int(9))])).is_err());
    assert!(Response::from_json(object(vec![("result", s("x"))])).is_err());
    assert!(Response::from_json(object(vec![("id", Json::Int(-1)), ("result", s("x"))])).is_err());
    assert!(Response::from_json(Json::Array(vec![])).is_err());
}

#[test]
fn login_stores_identity() {
    let mut odoo = Odoo::new("http://host", "mytenant");
    assert_eq!(odoo.get_uid(), None);
    assert!(!odoo.is_logged_in());
    let exchange = odoo.login_request("admin", "admin");
    assert_eq!(exchange.url, "http://host/jsonrpc");
    assert_eq!(exchange.request.service(), "common");
    assert_eq!(exchange.request.method(), "authenticate");
    assert_eq!(args_of(&exchange), &vec![s("mytenant"), s("admin"), s("admin"), s("")]);
    assert_eq!(odoo.login("admin", reply_to(&exchange, Json::Int(2))).unwrap(), 2);
    assert_eq!(odoo.get_uid(), Some(2));
    assert!(odoo.is_logged_in());
}

#[test]
fn login_with_invalid_tenant_leaves_session_unset() {
    let mut odoo = Odoo::new("http://host", "no_such_tenant");
    let exchange = odoo.login_request("admin", "admin");
    let rejected = object(vec![
        ("id", Json::Int(exchange.request.id() as i64)),
        ("error", object(vec![("message", s("database does not exist"))])),
    ]);
    assert!(odoo.login("admin", Ok(rejected)).is_err());
    assert_eq!(odoo.get_uid(), None);
    assert!(!odoo.is_logged_in());
}

#[test]
fn failed_login_keeps_earlier_identity() {
    let mut odoo = logged_in(2, "admin");
    let exchange = odoo.login_request("admin", "wrong");
    assert!(odoo.login("wrong", reply_to(&exchange, Json::Bool(false))).is_err());
    assert_eq!(odoo.get_uid(), Some(2));
    let exchange = odoo.call_request("res.partner", "search", Json::Array(vec![]));
    assert_eq!(args_of(&exchange)[2], s("admin"));
}

#[test]
fn transport_error_is_passed_on() {
    let mut odoo = Odoo::new("http://host", "mytenant");
    let r = odoo.login("admin", Err(Error("connection refused".to_string())));
    assert_eq!(r.unwrap_err().message(), "connection refused");
    let r = odoo.get_databases(Err(Error("timed out".to_string())));
    assert_eq!(r.unwrap_err().message(), "timed out");
}

#[test]
fn calls_carry_login_credentials() {
    let odoo = logged_in(7, "secret");
    let first = odoo.call_request("res.partner", "search", Json::Array(vec![]));
    let second = odoo.search_read_request("res.users", Json::Array(vec![]), None, None, None);
    for exchange in [&first, &second] {
        let args = args_of(exchange);
        assert_eq!(args[0], s("mytenant"));
        assert_eq!(args[1], Json::Int(7));
        assert_eq!(args[2], s("secret"));
        assert_eq!(exchange.request.service(), "object");
        assert_eq!(exchange.request.method(), "execute_kw");
    }
    assert_eq!(args_of(&first)[3], s("res.partner"));
    assert_eq!(args_of(&first)[4], s("search"));
    assert_eq!(args_of(&second)[4], s("search_read"));
}

#[test]
fn options_omit_missing_limit_and_offset() {
    let options = search_read_options(Some(vec!["name"]), None, None);
    assert_eq!(options, object(vec![("fields", Json::Array(vec![s("name")]))]));
    assert!(options.get("limit").is_none());
    assert!(options.get("offset").is_none());
}

#[test]
fn options_hold_given_limit_and_offset() {
    let options = search_read_options(None, Some(5), Some(10));
    assert_eq!(options.get("fields"), Some(&Json::Array(vec![])));
    assert_eq!(options.get("limit"), Some(&Json::Int(5)));
    assert_eq!(options.get("offset"), Some(&Json::Int(10)));
    let only_offset = search_read_options(None, None, Some(3));
    assert!(only_offset.get("limit").is_none());
    assert_eq!(only_offset.get("offset"), Some(&Json::Int(3)));
}

#[test]
fn search_read_wraps_domain() {
    let odoo = logged_in(2, "admin");
    let domain = Json::Array(vec![Json::Array(vec![s("id"), s(">"), Json::Int(2)])]);
    let exchange = odoo.search_read_request("res.partner", domain, Some(vec!["name"]), Some(5), None);
    let args = args_of(&exchange);
    assert_eq!(args.len(), 7);
    assert_eq!(args[3], s("res.partner"));
    assert_eq!(
        args[5],
        Json::Array(vec![Json::Array(vec![Json::Array(vec![s("id"), s(">"), Json::Int(2)])])])
    );
    assert_eq!(
        args[6],
        object(vec![("fields", Json::Array(vec![s("name")])), ("limit", Json::Int(5))])
    );
    let records: Vec<Json> = (3..8).map(|i| object(vec![("id", Json::Int(i)), ("name", s("P"))])).collect();
    let result = odoo.search_read(reply_to(&exchange, Json::Array(records))).unwrap().result;
    let records = result.as_array().unwrap();
    assert_eq!(records.len(), 5);
    for record in records {
        assert!(record.get("name").is_some());
    }
}

#[test]
fn list_tenants_in_order() {
    let odoo = Odoo::new("http://host", "");
    let exchange = odoo.get_databases_request();
    let names = odoo
        .get_databases(reply_to(&exchange, Json::Array(vec![s("alpha"), s("beta")])))
        .unwrap();
    assert_eq!(names, vec!["alpha".to_string(), "beta".to_string()]);
    let exchange = odoo.get_databases_request();
    assert!(odoo.get_databases(reply_to(&exchange, Json::Array(vec![s("alpha"), Json::Int(1)]))).is_err());
}

#[test]
fn start_needs_string_values() {
    let odoo = Odoo::new("http://host", "");
    let exchange = odoo.start_request();
    assert_eq!(exchange.request.args(), &Json::Null);
    let bad = object(vec![("host", s("h")), ("port", Json::Int(8069))]);
    assert!(odoo.start(reply_to(&exchange, bad)).is_err());
    let good = object(vec![("host", s("h")), ("user", s("u"))]);
    assert_eq!(
        odoo.start(reply_to(&exchange, good)).unwrap(),
        vec![("host".to_string(), "h".to_string()), ("user".to_string(), "u".to_string())]
    );
}

#[test]
fn nullable_fields() {
    let record = object(vec![
        ("name", s("Chair")),
        ("default_code", Json::Bool(false)),
        ("qty", Json::Int(4)),
        ("code", s("C-1")),
    ]);
    assert_eq!(nullable_string(&record, "code"), Some("C-1".to_string()));
    assert_eq!(nullable_string(&record, "default_code"), None);
    assert_eq!(nullable_string(&record, "missing"), None);
    assert_eq!(nullable_string(&Json::Null, "code"), None);
    assert_eq!(nullable_u32(&record, "qty"), Some(4));
    assert_eq!(nullable_u32(&record, "default_code"), None);
    assert_eq!(nullable_u32(&record, "name"), None);
    assert_eq!(nullable_u32(&record, "missing"), None);
}

#[test]
fn first_duplicate_key_wins() {
    let record = object(vec![("a", Json::Int(1)), ("a", Json::Int(2))]);
    assert_eq!(record.get("a"), Some(&Json::Int(1)));
    assert_eq!(record.take("a"), Some(Json::Int(1)));
}

#[test]
fn error_message() {
    let e = Error("boom".to_string());
    assert_eq!(e.message(), "boom");
}
