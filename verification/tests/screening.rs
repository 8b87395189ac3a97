use remote_build::http::{
    fixed_text, is_content_type_json, route, FixedMsg, HttpResponse, ReqMethod, RespBody, Route,
};
use remote_build::manifest::{key_ok, validate, JsonContent, Payload, Rejection};
use remote_build::pipeline::{start, start_from_bytes, BuildAction, BuildLimits, Pipeline};

fn bytes(s: &str) -> Vec<u8> {
    s.as_bytes().to_vec()
}

fn limits() -> BuildLimits {
    BuildLimits { max_output_bytes: 64 * 1024, max_artifact_bytes: 1024 * 1024 }
}

fn expect_respond(a: BuildAction) -> HttpResponse {
    match a {
        BuildAction::Respond(r) => r,
        _ => panic!("expected an immediate response"),
    }
}

fn fixed_of(r: &HttpResponse) -> FixedMsg {
    match &r.body {
        RespBody::Fixed(m) => *m,
        _ => panic!("expected a fixed-text body"),
    }
}

#[test]
fn routing() {
    assert_eq!(route(&ReqMethod::Get, &bytes("/")), Route::Home);
    assert_eq!(route(&ReqMethod::Post, &bytes("/remote-build")), Route::RemoteBuild);
    assert_eq!(route(&ReqMethod::Get, &bytes("/remote-build")), Route::Unmatched);
    assert_eq!(route(&ReqMethod::Post, &bytes("/")), Route::Unmatched);
    assert_eq!(route(&ReqMethod::Get, &bytes("/elsewhere")), Route::Unmatched);
    assert_eq!(route(&ReqMethod::OtherMethod, &bytes("/")), Route::Unmatched);
}

#[test]
fn content_type_gate() {
    assert!(is_content_type_json(&Some(bytes("application/json"))));
    assert!(is_content_type_json(&Some(bytes("application/json; charset=utf-8"))));
    assert!(!is_content_type_json(&Some(bytes("text/plain"))));
    assert!(!is_content_type_json(&Some(bytes("application/jso"))));
    assert!(!is_content_type_json(&None));
}

#[test]
fn content_type_gate_requires_text_value() {
    // A value the transport cannot read as text declares nothing, even
    // with the right prefix.
    let mut high_byte = bytes("application/json");
    high_byte.push(255);
    assert!(!is_content_type_json(&Some(high_byte)));
    let mut control_byte = bytes("application/json");
    control_byte.push(0);
    assert!(!is_content_type_json(&Some(control_byte)));
    // A tab is legal header text.
    assert!(is_content_type_json(&Some(bytes("application/json;\tcharset=utf-8"))));
}

#[test]
fn key_rules() {
    assert!(key_ok(&bytes("src/main.rs")));
    assert!(key_ok(&bytes("lib.rs")));
    assert!(!key_ok(&bytes("")));
    assert!(!key_ok(&bytes("noext")));
    assert!(!key_ok(&bytes("main.c")));
    assert!(!key_ok(&bytes("../escape.rs")));
    assert!(!key_ok(&bytes("a/../b.rs")));
    assert!(!key_ok(&bytes("a..b.rs")));
    assert!(!key_ok(&bytes("/abs.rs")));
}

#[test]
fn validate_accepts_good_manifest() {
    let p = Payload::Object(vec![
        (bytes("src/main.rs"), JsonContent::Text(bytes("fn main() {}"))),
        (bytes("src/lib.rs"), JsonContent::Text(bytes("pub fn f() {}"))),
    ]);
    match validate(p) {
        Ok(m) => {
            assert_eq!(m.files.len(), 2);
            assert_eq!(m.files[0].0, bytes("src/main.rs"));
            assert_eq!(m.files[0].1, bytes("fn main() {}"));
            assert_eq!(m.files[1].0, bytes("src/lib.rs"));
            assert_eq!(m.files[1].1, bytes("pub fn f() {}"));
        },
        Err(_) => panic!("a valid manifest must be accepted"),
    }
}

#[test]
fn validate_rejects_traversal_key() {
    let p = Payload::Object(vec![(bytes("../escape.rs"), JsonContent::Text(bytes("x")))]);
    assert_eq!(validate(p).err(), Some(Rejection::RejectedFilename));
}

#[test]
fn validate_rejects_absolute_key() {
    let p = Payload::Object(vec![(bytes("/etc/owned.rs"), JsonContent::Text(bytes("x")))]);
    assert_eq!(validate(p).err(), Some(Rejection::RejectedFilename));
}

#[test]
fn validate_rejects_missing_suffix() {
    let p = Payload::Object(vec![(bytes("main.py"), JsonContent::Text(bytes("x")))]);
    assert_eq!(validate(p).err(), Some(Rejection::RejectedFilename));
}

#[test]
fn validate_rejects_non_object() {
    assert_eq!(validate(Payload::NonObject).err(), Some(Rejection::MalformedPayload));
}

#[test]
fn validate_rejects_non_string_content() {
    let p = Payload::Object(vec![(bytes("src/main.rs"), JsonContent::NonText)]);
    assert_eq!(validate(p).err(), Some(Rejection::InvalidContentType));
}

#[test]
fn bad_key_outranks_bad_content() {
    let p = Payload::Object(vec![
        (bytes("src/main.rs"), JsonContent::NonText),
        (bytes("../escape.rs"), JsonContent::Text(bytes("x"))),
    ]);
    assert_eq!(validate(p).err(), Some(Rejection::RejectedFilename));
}

#[test]
fn missing_content_type_is_415() {
    let (p, a, m) = start_from_bytes(limits(), false, &bytes("{}"));
    let r = expect_respond(a);
    assert_eq!(r.status, 415);
    assert_eq!(fixed_of(&r), FixedMsg::NeedJsonContentType);
    assert!(!p.staged);
    assert!(m.is_none());
}

#[test]
fn non_json_body_is_400() {
    let (p, a, m) = start_from_bytes(limits(), true, &bytes("not json"));
    let r = expect_respond(a);
    assert_eq!(r.status, 400);
    assert_eq!(fixed_of(&r), FixedMsg::JsonParseError);
    assert!(!p.staged);
    assert!(m.is_none());
}

#[test]
fn non_object_body_is_400() {
    let (_, a, _) = start_from_bytes(limits(), true, &bytes("[1, 2, 3]"));
    let r = expect_respond(a);
    assert_eq!(r.status, 400);
    assert_eq!(fixed_of(&r), FixedMsg::BadStructure);
}

#[test]
fn traversal_key_is_403_and_stages_nothing() {
    let (p, a, m) = start_from_bytes(limits(), true, &bytes("{\"../escape.rs\": \"x\"}"));
    let r = expect_respond(a);
    assert_eq!(r.status, 403);
    assert_eq!(fixed_of(&r), FixedMsg::ForbiddenName);
    assert!(!p.staged);
    assert!(!p.slot_held);
    assert!(m.is_none());
}

#[test]
fn wrong_suffix_key_is_403() {
    let (_, a, _) = start_from_bytes(limits(), true, &bytes("{\"main.py\": \"x\"}"));
    let r = expect_respond(a);
    assert_eq!(r.status, 403);
    assert_eq!(fixed_of(&r), FixedMsg::ForbiddenName);
}

#[test]
fn numeric_content_is_400() {
    let (_, a, _) = start_from_bytes(limits(), true, &bytes("{\"src/main.rs\": 5}"));
    let r = expect_respond(a);
    assert_eq!(r.status, 400);
    assert_eq!(fixed_of(&r), FixedMsg::BadContentValue);
}

#[test]
fn decoded_manifest_carries_the_files() {
    let body = bytes("{\"src/main.rs\": \"fn main() {}\"}");
    let (p, a, m) = start_from_bytes(limits(), true, &body);
    assert!(matches!(a, BuildAction::AcquireSlot));
    assert!(!p.staged);
    let m = m.expect("a valid manifest must be handed back");
    assert_eq!(m.files.len(), 1);
    assert_eq!(m.files[0].0, bytes("src/main.rs"));
    assert_eq!(m.files[0].1, bytes("fn main() {}"));
}

#[test]
fn start_accepts_prevalidated_payload() {
    let payload = Payload::Object(vec![(
        bytes("src/main.rs"),
        JsonContent::Text(bytes("fn main() {}")),
    )]);
    let (p, a, m): (Pipeline, BuildAction, _) = start(limits(), true, Some(payload));
    assert!(matches!(a, BuildAction::AcquireSlot));
    assert!(!p.staged);
    assert!(m.is_some());
}

#[test]
fn fixed_texts() {
    assert_eq!(
        fixed_text(&FixedMsg::Home),
        "If you're here, you should read more code."
    );
    assert_eq!(
        fixed_text(&FixedMsg::NeedJsonContentType),
        "Content-Type must be application/json"
    );
    assert_eq!(fixed_text(&FixedMsg::JsonParseError), "Error parsing JSON");
    assert_eq!(fixed_text(&FixedMsg::BadStructure), "Invalid JSON structure");
    assert_eq!(fixed_text(&FixedMsg::ForbiddenName), "Grrrrr(ust).");
    assert_eq!(
        fixed_text(&FixedMsg::BadContentValue),
        "Invalid content type for file"
    );
    assert_eq!(fixed_text(&FixedMsg::InternalError), "Internal Server Error");
    assert_eq!(fixed_text(&FixedMsg::BuildTimedOut), "build timed out");
    assert_eq!(fixed_text(&FixedMsg::Busy), "Service busy");
}

#[test]
fn home_and_not_found_responses() {
    let h = remote_build::http::home_response();
    assert_eq!(h.status, 200);
    assert_eq!(fixed_of(&h), FixedMsg::Home);
    let n = remote_build::http::not_found_response();
    assert_eq!(n.status, 404);
    assert!(matches!(n.body, RespBody::Empty));
}
