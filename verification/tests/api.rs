//! The helpers around the lifecycle: resume URLs, the hello and health
//! routes, error status codes, the JSON conversion rule, and the operations
//! that draw the identifier and the time themselves.

use draft_intake::json::JsonValue;
use draft_intake::model::{Error, PatchDraft, Status};
use draft_intake::service::{
    create_draft, get_draft, health, hello, patch_draft, resume_url, submit_draft, AppState,
};

#[test]
fn resume_url_plain_base() {
    assert_eq!(resume_url("http://localhost:5173", "abc"), "http://localhost:5173/form/abc");
}

#[test]
fn resume_url_trailing_slash_not_doubled() {
    assert_eq!(resume_url("http://localhost:5173/", "abc"), "http://localhost:5173/form/abc");
    assert_eq!(resume_url("http://localhost:5173///", "abc"), "http://localhost:5173/form/abc");
}

#[test]
fn resume_url_empty_base() {
    assert_eq!(resume_url("", "abc"), "/form/abc");
    assert_eq!(resume_url("/", "abc"), "/form/abc");
}

#[test]
fn hello_greets_by_name() {
    assert_eq!(hello("Lina").hello, "Hello Lina");
    assert_eq!(hello("").hello, "Hello ");
}

#[test]
fn health_is_ok() {
    assert_eq!(health(), "ok");
}

#[test]
fn error_status_codes() {
    assert_eq!(Error::NotFound.status(), 404);
    assert_eq!(Error::QueryFailed.status(), 404);
    assert_eq!(Error::Storage.status(), 500);
    assert_eq!(Error::Config.status(), 500);
}

#[test]
fn status_wire_names() {
    assert_eq!(Status::Draft.as_str(), "draft");
    assert_eq!(Status::Submitted.as_str(), "submitted");
}

#[test]
fn into_stored_keeps_objects_and_drops_the_rest() {
    let obj = JsonValue::Obj(vec![("k".to_string(), JsonValue::Int(1))]);
    assert_eq!(obj.deep_clone().into_stored(), obj);
    assert_eq!(JsonValue::Int(5).into_stored(), JsonValue::Obj(vec![]));
    assert_eq!(JsonValue::Arr(vec![]).into_stored(), JsonValue::Obj(vec![]));
}

#[test]
fn is_object_tells_objects_apart() {
    assert!(JsonValue::Obj(vec![]).is_object());
    assert!(!JsonValue::Null.is_object());
    assert!(!JsonValue::Arr(vec![JsonValue::Obj(vec![])]).is_object());
}

#[test]
fn empty_object_is_the_empty_json_object() {
    assert_eq!(JsonValue::empty_object(), JsonValue::Obj(vec![]));
}

#[test]
fn deep_clone_copies_nested_values() {
    let v = JsonValue::Obj(vec![
        ("a".to_string(), JsonValue::Arr(vec![JsonValue::Int(1), JsonValue::Null])),
        ("b".to_string(), JsonValue::Str("x".to_string())),
    ]);
    assert_eq!(v.deep_clone(), v);
}

#[test]
fn created_identifiers_are_unique_and_resumable() {
    // the full creation front: a random identifier and the real clock
    let mut st = AppState::new("http://localhost:5173/".to_string());
    let a = create_draft(&mut st).unwrap();
    let b = create_draft(&mut st).unwrap();
    assert_ne!(a.id, b.id);
    assert_eq!(a.id.len(), 36);
    assert_eq!(a.resume_url, format!("http://localhost:5173/form/{}", a.id));
    let out = get_draft(&st, &a.id).unwrap();
    assert_eq!(out.step, 0);
    assert_eq!(out.status, Status::Draft);
    assert_eq!(out.data, JsonValue::Obj(vec![]));
    assert_eq!(out.created_at, out.updated_at);
    // the stamp came from the clock: a full date-and-time rendering
    assert!(out.created_at.len() >= 20);
}

#[test]
fn clock_stamp_has_the_rfc3339_shape() {
    let mut st = AppState::new("http://x".to_string());
    let a = create_draft(&mut st).unwrap();
    let out = get_draft(&st, &a.id).unwrap();
    let s: Vec<char> = out.created_at.chars().collect();
    assert!(s.len() >= 20);
    for i in [0, 1, 2, 3, 5, 6, 8, 9, 11, 12, 14, 15, 17, 18] {
        assert!(s[i].is_ascii_digit());
    }
    assert_eq!(s[4], '-');
    assert_eq!(s[7], '-');
    assert_eq!(s[10], 'T');
    assert_eq!(s[13], ':');
    assert_eq!(s[16], ':');
    assert_eq!(*s.last().unwrap(), 'Z');
    if s.len() > 20 {
        assert_eq!(s[19], '.');
        for i in 20..s.len() - 1 {
            assert!(s[i].is_ascii_digit());
        }
    }
    let month: u32 = out.created_at[5..7].parse().unwrap();
    let day: u32 = out.created_at[8..10].parse().unwrap();
    let hour: u32 = out.created_at[11..13].parse().unwrap();
    let minute: u32 = out.created_at[14..16].parse().unwrap();
    let second: u32 = out.created_at[17..19].parse().unwrap();
    assert!((1..=12).contains(&month));
    assert!((1..=31).contains(&day));
    assert!(hour <= 23);
    assert!(minute <= 59);
    assert!(second <= 59);
}

#[test]
fn clocked_patch_and_submit() {
    let mut st = AppState::new("http://x".to_string());
    let a = create_draft(&mut st).unwrap();
    let body = PatchDraft { data: JsonValue::Obj(vec![]), step: Some(2) };
    let patched = patch_draft(&mut st, &a.id, body).unwrap();
    assert_eq!(patched.step, 2);
    assert!(patched.updated_at >= patched.created_at);
    let done = submit_draft(&mut st, &a.id).unwrap();
    assert_eq!(done.status, Status::Submitted);
    assert!(done.updated_at >= patched.updated_at);
    assert_eq!(submit_draft(&mut st, "missing").unwrap_err(), Error::NotFound);
    assert_eq!(
        patch_draft(&mut st, "missing", PatchDraft { data: JsonValue::Null, step: None })
            .unwrap_err(),
        Error::NotFound
    );
}
