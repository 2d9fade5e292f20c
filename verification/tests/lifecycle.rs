//! The draft lifecycle, driven through the public service operations with
//! explicit identifiers and instants.

use draft_intake::json::JsonValue;
use draft_intake::model::{Error, PatchDraft, Status};
use draft_intake::service::{create_with, fetch_draft, get_draft, patch_with, submit_with, AppState};

fn state() -> AppState {
    AppState::new("http://localhost:5173".to_string())
}

fn alice_data() -> JsonValue {
    JsonValue::Obj(vec![("name".to_string(), JsonValue::Str("Alice".to_string()))])
}

#[test]
fn create_then_get_defaults() {
    let mut st = state();
    let resp = create_with(&mut st, "a1".to_string(), "2024-01-01T00:00:00Z".to_string()).unwrap();
    assert_eq!(resp.id, "a1");
    assert_eq!(resp.resume_url, "http://localhost:5173/form/a1");
    let out = get_draft(&st, "a1").unwrap();
    assert_eq!(out.id, "a1");
    assert_eq!(out.step, 0);
    assert_eq!(out.status, Status::Draft);
    assert_eq!(out.status.as_str(), "draft");
    assert_eq!(out.data, JsonValue::Obj(vec![]));
    assert_eq!(out.created_at, "2024-01-01T00:00:00Z");
    assert_eq!(out.updated_at, "2024-01-01T00:00:00Z");
}

#[test]
fn create_duplicate_id_is_refused() {
    let mut st = state();
    create_with(&mut st, "a1".to_string(), "t0".to_string()).unwrap();
    let second = create_with(&mut st, "a1".to_string(), "t1".to_string());
    assert_eq!(second.unwrap_err(), Error::Storage);
    // the original record is untouched
    let out = fetch_draft(&st, "a1").unwrap();
    assert_eq!(out.created_at, "t0");
}

#[test]
fn patch_replaces_data_and_takes_step() {
    let mut st = state();
    create_with(&mut st, "a1".to_string(), "t0".to_string()).unwrap();
    let body = PatchDraft { data: alice_data(), step: Some(1) };
    let out = patch_with(&mut st, "a1", body, "t1".to_string()).unwrap();
    assert_eq!(out.data, alice_data());
    assert_eq!(out.step, 1);
    assert_eq!(out.status, Status::Draft);
    assert_eq!(out.created_at, "t0");
    assert_eq!(out.updated_at, "t1");
}

#[test]
fn patch_without_step_keeps_prior_step() {
    let mut st = state();
    create_with(&mut st, "a1".to_string(), "t0".to_string()).unwrap();
    let body = PatchDraft { data: alice_data(), step: Some(4) };
    patch_with(&mut st, "a1", body, "t1".to_string()).unwrap();
    let body2 = PatchDraft {
        data: JsonValue::Obj(vec![("city".to_string(), JsonValue::Str("Oslo".to_string()))]),
        step: None,
    };
    let out = patch_with(&mut st, "a1", body2, "t2".to_string()).unwrap();
    assert_eq!(out.step, 4);
    assert_eq!(
        out.data,
        JsonValue::Obj(vec![("city".to_string(), JsonValue::Str("Oslo".to_string()))])
    );
    assert_eq!(out.updated_at, "t2");
}

#[test]
fn patch_replaces_wholesale_not_merging() {
    let mut st = state();
    create_with(&mut st, "a1".to_string(), "t0".to_string()).unwrap();
    let body = PatchDraft { data: alice_data(), step: None };
    patch_with(&mut st, "a1", body, "t1".to_string()).unwrap();
    let body2 = PatchDraft {
        data: JsonValue::Obj(vec![("age".to_string(), JsonValue::Int(30))]),
        step: None,
    };
    let out = patch_with(&mut st, "a1", body2, "t2".to_string()).unwrap();
    // the earlier "name" field is gone: the object was replaced, not merged
    assert_eq!(out.data, JsonValue::Obj(vec![("age".to_string(), JsonValue::Int(30))]));
}

#[test]
fn patch_non_object_degrades_to_empty_object() {
    let mut st = state();
    create_with(&mut st, "a1".to_string(), "t0".to_string()).unwrap();
    for payload in [
        JsonValue::Null,
        JsonValue::Bool(true),
        JsonValue::Int(7),
        JsonValue::Str("x".to_string()),
        JsonValue::Arr(vec![JsonValue::Int(1)]),
    ] {
        let out = patch_with(&mut st, "a1", PatchDraft { data: payload, step: None }, "t1".to_string())
            .unwrap();
        assert_eq!(out.data, JsonValue::Obj(vec![]));
    }
}

#[test]
fn patch_on_submitted_is_silent_noop() {
    let mut st = state();
    create_with(&mut st, "a1".to_string(), "t0".to_string()).unwrap();
    patch_with(&mut st, "a1", PatchDraft { data: alice_data(), step: Some(2) }, "t1".to_string())
        .unwrap();
    submit_with(&mut st, "a1", "t2".to_string()).unwrap();
    let body = PatchDraft {
        data: JsonValue::Obj(vec![("name".to_string(), JsonValue::Str("Bob".to_string()))]),
        step: Some(9),
    };
    let out = patch_with(&mut st, "a1", body, "t3".to_string()).unwrap();
    // no error, and data, step, status and stamps all stand as before the patch
    assert_eq!(out.data, alice_data());
    assert_eq!(out.step, 2);
    assert_eq!(out.status, Status::Submitted);
    assert_eq!(out.created_at, "t0");
    assert_eq!(out.updated_at, "t2");
}

#[test]
fn submit_is_idempotent() {
    let mut st = state();
    create_with(&mut st, "a1".to_string(), "t0".to_string()).unwrap();
    patch_with(&mut st, "a1", PatchDraft { data: alice_data(), step: Some(1) }, "t1".to_string())
        .unwrap();
    let first = submit_with(&mut st, "a1", "t2".to_string()).unwrap();
    assert_eq!(first.status, Status::Submitted);
    let second = submit_with(&mut st, "a1", "t3".to_string()).unwrap();
    assert_eq!(second.status, Status::Submitted);
    assert_eq!(second.status.as_str(), "submitted");
    assert_eq!(second.data, alice_data());
    assert_eq!(second.step, 1);
    assert_eq!(second.created_at, "t0");
    // the second submission stamps the update time anew, as the store's
    // unconditional update does
    assert_eq!(second.updated_at, "t3");
}

#[test]
fn missing_identifier_is_not_found() {
    let mut st = state();
    create_with(&mut st, "a1".to_string(), "t0".to_string()).unwrap();
    assert_eq!(get_draft(&st, "nope").unwrap_err(), Error::NotFound);
    let body = PatchDraft { data: alice_data(), step: None };
    assert_eq!(patch_with(&mut st, "nope", body, "t1".to_string()).unwrap_err(), Error::NotFound);
    assert_eq!(submit_with(&mut st, "nope", "t1".to_string()).unwrap_err(), Error::NotFound);
    // and the store is untouched by either attempt
    let out = get_draft(&st, "a1").unwrap();
    assert_eq!(out.updated_at, "t0");
    assert_eq!(out.status, Status::Draft);
}

#[test]
fn end_to_end_scenario() {
    let mut st = state();
    let resp = create_with(&mut st, "x".to_string(), "t0".to_string()).unwrap();
    assert_eq!(resp.id, "x");
    let body = PatchDraft { data: alice_data(), step: Some(1) };
    patch_with(&mut st, "x", body, "t1".to_string()).unwrap();
    let mid = get_draft(&st, "x").unwrap();
    assert_eq!(mid.data, alice_data());
    assert_eq!(mid.step, 1);
    assert_eq!(mid.status, Status::Draft);
    submit_with(&mut st, "x", "t2".to_string()).unwrap();
    let done = get_draft(&st, "x").unwrap();
    assert_eq!(done.status, Status::Submitted);
    assert_eq!(done.data, alice_data());
    assert_eq!(done.step, 1);
}
