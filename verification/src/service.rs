//! The draft service: the lifecycle operations — create, get, patch, submit —
//! over the draft store, and the resume-URL construction.
//!
//! Each operation that stamps a time or draws an identifier comes in two
//! forms: a core that takes the stamp as an argument, with an exact contract,
//! and a front that draws the stamp from the clock or the random source and
//! hands it to the core.

use vstd::prelude::*;
use crate::json::{stored_model, JsonModel, JsonValue};
use crate::model::{
    fresh_uuid, is_rfc3339_utc, now_rfc3339, Draft, DraftModel, DraftOut, Error, HelloResponse,
    NewDraftResponse, PatchDraft, Status, projects,
};
use crate::store::DraftStore;

verus! {

/// The shared application state: the draft store and the public base URL
/// resume links are built on.
pub struct AppState {
    pub drafts: DraftStore,
    pub public_base: String,
}

impl AppState {
    /// The store's uniqueness constraint holds.
    pub open spec fn wf(&self) -> bool {
        self.drafts.wf()
    }

    /// A state over an empty store.
    pub fn new(public_base: String) -> (s: Self)
        ensures
            s.wf(),
            s.drafts@ == Map::<Seq<char>, DraftModel>::empty(),
            s.public_base == public_base,
    {
        AppState { drafts: DraftStore::new(), public_base }
    }
}

/// The record a fresh draft holds: empty data, step nought, draft status,
/// and both timestamps the creation instant.
pub open spec fn new_draft_model(id: Seq<char>, now: Seq<char>) -> DraftModel {
    DraftModel {
        uuid: id,
        data: JsonModel::Obj(Seq::empty()),
        step: 0,
        status: Status::Draft,
        created_at: now,
        updated_at: now,
    }
}

/// The store after a creation with identifier `id` at instant `now`: a taken
/// identifier leaves it unchanged, a fresh one gains the new record.
pub open spec fn created_store(
    m: Map<Seq<char>, DraftModel>,
    id: Seq<char>,
    now: Seq<char>,
) -> Map<Seq<char>, DraftModel> {
    if m.contains_key(id) {
        m
    } else {
        m.insert(id, new_draft_model(id, now))
    }
}

/// The step a patch leaves behind: the supplied one, or the prior one when
/// the caller omitted it.
pub open spec fn step_after(step: Option<i64>, prior: int) -> int {
    match step {
        Some(s) => s as int,
        None => prior,
    }
}

/// The store after a partial update: only a record that exists and is still
/// a draft changes — its data is replaced by the stored shape of the payload,
/// its step taken if supplied, and its update time stamped. A submitted or
/// missing record leaves the store as it was.
pub open spec fn patched_store(
    m: Map<Seq<char>, DraftModel>,
    id: Seq<char>,
    data: JsonModel,
    step: Option<i64>,
    now: Seq<char>,
) -> Map<Seq<char>, DraftModel> {
    if m.contains_key(id) && m[id].status is Draft {
        m.insert(
            id,
            DraftModel {
                uuid: id,
                data: stored_model(data),
                step: step_after(step, m[id].step),
                status: Status::Draft,
                created_at: m[id].created_at,
                updated_at: now,
            },
        )
    } else {
        m
    }
}

/// The store after a submission: a record that exists — whatever its state —
/// is marked submitted and stamped; a missing identifier changes nothing.
pub open spec fn submitted_store(
    m: Map<Seq<char>, DraftModel>,
    id: Seq<char>,
    now: Seq<char>,
) -> Map<Seq<char>, DraftModel> {
    if m.contains_key(id) {
        m.insert(
            id,
            DraftModel {
                uuid: id,
                data: m[id].data,
                step: m[id].step,
                status: Status::Submitted,
                created_at: m[id].created_at,
                updated_at: now,
            },
        )
    } else {
        m
    }
}

/// `base` with every trailing slash removed.
pub open spec fn trimmed_base(base: Seq<char>) -> Seq<char>
    decreases base.len(),
{
    if base.len() > 0 && base.last() == '/' {
        trimmed_base(base.drop_last())
    } else {
        base
    }
}

/// The resume link for a draft: the public base — trailing slashes dropped —
/// then `/form/`, then the identifier.
pub open spec fn resume_url_model(base: Seq<char>, id: Seq<char>) -> Seq<char> {
    trimmed_base(base) + "/form/"@ + id
}

/// `base` with its trailing slashes removed.
fn trim_trailing_slashes(base: &str) -> (r: String)
    ensures
        r@ == trimmed_base(base@),
{
    let n = base.unicode_len();
    let mut end = n;
    proof {
        assert(base@.take(n as int) =~= base@);
    }
    while end > 0 && base.get_char(end - 1) == '/'
        invariant
            end <= n,
            n == base@.len(),
            trimmed_base(base@) == trimmed_base(base@.take(end as int)),
        decreases end,
    {
        proof {
            assert(base@.take(end as int).drop_last() =~= base@.take(end as int - 1));
            assert(base@.take(end as int).last() == '/');
        }
        end = end - 1;
    }
    let r = base.substring_char(0, end).to_owned();
    proof {
        assert(base@.subrange(0, end as int) =~= base@.take(end as int));
    }
    r
}

/// The resume URL for the draft `id` under this public base.
pub fn resume_url(public_base: &str, id: &str) -> (r: String)
    ensures
        r@ == resume_url_model(public_base@, id@),
{
    let mut r = trim_trailing_slashes(public_base);
    r.append("/form/");
    r.append(id);
    r
}

/// Creates a draft under the given identifier at the given instant: the core
/// of a creation request. It succeeds exactly when the identifier is fresh;
/// on a taken identifier the uniqueness constraint refuses the insert and the
/// store is left unchanged.
pub fn create_with(state: &mut AppState, id: String, now: String) -> (r: Result<
    NewDraftResponse,
    Error,
>)
    requires
        old(state).wf(),
    ensures
        final(state).wf(),
        final(state).public_base == old(state).public_base,
        final(state).drafts@ == created_store(old(state).drafts@, id@, now@),
        r is Ok <==> !old(state).drafts@.contains_key(id@),
        match r {
            Ok(resp) => resp.id@ == id@ && resp.resume_url@ == resume_url_model(
                old(state).public_base@,
                id@,
            ),
            Err(e) => e is Storage,
        },
{
    let url = resume_url(state.public_base.as_str(), id.as_str());
    let d = Draft {
        uuid: id.clone(),
        data: JsonValue::empty_object(),
        step: 0,
        status: Status::Draft,
        created_at: now.clone(),
        updated_at: now,
    };
    match state.drafts.insert_one(d) {
        Ok(()) => Ok(NewDraftResponse { id, resume_url: url }),
        Err(e) => Err(e),
    }
}

/// Handles a creation request: draws a fresh random identifier, stamps the
/// current time, and persists the new draft. It fails only when the drawn
/// identifier collides with an existing one, and then leaves the store
/// unchanged — so a store holding no thirty-six-character key at all, the
/// empty store above all, can never refuse a creation.
pub fn create_draft(state: &mut AppState) -> (r: Result<NewDraftResponse, Error>)
    requires
        old(state).wf(),
    ensures
        final(state).wf(),
        final(state).public_base == old(state).public_base,
        match r {
            Ok(resp) => !old(state).drafts@.contains_key(resp.id@) && final(state).drafts@ == old(
                state,
            ).drafts@.insert(resp.id@, new_draft_model(resp.id@, final(state).drafts@[resp.id@].created_at))
                && final(state).drafts@[resp.id@].status is Draft && final(state).drafts@[resp.id@].step == 0
                && resp.resume_url@ == resume_url_model(old(state).public_base@, resp.id@)
                && resp.id@.len() == 36
                && is_rfc3339_utc(final(state).drafts@[resp.id@].created_at),
            Err(e) => e is Storage && final(state).drafts@ == old(state).drafts@,
        },
        r is Err ==> exists|k: Seq<char>|
            old(state).drafts@.contains_key(k) && k.len() == 36,
{
    let id = fresh_uuid();
    let now = now_rfc3339();
    create_with(state, id, now)
}

/// Fetches the projection of the draft with this identifier; `NotFound`
/// exactly when no record has it.
pub fn fetch_draft(state: &AppState, uuid: &str) -> (r: Result<DraftOut, Error>)
    requires
        state.wf(),
    ensures
        r is Ok <==> state.drafts@.contains_key(uuid@),
        match r {
            Ok(out) => projects(out, uuid@, state.drafts@[uuid@]),
            Err(e) => e is NotFound,
        },
{
    match state.drafts.find_one(uuid) {
        Some(d) => Ok(
            DraftOut {
                id: d.uuid.clone(),
                data: d.data.deep_clone(),
                step: d.step,
                status: d.status,
                created_at: d.created_at.clone(),
                updated_at: d.updated_at.clone(),
            },
        ),
        None => Err(Error::NotFound),
    }
}

/// Handles a read request; the projection of the record, `NotFound` exactly
/// when the identifier is unknown.
pub fn get_draft(state: &AppState, uuid: &str) -> (r: Result<DraftOut, Error>)
    requires
        state.wf(),
    ensures
        r is Ok <==> state.drafts@.contains_key(uuid@),
        match r {
            Ok(out) => projects(out, uuid@, state.drafts@[uuid@]),
            Err(e) => e is NotFound,
        },
{
    fetch_draft(state, uuid)
}

/// Applies a partial update at the given instant: the core of a patch
/// request. The update touches the record only while it is still a draft; a
/// submitted record is returned unchanged with no error signal, and a missing
/// identifier is `NotFound`.
pub fn patch_with(state: &mut AppState, uuid: &str, body: PatchDraft, now: String) -> (r: Result<
    DraftOut,
    Error,
>)
    requires
        old(state).wf(),
    ensures
        final(state).wf(),
        final(state).public_base == old(state).public_base,
        final(state).drafts@ == patched_store(
            old(state).drafts@,
            uuid@,
            body.data.deep_view(),
            body.step,
            now@,
        ),
        r is Ok <==> old(state).drafts@.contains_key(uuid@),
        match r {
            Ok(out) => projects(out, uuid@, final(state).drafts@[uuid@]),
            Err(e) => e is NotFound,
        },
{
    let stored = body.data.into_stored();
    state.drafts.update_if_draft(uuid, stored, body.step, now);
    fetch_draft(state, uuid)
}

/// Handles a patch request: stamps the current time and applies the partial
/// update; see `patch_with` for what is and is not touched.
pub fn patch_draft(state: &mut AppState, uuid: &str, body: PatchDraft) -> (r: Result<
    DraftOut,
    Error,
>)
    requires
        old(state).wf(),
    ensures
        final(state).wf(),
        final(state).public_base == old(state).public_base,
        r is Ok <==> old(state).drafts@.contains_key(uuid@),
        r is Ok ==> final(state).drafts@ == patched_store(
            old(state).drafts@,
            uuid@,
            body.data.deep_view(),
            body.step,
            final(state).drafts@[uuid@].updated_at,
        ),
        old(state).drafts@.contains_key(uuid@) && old(state).drafts@[uuid@].status is Draft
            ==> is_rfc3339_utc(final(state).drafts@[uuid@].updated_at),
        r is Err ==> final(state).drafts@ == old(state).drafts@,
        match r {
            Ok(out) => projects(out, uuid@, final(state).drafts@[uuid@]),
            Err(e) => e is NotFound,
        },
{
    let now = now_rfc3339();
    patch_with(state, uuid, body, now)
}

/// Marks the draft submitted at the given instant: the core of a submit
/// request. The mark is unconditional — submitting an already submitted
/// record only stamps it anew — and a missing identifier is `NotFound`.
pub fn submit_with(state: &mut AppState, uuid: &str, now: String) -> (r: Result<DraftOut, Error>)
    requires
        old(state).wf(),
    ensures
        final(state).wf(),
        final(state).public_base == old(state).public_base,
        final(state).drafts@ == submitted_store(old(state).drafts@, uuid@, now@),
        r is Ok <==> old(state).drafts@.contains_key(uuid@),
        match r {
            Ok(out) => projects(out, uuid@, final(state).drafts@[uuid@]) && out.status is Submitted,
            Err(e) => e is NotFound,
        },
{
    state.drafts.mark_submitted(uuid, now);
    fetch_draft(state, uuid)
}

/// Handles a submit request: stamps the current time and marks the record
/// submitted; see `submit_with`.
pub fn submit_draft(state: &mut AppState, uuid: &str) -> (r: Result<DraftOut, Error>)
    requires
        old(state).wf(),
    ensures
        final(state).wf(),
        final(state).public_base == old(state).public_base,
        r is Ok <==> old(state).drafts@.contains_key(uuid@),
        r is Ok ==> final(state).drafts@ == submitted_store(
            old(state).drafts@,
            uuid@,
            final(state).drafts@[uuid@].updated_at,
        ),
        r is Ok ==> is_rfc3339_utc(final(state).drafts@[uuid@].updated_at),
        r is Err ==> final(state).drafts@ == old(state).drafts@,
        match r {
            Ok(out) => projects(out, uuid@, final(state).drafts@[uuid@]) && out.status is Submitted,
            Err(e) => e is NotFound,
        },
{
    let now = now_rfc3339();
    submit_with(state, uuid, now)
}

/// The greeting for the hello route.
pub fn hello(name: &str) -> (r: HelloResponse)
    ensures
        r.hello@ == "Hello "@ + name@,
{
    let greeting = String::from_str("Hello ");
    HelloResponse { hello: greeting.concat(name) }
}

/// The health route's reply.
pub fn health() -> (r: &'static str)
    ensures
        r@ == "ok"@,
{
    "ok"
}

} // verus!
