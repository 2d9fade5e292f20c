//! The lifecycle laws: what holds of every store, every identifier and every
//! instant, proved over the transition functions the service contracts use.

use vstd::prelude::*;
use crate::json::{stored_model, JsonModel};
use crate::model::DraftModel;
use crate::service::{
    created_store, new_draft_model, patched_store, resume_url_model, step_after, submitted_store,
    trimmed_base,
};

verus! {

/// A freshly created draft reads back with empty data, step nought, draft
/// status, and both stamps the creation instant; and its identifier is taken
/// from then on, so a second creation under it is refused.
pub proof fn lemma_create_then_get(m: Map<Seq<char>, DraftModel>, id: Seq<char>, now: Seq<char>)
    requires
        !m.contains_key(id),
    ensures
        created_store(m, id, now).contains_key(id),
        created_store(m, id, now)[id] == new_draft_model(id, now),
        created_store(m, id, now)[id].data == JsonModel::Obj(
            Seq::<(Seq<char>, JsonModel)>::empty(),
        ),
        created_store(m, id, now)[id].step == 0,
        created_store(m, id, now)[id].status is Draft,
        created_store(m, id, now)[id].created_at == now,
        created_store(m, id, now)[id].updated_at == now,
{
}

/// The resume URL is indifferent to a trailing slash on the public base, and
/// on a base without one it is literally the base, `/form/`, the identifier.
pub proof fn lemma_resume_url_trailing_slash(base: Seq<char>, id: Seq<char>)
    ensures
        resume_url_model(base.push('/'), id) == resume_url_model(base, id),
        base.len() > 0 && base.last() != '/' ==> resume_url_model(base, id) == base + "/form/"@
            + id,
{
    assert(base.push('/').drop_last() =~= base);
    assert(base.push('/').last() == '/');
}

/// The trimmed base never ends in a slash, so the slash of `/form/` is never
/// doubled in a resume URL.
pub proof fn lemma_trimmed_base_no_trailing_slash(base: Seq<char>)
    ensures
        trimmed_base(base).len() > 0 ==> trimmed_base(base).last() != '/',
    decreases base.len(),
{
    if base.len() > 0 && base.last() == '/' {
        lemma_trimmed_base_no_trailing_slash(base.drop_last());
    }
}

/// After a patch on a live draft, a read reflects the new data exactly — the
/// stored shape of the payload, a wholesale replacement — the supplied step,
/// or the prior one when it was omitted, and the fresh update stamp; the
/// identifier, the status and the creation stamp are untouched.
pub proof fn lemma_patch_then_get(
    m: Map<Seq<char>, DraftModel>,
    id: Seq<char>,
    data: JsonModel,
    step: Option<i64>,
    now: Seq<char>,
)
    requires
        m.contains_key(id),
        m[id].status is Draft,
    ensures
        patched_store(m, id, data, step, now).contains_key(id),
        patched_store(m, id, data, step, now)[id].data == stored_model(data),
        patched_store(m, id, data, step, now)[id].step == step_after(step, m[id].step),
        patched_store(m, id, data, step, now)[id].status is Draft,
        patched_store(m, id, data, step, now)[id].created_at == m[id].created_at,
        patched_store(m, id, data, step, now)[id].updated_at == now,
        patched_store(m, id, data, step, now)[id].uuid == id,
{
}

/// For a payload that is a top-level object — the shape an update request
/// carries — a patch on a live draft stores the payload exactly as sent: a
/// wholesale replacement, never a merge. Any other shape degrades to the
/// empty object by the store's conversion rule, so it is left out here.
pub proof fn lemma_patch_object_payload_exact(
    m: Map<Seq<char>, DraftModel>,
    id: Seq<char>,
    data: JsonModel,
    step: Option<i64>,
    now: Seq<char>,
)
    requires
        m.contains_key(id),
        m[id].status is Draft,
        data is Obj,
    ensures
        patched_store(m, id, data, step, now)[id].data == data,
{
}

/// A patch on a submitted draft is a silent no-op: data, step, status and
/// stamps of every record stand exactly as before.
pub proof fn lemma_patch_submitted_noop(
    m: Map<Seq<char>, DraftModel>,
    id: Seq<char>,
    data: JsonModel,
    step: Option<i64>,
    now: Seq<char>,
)
    requires
        m.contains_key(id),
        m[id].status is Submitted,
    ensures
        patched_store(m, id, data, step, now) == m,
{
}

/// Submission is idempotent up to the stamp: a second submission finds the
/// identifier still present — so it signals no error — and leaves the record
/// submitted, with data, step and creation stamp as they were before either
/// submission.
pub proof fn lemma_submit_idempotent(
    m: Map<Seq<char>, DraftModel>,
    id: Seq<char>,
    now1: Seq<char>,
    now2: Seq<char>,
)
    requires
        m.contains_key(id),
    ensures
        submitted_store(m, id, now1).contains_key(id),
        submitted_store(m, id, now1)[id].status is Submitted,
        submitted_store(submitted_store(m, id, now1), id, now2).contains_key(id),
        submitted_store(submitted_store(m, id, now1), id, now2)[id].status is Submitted,
        submitted_store(submitted_store(m, id, now1), id, now2)[id].data == m[id].data,
        submitted_store(submitted_store(m, id, now1), id, now2)[id].step == m[id].step,
        submitted_store(submitted_store(m, id, now1), id, now2)[id].created_at
            == m[id].created_at,
        submitted_store(submitted_store(m, id, now1), id, now2)[id].updated_at == now2,
{
}

/// On an identifier the store does not hold, patch and submit change
/// nothing; with the operations' contracts, every such request is refused as
/// `NotFound`.
pub proof fn lemma_missing_id_changes_nothing(
    m: Map<Seq<char>, DraftModel>,
    id: Seq<char>,
    data: JsonModel,
    step: Option<i64>,
    now: Seq<char>,
)
    requires
        !m.contains_key(id),
    ensures
        patched_store(m, id, data, step, now) == m,
        submitted_store(m, id, now) == m,
{
}

/// The status moves only forward: no operation turns a submitted record back
/// into a draft.
pub proof fn lemma_status_terminal(
    m: Map<Seq<char>, DraftModel>,
    id: Seq<char>,
    data: JsonModel,
    step: Option<i64>,
    now: Seq<char>,
)
    requires
        m.contains_key(id),
        m[id].status is Submitted,
    ensures
        patched_store(m, id, data, step, now)[id].status is Submitted,
        submitted_store(m, id, now)[id].status is Submitted,
        created_store(m, id, now)[id].status is Submitted,
{
}

/// No operation ever removes a record: patch and submit keep the key set
/// exactly and touch no record but the addressed one, and a creation at most
/// adds the new identifier. So an identifier once returned by a creation
/// stays a key of the store for good.
pub proof fn lemma_frame(
    m: Map<Seq<char>, DraftModel>,
    id: Seq<char>,
    data: JsonModel,
    step: Option<i64>,
    now: Seq<char>,
)
    ensures
        patched_store(m, id, data, step, now).dom() == m.dom(),
        submitted_store(m, id, now).dom() == m.dom(),
        created_store(m, id, now).dom() == m.dom().insert(id),
        forall|k: Seq<char>|
            k != id && m.contains_key(k) ==> patched_store(m, id, data, step, now)[k] == m[k],
        forall|k: Seq<char>|
            k != id && m.contains_key(k) ==> submitted_store(m, id, now)[k] == m[k],
        forall|k: Seq<char>|
            k != id && m.contains_key(k) ==> created_store(m, id, now)[k] == m[k],
{
    assert(patched_store(m, id, data, step, now).dom() =~= m.dom());
    assert(submitted_store(m, id, now).dom() =~= m.dom());
    assert(created_store(m, id, now).dom() =~= m.dom().insert(id));
}

} // verus!
