use vstd::prelude::*;

use crate::auth::ends_with_token;
use crate::handler::{create_outcome, delete_outcome, detail_outcome, update_outcome};
use crate::store::{table_wf, Table};
use crate::tag::{Rejection, TagView};

verus! {

/// A created tag gets the table's next id, whatever id the client sent. That id is held by no
/// stored row and is above every id assigned before, and the table stays well formed with its
/// next id above it, so no later create can get it again.
pub proof fn lemma_create_assigns_fresh_id(
    t: Table,
    token: Seq<char>,
    authorization: Seq<char>,
    body: TagView,
    client_id: Option<i32>,
)
    requires
        table_wf(t),
    ensures
        create_outcome(t, token, authorization, body) == create_outcome(
            t,
            token,
            authorization,
            TagView { id: client_id, title: body.title },
        ),
        create_outcome(t, token, authorization, body).1 matches Ok(v) ==> {
            &&& v.id == Some(t.next_id as i32)
            &&& !t.rows.contains_key(t.next_id as i32)
            &&& forall|k: i32| #[trigger] t.rows.contains_key(k) ==> k < t.next_id
            &&& table_wf(create_outcome(t, token, authorization, body).0)
            &&& create_outcome(t, token, authorization, body).0.next_id > t.next_id
        },
{
}

/// No request moves the next id back: ids assigned later are always greater.
pub proof fn lemma_next_id_never_decreases(
    t: Table,
    token: Seq<char>,
    authorization: Seq<char>,
    body: TagView,
    id: i32,
)
    requires
        table_wf(t),
    ensures
        table_wf(create_outcome(t, token, authorization, body).0),
        create_outcome(t, token, authorization, body).0.next_id >= t.next_id,
        table_wf(update_outcome(t, token, authorization, body, id).0),
        update_outcome(t, token, authorization, body, id).0.next_id == t.next_id,
        table_wf(delete_outcome(t, token, authorization, id).0),
        delete_outcome(t, token, authorization, id).0.next_id == t.next_id,
{
}

/// Reading the id that a create returned gives back the created tag.
pub proof fn lemma_detail_after_create(
    t: Table,
    token: Seq<char>,
    authorization: Seq<char>,
    body: TagView,
)
    requires
        table_wf(t),
    ensures
        create_outcome(t, token, authorization, body).1 matches Ok(v) ==> (v.id matches Some(id)
            && detail_outcome(create_outcome(t, token, authorization, body).0, id) == Ok::<
            TagView,
            Rejection,
        >(v)),
{
}

/// An id that no row holds is not found by a read, and, behind the guard, by an update or a
/// delete, which then change nothing.
pub proof fn lemma_absent_id_not_found(
    t: Table,
    token: Seq<char>,
    authorization: Seq<char>,
    body: TagView,
    id: i32,
)
    requires
        !t.rows.contains_key(id),
    ensures
        detail_outcome(t, id) == Err::<TagView, Rejection>(Rejection::NotFound),
        ends_with_token(authorization, token) ==> update_outcome(t, token, authorization, body, id)
            == (t, Err::<TagView, Rejection>(Rejection::NotFound)),
        ends_with_token(authorization, token) ==> delete_outcome(t, token, authorization, id) == (
            t,
            Err::<(), Rejection>(Rejection::NotFound),
        ),
{
}

/// After a successful update, a read of the same id gives the new title under the same id.
pub proof fn lemma_detail_after_update(
    t: Table,
    token: Seq<char>,
    authorization: Seq<char>,
    body: TagView,
    id: i32,
)
    ensures
        update_outcome(t, token, authorization, body, id).1 matches Ok(v) ==> {
            &&& v == TagView { id: Some(id), title: body.title }
            &&& detail_outcome(update_outcome(t, token, authorization, body, id).0, id) == Ok::<
                TagView,
                Rejection,
            >(v)
        },
{
}

/// After a delete that passed the guard, whether or not the row existed, a read of the same
/// id is not found.
pub proof fn lemma_detail_after_delete(t: Table, token: Seq<char>, authorization: Seq<char>, id: i32)
    requires
        ends_with_token(authorization, token),
    ensures
        detail_outcome(delete_outcome(t, token, authorization, id).0, id) == Err::<
            TagView,
            Rejection,
        >(Rejection::NotFound),
{
}

/// A mutating request whose `Authorization` header does not end with the token is refused
/// and leaves the table as it was.
pub proof fn lemma_unauthorized_changes_nothing(
    t: Table,
    token: Seq<char>,
    authorization: Seq<char>,
    body: TagView,
    id: i32,
)
    requires
        !ends_with_token(authorization, token),
    ensures
        create_outcome(t, token, authorization, body) == (t, Err::<TagView, Rejection>(
            Rejection::Unauthorized,
        )),
        update_outcome(t, token, authorization, body, id) == (t, Err::<TagView, Rejection>(
            Rejection::Unauthorized,
        )),
        delete_outcome(t, token, authorization, id) == (t, Err::<(), Rejection>(
            Rejection::Unauthorized,
        )),
{
}

} // verus!
