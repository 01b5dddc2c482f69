use vstd::prelude::*;

use crate::auth::{authorize, ends_with_token};
use crate::store::{rows_hold, Table, TagStore};
use crate::tag::{
    create_response, delete_target, detail_response, list_response, row_view, tags_of_rows,
    to_tag, update_row, Rejection, Tag, TagView,
};

verus! {

/// The client-facing form of a handler's result.
pub open spec fn result_view(r: Result<Tag, Rejection>) -> Result<TagView, Rejection> {
    match r {
        Ok(t) => Ok(t@),
        Err(e) => Err(e),
    }
}

/// What a create does: behind the guard, a new row with the next id and the body's title. The
/// body's id is ignored. When no id is left the insert fails, which is an internal error.
pub open spec fn create_outcome(t: Table, token: Seq<char>, authorization: Seq<char>, body: TagView) -> (
    Table,
    Result<TagView, Rejection>,
) {
    if !ends_with_token(authorization, token) {
        (t, Err(Rejection::Unauthorized))
    } else if t.next_id >= i32::MAX {
        (t, Err(Rejection::InternalError))
    } else {
        (
            Table { rows: t.rows.insert(t.next_id as i32, body.title), next_id: t.next_id + 1 },
            Ok(row_view(t.next_id as i32, body.title)),
        )
    }
}

/// What a read of one tag returns.
pub open spec fn detail_outcome(t: Table, id: i32) -> Result<TagView, Rejection> {
    if t.rows.contains_key(id) {
        Ok(row_view(id, t.rows[id]))
    } else {
        Err(Rejection::NotFound)
    }
}

/// What an update does: behind the guard, the stored title replaced, the id kept.
pub open spec fn update_outcome(
    t: Table,
    token: Seq<char>,
    authorization: Seq<char>,
    body: TagView,
    id: i32,
) -> (Table, Result<TagView, Rejection>) {
    if !ends_with_token(authorization, token) {
        (t, Err(Rejection::Unauthorized))
    } else if !t.rows.contains_key(id) {
        (t, Err(Rejection::NotFound))
    } else {
        (Table { rows: t.rows.insert(id, body.title), next_id: t.next_id }, Ok(row_view(id, body.title)))
    }
}

/// What a delete does: behind the guard, the row removed.
pub open spec fn delete_outcome(t: Table, token: Seq<char>, authorization: Seq<char>, id: i32) -> (
    Table,
    Result<(), Rejection>,
) {
    if !ends_with_token(authorization, token) {
        (t, Err(Rejection::Unauthorized))
    } else if !t.rows.contains_key(id) {
        (t, Err(Rejection::NotFound))
    } else {
        (Table { rows: t.rows.remove(id), next_id: t.next_id }, Ok(()))
    }
}

/// `tags` list the entries of `m`, each once, in some order.
pub open spec fn lists_table(tags: Seq<Tag>, m: Map<i32, Seq<char>>) -> bool {
    &&& forall|i: int|
        0 <= i < tags.len() ==> (#[trigger] tags[i].id matches Some(k) && m.contains_key(k) && m[k]
            == tags[i].title@)
    &&& forall|i: int, j: int|
        0 <= i < tags.len() && 0 <= j < tags.len() && #[trigger] tags[i].id == #[trigger] tags[j].id
            ==> i == j
    &&& forall|k: i32| #[trigger] m.contains_key(k) ==> exists|i: int| 0 <= i < tags.len() && tags[i].id == Some(k)
}

/// Creates a tag from `body` when `authorization` ends with `token`.
pub fn create(store: &mut TagStore, token: &str, authorization: &str, body: Tag) -> (r: Result<
    Tag,
    Rejection,
>)
    requires
        old(store).wf(),
    ensures
        final(store).wf(),
        (final(store)@, result_view(r)) == create_outcome(
            old(store)@,
            token@,
            authorization@,
            body@,
        ),
{
    if !authorize(authorization, token) {
        return Err(Rejection::Unauthorized);
    }
    let inserted = store.insert(body.title);
    create_response(inserted)
}

/// Reads the tag with id `id`.
pub fn detail(store: &TagStore, id: i32) -> (r: Result<Tag, Rejection>)
    requires
        store.wf(),
    ensures
        result_view(r) == detail_outcome(store@, id),
{
    let found = store.find_by_id(id);
    detail_response(found)
}

/// Reads every tag.
pub fn list(store: &TagStore) -> (r: Result<Vec<Tag>, Rejection>)
    requires
        store.wf(),
    ensures
        r matches Ok(tags) && lists_table(tags@, store@.rows),
{
    let all = store.find_all();
    let ghost rows = all->Ok_0@;
    let r = list_response(all);
    proof {
        let tags = r->Ok_0@;
        let m = store@.rows;
        assert(rows_hold(rows, m) && tags_of_rows(tags, rows));
        assert forall|i: int| 0 <= i < tags.len() implies (#[trigger] tags[i].id matches Some(k)
            && m.contains_key(k) && m[k] == tags[i].title@) by {
            assert(tags[i]@ == row_view(rows[i].id, rows[i].title@));
            assert(m.contains_key(rows[i].id));
        }
        assert forall|i: int, j: int|
            0 <= i < tags.len() && 0 <= j < tags.len() && #[trigger] tags[i].id
                == #[trigger] tags[j].id implies i == j by {
            assert(tags[i]@ == row_view(rows[i].id, rows[i].title@));
            assert(tags[j]@ == row_view(rows[j].id, rows[j].title@));
        }
        assert forall|k: i32| #[trigger] m.contains_key(k) implies exists|i: int|
            0 <= i < tags.len() && tags[i].id == Some(k) by {
            let i = choose|i: int| 0 <= i < rows.len() && rows[i].id == k;
            assert(tags[i]@ == row_view(rows[i].id, rows[i].title@));
        }
    }
    r
}

/// Replaces the title of the tag with id `id` by `body`'s when `authorization` ends with
/// `token`. The body's id is ignored.
pub fn update(store: &mut TagStore, token: &str, authorization: &str, body: Tag, id: i32) -> (r:
    Result<Tag, Rejection>)
    requires
        old(store).wf(),
    ensures
        final(store).wf(),
        (final(store)@, result_view(r)) == update_outcome(
            old(store)@,
            token@,
            authorization@,
            body@,
            id,
        ),
{
    if !authorize(authorization, token) {
        return Err(Rejection::Unauthorized);
    }
    let found = store.find_by_id(id);
    let row = match update_row(found, &body) {
        Ok(row) => row,
        Err(e) => return Err(e),
    };
    match store.update(row) {
        Ok(new) => Ok(to_tag(&new)),
        Err(_) => Err(Rejection::InternalError),
    }
}

/// Deletes the tag with id `id` when `authorization` ends with `token`.
pub fn delete(store: &mut TagStore, token: &str, authorization: &str, id: i32) -> (r: Result<
    (),
    Rejection,
>)
    requires
        old(store).wf(),
    ensures
        final(store).wf(),
        (final(store)@, r) == delete_outcome(old(store)@, token@, authorization@, id),
{
    if !authorize(authorization, token) {
        return Err(Rejection::Unauthorized);
    }
    let found = store.find_by_id(id);
    let target = match delete_target(found) {
        Ok(target) => target,
        Err(e) => return Err(e),
    };
    match store.delete(target) {
        Ok(()) => Ok(()),
        Err(_) => Err(Rejection::InternalError),
    }
}

} // verus!
