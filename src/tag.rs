use vstd::prelude::*;

verus! {

/// A tag as clients send and receive it: `id` is absent before creation.
pub struct Tag {
    pub id: Option<i32>,
    pub title: String,
}

/// A stored row of the tag table: the id is always present.
pub struct TagRow {
    pub id: i32,
    pub title: String,
}

/// What a tag is, mathematically.
pub ghost struct TagView {
    pub id: Option<i32>,
    pub title: Seq<char>,
}

impl View for Tag {
    type V = TagView;

    open spec fn view(&self) -> TagView {
        TagView { id: self.id, title: self.title@ }
    }
}

/// The outcome of a request that did not succeed.
#[derive(Clone, Copy, Debug, PartialEq, Eq, Structural)]
pub enum Rejection {
    Unauthorized,
    NotFound,
    InternalError,
}

/// A failure reported by the storage layer; its cause is not inspected.
#[derive(Clone, Copy, Debug, PartialEq, Eq, Structural)]
pub enum StoreError {
    /// No identifier is left to assign to a new row.
    IdsExhausted,
    /// The storage backend failed.
    Backend,
}

/// The client-facing form of a stored row.
pub open spec fn row_view(id: i32, title: Seq<char>) -> TagView {
    TagView { id: Some(id), title }
}

/// Turns a stored row into the tag sent to clients.
pub fn to_tag(row: &TagRow) -> (r: Tag)
    ensures
        r@ == row_view(row.id, row.title@),
{
    Tag { id: Some(row.id), title: row.title.clone() }
}

/// The response of a create, from the result of the insert.
pub fn create_response(inserted: Result<TagRow, StoreError>) -> (r: Result<Tag, Rejection>)
    ensures
        match inserted {
            Ok(row) => r matches Ok(t) && t@ == row_view(row.id, row.title@),
            Err(_) => r == Err::<Tag, Rejection>(Rejection::InternalError),
        },
{
    match inserted {
        Ok(row) => Ok(to_tag(&row)),
        Err(_) => Err(Rejection::InternalError),
    }
}

/// The response of a read of one tag, from the result of the lookup. A missing row and a
/// failed lookup are both reported as not found.
pub fn detail_response(found: Result<Option<TagRow>, StoreError>) -> (r: Result<Tag, Rejection>)
    ensures
        match found {
            Ok(Some(row)) => r matches Ok(t) && t@ == row_view(row.id, row.title@),
            _ => r == Err::<Tag, Rejection>(Rejection::NotFound),
        },
{
    match found {
        Ok(Some(row)) => Ok(to_tag(&row)),
        _ => Err(Rejection::NotFound),
    }
}

/// `tags` are the client-facing forms of `rows`, one for one and in the same order.
pub open spec fn tags_of_rows(tags: Seq<Tag>, rows: Seq<TagRow>) -> bool {
    tags.len() == rows.len() && forall|j: int|
        0 <= j < rows.len() ==> #[trigger] tags[j]@ == row_view(rows[j].id, rows[j].title@)
}

/// The response of a list, from the result of reading every row. A failed read is reported
/// as not found for the whole list.
pub fn list_response(all: Result<Vec<TagRow>, StoreError>) -> (r: Result<Vec<Tag>, Rejection>)
    ensures
        match all {
            Ok(rows) => r matches Ok(tags) && tags_of_rows(tags@, rows@),
            Err(_) => r == Err::<Vec<Tag>, Rejection>(Rejection::NotFound),
        },
{
    match all {
        Ok(rows) => {
            let mut tags: Vec<Tag> = Vec::new();
            let mut i: usize = 0;
            while i < rows.len()
                invariant
                    i <= rows@.len(),
                    tags_of_rows(tags@, rows@.subrange(0, i as int)),
                decreases rows@.len() - i,
            {
                tags.push(to_tag(&rows[i]));
                i = i + 1;
            }
            assert(rows@.subrange(0, rows@.len() as int) =~= rows@);
            Ok(tags)
        },
        Err(_) => Err(Rejection::NotFound),
    }
}

/// The row to write back for an update, from the result of the lookup: the stored row with
/// its title replaced by `body`'s and its id kept. A missing row and a failed lookup are both
/// reported as not found.
pub fn update_row(found: Result<Option<TagRow>, StoreError>, body: &Tag) -> (r: Result<
    TagRow,
    Rejection,
>)
    ensures
        match found {
            Ok(Some(row)) => r matches Ok(new) && new.id == row.id && new.title@ == body.title@,
            _ => r matches Err(e) && e == Rejection::NotFound,
        },
{
    match found {
        Ok(Some(row)) => Ok(TagRow { id: row.id, title: body.title.clone() }),
        _ => Err(Rejection::NotFound),
    }
}

/// The id of the row to delete, from the result of the lookup. A missing row and a failed
/// lookup are both reported as not found.
pub fn delete_target(found: Result<Option<TagRow>, StoreError>) -> (r: Result<i32, Rejection>)
    ensures
        match found {
            Ok(Some(row)) => r == Ok::<i32, Rejection>(row.id),
            _ => r == Err::<i32, Rejection>(Rejection::NotFound),
        },
{
    match found {
        Ok(Some(row)) => Ok(row.id),
        _ => Err(Rejection::NotFound),
    }
}

} // verus!
