use vstd::prelude::*;

use crate::tag::{row_view, Tag, TagRow, TagView, StoreError};

verus! {

/// The tag table, mathematically: the stored titles by id, and the id that the next insert
/// assigns.
pub ghost struct Table {
    pub rows: Map<i32, Seq<char>>,
    pub next_id: int,
}

/// Every stored id was assigned before the next one: ids run from 1 and are never reused.
pub open spec fn table_wf(t: Table) -> bool {
    &&& 1 <= t.next_id <= i32::MAX
    &&& forall|k: i32| #[trigger] t.rows.contains_key(k) ==> 1 <= k < t.next_id
}

/// `rows` hold exactly the entries of `m`, each id once.
pub open spec fn rows_hold(rows: Seq<TagRow>, m: Map<i32, Seq<char>>) -> bool {
    &&& forall|i: int|
        0 <= i < rows.len() ==> #[trigger] m.contains_key(rows[i].id) && m[rows[i].id]
            == rows[i].title@
    &&& forall|i: int, j: int|
        0 <= i < rows.len() && 0 <= j < rows.len() && #[trigger] rows[i].id == #[trigger] rows[j].id
            ==> i == j
    &&& forall|k: i32| #[trigger] m.contains_key(k) ==> exists|i: int| 0 <= i < rows.len() && rows[i].id == k
}

/// An in-memory tag table with server-assigned, never reused ids. Rows keep the order in
/// which they were inserted.
pub struct TagStore {
    rows: Vec<TagRow>,
    next_id: i32,
    table: Ghost<Map<i32, Seq<char>>>,
}

impl View for TagStore {
    type V = Table;

    closed spec fn view(&self) -> Table {
        Table { rows: self.table@, next_id: self.next_id as int }
    }
}

impl TagStore {
    pub closed spec fn wf(&self) -> bool {
        &&& table_wf(self@)
        &&& rows_hold(self.rows@, self.table@)
    }

    /// An empty table whose first insert gets id 1.
    pub fn new() -> (r: TagStore)
        ensures
            r.wf(),
            r@.rows == Map::<i32, Seq<char>>::empty(),
            r@.next_id == 1,
    {
        TagStore { rows: Vec::new(), next_id: 1, table: Ghost(Map::empty()) }
    }

    /// A well-formed store's table assigns ids from 1 up and never reuses one.
    pub proof fn lemma_table_wf(&self)
        requires
            self.wf(),
        ensures
            table_wf(self@),
    {
    }

    /// The position of the row with id `id`, if there is one.
    fn position(&self, id: i32) -> (r: Option<usize>)
        requires
            self.wf(),
        ensures
            match r {
                Some(i) => i < self.rows@.len() && self.rows@[i as int].id == id,
                None => !self@.rows.contains_key(id),
            },
    {
        let mut i: usize = 0;
        while i < self.rows.len()
            invariant
                i <= self.rows@.len(),
                forall|j: int| 0 <= j < i ==> self.rows@[j].id != id,
            decreases self.rows@.len() - i,
        {
            if self.rows[i].id == id {
                return Some(i);
            }
            i = i + 1;
        }
        None
    }

    /// Inserts a row with a fresh id and `title`. Fails only when no id is left.
    pub fn insert(&mut self, title: String) -> (r: Result<TagRow, StoreError>)
        requires
            old(self).wf(),
        ensures
            final(self).wf(),
            old(self)@.next_id < i32::MAX ==> {
                &&& r matches Ok(row) && row.id == old(self)@.next_id && row.title@ == title@
                &&& final(self)@ == (Table {
                    rows: old(self)@.rows.insert(old(self)@.next_id as i32, title@),
                    next_id: old(self)@.next_id + 1,
                })
            },
            old(self)@.next_id >= i32::MAX ==> r == Err::<TagRow, StoreError>(
                StoreError::IdsExhausted,
            ) && final(self)@ == old(self)@,
    {
        if self.next_id == i32::MAX {
            return Err(StoreError::IdsExhausted);
        }
        let id = self.next_id;
        let ghost old_rows = self.rows@;
        let ghost old_table = self.table@;
        assert(forall|k: i32| self@.rows.contains_key(k) ==> k < id);
        assert(self@.rows == old_table);
        self.rows.push(TagRow { id, title: title.clone() });
        self.next_id = id + 1;
        self.table = Ghost(self.table@.insert(id, title@));
        assert forall|k: i32| #[trigger] self.table@.contains_key(k) implies exists|i: int|
            0 <= i < self.rows@.len() && self.rows@[i].id == k by {
            if k != id {
                let i = choose|i: int| 0 <= i < old_rows.len() && old_rows[i].id == k;
                assert(self.rows@[i].id == k);
            } else {
                assert(self.rows@[old_rows.len() as int].id == k);
            }
        }
        assert forall|i: int| 0 <= i < self.rows@.len() implies #[trigger] self.table@.contains_key(
            self.rows@[i].id,
        ) && self.table@[self.rows@[i].id] == self.rows@[i].title@ by {
            if i < old_rows.len() {
                assert(self.rows@[i] == old_rows[i]);
                assert(old_table.contains_key(old_rows[i].id));
                assert(old_rows[i].id < id);
            }
        }
        assert forall|a: int, b: int|
            0 <= a < self.rows@.len() && 0 <= b < self.rows@.len() && #[trigger] self.rows@[a].id
                == #[trigger] self.rows@[b].id implies a == b by {
            if a < old_rows.len() {
                assert(self.rows@[a] == old_rows[a]);
                assert(old_table.contains_key(old_rows[a].id));
                assert(old_rows[a].id < id);
            }
            if b < old_rows.len() {
                assert(self.rows@[b] == old_rows[b]);
                assert(old_table.contains_key(old_rows[b].id));
                assert(old_rows[b].id < id);
            }
        }
        Ok(TagRow { id, title })
    }

    /// Looks up the row with id `id`.
    pub fn find_by_id(&self, id: i32) -> (r: Result<Option<TagRow>, StoreError>)
        requires
            self.wf(),
        ensures
            self@.rows.contains_key(id) ==> (r matches Ok(Some(row)) && row.id == id && row.title@
                == self@.rows[id]),
            !self@.rows.contains_key(id) ==> (r matches Ok(None)),
    {
        match self.position(id) {
            Some(i) => Ok(Some(TagRow { id, title: self.rows[i].title.clone() })),
            None => Ok(None),
        }
    }

    /// Every row, in the order of insertion.
    pub fn find_all(&self) -> (r: Result<Vec<TagRow>, StoreError>)
        requires
            self.wf(),
        ensures
            r matches Ok(rows) && rows_hold(rows@, self@.rows),
    {
        let mut out: Vec<TagRow> = Vec::new();
        let mut i: usize = 0;
        while i < self.rows.len()
            invariant
                i <= self.rows@.len(),
                out@.len() == i,
                forall|j: int|
                    0 <= j < i ==> #[trigger] out@[j].id == self.rows@[j].id && out@[j].title@
                        == self.rows@[j].title@,
            decreases self.rows@.len() - i,
        {
            out.push(TagRow { id: self.rows[i].id, title: self.rows[i].title.clone() });
            i = i + 1;
        }
        assert forall|k: i32| #[trigger] self.table@.contains_key(k) implies exists|i: int|
            0 <= i < out@.len() && out@[i].id == k by {
            let i = choose|i: int| 0 <= i < self.rows@.len() && self.rows@[i].id == k;
            assert(out@[i].id == k);
        }
        assert forall|i: int, j: int|
            0 <= i < out@.len() && 0 <= j < out@.len() && #[trigger] out@[i].id
                == #[trigger] out@[j].id implies i == j by {
            assert(self.rows@[i].id == self.rows@[j].id);
        }
        Ok(out)
    }

    /// Writes `row` over the stored row with the same id. Fails when there is none.
    pub fn update(&mut self, row: TagRow) -> (r: Result<TagRow, StoreError>)
        requires
            old(self).wf(),
        ensures
            final(self).wf(),
            old(self)@.rows.contains_key(row.id) ==> {
                &&& r matches Ok(new) && new.id == row.id && new.title@ == row.title@
                &&& final(self)@ == (Table {
                    rows: old(self)@.rows.insert(row.id, row.title@),
                    next_id: old(self)@.next_id,
                })
            },
            !old(self)@.rows.contains_key(row.id) ==> r == Err::<TagRow, StoreError>(
                StoreError::Backend,
            ) && final(self)@ == old(self)@,
    {
        match self.position(row.id) {
            None => Err(StoreError::Backend),
            Some(i) => {
                let id = row.id;
                let ghost old_rows = self.rows@;
                let ghost old_table = self.table@;
                assert(old_rows[i as int].id == id);
                assert(old_table.contains_key(id));
                let stored = TagRow { id, title: row.title.clone() };
                self.rows.set(i, stored);
                self.table = Ghost(self.table@.insert(id, row.title@));
                assert forall|k: i32| #[trigger] self.table@.contains_key(k) implies exists|j: int|
                    0 <= j < self.rows@.len() && self.rows@[j].id == k by {
                    let j = choose|j: int| 0 <= j < old_rows.len() && old_rows[j].id == k;
                    assert(self.rows@[j].id == k);
                }
                assert forall|a: int, b: int|
                    0 <= a < self.rows@.len() && 0 <= b < self.rows@.len() && #[trigger] self.rows@[a].id
                        == #[trigger] self.rows@[b].id implies a == b by {
                    assert(old_rows[a].id == self.rows@[a].id);
                    assert(old_rows[b].id == self.rows@[b].id);
                }
                assert forall|j: int| 0 <= j < self.rows@.len() implies #[trigger] self.table@.contains_key(
                    self.rows@[j].id,
                ) && self.table@[self.rows@[j].id] == self.rows@[j].title@ by {
                    if j != i {
                        assert(old_rows[j] == self.rows@[j]);
                        assert(old_rows[i as int].id == id);
                    }
                }
                Ok(row)
            },
        }
    }

    /// Removes the row with id `id`, if there is one.
    pub fn delete(&mut self, id: i32) -> (r: Result<(), StoreError>)
        requires
            old(self).wf(),
        ensures
            final(self).wf(),
            r is Ok,
            final(self)@ == (Table { rows: old(self)@.rows.remove(id), next_id: old(self)@.next_id }),
    {
        match self.position(id) {
            None => {
                assert(self.table@.remove(id) =~= self.table@);
                Ok(())
            },
            Some(i) => {
                let ghost old_rows = self.rows@;
                let ghost old_table = self.table@;
                self.rows.remove(i);
                self.table = Ghost(self.table@.remove(id));
                assert forall|j: int| 0 <= j < self.rows@.len() implies #[trigger] self.rows@[j]
                    == old_rows[if j < i { j } else { j + 1 }] by {}
                assert forall|j: int| 0 <= j < self.rows@.len() implies #[trigger] self.table@.contains_key(
                    self.rows@[j].id,
                ) && self.table@[self.rows@[j].id] == self.rows@[j].title@ by {
                    let oj = if j < i { j } else { j + 1 };
                    assert(self.rows@[j] == old_rows[oj]);
                    assert(old_rows[i as int].id == id);
                    assert(old_rows[oj].id != id);
                    assert(old_table.contains_key(old_rows[oj].id));
                    assert(self.table@.contains_key(self.rows@[j].id));
                    assert(self.table@[self.rows@[j].id] == old_table[old_rows[oj].id]);
                }
                assert forall|a: int, b: int|
                    0 <= a < self.rows@.len() && 0 <= b < self.rows@.len() && #[trigger] self.rows@[a].id
                        == #[trigger] self.rows@[b].id implies a == b by {
                    let oa = if a < i { a } else { a + 1 };
                    let ob = if b < i { b } else { b + 1 };
                    assert(self.rows@[a] == old_rows[oa]);
                    assert(self.rows@[b] == old_rows[ob]);
                }
                assert forall|k: i32| #[trigger] self.table@.contains_key(k) implies exists|j: int|
                    0 <= j < self.rows@.len() && self.rows@[j].id == k by {
                    let oj = choose|j: int| 0 <= j < old_rows.len() && old_rows[j].id == k;
                    assert(oj != i);
                    let j = if oj < i { oj } else { oj - 1 };
                    assert(self.rows@[j] == old_rows[oj]);
                }
                Ok(())
            },
        }
    }
}

} // verus!
