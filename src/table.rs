use vstd::prelude::*;

use crate::model::{CompleteFile, FileEntry, FileRow, ModifyFile, NewFile, PartialFile};

verus! {

/// The largest id the store can assign (ids are 32-bit serials).
pub const MAX_ID: i64 = 2147483647;

/// The abstract value of the `files` table: its rows in storage order and
/// the id the next insert receives.
pub struct TableView {
    pub rows: Seq<FileRow>,
    pub next_id: int,
}

impl TableView {
    /// Ids are unique and below `next_id` (kept in increasing order).
    pub open spec fn wf(self) -> bool {
        &&& 1 <= self.next_id <= MAX_ID + 1
        &&& forall|i: int|
            0 <= i < self.rows.len() ==> 1 <= #[trigger] self.rows[i].id < self.next_id
        &&& forall|i: int, j: int|
            0 <= i < j < self.rows.len() ==> #[trigger] self.rows[i].id < #[trigger] self.rows[j].id
    }

    /// Another insert can still be given an id.
    pub open spec fn has_room(self) -> bool {
        self.next_id <= MAX_ID
    }

    pub open spec fn has_id(self, id: int) -> bool {
        exists|i: int| 0 <= i < self.rows.len() && #[trigger] self.rows[i].id == id
    }

    pub open spec fn has_name(self, name: Seq<char>) -> bool {
        exists|i: int| 0 <= i < self.rows.len() && #[trigger] self.rows[i].name == name
    }

    /// The position of the row with `id` (meaningful when `has_id(id)`).
    pub open spec fn index_of(self, id: int) -> int {
        choose|i: int| 0 <= i < self.rows.len() && #[trigger] self.rows[i].id == id
    }

    /// The row with `id` (meaningful when `has_id(id)`).
    pub open spec fn row_of(self, id: int) -> FileRow {
        self.rows[self.index_of(id)]
    }

    /// Row `i` is the first, in storage order, whose name is `name`.
    pub open spec fn first_named_at(self, i: int, name: Seq<char>) -> bool {
        &&& 0 <= i < self.rows.len()
        &&& self.rows[i].name == name
        &&& forall|j: int| 0 <= j < i ==> #[trigger] self.rows[j].name != name
    }

    /// The listing: every row's id and name.
    pub open spec fn entries(self) -> Seq<FileEntry> {
        self.rows.map_values(|r: FileRow| FileEntry { id: r.id, name: r.name })
    }

    /// The table after an insert that was given id `next_id`.
    pub open spec fn inserted(self, name: Seq<char>, created_at: int, updated_at: int) -> TableView {
        TableView {
            rows: self.rows.push(
                FileRow { id: self.next_id, name, created_at, updated_at },
            ),
            next_id: self.next_id + 1,
        }
    }

    /// The table after setting the name of row `id` and its `updated_at`
    /// to `now`.
    pub open spec fn updated(self, id: int, name: Seq<char>, now: int) -> TableView {
        if self.has_id(id) {
            let r = self.row_of(id);
            TableView {
                rows: self.rows.update(
                    self.index_of(id),
                    FileRow { id: r.id, name, created_at: r.created_at, updated_at: now },
                ),
                next_id: self.next_id,
            }
        } else {
            self
        }
    }

    /// The table after deleting row `id`.
    pub open spec fn deleted(self, id: int) -> TableView {
        if self.has_id(id) {
            TableView { rows: self.rows.remove(self.index_of(id)), next_id: self.next_id }
        } else {
            self
        }
    }
}

/// An in-memory `files` table with store-assigned serial ids.
pub struct FileTable {
    rows: Vec<CompleteFile>,
    next_id: i64,
}

impl View for FileTable {
    type V = TableView;

    closed spec fn view(&self) -> TableView {
        TableView {
            rows: self.rows@.map_values(|f: CompleteFile| f@),
            next_id: self.next_id as int,
        }
    }
}

impl FileTable {
    /// An empty table whose first insert gets id 1.
    pub fn new() -> (r: FileTable)
        ensures
            r@.wf(),
            r@.rows.len() == 0,
            r@.next_id == 1,
    {
        let r = FileTable { rows: Vec::new(), next_id: 1 };
        assert(r@.rows =~= Seq::<FileRow>::empty());
        r
    }

    /// An empty table whose serial starts at `first_id`.
    pub fn with_first_id(first_id: i32) -> (r: FileTable)
        requires
            first_id >= 1,
        ensures
            r@.wf(),
            r@.rows.len() == 0,
            r@.next_id == first_id,
    {
        let r = FileTable { rows: Vec::new(), next_id: first_id as i64 };
        assert(r@.rows =~= Seq::<FileRow>::empty());
        r
    }

    /// The number of stored rows.
    pub fn len(&self) -> (r: usize)
        ensures
            r == self@.rows.len(),
    {
        self.rows.len()
    }

    /// The position of the row with `id`, if any.
    fn position(&self, id: i32) -> (r: Option<usize>)
        requires
            self@.wf(),
        ensures
            match r {
                Some(k) => k < self@.rows.len() && self@.rows[k as int].id == id
                    && self@.index_of(id as int) == k,
                None => !self@.has_id(id as int),
            },
    {
        let mut k: usize = 0;
        while k < self.rows.len()
            invariant
                k <= self.rows@.len(),
                self@.wf(),
                forall|j: int| 0 <= j < k ==> #[trigger] self@.rows[j].id != id,
            decreases self.rows@.len() - k,
        {
            if self.rows[k].id == id {
                proof {
                    assert(self@.rows[k as int].id == id);
                    assert(self@.has_id(id as int));
                    let c = self@.index_of(id as int);
                    if c < k as int {
                        assert(self@.rows[c].id < self@.rows[k as int].id);
                    } else if c > k as int {
                        assert(self@.rows[k as int].id < self@.rows[c].id);
                    }
                }
                return Some(k);
            }
            k = k + 1;
        }
        None
    }

    /// Every row's id and name, in storage order.
    pub fn select_all(&self) -> (r: Vec<PartialFile>)
        ensures
            r@.map_values(|p: PartialFile| p@) == self@.entries(),
    {
        let mut out: Vec<PartialFile> = Vec::new();
        let mut k: usize = 0;
        while k < self.rows.len()
            invariant
                k <= self.rows@.len(),
                out@.len() == k,
                forall|j: int| 0 <= j < k ==> (#[trigger] out@[j])@ == self@.entries()[j],
            decreases self.rows@.len() - k,
        {
            let p = PartialFile::of(&self.rows[k]);
            out.push(p);
            k = k + 1;
        }
        assert(out@.map_values(|p: PartialFile| p@) =~= self@.entries());
        out
    }

    /// The row with `id`, if one is stored.
    pub fn find_by_id(&self, id: i32) -> (r: Option<CompleteFile>)
        requires
            self@.wf(),
        ensures
            match r {
                Some(f) => self@.has_id(id as int) && f@ == self@.row_of(id as int),
                None => !self@.has_id(id as int),
            },
    {
        match self.position(id) {
            Some(k) => Some(self.rows[k].clone_file()),
            None => None,
        }
    }

    /// The first row, in storage order, whose name is exactly `name`.
    pub fn find_by_name(&self, name: &String) -> (r: Option<CompleteFile>)
        ensures
            match r {
                Some(f) => exists|i: int| self@.first_named_at(i, name@) && self@.rows[i] == f@,
                None => !self@.has_name(name@),
            },
    {
        let mut k: usize = 0;
        while k < self.rows.len()
            invariant
                k <= self.rows@.len(),
                forall|j: int| 0 <= j < k ==> #[trigger] self@.rows[j].name != name@,
            decreases self.rows@.len() - k,
        {
            if self.rows[k].name == *name {
                assert(self@.first_named_at(k as int, name@));
                return Some(self.rows[k].clone_file());
            }
            k = k + 1;
        }
        None
    }

    /// Stores a new row and returns the id it was given; fails, changing
    /// nothing, once every id has been handed out.
    pub fn insert(&mut self, new: &NewFile) -> (r: Result<i32, String>)
        requires
            old(self)@.wf(),
        ensures
            final(self)@.wf(),
            old(self)@.has_room() ==> r == Ok::<i32, String>(old(self)@.next_id as i32)
                && final(self)@ == old(self)@.inserted(
                new.name@,
                new.created_at.spec_micros(),
                new.updated_at.spec_micros(),
            ),
            !old(self)@.has_room() ==> r.is_err() && final(self)@ == old(self)@,
    {
        if self.next_id > MAX_ID {
            return Err("nextval: reached maximum value of sequence".to_owned());
        }
        let id = self.next_id as i32;
        let row = CompleteFile {
            id,
            name: new.name.clone(),
            created_at: new.created_at,
            updated_at: new.updated_at,
        };
        self.rows.push(row);
        self.next_id = self.next_id + 1;
        assert(self@.rows =~= old(self)@.rows.push(row@));
        Ok(id)
    }

    /// Sets the name and `updated_at` of row `id`; returns how many rows
    /// changed (0 or 1).
    pub fn update_by_id(&mut self, id: i32, changes: &ModifyFile) -> (r: usize)
        requires
            old(self)@.wf(),
        ensures
            final(self)@.wf(),
            final(self)@ == old(self)@.updated(id as int, changes.name@, changes.updated_at.spec_micros()),
            r == if old(self)@.has_id(id as int) {
                1usize
            } else {
                0usize
            },
    {
        match self.position(id) {
            Some(k) => {
                let created_at = self.rows[k].created_at;
                let row = CompleteFile {
                    id,
                    name: changes.name.clone(),
                    created_at,
                    updated_at: changes.updated_at,
                };
                self.rows.set(k, row);
                assert(self@.rows =~= old(self)@.rows.update(k as int, row@));
                assert(forall|i: int, j: int|
                    0 <= i < j < self@.rows.len() ==> #[trigger] self@.rows[i].id
                        == old(self)@.rows[i].id && #[trigger] self@.rows[j].id
                        == old(self)@.rows[j].id);
                1
            },
            None => 0,
        }
    }

    /// Deletes row `id` and returns the deleted rows (none or one).
    pub fn delete_by_id(&mut self, id: i32) -> (r: Vec<CompleteFile>)
        requires
            old(self)@.wf(),
        ensures
            final(self)@.wf(),
            final(self)@ == old(self)@.deleted(id as int),
            r@.len() == if old(self)@.has_id(id as int) {
                1int
            } else {
                0int
            },
            old(self)@.has_id(id as int) ==> r@[0]@ == old(self)@.row_of(id as int),
    {
        let mut out: Vec<CompleteFile> = Vec::new();
        match self.position(id) {
            Some(k) => {
                let row = self.rows.remove(k);
                assert(self@.rows =~= old(self)@.rows.remove(k as int));
                assert(forall|i: int|
                    0 <= i < self@.rows.len() ==> #[trigger] self@.rows[i] == old(self)@.rows[
                        if i < k {
                            i
                        } else {
                            i + 1
                        }
                    ]);
                out.push(row);
            },
            None => {},
        }
        out
    }
}

impl CompleteFile {
    /// A copy of this row.
    pub fn clone_file(&self) -> (r: CompleteFile)
        ensures
            r@ == self@,
    {
        CompleteFile {
            id: self.id,
            name: self.name.clone(),
            created_at: self.created_at,
            updated_at: self.updated_at,
        }
    }
}

} // verus!
