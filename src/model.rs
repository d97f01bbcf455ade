use vstd::prelude::*;

verus! {

/// A point in time, counted in microseconds since the Unix epoch (UTC).
#[derive(Clone, Copy, Debug, PartialEq, Eq, Structural)]
pub struct Timestamp {
    pub micros: i64,
}

impl Timestamp {
    pub open spec fn spec_micros(self) -> int {
        self.micros as int
    }
}

/// The abstract value of one stored row.
pub struct FileRow {
    pub id: int,
    pub name: Seq<char>,
    pub created_at: int,
    pub updated_at: int,
}

/// The abstract value of a listing entry.
pub struct FileEntry {
    pub id: int,
    pub name: Seq<char>,
}

/// A stored file with every column: the complete projection.
#[derive(Clone, Debug)]
pub struct CompleteFile {
    pub id: i32,
    pub name: String,
    pub created_at: Timestamp,
    pub updated_at: Timestamp,
}

impl View for CompleteFile {
    type V = FileRow;

    open spec fn view(&self) -> FileRow {
        FileRow {
            id: self.id as int,
            name: self.name@,
            created_at: self.created_at.spec_micros(),
            updated_at: self.updated_at.spec_micros(),
        }
    }
}

/// The `id` and `name` of a stored file: the partial projection used by listings.
#[derive(Clone, Debug)]
pub struct PartialFile {
    pub id: i32,
    pub name: String,
}

impl View for PartialFile {
    type V = FileEntry;

    open spec fn view(&self) -> FileEntry {
        FileEntry { id: self.id as int, name: self.name@ }
    }
}

/// Body of a create request.
#[derive(Clone, Debug)]
pub struct NewFileRequest {
    pub name: String,
}

/// Body of an update request.
#[derive(Clone, Debug)]
pub struct ModifyFileRequest {
    pub name: String,
}

/// The values written by an insert; the store assigns the id.
#[derive(Clone, Debug)]
pub struct NewFile {
    pub name: String,
    pub created_at: Timestamp,
    pub updated_at: Timestamp,
}

/// The columns written by an update.
#[derive(Clone, Debug)]
pub struct ModifyFile {
    pub name: String,
    pub updated_at: Timestamp,
}

impl NewFile {
    /// The row values for a create request received at `now`: both
    /// timestamps are that same instant.
    pub fn from_request(request: &NewFileRequest, now: Timestamp) -> (r: NewFile)
        ensures
            r.name@ == request.name@,
            r.created_at == now,
            r.updated_at == now,
    {
        NewFile { name: request.name.clone(), created_at: now, updated_at: now }
    }
}

impl ModifyFile {
    /// The changes for an update request received at `now`.
    pub fn from_request(request: &ModifyFileRequest, now: Timestamp) -> (r: ModifyFile)
        ensures
            r.name@ == request.name@,
            r.updated_at == now,
    {
        ModifyFile { name: request.name.clone(), updated_at: now }
    }
}

impl PartialFile {
    /// The partial projection of a complete row.
    pub fn of(file: &CompleteFile) -> (r: PartialFile)
        ensures
            r@ == (FileEntry { id: file@.id, name: file@.name }),
    {
        PartialFile { id: file.id, name: file.name.clone() }
    }
}

} // verus!
