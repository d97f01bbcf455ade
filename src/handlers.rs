use vstd::prelude::*;

use crate::clock::now;
use crate::model::{ModifyFile, ModifyFileRequest, NewFile, NewFileRequest, PartialFile, Timestamp};
use crate::response::{change_response, insert_response, list_response, lookup_response, Response};
use crate::table::FileTable;

verus! {

/// Lists every file's id and name: always 200.
pub fn list_files(table: &FileTable) -> (r: Response)
    ensures
        r matches Response::OkFiles(files) && files@.map_values(|p: PartialFile| p@)
            == table@.entries(),
{
    list_response(Ok(table.select_all()))
}

/// Fetches the complete record with id `search_id`: 200 with it, or 404.
pub fn get_file_by_id(table: &FileTable, search_id: i32) -> (r: Response)
    requires
        table@.wf(),
    ensures
        table@.has_id(search_id as int) ==> (r matches Response::OkFile(file) && file@
            == table@.row_of(search_id as int)),
        !table@.has_id(search_id as int) ==> r == Response::NotFound,
{
    lookup_response(Ok(table.find_by_id(search_id)))
}

/// Fetches the first record whose name is exactly `search_name`: 200 with
/// it, or 404.
pub fn get_file_by_name(table: &FileTable, search_name: &String) -> (r: Response)
    ensures
        table@.has_name(search_name@) ==> (r matches Response::OkFile(file) && exists|i: int|
            table@.first_named_at(i, search_name@) && table@.rows[i] == file@),
        !table@.has_name(search_name@) ==> r == Response::NotFound,
{
    let found = table.find_by_name(search_name);
    proof {
        if found is Some {
            let f = found->Some_0;
            let i = choose|i: int| table@.first_named_at(i, search_name@) && table@.rows[i] == f@;
            assert(table@.rows[i].name == search_name@);
        }
    }
    lookup_response(Ok(found))
}

/// Creates a file named after the request with both timestamps `now`: 201,
/// or 500 once the store has no id left to give.
pub fn create_file_at(table: &mut FileTable, request: &NewFileRequest, now: Timestamp) -> (r:
    Response)
    requires
        old(table)@.wf(),
    ensures
        final(table)@.wf(),
        old(table)@.has_room() ==> r == Response::Created && final(table)@ == old(table)@.inserted(
            request.name@,
            now.spec_micros(),
            now.spec_micros(),
        ),
        !old(table)@.has_room() ==> (r matches Response::ServerError(Some(_)) && final(table)@
            == old(table)@),
{
    let new = NewFile::from_request(request, now);
    let outcome = match table.insert(&new) {
        Ok(_) => Ok(1usize),
        Err(message) => Err(message),
    };
    insert_response(outcome)
}

/// Creates a file stamped with the current time; see `create_file_at`.
pub fn create_file(table: &mut FileTable, request: &NewFileRequest) -> (r: Response)
    requires
        old(table)@.wf(),
    ensures
        final(table)@.wf(),
        old(table)@.has_room() ==> r == Response::Created && exists|t: int|
            final(table)@ == old(table)@.inserted(request.name@, t, t),
        !old(table)@.has_room() ==> (r matches Response::ServerError(Some(_)) && final(table)@
            == old(table)@),
{
    let stamp = now();
    create_file_at(table, request, stamp)
}

/// Renames file `update_id` and sets its `updated_at` to `now`: 200, or
/// 404 when no such file exists.
pub fn update_file_at(
    table: &mut FileTable,
    update_id: i32,
    request: &ModifyFileRequest,
    now: Timestamp,
) -> (r: Response)
    requires
        old(table)@.wf(),
    ensures
        final(table)@.wf(),
        final(table)@ == old(table)@.updated(update_id as int, request.name@, now.spec_micros()),
        r == if old(table)@.has_id(update_id as int) {
            Response::OkEmpty
        } else {
            Response::NotFound
        },
{
    let changes = ModifyFile::from_request(request, now);
    let count = table.update_by_id(update_id, &changes);
    change_response(Ok(count))
}

/// Renames a file, stamping it with the current time; see `update_file_at`.
pub fn update_file(table: &mut FileTable, update_id: i32, request: &ModifyFileRequest) -> (r:
    Response)
    requires
        old(table)@.wf(),
    ensures
        final(table)@.wf(),
        exists|t: int| final(table)@ == old(table)@.updated(update_id as int, request.name@, t),
        r == if old(table)@.has_id(update_id as int) {
            Response::OkEmpty
        } else {
            Response::NotFound
        },
{
    let stamp = now();
    update_file_at(table, update_id, request, stamp)
}

/// Deletes file `delete_id`: 200, or 404 when no such file exists.
pub fn delete_file(table: &mut FileTable, delete_id: i32) -> (r: Response)
    requires
        old(table)@.wf(),
    ensures
        final(table)@.wf(),
        final(table)@ == old(table)@.deleted(delete_id as int),
        r == if old(table)@.has_id(delete_id as int) {
            Response::OkEmpty
        } else {
            Response::NotFound
        },
{
    let deleted = table.delete_by_id(delete_id);
    change_response(Ok(deleted.len()))
}

} // verus!
