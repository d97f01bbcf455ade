use vstd::prelude::*;

use crate::model::FileEntry;
use crate::table::{TableView, MAX_ID};

verus! {

/// An id the store never handed out (below 1, or not yet reached by the
/// serial) names no row.
pub proof fn lemma_unissued_id_absent(t: TableView, id: int)
    requires
        t.wf(),
        id < 1 || id >= t.next_id,
    ensures
        !t.has_id(id),
{
}

/// A successful create lists an entry with the requested name and a fresh
/// id that no earlier row had.
pub proof fn lemma_created_file_is_listed(t: TableView, name: Seq<char>, now: int)
    requires
        t.wf(),
        t.has_room(),
    ensures
        t.inserted(name, now, now).entries().contains(FileEntry { id: t.next_id, name }),
        !t.has_id(t.next_id),
        t.next_id >= 1,
{
    let u = t.inserted(name, now, now);
    let last = t.rows.len() as int;
    assert(u.entries()[last] == FileEntry { id: t.next_id, name });
}

/// After a create, fetching the new id gives the new row, whose
/// `created_at` equals its `updated_at`; the table stays well formed.
pub proof fn lemma_created_file_has_equal_stamps(t: TableView, name: Seq<char>, now: int)
    requires
        t.wf(),
        t.has_room(),
    ensures
        t.inserted(name, now, now).wf(),
        t.inserted(name, now, now).has_id(t.next_id),
        t.inserted(name, now, now).row_of(t.next_id).name == name,
        t.inserted(name, now, now).row_of(t.next_id).created_at == t.inserted(
            name,
            now,
            now,
        ).row_of(t.next_id).updated_at,
{
    let u = t.inserted(name, now, now);
    let last = t.rows.len() as int;
    assert(u.rows[last].id == t.next_id);
    assert(u.has_id(t.next_id));
    let c = u.index_of(t.next_id);
    assert(c == last) by {
        if c < last {
            assert(u.rows[c] == t.rows[c]);
        }
    }
}

/// Updating an existing file keeps its id and `created_at`, sets its name,
/// and sets `updated_at` to the update's time, which is therefore at or
/// after `created_at` whenever the clock has not gone back.
pub proof fn lemma_update_advances_stamp(t: TableView, id: int, name: Seq<char>, now: int)
    requires
        t.wf(),
        t.has_id(id),
    ensures
        t.updated(id, name, now).wf(),
        t.updated(id, name, now).has_id(id),
        t.updated(id, name, now).row_of(id).id == id,
        t.updated(id, name, now).row_of(id).name == name,
        t.updated(id, name, now).row_of(id).created_at == t.row_of(id).created_at,
        t.updated(id, name, now).row_of(id).updated_at == now,
        now >= t.row_of(id).created_at ==> t.updated(id, name, now).row_of(id).updated_at
            >= t.updated(id, name, now).row_of(id).created_at,
{
    let u = t.updated(id, name, now);
    let k = t.index_of(id);
    assert(u.rows[k].id == id);
    assert(u.has_id(id));
    let c = u.index_of(id);
    assert(c == k) by {
        if c < k {
            assert(u.rows[c].id == t.rows[c].id);
        } else if c > k {
            assert(u.rows[c].id == t.rows[c].id);
        }
    }
    assert(forall|i: int| 0 <= i < u.rows.len() ==> #[trigger] u.rows[i].id == t.rows[i].id);
}

/// Updating an id that names no row changes nothing: no row is created.
pub proof fn lemma_update_missing_changes_nothing(t: TableView, id: int, name: Seq<char>, now: int)
    requires
        !t.has_id(id),
    ensures
        t.updated(id, name, now) == t,
{
}

/// After deleting an id, no row has it, so fetching it gives 404; the
/// table stays well formed and keeps its other rows.
pub proof fn lemma_deleted_id_absent(t: TableView, id: int)
    requires
        t.wf(),
    ensures
        t.deleted(id).wf(),
        !t.deleted(id).has_id(id),
        forall|other: int| other != id ==> (t.deleted(id).has_id(other) <==> t.has_id(other)),
{
    if t.has_id(id) {
        let k = t.index_of(id);
        let u = t.deleted(id);
        assert(forall|i: int|
            0 <= i < u.rows.len() ==> #[trigger] u.rows[i] == t.rows[
                if i < k {
                    i
                } else {
                    i + 1
                }
            ]);
        assert forall|other: int| other != id && t.has_id(other) implies u.has_id(other) by {
            let j = choose|j: int| 0 <= j < t.rows.len() && #[trigger] t.rows[j].id == other;
            if j < k {
                assert(u.rows[j].id == other);
            } else {
                assert(j != k);
                assert(u.rows[j - 1].id == other);
            }
        }
    }
}

/// Two creates in a row both succeed while ids remain, whatever the names,
/// and give the two files different ids.
pub proof fn lemma_two_creates_distinct_ids(
    t: TableView,
    first: Seq<char>,
    second: Seq<char>,
    now1: int,
    now2: int,
)
    requires
        t.wf(),
        t.next_id < MAX_ID,
    ensures
        t.has_room(),
        t.inserted(first, now1, now1).wf(),
        t.inserted(first, now1, now1).has_room(),
        t.inserted(first, now1, now1).next_id != t.next_id,
        t.inserted(first, now1, now1).inserted(second, now2, now2).has_id(t.next_id),
        t.inserted(first, now1, now1).inserted(second, now2, now2).has_id(t.next_id + 1),
{
    let u = t.inserted(first, now1, now1);
    let v = u.inserted(second, now2, now2);
    let n = t.rows.len() as int;
    assert(v.rows[n].id == t.next_id);
    assert(v.rows[n + 1].id == t.next_id + 1);
}

} // verus!
