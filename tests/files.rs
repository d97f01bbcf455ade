use files_api::handlers::{
    create_file, create_file_at, delete_file, get_file_by_id, get_file_by_name, list_files,
    update_file, update_file_at,
};
use files_api::model::{ModifyFileRequest, NewFileRequest, PartialFile, Timestamp, CompleteFile};
use files_api::response::{change_response, insert_response, list_response, lookup_response, Response};
use files_api::table::FileTable;

fn new_req(name: &str) -> NewFileRequest {
    NewFileRequest { name: name.to_string() }
}

fn mod_req(name: &str) -> ModifyFileRequest {
    ModifyFileRequest { name: name.to_string() }
}

fn at(micros: i64) -> Timestamp {
    Timestamp { micros }
}

fn fetched(r: Response) -> CompleteFile {
    match r {
        Response::OkFile(f) => f,
        other => panic!("expected a record, got {:?}", other),
    }
}

#[test]
fn create_then_list_contains_entry() {
    let mut t = FileTable::new();
    assert_eq!(create_file_at(&mut t, &new_req("a.txt"), at(100)).status(), 201);
    match list_files(&t) {
        Response::OkFiles(files) => {
            assert_eq!(files.len(), 1);
            assert_eq!(files[0].name, "a.txt");
            assert_eq!(files[0].id, 1);
        }
        other => panic!("expected a listing, got {:?}", other),
    }
}

#[test]
fn list_of_empty_table_is_empty() {
    let t = FileTable::new();
    let r = list_files(&t);
    assert_eq!(r.status(), 200);
    assert!(matches!(r, Response::OkFiles(ref v) if v.is_empty()));
}

#[test]
fn created_record_has_equal_stamps() {
    let mut t = FileTable::new();
    create_file_at(&mut t, &new_req("b.txt"), at(1_700_000_000_000_000));
    let f = fetched(get_file_by_id(&t, 1));
    assert_eq!(f.id, 1);
    assert_eq!(f.name, "b.txt");
    assert_eq!(f.created_at, at(1_700_000_000_000_000));
    assert_eq!(f.created_at, f.updated_at);
}

#[test]
fn create_with_clock_stamps_now() {
    let mut t = FileTable::new();
    assert_eq!(create_file(&mut t, &new_req("clock.txt")).status(), 201);
    let f = fetched(get_file_by_id(&t, 1));
    assert_eq!(f.created_at, f.updated_at);
    // 2020-01-01T00:00:00Z in microseconds: the clock is a real one.
    assert!(f.created_at.micros > 1_577_836_800_000_000);
}

#[test]
fn get_unknown_id_is_not_found() {
    let mut t = FileTable::new();
    assert_eq!(get_file_by_id(&t, 1).status(), 404);
    create_file_at(&mut t, &new_req("a.txt"), at(1));
    assert_eq!(get_file_by_id(&t, 2).status(), 404);
    assert_eq!(get_file_by_id(&t, 0).status(), 404);
    assert_eq!(get_file_by_id(&t, -7).status(), 404);
}

#[test]
fn get_unknown_name_is_not_found() {
    let mut t = FileTable::new();
    create_file_at(&mut t, &new_req("a.txt"), at(1));
    assert_eq!(get_file_by_name(&t, &"b.txt".to_string()).status(), 404);
    assert_eq!(get_file_by_name(&t, &"A.TXT".to_string()).status(), 404);
    assert_eq!(get_file_by_name(&t, &String::new()).status(), 404);
}

#[test]
fn get_by_name_returns_first_match() {
    let mut t = FileTable::new();
    create_file_at(&mut t, &new_req("x"), at(1));
    create_file_at(&mut t, &new_req("dup"), at(2));
    create_file_at(&mut t, &new_req("dup"), at(3));
    let f = fetched(get_file_by_name(&t, &"dup".to_string()));
    assert_eq!(f.id, 2);
    assert_eq!(f.created_at, at(2));
}

#[test]
fn update_advances_updated_at_and_keeps_created_at() {
    let mut t = FileTable::new();
    create_file_at(&mut t, &new_req("old.txt"), at(10));
    let r = update_file_at(&mut t, 1, &mod_req("new.txt"), at(25));
    assert_eq!(r.status(), 200);
    let f = fetched(get_file_by_id(&t, 1));
    assert_eq!(f.name, "new.txt");
    assert_eq!(f.created_at, at(10));
    assert_eq!(f.updated_at, at(25));
    assert!(f.updated_at.micros >= f.created_at.micros);
}

#[test]
fn update_with_clock_behind_creation_writes_the_reading() {
    let mut t = FileTable::new();
    create_file_at(&mut t, &new_req("a"), at(50));
    assert_eq!(update_file_at(&mut t, 1, &mod_req("b"), at(40)).status(), 200);
    let f = fetched(get_file_by_id(&t, 1));
    assert_eq!(f.name, "b");
    assert_eq!(f.created_at, at(50));
    assert_eq!(f.updated_at, at(40));
}

#[test]
fn update_with_clock_renames() {
    let mut t = FileTable::new();
    create_file_at(&mut t, &new_req("a"), at(1));
    assert_eq!(update_file(&mut t, 1, &mod_req("renamed")).status(), 200);
    let f = fetched(get_file_by_id(&t, 1));
    assert_eq!(f.name, "renamed");
    assert_eq!(f.created_at, at(1));
    assert!(f.updated_at.micros > 1);
}

#[test]
fn update_missing_is_not_found_and_creates_nothing() {
    let mut t = FileTable::new();
    create_file_at(&mut t, &new_req("a"), at(1));
    assert_eq!(update_file_at(&mut t, 9, &mod_req("z"), at(2)).status(), 404);
    assert_eq!(t.len(), 1);
    assert_eq!(get_file_by_id(&t, 9).status(), 404);
    assert_eq!(get_file_by_name(&t, &"z".to_string()).status(), 404);
    assert_eq!(update_file(&mut FileTable::new(), 1, &mod_req("z")).status(), 404);
}

#[test]
fn delete_then_get_is_not_found() {
    let mut t = FileTable::new();
    create_file_at(&mut t, &new_req("a"), at(1));
    create_file_at(&mut t, &new_req("b"), at(2));
    assert_eq!(delete_file(&mut t, 1).status(), 200);
    assert_eq!(get_file_by_id(&t, 1).status(), 404);
    assert_eq!(fetched(get_file_by_id(&t, 2)).name, "b");
    assert_eq!(t.len(), 1);
}

#[test]
fn delete_missing_is_not_found() {
    let mut t = FileTable::new();
    assert_eq!(delete_file(&mut t, 1).status(), 404);
    create_file_at(&mut t, &new_req("a"), at(1));
    assert_eq!(delete_file(&mut t, 1).status(), 200);
    assert_eq!(delete_file(&mut t, 1).status(), 404);
}

#[test]
fn same_name_twice_gives_distinct_ids() {
    let mut t = FileTable::new();
    assert_eq!(create_file_at(&mut t, &new_req("same"), at(1)).status(), 201);
    assert_eq!(create_file_at(&mut t, &new_req("same"), at(2)).status(), 201);
    match list_files(&t) {
        Response::OkFiles(files) => {
            assert_eq!(files.len(), 2);
            assert_eq!(files[0].name, "same");
            assert_eq!(files[1].name, "same");
            assert_ne!(files[0].id, files[1].id);
        }
        other => panic!("expected a listing, got {:?}", other),
    }
}

#[test]
fn ids_are_not_reused_after_delete() {
    let mut t = FileTable::new();
    create_file_at(&mut t, &new_req("a"), at(1));
    delete_file(&mut t, 1);
    create_file_at(&mut t, &new_req("b"), at(2));
    assert_eq!(get_file_by_id(&t, 1).status(), 404);
    assert_eq!(fetched(get_file_by_id(&t, 2)).name, "b");
}

#[test]
fn empty_and_long_names_are_accepted() {
    let mut t = FileTable::new();
    let long = "n".repeat(10_000);
    assert_eq!(create_file_at(&mut t, &new_req(""), at(1)).status(), 201);
    assert_eq!(create_file_at(&mut t, &new_req(&long), at(1)).status(), 201);
    assert_eq!(fetched(get_file_by_name(&t, &String::new())).id, 1);
    assert_eq!(fetched(get_file_by_id(&t, 2)).name.len(), 10_000);
}

#[test]
fn status_codes() {
    assert_eq!(Response::OkFiles(Vec::new()).status(), 200);
    assert_eq!(Response::OkEmpty.status(), 200);
    assert_eq!(Response::Created.status(), 201);
    assert_eq!(Response::NotFound.status(), 404);
    assert_eq!(Response::ServerError(None).status(), 500);
    assert_eq!(Response::ServerError(Some("x".to_string())).status(), 500);
}

#[test]
fn list_response_maps_outcomes() {
    let files = vec![PartialFile { id: 3, name: "c".to_string() }];
    assert!(matches!(list_response(Ok(files)), Response::OkFiles(ref v) if v.len() == 1 && v[0].id == 3));
    assert!(matches!(list_response(Err("down".to_string())), Response::ServerError(Some(ref m)) if m == "down"));
}

#[test]
fn lookup_response_maps_outcomes() {
    let f = CompleteFile { id: 4, name: "d".to_string(), created_at: at(1), updated_at: at(2) };
    assert!(matches!(lookup_response(Ok(Some(f))), Response::OkFile(ref g) if g.id == 4 && g.updated_at == at(2)));
    assert!(matches!(lookup_response(Ok(None)), Response::NotFound));
    assert!(matches!(lookup_response(Err("bad".to_string())), Response::ServerError(Some(ref m)) if m == "bad"));
}

#[test]
fn insert_response_maps_outcomes() {
    assert!(matches!(insert_response(Ok(1)), Response::Created));
    assert!(matches!(insert_response(Ok(0)), Response::ServerError(None)));
    assert!(matches!(insert_response(Err("dup".to_string())), Response::ServerError(Some(ref m)) if m == "dup"));
}

#[test]
fn change_response_maps_outcomes() {
    assert!(matches!(change_response(Ok(1)), Response::OkEmpty));
    assert!(matches!(change_response(Ok(3)), Response::OkEmpty));
    assert!(matches!(change_response(Ok(0)), Response::NotFound));
    assert!(matches!(change_response(Err("gone".to_string())), Response::ServerError(Some(ref m)) if m == "gone"));
}

#[test]
fn create_fails_once_ids_run_out() {
    let mut t = FileTable::with_first_id(i32::MAX);
    assert_eq!(create_file_at(&mut t, &new_req("last"), at(1)).status(), 201);
    assert_eq!(fetched(get_file_by_id(&t, i32::MAX)).name, "last");
    let r = create_file_at(&mut t, &new_req("more"), at(2));
    assert!(matches!(r, Response::ServerError(Some(_))));
    assert_eq!(t.len(), 1);
    assert_eq!(get_file_by_name(&t, &"more".to_string()).status(), 404);
}

#[test]
fn serial_can_start_later() {
    let mut t = FileTable::with_first_id(40);
    create_file_at(&mut t, &new_req("a"), at(1));
    create_file_at(&mut t, &new_req("b"), at(1));
    assert_eq!(fetched(get_file_by_id(&t, 40)).name, "a");
    assert_eq!(fetched(get_file_by_id(&t, 41)).name, "b");
}
