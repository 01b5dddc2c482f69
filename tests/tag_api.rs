use tag_service::auth::authorize;
use tag_service::handler::{create, delete, detail, list, update};
use tag_service::store::TagStore;
use tag_service::tag::{
    create_response, delete_target, detail_response, list_response, to_tag, update_row, Rejection,
    StoreError, Tag, TagRow,
};

fn tag(title: &str) -> Tag {
    Tag { id: None, title: title.to_string() }
}

fn assert_tag(r: Result<Tag, Rejection>, id: i32, title: &str) {
    match r {
        Ok(t) => {
            assert_eq!(t.id, Some(id));
            assert_eq!(t.title, title);
        }
        Err(e) => panic!("expected a tag, got {:?}", e),
    }
}

fn rejection<T>(r: Result<T, Rejection>) -> Rejection {
    match r {
        Ok(_) => panic!("expected a rejection"),
        Err(e) => e,
    }
}

fn count(store: &TagStore) -> usize {
    match list(store) {
        Ok(tags) => tags.len(),
        Err(e) => panic!("list failed: {:?}", e),
    }
}

#[test]
fn tag_lifecycle_scenario() {
    let mut store = TagStore::new();
    let auth = "Bearer secret";
    assert_tag(create(&mut store, "secret", auth, tag("alpha")), 1, "alpha");
    assert_tag(detail(&store, 1), 1, "alpha");
    assert_tag(update(&mut store, "secret", auth, tag("beta"), 1), 1, "beta");
    assert_tag(detail(&store, 1), 1, "beta");
    assert_eq!(delete(&mut store, "secret", auth, 1), Ok(()));
    assert_eq!(rejection(detail(&store, 1)), Rejection::NotFound);
}

#[test]
fn wrong_bearer_is_unauthorized_and_creates_nothing() {
    let mut store = TagStore::new();
    let r = create(&mut store, "secret", "Bearer wrong", tag("alpha"));
    assert_eq!(rejection(r), Rejection::Unauthorized);
    assert_eq!(count(&store), 0);
}

#[test]
fn suffix_match_passes_guard() {
    assert!(authorize("anythingsecret", "secret"));
    let mut store = TagStore::new();
    assert_tag(create(&mut store, "secret", "anythingsecret", tag("alpha")), 1, "alpha");
}

#[test]
fn authorize_cases() {
    assert!(authorize("Bearer secret", "secret"));
    assert!(authorize("secret", "secret"));
    assert!(authorize("anything", ""));
    assert!(!authorize("Bearer wrong", "secret"));
    assert!(!authorize("secret ", "secret"));
    assert!(!authorize("ecret", "secret"));
    assert!(!authorize("", "secret"));
    assert!(!authorize("secretX", "secret"));
}

#[test]
fn created_ids_ignore_client_id_and_are_never_reused() {
    let mut store = TagStore::new();
    let auth = "secret";
    let body = Tag { id: Some(42), title: "a".to_string() };
    assert_tag(create(&mut store, "secret", auth, body), 1, "a");
    let body = Tag { id: Some(1), title: "b".to_string() };
    assert_tag(create(&mut store, "secret", auth, body), 2, "b");
    assert_eq!(delete(&mut store, "secret", auth, 2), Ok(()));
    assert_tag(create(&mut store, "secret", auth, tag("c")), 3, "c");
    assert_eq!(count(&store), 2);
}

#[test]
fn detail_after_create_returns_created() {
    let mut store = TagStore::new();
    assert_tag(create(&mut store, "t", "t", tag("one")), 1, "one");
    assert_tag(create(&mut store, "t", "t", tag("two")), 2, "two");
    assert_tag(detail(&store, 2), 2, "two");
    assert_tag(detail(&store, 1), 1, "one");
}

#[test]
fn absent_id_is_not_found_everywhere() {
    let mut store = TagStore::new();
    assert_tag(create(&mut store, "t", "t", tag("one")), 1, "one");
    assert_eq!(rejection(detail(&store, 7)), Rejection::NotFound);
    assert_eq!(rejection(update(&mut store, "t", "t", tag("x"), 7)), Rejection::NotFound);
    assert_eq!(delete(&mut store, "t", "t", 7), Err(Rejection::NotFound));
    assert_tag(detail(&store, 1), 1, "one");
    assert_eq!(count(&store), 1);
}

#[test]
fn update_keeps_id_and_replaces_title() {
    let mut store = TagStore::new();
    assert_tag(create(&mut store, "t", "t", tag("one")), 1, "one");
    let body = Tag { id: Some(9), title: "uno".to_string() };
    assert_tag(update(&mut store, "t", "t", body, 1), 1, "uno");
    assert_tag(detail(&store, 1), 1, "uno");
    assert_eq!(rejection(detail(&store, 9)), Rejection::NotFound);
}

#[test]
fn delete_twice_stays_absent() {
    let mut store = TagStore::new();
    assert_tag(create(&mut store, "t", "t", tag("one")), 1, "one");
    assert_eq!(delete(&mut store, "t", "t", 1), Ok(()));
    assert_eq!(rejection(detail(&store, 1)), Rejection::NotFound);
    assert_eq!(delete(&mut store, "t", "t", 1), Err(Rejection::NotFound));
    assert_eq!(rejection(detail(&store, 1)), Rejection::NotFound);
}

#[test]
fn unauthorized_mutations_change_nothing() {
    let mut store = TagStore::new();
    assert_tag(create(&mut store, "secret", "secret", tag("one")), 1, "one");
    let bad = "Bearer wrong";
    assert_eq!(rejection(create(&mut store, "secret", bad, tag("two"))), Rejection::Unauthorized);
    assert_eq!(rejection(update(&mut store, "secret", bad, tag("x"), 1)), Rejection::Unauthorized);
    assert_eq!(delete(&mut store, "secret", bad, 1), Err(Rejection::Unauthorized));
    assert_eq!(count(&store), 1);
    assert_tag(detail(&store, 1), 1, "one");
    assert_tag(create(&mut store, "secret", "secret", tag("two")), 2, "two");
}

#[test]
fn list_holds_every_row_in_insertion_order() {
    let mut store = TagStore::new();
    assert_eq!(count(&store), 0);
    for title in ["a", "b", "c"] {
        assert!(create(&mut store, "t", "t", tag(title)).is_ok());
    }
    assert_eq!(delete(&mut store, "t", "t", 2), Ok(()));
    let tags = match list(&store) {
        Ok(tags) => tags,
        Err(e) => panic!("list failed: {:?}", e),
    };
    assert_eq!(tags.len(), 2);
    assert_eq!(tags[0].id, Some(1));
    assert_eq!(tags[0].title, "a");
    assert_eq!(tags[1].id, Some(3));
    assert_eq!(tags[1].title, "c");
}

#[test]
fn store_operations() {
    let mut store = TagStore::new();
    let row = store.insert("x".to_string()).unwrap();
    assert_eq!((row.id, row.title.as_str()), (1, "x"));
    let found = store.find_by_id(1).unwrap().unwrap();
    assert_eq!(found.title, "x");
    assert!(store.find_by_id(2).unwrap().is_none());
    let new = store.update(TagRow { id: 1, title: "y".to_string() }).unwrap();
    assert_eq!(new.title, "y");
    assert_eq!(store.update(TagRow { id: 5, title: "z".to_string() }).err(), Some(StoreError::Backend));
    assert_eq!(store.find_all().unwrap().len(), 1);
    assert!(store.delete(1).is_ok());
    assert!(store.delete(1).is_ok());
    assert_eq!(store.find_all().unwrap().len(), 0);
}

#[test]
fn responses_map_storage_results() {
    let row = || TagRow { id: 4, title: "four".to_string() };
    assert_tag(create_response(Ok(row())), 4, "four");
    assert_eq!(rejection(create_response(Err(StoreError::Backend))), Rejection::InternalError);
    assert_eq!(rejection(create_response(Err(StoreError::IdsExhausted))), Rejection::InternalError);
    assert_tag(detail_response(Ok(Some(row()))), 4, "four");
    assert_eq!(rejection(detail_response(Ok(None))), Rejection::NotFound);
    assert_eq!(rejection(detail_response(Err(StoreError::Backend))), Rejection::NotFound);
    assert_eq!(rejection(list_response(Err(StoreError::Backend))), Rejection::NotFound);
    let tags = list_response(Ok(vec![row(), TagRow { id: 2, title: "two".to_string() }])).unwrap();
    assert_eq!(tags.len(), 2);
    assert_eq!((tags[0].id, tags[0].title.as_str()), (Some(4), "four"));
    assert_eq!((tags[1].id, tags[1].title.as_str()), (Some(2), "two"));
    let t = to_tag(&row());
    assert_eq!((t.id, t.title.as_str()), (Some(4), "four"));
}

#[test]
fn update_and_delete_decisions() {
    let body = Tag { id: Some(8), title: "new".to_string() };
    let found = Ok(Some(TagRow { id: 3, title: "old".to_string() }));
    let row = update_row(found, &body).unwrap();
    assert_eq!((row.id, row.title.as_str()), (3, "new"));
    assert_eq!(update_row(Ok(None), &body).err(), Some(Rejection::NotFound));
    assert_eq!(update_row(Err(StoreError::Backend), &body).err(), Some(Rejection::NotFound));
    let found = Ok(Some(TagRow { id: 3, title: "old".to_string() }));
    assert_eq!(delete_target(found), Ok(3));
    assert_eq!(delete_target(Ok(None)), Err(Rejection::NotFound));
    assert_eq!(delete_target(Err(StoreError::Backend)), Err(Rejection::NotFound));
}
