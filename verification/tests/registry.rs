use c_idioms::registry::ItemStore;
use c_idioms::registry::UseDecl;

#[test]
fn item_is_registered_once() {
    let mut store = ItemStore::new();
    store.add_item_str_once("fn helper() {}");
    assert_eq!(store.items(), &vec!["fn helper() {}".to_string()]);
    store.add_item_str_once("fn helper() {}");
    assert_eq!(store.items(), &vec!["fn helper() {}".to_string()]);
}

#[test]
fn item_asked_for_at_many_places_has_one_copy() {
    let mut store = ItemStore::new();
    store.add_item_str_once("fn other() {}");
    for _ in 0..5 {
        store.add_item_str_once("fn helper() {}");
    }
    let copies = store.items().iter().filter(|item| item.as_str() == "fn helper() {}").count();
    assert_eq!(copies, 1);
    assert_eq!(store.items().len(), 2);
}

#[test]
fn items_differ_by_exact_text() {
    let mut store = ItemStore::new();
    store.add_item_str_once("fn helper() {}");
    store.add_item_str_once("fn helper() { }");
    assert_eq!(
        store.items(),
        &vec!["fn helper() {}".to_string(), "fn helper() { }".to_string()]
    );
}

#[test]
fn import_is_registered_once() {
    let mut store = ItemStore::new();
    let io = || vec!["std".to_string(), "io".to_string()];
    store.add_use(io(), "Read");
    store.add_use(io(), "BufRead");
    store.add_use(io(), "Read");
    store.add_use(vec!["std".to_string()], "Read");
    assert_eq!(
        store.uses(),
        &vec![
            UseDecl { path: io(), name: "Read".to_string() },
            UseDecl { path: io(), name: "BufRead".to_string() },
            UseDecl { path: vec!["std".to_string()], name: "Read".to_string() },
        ]
    );
}

#[test]
fn crate_is_registered_once() {
    let mut store = ItemStore::new();
    store.use_crate("scanf");
    store.use_crate("libc");
    store.use_crate("scanf");
    assert_eq!(store.crates(), &vec!["scanf".to_string(), "libc".to_string()]);
    assert!(store.items().is_empty());
    assert!(store.uses().is_empty());
}

#[test]
fn imports_compare_by_value() {
    let a = UseDecl { path: vec!["std".to_string(), "io".to_string()], name: "Read".to_string() };
    let b = UseDecl { path: vec!["std".to_string(), "io".to_string()], name: "Read".to_string() };
    let c = UseDecl { path: vec!["std".to_string(), "fs".to_string()], name: "Read".to_string() };
    let d = UseDecl { path: vec!["std".to_string(), "io".to_string()], name: "Write".to_string() };
    assert!(a.same_as(&b));
    assert!(!a.same_as(&c));
    assert!(!a.same_as(&d));
}
