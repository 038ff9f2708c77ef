use pony::extensions::ExtensionSet;
use pony::routes::RouteTable;

#[test]
fn empty_table() {
    let table: RouteTable<u32> = RouteTable::new();
    assert_eq!(table.len(), 0);
    assert!(table.lookup("/").is_none());
    assert!(table.lookup("").is_none());
}

#[test]
fn register_then_lookup() {
    let mut table: RouteTable<u32> = RouteTable::new();
    table.register("/a", 1);
    table.register("/b", 2);
    table.register("", 3);
    assert_eq!(table.len(), 3);
    assert_eq!(table.lookup("/a"), Some(&1));
    assert_eq!(table.lookup("/b"), Some(&2));
    assert_eq!(table.lookup(""), Some(&3));
    assert_eq!(table.lookup("/c"), None);
    assert_eq!(table.lookup("/A"), None);
    assert_eq!(table.lookup("/a/"), None);
}

#[test]
fn register_overwrites() {
    let mut table: RouteTable<u32> = RouteTable::new();
    table.register("/a", 1);
    table.register("/b", 2);
    table.register("/a", 7);
    assert_eq!(table.len(), 2);
    assert_eq!(table.lookup("/a"), Some(&7));
    assert_eq!(table.lookup("/b"), Some(&2));
}

#[test]
fn register_is_idempotent() {
    let mut table: RouteTable<u32> = RouteTable::new();
    table.register("/a", 1);
    table.register("/a", 1);
    assert_eq!(table.len(), 1);
    assert_eq!(table.lookup("/a"), Some(&1));
}

#[test]
fn cloned_table_is_a_copy() {
    let mut table: RouteTable<u32> = RouteTable::new();
    table.register("/a", 1);
    let copy = table.clone();
    table.register("/a", 2);
    table.register("/b", 3);
    assert_eq!(copy.len(), 1);
    assert_eq!(copy.lookup("/a"), Some(&1));
    assert_eq!(copy.lookup("/b"), None);
}

#[test]
fn empty_set() {
    let set = ExtensionSet::new();
    assert_eq!(set.len(), 0);
    assert!(!set.contains("html"));
    assert!(!set.contains(""));
}

#[test]
fn standard_set() {
    let set = ExtensionSet::standard();
    assert_eq!(set.len(), 14);
    assert!(set.contains("html"));
    assert!(set.contains("woff2"));
    assert!(set.contains("map"));
    assert!(!set.contains("HTML"));
    assert!(!set.contains(".html"));
    assert!(!set.contains("wasm"));
}

#[test]
fn set_insert_and_remove() {
    let mut set = ExtensionSet::new();
    set.insert("a");
    set.insert("b");
    set.insert("a");
    assert_eq!(set.len(), 2);
    set.remove("a");
    assert_eq!(set.len(), 1);
    assert!(!set.contains("a"));
    assert!(set.contains("b"));
    set.remove("a");
    assert_eq!(set.len(), 1);
    set.remove("b");
    assert_eq!(set.len(), 0);
}

#[test]
fn set_from_list_extend_remove_all() {
    let mut set = ExtensionSet::from_list(&["x", "y", "x"]);
    assert_eq!(set.len(), 2);
    set.extend(&["y", "z"]);
    assert_eq!(set.len(), 3);
    set.remove_all(&["x", "z", "q"]);
    assert_eq!(set.len(), 1);
    assert!(set.contains("y"));
    let copy = set.clone();
    set.remove("y");
    assert!(copy.contains("y"));
    assert_eq!(copy.len(), 1);
}
