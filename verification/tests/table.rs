use toby::table::{NameSet, Table};

#[test]
fn table_starts_empty() {
    let table: Table<u32> = Table::new();
    assert_eq!(0, table.len());
    assert!(table.get("a").is_none());
    assert!(!table.contains_key("a"));
}

#[test]
fn table_insert_then_get() {
    let mut table: Table<u32> = Table::new();
    table.insert("a".into(), 1);
    table.insert("b".into(), 2);

    assert_eq!(2, table.len());
    assert_eq!(Some(&1), table.get("a"));
    assert_eq!(Some(&2), table.get("b"));
    assert_eq!(None, table.get("c"));
    assert!(table.contains_key("b"));
    assert_eq!("a", table.key_at(0));
    assert_eq!("b", table.key_at(1));
    assert_eq!(&2, table.value_at(1));
}

#[test]
fn table_insert_replaces_the_value_of_a_present_key() {
    let mut table: Table<u32> = Table::new();
    table.insert("a".into(), 1);
    table.insert("b".into(), 2);
    table.insert("a".into(), 3);

    assert_eq!(2, table.len());
    assert_eq!(Some(&3), table.get("a"));
    assert_eq!(Some(&2), table.get("b"));
}

#[test]
fn table_keys_are_compared_as_text() {
    let mut table: Table<u32> = Table::new();
    table.insert("A".into(), 1);
    assert!(table.get("a").is_none());
    assert!(table.get("A ").is_none());
    assert!(table.get("").is_none());
}

#[test]
fn table_duplicate_copies_every_entry() {
    let mut table: Table<String> = Table::new();
    table.set("HOME".into(), "/srv".into());
    table.set("LANG".into(), "C".into());
    let mut copy = table.duplicate();
    copy.set("LANG".into(), "en".into());

    assert_eq!(2, copy.len());
    assert_eq!("/srv", copy.get("HOME").unwrap());
    assert_eq!("en", copy.get("LANG").unwrap());
    assert_eq!("C", table.get("LANG").unwrap());
}

#[test]
fn name_set_holds_each_name_once() {
    let mut set = NameSet::new();
    assert!(!set.contains("test"));
    set.insert("test".into());
    set.insert("test".into());
    set.insert("other".into());

    assert_eq!(2, set.len());
    assert!(set.contains("test"));
    assert!(set.contains("other"));
    assert!(!set.contains("lorem_ipsum"));
    assert_eq!("test", set.name_at(0));
}
