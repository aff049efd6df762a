use loudness_meter::table::Table;

#[test]
fn new_table_is_empty() {
    let table: Table<u32> = Table::new();
    assert!(table.is_empty());
    assert_eq!(table.len(), 0);
    assert_eq!(table.find(&"x".to_string()), None);
    assert!(!table.contains_key(&"x".to_string()));
    assert!(table.get(&"x".to_string()).is_none());
}

#[test]
fn insert_appends_new_names_in_order() {
    let mut table: Table<u32> = Table::new();
    table.insert("one".to_string(), 1);
    table.insert("two".to_string(), 2);
    table.insert("three".to_string(), 3);
    assert!(!table.is_empty());
    assert_eq!(table.len(), 3);
    assert_eq!(table.name(0), "one");
    assert_eq!(table.name(1), "two");
    assert_eq!(table.name(2), "three");
    assert_eq!(*table.value(0), 1);
    assert_eq!(*table.value(1), 2);
    assert_eq!(*table.value(2), 3);
    assert_eq!(table.find(&"two".to_string()), Some(1));
    assert_eq!(table.get(&"three".to_string()), Some(&3));
    assert!(table.contains_key(&"one".to_string()));
    assert!(!table.contains_key(&"four".to_string()));
}

#[test]
fn insert_replaces_the_value_of_a_known_name() {
    let mut table: Table<u32> = Table::new();
    table.insert("one".to_string(), 1);
    table.insert("two".to_string(), 2);
    table.insert("one".to_string(), 11);
    assert_eq!(table.len(), 2);
    assert_eq!(table.name(0), "one");
    assert_eq!(table.name(1), "two");
    assert_eq!(table.get(&"one".to_string()), Some(&11));
    assert_eq!(table.get(&"two".to_string()), Some(&2));
}

#[test]
fn value_mut_changes_one_value() {
    let mut table: Table<u32> = Table::new();
    table.insert("one".to_string(), 1);
    table.insert("two".to_string(), 2);
    *table.value_mut(1) = 22;
    assert_eq!(table.get(&"one".to_string()), Some(&1));
    assert_eq!(table.get(&"two".to_string()), Some(&22));
    assert_eq!(table.name(1), "two");
}

#[test]
fn names_are_compared_exactly() {
    let mut table: Table<u32> = Table::new();
    table.insert("bus".to_string(), 1);
    assert_eq!(table.find(&"Bus".to_string()), None);
    assert_eq!(table.find(&"bus ".to_string()), None);
    assert_eq!(table.find(&"bu".to_string()), None);
    assert_eq!(table.find(&String::new()), None);
    table.insert(String::new(), 7);
    assert_eq!(table.find(&String::new()), Some(1));
}

#[test]
fn clone_keeps_names_and_values() {
    let mut table: Table<u32> = Table::new();
    table.insert("one".to_string(), 1);
    table.insert("two".to_string(), 2);
    let copy = table.clone();
    assert_eq!(copy.len(), 2);
    assert_eq!(copy.name(0), "one");
    assert_eq!(copy.name(1), "two");
    assert_eq!(*copy.value(0), 1);
    assert_eq!(*copy.value(1), 2);
}
