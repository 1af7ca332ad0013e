use cairo_vm::name_map::NameMap;

#[test]
fn an_empty_table_binds_nothing() {
    let table: NameMap<u32> = NameMap::new();
    assert_eq!(table.get("a"), None);
    assert_eq!(table.get(""), None);
}

#[test]
fn a_later_binding_replaces_an_earlier_one() {
    let mut table = NameMap::new();
    table.insert("a", 1);
    table.insert("b", 2);
    assert_eq!(table.get("a"), Some(&1));
    table.insert("a", 3);
    assert_eq!(table.get("a"), Some(&3));
    assert_eq!(table.get("b"), Some(&2));
    assert_eq!(table.get("c"), None);
    assert_eq!(table.get("A"), None);
}
