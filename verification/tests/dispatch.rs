use mcp_agent::agent::dispatch::DispatchTable;

#[test]
fn empty_table_routes_nothing() {
    let t = DispatchTable::new();
    assert_eq!(t.len(), 0);
    assert_eq!(t.lookup("add"), None);
}

#[test]
fn a_tool_is_routed_to_its_provider() {
    let mut t = DispatchTable::new();
    t.insert("add".to_string(), 0);
    t.insert("sub".to_string(), 1);
    assert_eq!(t.lookup("add"), Some(0));
    assert_eq!(t.lookup("sub"), Some(1));
    assert_eq!(t.lookup("mul"), None);
    assert_eq!(t.lookup("ADD"), None);
    assert_eq!(t.len(), 2);
}

#[test]
fn a_later_route_overwrites_an_earlier_one() {
    let mut t = DispatchTable::new();
    t.insert("add".to_string(), 0);
    t.insert("sub".to_string(), 0);
    t.insert("add".to_string(), 1);
    assert_eq!(t.lookup("add"), Some(1));
    assert_eq!(t.lookup("sub"), Some(0));
    assert_eq!(t.len(), 2);
}

#[test]
fn asking_twice_gives_the_same_provider() {
    let mut t = DispatchTable::new();
    t.insert("add".to_string(), 3);
    let first = t.lookup("add");
    let second = t.lookup("add");
    assert_eq!(first, Some(3));
    assert_eq!(first, second);
    assert_eq!(t.lookup("none"), t.lookup("none"));
}
