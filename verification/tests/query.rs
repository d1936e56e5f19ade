use iwd_devices::Query;

#[test]
fn default_query_asks_for_the_devices_of_the_wireless_daemon() {
    let query = Query::default();
    assert_eq!(query.service, "net.connman.iwd");
    assert_eq!(query.root, "/");
    assert_eq!(query.interface, "net.connman.iwd.Device");
    let same = Query::devices();
    assert_eq!(same.service, query.service);
    assert_eq!(same.root, query.root);
    assert_eq!(same.interface, query.interface);
}

#[test]
fn query_can_be_set_freely() {
    let query = Query::new(
        "org.example".to_string(),
        "/org/example".to_string(),
        "org.example.Thing".to_string(),
    );
    assert_eq!(query.service, "org.example");
    assert_eq!(query.root, "/org/example");
    assert_eq!(query.interface, "org.example.Thing");
}
