use warp::header_map::HeaderMap;

#[test]
fn lookups_ignore_case_and_insert_replaces() {
    let mut h = HeaderMap::new();
    h.append("X-Token", b"a");
    assert_eq!(h.get("x-token"), Some(&b"a".to_vec()));
    h.insert("x-TOKEN", b"b");
    assert_eq!(h.get("X-Token"), Some(&b"b".to_vec()));
    assert_eq!(h.len(), 1);
}

#[test]
fn append_keeps_earlier_values() {
    let mut h = HeaderMap::new();
    h.append("accept", b"text/html");
    h.append("x-other", b"1");
    h.append("Accept", b"application/json");
    assert_eq!(h.get_all("accept"), vec![b"text/html".to_vec(), b"application/json".to_vec()]);
    assert_eq!(h.get("accept"), Some(&b"text/html".to_vec()));
    assert_eq!(h.get_joined("accept", b','), Some(b"text/html, application/json".to_vec()));
    assert_eq!(h.get_single("accept"), None);
    assert_eq!(h.get_single("x-other"), Some(&b"1".to_vec()));
}

#[test]
fn remove_drops_every_value_of_the_name() {
    let mut h = HeaderMap::new();
    h.append("cookie", b"a=1");
    h.append("host", b"example.com");
    h.append("cookie", b"b=2");
    h.remove("Cookie");
    assert_eq!(h.get("cookie"), None);
    assert!(h.get_all("cookie").is_empty());
    assert!(!h.contains_key("cookie"));
    assert!(h.contains_key("host"));
    assert_eq!(h.len(), 1);
}
