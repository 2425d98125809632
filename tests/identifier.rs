use tg_reporter::identifier::ResolvedJoinType;

fn handle(input: &str) -> Option<String> {
    match ResolvedJoinType::resolve(input) {
        ResolvedJoinType::Username(u) => Some(u),
        ResolvedJoinType::Hash(_) => None,
    }
}

fn hash(input: &str) -> Option<String> {
    match ResolvedJoinType::resolve(input) {
        ResolvedJoinType::Hash(h) => Some(h),
        ResolvedJoinType::Username(_) => None,
    }
}

#[test]
fn at_prefix_is_handle() {
    assert_eq!(handle("@foo"), Some("foo".to_string()));
}

#[test]
fn short_link_is_handle() {
    assert_eq!(handle("t.me/foo"), Some("foo".to_string()));
}

#[test]
fn link_with_path_is_invite_hash() {
    assert_eq!(hash("t.me/foo/bar"), Some("bar".to_string()));
}

#[test]
fn full_url_with_path_is_invite_hash() {
    assert_eq!(hash("https://t.me/foo/bar"), Some("bar".to_string()));
}

#[test]
fn plain_name_is_handle() {
    assert_eq!(handle("foo"), Some("foo".to_string()));
}

#[test]
fn full_url_without_path_is_handle() {
    assert_eq!(handle("https://t.me/somechannel"), Some("somechannel".to_string()));
}

#[test]
fn only_second_segment_is_taken() {
    assert_eq!(hash("t.me/joinchat/abc/def"), Some("abc".to_string()));
}

#[test]
fn last_marker_wins() {
    assert_eq!(handle("t.me/x/t.me/y"), Some("y".to_string()));
}

#[test]
fn empty_input_is_empty_handle() {
    assert_eq!(handle(""), Some(String::new()));
    assert_eq!(handle("@"), Some(String::new()));
}

#[test]
fn trailing_slash_gives_empty_hash() {
    assert_eq!(hash("t.me/foo/"), Some(String::new()));
}

#[test]
fn non_ascii_handle_is_kept() {
    assert_eq!(handle("@канал"), Some("канал".to_string()));
}
