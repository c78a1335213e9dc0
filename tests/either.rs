use btc_rpc_proxy::util::{Apply, ApplyRef, Either, StrCompat};

#[test]
fn either_left_accessors() {
    let e: Either<u32, String> = Either::Left(7);
    assert_eq!(e.as_left(), Some(&7));
    assert_eq!(e.as_right(), None);
    assert_eq!(e.clone().into_left(), Some(7));
    assert_eq!(e.into_right(), None);
}

#[test]
fn either_right_accessors() {
    let e: Either<u32, String> = Either::Right("x".to_string());
    assert_eq!(e.as_left(), None);
    assert_eq!(e.as_right(), Some(&"x".to_string()));
    assert_eq!(e.clone().into_left(), None);
    assert_eq!(e.into_right(), Some("x".to_string()));
}

#[test]
fn strip_prefix_and_suffix() {
    let s: &str = "/wallet/main";
    assert_eq!(StrCompat::strip_prefix(s, "/wallet/"), Some("main"));
    assert_eq!(StrCompat::strip_prefix(s, "/walled"), None);
    assert_eq!(StrCompat::strip_prefix(s, ""), Some("/wallet/main"));
    assert_eq!(StrCompat::strip_suffix(s, "main"), Some("/wallet/"));
    assert_eq!(StrCompat::strip_suffix(s, "mains"), None);
    assert_eq!(StrCompat::strip_prefix("ab", "abc"), None);
    assert_eq!(StrCompat::strip_suffix("äbc", "bc"), Some("ä"));
}

#[test]
fn apply_calls_the_function() {
    assert_eq!(3u32.apply(|x| x * 2), 6);
    let v = vec![1, 2, 3];
    assert_eq!(v.apply_ref(|v| v.len()), 3);
}
