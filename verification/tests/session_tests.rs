use tsm::error::SessionError;
use tsm::session::{session_cookie_header, SessionStore};

// Two base64 texts, and the ids that the session library derives from them.
const COOKIE_A: &str = "YWxwaGEtc2Vzc2lvbi1jb29raWU=";
const COOKIE_B: &str = "YnJhdm8tc2Vzc2lvbi1jb29raWU=";

#[test]
fn new_store_holds_no_session() {
    let store = SessionStore::new();
    assert_eq!(store.load(COOKIE_A).unwrap_err(), SessionError::NotFound);
    assert_eq!(store.load("").unwrap_err(), SessionError::NotFound);
}

#[test]
fn load_after_create_returns_the_payload_byte_for_byte() {
    let mut store = SessionStore::new();
    let payload: Vec<u8> = vec![0, 255, 10, 13, 0, 34, 92, 128, 7];
    let cookie = store.create(payload.clone()).unwrap();
    assert_eq!(store.load(&cookie).unwrap(), payload);
    assert_eq!(store.load(&cookie).unwrap(), payload);
    let empty = store.create(vec![]).unwrap();
    assert_eq!(store.load(&empty).unwrap(), Vec::<u8>::new());
    assert_eq!(store.load(&cookie).unwrap(), payload);
}

#[test]
fn two_creates_yield_distinct_cookie_values() {
    let mut store = SessionStore::new();
    let first = store.create(b"first".to_vec()).unwrap();
    let second = store.create(b"second".to_vec()).unwrap();
    assert_ne!(first, second);
    assert_eq!(store.load(&first).unwrap(), b"first".to_vec());
    assert_eq!(store.load(&second).unwrap(), b"second".to_vec());
}

#[test]
fn many_creates_yield_pairwise_distinct_cookie_values() {
    let mut store = SessionStore::new();
    let mut cookies: Vec<String> = vec![];
    for i in 0..50u8 {
        cookies.push(store.create(vec![i]).unwrap());
    }
    for i in 0..cookies.len() {
        assert_eq!(store.load(&cookies[i]).unwrap(), vec![i as u8]);
        for j in 0..i {
            assert_ne!(cookies[i], cookies[j]);
        }
    }
}

#[test]
fn created_cookie_value_is_long_and_random_looking() {
    let mut store = SessionStore::new();
    let cookie = store.create(vec![1]).unwrap();
    assert!(cookie.len() >= 64);
    assert!(cookie.is_ascii());
}

#[test]
fn load_after_destroy_is_not_found() {
    let mut store = SessionStore::new();
    let keep = store.create(b"keep".to_vec()).unwrap();
    let gone = store.create(b"gone".to_vec()).unwrap();
    store.destroy(&gone);
    assert_eq!(store.load(&gone).unwrap_err(), SessionError::NotFound);
    assert_eq!(store.load(&keep).unwrap(), b"keep".to_vec());
    store.destroy(&gone);
    assert_eq!(store.load(&gone).unwrap_err(), SessionError::NotFound);
    store.destroy(&keep);
    assert_eq!(store.load(&keep).unwrap_err(), SessionError::NotFound);
}

#[test]
fn destroy_of_an_unknown_cookie_changes_nothing() {
    let mut store = SessionStore::new();
    let cookie = store.create(b"payload".to_vec()).unwrap();
    store.destroy(COOKIE_A);
    store.destroy("not base64 at all !!");
    store.destroy("");
    assert_eq!(store.load(&cookie).unwrap(), b"payload".to_vec());
}

#[test]
fn insert_keeps_the_given_cookie_value() {
    let mut store = SessionStore::new();
    assert_eq!(store.insert(COOKIE_A.to_string(), b"a".to_vec()), Some(COOKIE_A.to_string()));
    assert_eq!(store.insert(COOKIE_B.to_string(), b"b".to_vec()), Some(COOKIE_B.to_string()));
    assert_eq!(store.load(COOKIE_A).unwrap(), b"a".to_vec());
    assert_eq!(store.load(COOKIE_B).unwrap(), b"b".to_vec());
}

#[test]
fn insert_refuses_an_id_that_is_in_use() {
    let mut store = SessionStore::new();
    assert!(store.insert(COOKIE_A.to_string(), b"first".to_vec()).is_some());
    assert_eq!(store.insert(COOKIE_A.to_string(), b"second".to_vec()), None);
    assert_eq!(store.load(COOKIE_A).unwrap(), b"first".to_vec());
    store.destroy(COOKIE_A);
    assert!(store.insert(COOKIE_A.to_string(), b"third".to_vec()).is_some());
    assert_eq!(store.load(COOKIE_A).unwrap(), b"third".to_vec());
}

#[test]
fn cookie_value_that_is_no_base64_names_no_session() {
    let mut store = SessionStore::new();
    assert_eq!(store.insert("not base64 at all !!".to_string(), b"x".to_vec()), None);
    assert_eq!(store.load("not base64 at all !!").unwrap_err(), SessionError::NotFound);
}

#[test]
fn sessions_are_kept_under_the_id_of_the_cookie_value() {
    let id = async_session::Session::id_from_cookie_value(COOKIE_A).unwrap();
    assert_ne!(id, COOKIE_A);
    let mut store = SessionStore::new();
    assert!(store.insert(COOKIE_A.to_string(), b"a".to_vec()).is_some());
    // The id itself is base64 text too, but it is not the cookie value.
    assert_eq!(store.load(&id).unwrap_err(), SessionError::NotFound);
}

#[test]
fn set_cookie_value_names_the_session_cookie() {
    assert_eq!(session_cookie_header("abc123"), "SESSION=abc123; SameSite=Lax; Path=/");
    assert_eq!(session_cookie_header(""), "SESSION=; SameSite=Lax; Path=/");
}

#[test]
fn store_without_sessions_never_refuses_a_create() {
    for i in 0..100u8 {
        let mut store = SessionStore::new();
        let cookie = store.create(vec![i]).unwrap();
        assert!(async_session::Session::id_from_cookie_value(&cookie).is_ok());
        assert_eq!(store.load(&cookie).unwrap(), vec![i]);
    }
}
