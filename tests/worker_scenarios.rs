use offchain_demo::{
    begin_fetch, body_text, finish_fetch, github_info_from_json, response_body, Activation,
    ExtBuilder, FetchStart, HttpOutcome, JsonFields, LocalStore, LockState, Origin,
};

fn decode_fields(text: &str) -> Option<JsonFields> {
    let v: serde_json::Value = serde_json::from_str(text).ok()?;
    Some(JsonFields {
        login: v.get("login").and_then(|x| x.as_str()).map(String::from),
        blog: v.get("blog").and_then(|x| x.as_str()).map(String::from),
        public_repos: v.get("public_repos").and_then(|x| x.as_u64()),
    })
}

#[test]
fn queued_task_is_fetched_and_cached() {
    let mut ledger = ExtBuilder::build();
    let mut store = LocalStore::new();
    assert_eq!(ledger.insert_new_task(Origin::Signed(1), 1, Vec::new(), b"agent-X".to_vec()), Ok(()));
    assert!(ledger.queue_available());

    assert_eq!(ledger.on_activation(), Activation::Fetch);
    assert_eq!(begin_fetch(&mut store), Ok(FetchStart::Acquired));
    assert_eq!(store.lock, LockState::Held);

    let req = ledger.fetch_request(0).unwrap();
    assert_eq!(req.user_agent, "agent-X");
    let outcome = HttpOutcome::Response {
        code: 200,
        body: br#"{"login":"abc","blog":"","public_repos":3}"#.to_vec(),
    };
    let fetched = body_text(response_body(outcome))
        .and_then(|text| github_info_from_json(decode_fields(&text)));
    assert_eq!(finish_fetch(&mut store, fetched), Ok(()));

    let info = store.gh_info.clone().unwrap();
    assert_eq!(info.login, b"abc".to_vec());
    assert_eq!(info.blog, Vec::<u8>::new());
    assert_eq!(info.public_repos, 3);
    assert_eq!(store.lock, LockState::Free);
}

#[test]
fn second_activation_uses_cache() {
    let mut ledger = ExtBuilder::build();
    let mut store = LocalStore::new();
    ledger.insert_new_task(Origin::Signed(1), 1, Vec::new(), b"agent-X".to_vec()).unwrap();
    assert_eq!(ledger.on_activation(), Activation::Fetch);
    assert_eq!(begin_fetch(&mut store), Ok(FetchStart::Acquired));
    let body = br#"{"login":"abc","blog":"","public_repos":3}"#.to_vec();
    let fetched = body_text(Ok(body)).and_then(|t| github_info_from_json(decode_fields(&t)));
    assert_eq!(finish_fetch(&mut store, fetched), Ok(()));

    ledger.insert_new_task(Origin::Signed(1), 1, Vec::new(), b"agent-X".to_vec()).unwrap();
    assert_eq!(ledger.on_activation(), Activation::Fetch);
    let before = store.gh_info.clone();
    assert_eq!(begin_fetch(&mut store), Ok(FetchStart::Cached));
    assert_eq!(store.gh_info, before);
    assert_eq!(store.lock, LockState::Free);
}

#[test]
fn malformed_body_releases_lock_with_error2() {
    let mut store = LocalStore::new();
    assert_eq!(begin_fetch(&mut store), Ok(FetchStart::Acquired));
    let fetched = body_text(Ok(br#"{"login":"abc"}"#.to_vec()))
        .and_then(|t| github_info_from_json(decode_fields(&t)));
    assert_eq!(finish_fetch(&mut store, fetched), Err(offchain_demo::Error::HttpFetchingError2));
    assert_eq!(store.lock, LockState::Free);
    assert!(store.gh_info.is_none());
    let not_json = body_text(Ok(b"<html>".to_vec())).and_then(|t| github_info_from_json(decode_fields(&t)));
    assert_eq!(not_json, Err(offchain_demo::Error::HttpFetchingError2));
}
