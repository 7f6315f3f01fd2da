use offchain_demo::ledger::{ensure_none, ensure_signed, TASK_SENTINEL};
use offchain_demo::runtime::TEST_UNSIGNED_PRIORITY;
use offchain_demo::submit::{
    agent_submission, number_submission_signed, signed_results, unsigned_result, UNSIGNED_LONGEVITY,
};
use offchain_demo::{
    validate_unsigned, Activation, Call, CallKind, DispatchError, Error, ExtBuilder, GithubInfo,
    InvalidTransaction, Module, Origin, TestRuntime, Trait, ValidTransaction,
};

#[test]
fn insert_task_sets_queue_available() {
    let mut m = ExtBuilder::build();
    assert!(!m.queue_available());
    assert_eq!(m.insert_new_task(Origin::Signed(1), 1, b"url".to_vec(), b"agent-X".to_vec()), Ok(()));
    assert!(m.queue_available());
    let t = m.task_queue_by_number(1);
    assert_eq!(t.http_remote_reqst, b"url".to_vec());
    assert_eq!(t.http_header_usr, b"agent-X".to_vec());
}

#[test]
fn insert_task_overwrites_same_id() {
    let mut m = Module::new();
    assert_eq!(m.insert_new_task(Origin::Signed(1), 4, b"a".to_vec(), b"h1".to_vec()), Ok(()));
    assert_eq!(m.insert_new_task(Origin::Signed(2), 4, b"b".to_vec(), b"h2".to_vec()), Ok(()));
    assert_eq!(m.task_queue_by_number(4).http_header_usr, b"h2".to_vec());
    assert_eq!(m.task_queue_by_number(4).http_remote_reqst, b"b".to_vec());
}

#[test]
fn missing_task_reads_empty() {
    let m = Module::new();
    let t = m.task_queue_by_number(9);
    assert!(t.http_remote_reqst.is_empty());
    assert!(t.http_header_usr.is_empty());
}

#[test]
fn unsigned_origin_cannot_insert_task() {
    let mut m = Module::new();
    assert_eq!(
        m.insert_new_task(Origin::Unsigned, 1, Vec::new(), Vec::new()),
        Err(DispatchError::BadOrigin)
    );
    assert_eq!(m.insert_new_task(Origin::Root, 1, Vec::new(), Vec::new()), Err(DispatchError::BadOrigin));
    assert!(!m.queue_available());
}

#[test]
fn empty_tasks_clears_flag_and_keeps_entries() {
    let mut m = Module::new();
    m.insert_new_task(Origin::Signed(1), 1, b"u".to_vec(), b"h".to_vec()).unwrap();
    assert_eq!(m.empty_tasks(Origin::Unsigned), Err(DispatchError::BadOrigin));
    assert!(m.queue_available());
    assert_eq!(m.empty_tasks(Origin::Signed(3)), Ok(()));
    assert!(!m.queue_available());
    assert_eq!(m.task_queue_by_number(1).http_header_usr, b"h".to_vec());
}

#[test]
fn agent_submission_overwrites_agent() {
    let mut m = Module::new();
    assert_eq!(m.submit_agent_signed(Origin::Signed(1), b"first".to_vec()), Ok(()));
    assert_eq!(m.submit_agent_signed(Origin::Signed(1), b"second".to_vec()), Ok(()));
    assert_eq!(m.user_agent_on_chain(), b"second".to_vec());
    assert_eq!(m.submit_agent_signed(Origin::Unsigned, b"x".to_vec()), Err(DispatchError::BadOrigin));
    assert_eq!(m.user_agent_on_chain(), b"second".to_vec());
}

#[test]
fn number_origins_are_checked() {
    let mut m = Module::new();
    assert_eq!(m.submit_number_signed(Origin::Unsigned, 5), Err(DispatchError::BadOrigin));
    assert_eq!(m.submit_number_unsigned(Origin::Signed(2), 5), Err(DispatchError::BadOrigin));
    assert_eq!(m.submit_number_unsigned(Origin::Root, 5), Err(DispatchError::BadOrigin));
    assert!(m.numbers().is_empty());
    assert!(m.events().is_empty());
    assert_eq!(m.submit_number_signed(Origin::Signed(2), 5), Ok(()));
    assert_eq!(m.events(), vec![offchain_demo::Event::NewNumber(Some(2), 5)]);
}

#[test]
fn origin_checks() {
    assert_eq!(ensure_signed(Origin::Signed(8)), Ok(8));
    assert_eq!(ensure_signed(Origin::Root), Err(DispatchError::BadOrigin));
    assert_eq!(ensure_none(Origin::Unsigned), Ok(()));
    assert_eq!(ensure_none(Origin::Signed(1)), Err(DispatchError::BadOrigin));
}

#[test]
fn activation_branches_on_queue_flag() {
    let mut m = Module::new();
    assert_eq!(m.on_activation(), Activation::SubmitAgent);
    m.insert_new_task(Origin::Signed(1), 1, Vec::new(), Vec::new()).unwrap();
    assert_eq!(m.on_activation(), Activation::Fetch);
    assert!(!m.queue_available());
    assert_eq!(m.on_activation(), Activation::SubmitAgent);
}

#[test]
fn fetch_request_reads_sentinel_task() {
    let mut m = Module::new();
    m.insert_new_task(Origin::Signed(1), 2, Vec::new(), b"other".to_vec()).unwrap();
    let req = m.fetch_request(5).unwrap();
    assert_eq!(req.user_agent, "");
    m.insert_new_task(Origin::Signed(1), TASK_SENTINEL, Vec::new(), b"mine".to_vec()).unwrap();
    let req = m.fetch_request(5).unwrap();
    assert_eq!(req.user_agent, "mine");
    assert_eq!(req.deadline_ms, 3005);
    m.insert_new_task(Origin::Signed(1), TASK_SENTINEL, Vec::new(), vec![0xfe]).unwrap();
    assert_eq!(m.fetch_request(5), Err(Error::HttpFetchingError3));
}

#[test]
fn unsigned_number_is_admitted() {
    let r = validate_unsigned::<TestRuntime>(&Call::SubmitNumberUnsigned(42));
    assert_eq!(
        r,
        Ok(ValidTransaction {
            priority: TEST_UNSIGNED_PRIORITY,
            provides: CallKind::SubmitNumberUnsigned,
            longevity: 3,
            propagate: true,
        })
    );
    assert_eq!(UNSIGNED_LONGEVITY, 3);
    assert_eq!(TestRuntime::unsigned_priority(), TEST_UNSIGNED_PRIORITY);
}

#[test]
fn other_unsigned_calls_are_refused() {
    let calls = vec![
        Call::InsertNewTask(1, Vec::new(), Vec::new()),
        Call::EmptyTasks,
        Call::SubmitAgentSigned(b"a".to_vec()),
        Call::SubmitNumberSigned(42),
    ];
    for c in calls.iter() {
        assert_eq!(validate_unsigned::<TestRuntime>(c), Err(InvalidTransaction::Call));
    }
}

#[test]
fn identical_unsigned_submissions_share_a_tag() {
    let a = validate_unsigned::<TestRuntime>(&Call::SubmitNumberUnsigned(1)).unwrap();
    let b = validate_unsigned::<TestRuntime>(&Call::SubmitNumberUnsigned(2)).unwrap();
    assert_eq!(a.provides, b.provides);
    assert_eq!(Call::SubmitNumberUnsigned(1).kind(), a.provides);
}

#[test]
fn agent_submission_needs_a_signer() {
    let info = Some(GithubInfo { login: b"abc".to_vec(), blog: Vec::new(), public_repos: 1 });
    assert_eq!(agent_submission(false, &info), Err(Error::SignedSubmitNumberError));
    assert_eq!(agent_submission(true, &None), Ok(None));
    assert_eq!(agent_submission(true, &info), Ok(Some(Call::SubmitAgentSigned(b"abc".to_vec()))));
}

#[test]
fn number_submission_needs_a_signer() {
    assert_eq!(number_submission_signed(false, 9), Err(Error::SignedSubmitNumberError));
    assert_eq!(number_submission_signed(true, 9), Ok(Call::SubmitNumberSigned(9)));
}

#[test]
fn any_refused_signed_submission_fails() {
    assert_eq!(signed_results(&vec![]), Ok(()));
    assert_eq!(signed_results(&vec![true, true]), Ok(()));
    assert_eq!(signed_results(&vec![true, false, true]), Err(Error::SignedSubmitNumberError));
    assert_eq!(unsigned_result(true), Ok(()));
    assert_eq!(unsigned_result(false), Err(Error::UnsignedSubmitNumberError));
}
