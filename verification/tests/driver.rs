//! Tests of the callback-to-future bridge and the message-queue result
//! types.

use taos_core::future::{QueryFuture, QueryPoll, RawRes, RawTaos};
use taos_core::tmq::{tmq_conf_res_t, tmq_resp_err_t};

#[test]
fn callback_future_protocol() {
    let mut f = QueryFuture::new(RawTaos(11), String::from("select 1"));
    assert!(!f.done());
    // The first pre-completion poll asks for the native call; later ones
    // wait without re-issuing it.
    assert!(matches!(f.poll(), QueryPoll::Issue));
    assert!(matches!(f.poll(), QueryPoll::Wait));
    assert!(matches!(f.poll(), QueryPoll::Wait));
    // The callback fires once with a handle and status zero; every later
    // poll observes the same successful result.
    f.complete(0xBEEF, 0);
    assert!(f.done());
    for _ in 0..3 {
        match f.poll() {
            QueryPoll::Ready(Ok(res)) => assert_eq!(res, RawRes(0xBEEF)),
            other => panic!("expected the settled result, got {:?}", other),
        }
    }
}

#[test]
fn nonzero_status_becomes_a_driver_error() {
    let mut f = QueryFuture::new(RawTaos(1), String::from("select 2"));
    assert!(matches!(f.poll(), QueryPoll::Issue));
    f.complete(0, -5);
    match f.poll() {
        QueryPoll::Ready(Err(e)) => {
            assert_eq!(e.code, Some(-5));
            assert_eq!(e.message, None);
        }
        other => panic!("expected a driver error, got {:?}", other),
    }
}

#[test]
fn direct_settlement() {
    match RawRes::from_ptr_with_code(7, 0) {
        Ok(r) => assert_eq!(r, RawRes(7)),
        Err(_) => panic!("status zero must succeed"),
    }
    match RawRes::from_ptr_with_code(7, 2) {
        Ok(_) => panic!("nonzero status must fail"),
        Err(e) => assert_eq!(e.code, Some(2)),
    }
}

#[test]
fn resp_codes_turn_into_errors() {
    assert!(tmq_resp_err_t(0).ok_or(String::from("boom")).is_ok());
    let e = tmq_resp_err_t(3).ok_or(String::from("boom")).unwrap_err();
    assert_eq!(e.code, None);
    assert_eq!(e.message.as_deref(), Some("boom"));
}

#[test]
fn conf_results_name_the_pair() {
    assert!(tmq_conf_res_t::Okay.ok("k", "v").is_ok());
    let e = tmq_conf_res_t::Invalid.ok("group.id", "abc").unwrap_err();
    assert_eq!(e.message.as_deref(), Some("Invalid key value pair (group.id, abc)"));
    assert_eq!(e.code, None);
    let e = tmq_conf_res_t::Unknown.ok("nope", "x").unwrap_err();
    assert_eq!(e.message.as_deref(), Some("Unknown key nope"));
}
