use grpc_middleware::grpc_timeout::{race_poll_step, timeout_response, MaybeEmptyBody, RacePoll};
use grpc_middleware::http_model::{HeaderList, InnerPoll, ResponseHead, RpcResponse};

fn sample_response() -> RpcResponse<Vec<u8>> {
    let mut headers = HeaderList::new();
    headers.push(b"content-type".to_vec(), b"application/grpc".to_vec());
    headers.push(b"x-request-id".to_vec(), b"7".to_vec());
    RpcResponse { head: ResponseHead { status: 231, headers }, body: vec![1, 2, 3] }
}

#[test]
fn inner_completion_passes_response_through_unmodified() {
    let resp = sample_response();
    let r = race_poll_step::<Vec<u8>, String>(InnerPoll::Finished(Ok(resp)), true, true);
    match r {
        RacePoll::Finished(Ok(out)) => {
            assert_eq!(out.head.status, 231);
            assert_eq!(
                out.head.headers.get(&b"x-request-id".to_vec()),
                Some(&b"7".to_vec())
            );
            assert_eq!(out.body.inner, Some(vec![1, 2, 3]));
        }
        _ => panic!("inner completion must win the race"),
    }
}

#[test]
fn inner_error_passes_through_unchanged() {
    let r = race_poll_step::<Vec<u8>, String>(
        InnerPoll::Finished(Err("inner failure".to_string())),
        true,
        true,
    );
    match r {
        RacePoll::Finished(Err(e)) => assert_eq!(e, "inner failure"),
        _ => panic!("an inner error must pass through"),
    }
}

#[test]
fn fired_timer_synthesizes_deadline_exceeded_response() {
    let r = race_poll_step::<Vec<u8>, String>(InnerPoll::Suspended, true, true);
    match r {
        RacePoll::Finished(Ok(out)) => {
            assert_eq!(out.head.status, 200);
            assert_eq!(
                out.head.headers.get(&b"content-type".to_vec()),
                Some(&b"application/grpc".to_vec())
            );
            assert_eq!(
                out.head.headers.get(&b"grpc-status".to_vec()),
                Some(&b"4".to_vec())
            );
            assert_eq!(
                out.head.headers.get(&b"grpc-message".to_vec()),
                Some(&b"Timeout%20expired".to_vec())
            );
            assert_eq!(out.body.inner, None);
        }
        _ => panic!("a fired timer must end the race"),
    }
}

#[test]
fn unarmed_timer_never_fires() {
    let r = race_poll_step::<Vec<u8>, String>(InnerPoll::Suspended, false, false);
    assert!(matches!(r, RacePoll::Suspended));
}

#[test]
fn armed_unfired_timer_keeps_racing() {
    let r = race_poll_step::<Vec<u8>, String>(InnerPoll::Suspended, true, false);
    assert!(matches!(r, RacePoll::Suspended));
}

#[test]
fn synthesized_response_body_is_empty() {
    let resp = timeout_response::<Vec<u8>>();
    assert!(resp.body.inner.is_none());
    assert!(!resp.body.has_body());
    assert!(resp.body.is_end_stream(false));
    assert_eq!(resp.body.size_hint(9, None), (0, Some(0)));
}

#[test]
fn full_body_delegates_to_inner() {
    let body = MaybeEmptyBody::full(vec![5u8, 6]);
    assert!(body.has_body());
    assert!(!body.is_end_stream(false));
    assert!(body.is_end_stream(true));
    assert_eq!(body.size_hint(2, Some(2)), (2, Some(2)));
}

#[test]
fn empty_body_reports_exact_zero_size() {
    let body = MaybeEmptyBody::<Vec<u8>>::empty();
    assert!(!body.has_body());
    assert_eq!(body.size_hint(77, Some(99)), (0, Some(0)));
}
