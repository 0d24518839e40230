use grpc_middleware::callback::{
    CallbackPoll, Error, RecordedEvent, RecordingHandler, ResponseFuture,
};
use grpc_middleware::callback::{MakeCallbackHandler, MakeRecordingHandler};
use grpc_middleware::http_model::{HeaderList, InnerPoll, RequestHead, ResponseHead, RpcResponse};

fn sample_response() -> RpcResponse<Vec<u8>> {
    let mut headers = HeaderList::new();
    headers.push(b"content-type".to_vec(), b"application/grpc".to_vec());
    RpcResponse { head: ResponseHead { status: 200, headers }, body: vec![9, 9] }
}

#[test]
fn success_fires_on_response_then_body_events_in_order() {
    let mut fut = ResponseFuture::new(RecordingHandler::new());
    let (polled, released) =
        fut.poll_step::<Vec<u8>, String>(InnerPoll::Finished(Ok(sample_response())));
    assert!(released.is_none());
    let mut out = match polled {
        CallbackPoll::Finished(Ok(out)) => out,
        _ => panic!("a successful inner future must resolve the stage"),
    };
    assert_eq!(out.head.status, 200);
    assert_eq!(out.body.inner, vec![9, 9]);
    assert_eq!(out.body.handler.log, vec![RecordedEvent::Head]);

    let c1 = vec![1u8];
    let c2 = vec![2u8, 2];
    let c3 = vec![3u8, 3, 3];
    out.body.on_data(&c1);
    out.body.on_data(&c2);
    out.body.on_data(&c3);
    out.body.on_end(None);
    assert_eq!(
        out.body.handler.log,
        vec![
            RecordedEvent::Head,
            RecordedEvent::Chunk(vec![1]),
            RecordedEvent::Chunk(vec![2, 2]),
            RecordedEvent::Chunk(vec![3, 3, 3]),
            RecordedEvent::End,
        ]
    );
}

#[test]
fn observe_stream_replays_chunks_then_end() {
    let mut fut = ResponseFuture::new(RecordingHandler::new());
    let (polled, _) =
        fut.poll_step::<Vec<u8>, String>(InnerPoll::Finished(Ok(sample_response())));
    let mut out = match polled {
        CallbackPoll::Finished(Ok(out)) => out,
        _ => panic!("a successful inner future must resolve the stage"),
    };
    let chunks = vec![vec![1u8], vec![2u8, 2], vec![3u8, 3, 3]];
    let trailers = HeaderList::new();
    out.body.observe_stream(&chunks, Some(&trailers));
    assert_eq!(
        out.body.handler.log,
        vec![
            RecordedEvent::Head,
            RecordedEvent::Chunk(vec![1]),
            RecordedEvent::Chunk(vec![2, 2]),
            RecordedEvent::Chunk(vec![3, 3, 3]),
            RecordedEvent::End,
        ]
    );
}

#[test]
fn failure_fires_on_error_only_and_keeps_the_error() {
    let mut fut = ResponseFuture::new(RecordingHandler::new());
    let (polled, released) =
        fut.poll_step::<Vec<u8>, String>(InnerPoll::Finished(Err("boom".to_string())));
    match polled {
        CallbackPoll::Finished(Err(Error::Inner(e))) => assert_eq!(e, "boom"),
        _ => panic!("an inner error must pass through as Error::Inner"),
    }
    let handler = released.expect("the handler is released on failure");
    assert_eq!(handler.log, vec![RecordedEvent::Failure]);
}

#[test]
fn pending_poll_leaves_the_handler_untouched() {
    let mut fut = ResponseFuture::new(RecordingHandler::new());
    let (polled, released) = fut.poll_step::<Vec<u8>, String>(InnerPoll::Suspended);
    assert!(matches!(polled, CallbackPoll::Suspended));
    assert!(released.is_none());
    // the handler is still in place: a later completion works
    let (polled, _) =
        fut.poll_step::<Vec<u8>, String>(InnerPoll::Finished(Ok(sample_response())));
    match polled {
        CallbackPoll::Finished(Ok(out)) => {
            assert_eq!(out.body.handler.log, vec![RecordedEvent::Head]);
        }
        _ => panic!("completion after a pending poll must still resolve"),
    }
}

#[test]
fn second_poll_after_success_reports_misuse() {
    let mut fut = ResponseFuture::new(RecordingHandler::new());
    let (_, _) = fut.poll_step::<Vec<u8>, String>(InnerPoll::Finished(Ok(sample_response())));
    let (polled, released) =
        fut.poll_step::<Vec<u8>, String>(InnerPoll::Finished(Ok(sample_response())));
    assert!(matches!(
        polled,
        CallbackPoll::Finished(Err(Error::PolledAfterCompletion))
    ));
    assert!(released.is_none());
}

#[test]
fn second_poll_after_failure_reports_misuse() {
    let mut fut = ResponseFuture::new(RecordingHandler::new());
    let (_, released) =
        fut.poll_step::<Vec<u8>, String>(InnerPoll::Finished(Err("boom".to_string())));
    let handler = released.expect("the handler is released on failure");
    let (polled, released) =
        fut.poll_step::<Vec<u8>, String>(InnerPoll::Finished(Err("again".to_string())));
    assert!(matches!(
        polled,
        CallbackPoll::Finished(Err(Error::PolledAfterCompletion))
    ));
    assert!(released.is_none());
    // the first handler saw exactly one error event and nothing more
    assert_eq!(handler.log, vec![RecordedEvent::Failure]);
}

#[test]
fn law_driver_reports_full_event_order() {
    let mut fut = ResponseFuture::new(RecordingHandler::new());
    let chunks = vec![vec![7u8], vec![8u8]];
    let out = grpc_middleware::callback::handler_sees_response_then_body::<Vec<u8>, String, _>(
        &mut fut,
        sample_response(),
        &chunks,
        None,
    )
    .expect("the law driver resolves on success");
    assert_eq!(
        out.body.handler.log,
        vec![
            RecordedEvent::Head,
            RecordedEvent::Chunk(vec![7]),
            RecordedEvent::Chunk(vec![8]),
            RecordedEvent::End,
        ]
    );
}

#[test]
fn law_driver_reports_error_only() {
    let mut fut = ResponseFuture::new(RecordingHandler::new());
    let (polled, released) = grpc_middleware::callback::handler_sees_error_only::<Vec<u8>, String, _>(
        &mut fut,
        "late failure".to_string(),
    );
    match polled {
        CallbackPoll::Finished(Err(Error::Inner(e))) => assert_eq!(e, "late failure"),
        _ => panic!("the law driver must report Error::Inner"),
    }
    assert_eq!(released.expect("released handler").log, vec![RecordedEvent::Failure]);
}

#[test]
fn factory_mints_a_fresh_handler_per_request() {
    let factory = MakeRecordingHandler;
    let head = RequestHead {
        method: b"POST".to_vec(),
        uri: b"/service/method".to_vec(),
        headers: HeaderList::new(),
    };
    let handler = factory.make_handler(&head);
    assert!(handler.log.is_empty());
    let other = factory.make_handler(&head);
    assert!(other.log.is_empty());
}
