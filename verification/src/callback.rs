//! Callback instrumentation: a per-request handler observes the response
//! head (or the inner error), then every body chunk, then the end of the
//! stream, in that order and exactly once each.

use vstd::prelude::*;
use crate::http_model::{HeaderList, InnerPoll, RequestHead, ResponseHead, RpcResponse};

verus! {

/// Errors of the callback stage.
#[derive(Debug)]
pub enum Error<E> {
    /// The inner service produced an error.
    Inner(E),
    /// The future was polled again after it had already completed: a caller
    /// bug, reported distinctly, never conflated with an inner error.
    PolledAfterCompletion,
}

/// One event a response handler observed.
pub enum HandlerEvent {
    /// The response head arrived.
    HeadObserved,
    /// The inner service failed.
    ErrorObserved,
    /// One body chunk arrived, with its bytes.
    ChunkObserved(Seq<u8>),
    /// The stream ended.
    EndObserved,
}

/// A per-request lifecycle handler.  Exactly one of the two head-level hooks
/// runs per request; the body-level hooks run afterwards, chunk hooks in
/// stream order and the end-of-stream hook last.
pub trait ResponseHandler: Sized {
    /// The events this handler has observed, oldest first.
    spec fn events(&self) -> Seq<HandlerEvent>;

    /// Observe the response head.
    fn on_response(&mut self, head: &ResponseHead)
        ensures
            final(self).events() == old(self).events().push(HandlerEvent::HeadObserved),
    ;

    /// Observe the inner service's error.
    fn on_error<E>(&mut self, error: &E)
        ensures
            final(self).events() == old(self).events().push(HandlerEvent::ErrorObserved),
    ;

    /// Observe one body chunk.
    fn on_body_chunk(&mut self, chunk: &Vec<u8>)
        ensures
            final(self).events() == old(self).events().push(HandlerEvent::ChunkObserved(chunk@)),
    ;

    /// Observe the end of the stream, with its trailers if any came.
    fn on_end_of_stream(&mut self, trailers: Option<&HeaderList>)
        ensures
            final(self).events() == old(self).events().push(HandlerEvent::EndObserved),
    ;
}

/// Mints a fresh handler for each request from the request's head alone.
pub trait MakeCallbackHandler: Sized {
    type Handler: ResponseHandler;

    fn make_handler(&self, request: &RequestHead) -> (r: Self::Handler)
        ensures
            r.events() == Seq::<HandlerEvent>::empty(),
    ;
}

// --- a concrete handler that records what it observed ---

/// One recorded lifecycle event, as stored by [`RecordingHandler`].
#[derive(Debug, Clone, PartialEq, Eq)]
pub enum RecordedEvent {
    Head,
    Failure,
    Chunk(Vec<u8>),
    End,
}

/// The abstract event a recorded one stands for.
pub open spec fn recorded_event_view(e: RecordedEvent) -> HandlerEvent {
    match e {
        RecordedEvent::Head => HandlerEvent::HeadObserved,
        RecordedEvent::Failure => HandlerEvent::ErrorObserved,
        RecordedEvent::Chunk(v) => HandlerEvent::ChunkObserved(v@),
        RecordedEvent::End => HandlerEvent::EndObserved,
    }
}

/// A handler that keeps a log of every event it observes, oldest first.
#[derive(Debug)]
pub struct RecordingHandler {
    pub log: Vec<RecordedEvent>,
}

impl RecordingHandler {
    pub fn new() -> (r: RecordingHandler)
        ensures
            r.events() == Seq::<HandlerEvent>::empty(),
    {
        let r = RecordingHandler { log: Vec::new() };
        proof {
            assert(r.events() =~= Seq::<HandlerEvent>::empty());
        }
        r
    }
}

impl ResponseHandler for RecordingHandler {
    open spec fn events(&self) -> Seq<HandlerEvent> {
        self.log@.map_values(|e: RecordedEvent| recorded_event_view(e))
    }

    fn on_response(&mut self, head: &ResponseHead) {
        self.log.push(RecordedEvent::Head);
        proof {
            assert(self.events() =~= old(self).events().push(HandlerEvent::HeadObserved));
        }
    }

    fn on_error<E>(&mut self, error: &E) {
        self.log.push(RecordedEvent::Failure);
        proof {
            assert(self.events() =~= old(self).events().push(HandlerEvent::ErrorObserved));
        }
    }

    fn on_body_chunk(&mut self, chunk: &Vec<u8>) {
        self.log.push(RecordedEvent::Chunk(crate::http_model::copy_bytes(chunk)));
        proof {
            assert(self.events() =~= old(self).events().push(
                HandlerEvent::ChunkObserved(chunk@),
            ));
        }
    }

    fn on_end_of_stream(&mut self, trailers: Option<&HeaderList>) {
        self.log.push(RecordedEvent::End);
        proof {
            assert(self.events() =~= old(self).events().push(HandlerEvent::EndObserved));
        }
    }
}

/// A factory that mints a fresh [`RecordingHandler`] for every request.
#[derive(Debug, Clone)]
pub struct MakeRecordingHandler;

impl MakeCallbackHandler for MakeRecordingHandler {
    type Handler = RecordingHandler;

    fn make_handler(&self, _request: &RequestHead) -> (r: RecordingHandler) {
        RecordingHandler::new()
    }
}

// --- the instrumented body ---

/// A response body wrapper that owns the handler for the rest of the
/// response: every chunk and the end of the stream also reach the handler.
#[derive(Debug)]
pub struct ResponseBody<B, H> {
    pub inner: B,
    pub handler: H,
}

impl<B, H: ResponseHandler> ResponseBody<B, H> {
    /// One data frame of the inner body arrived: show its bytes to the
    /// handler and pass the frame on untouched.
    pub fn on_data(&mut self, chunk: &Vec<u8>)
        ensures
            final(self).inner == old(self).inner,
            final(self).handler.events() == old(self).handler.events().push(
                HandlerEvent::ChunkObserved(chunk@),
            ),
    {
        self.handler.on_body_chunk(chunk);
    }

    /// The inner body's stream ended, with trailers if any came: tell the
    /// handler, exactly once per stream.
    pub fn on_end(&mut self, trailers: Option<&HeaderList>)
        ensures
            final(self).inner == old(self).inner,
            final(self).handler.events() == old(self).handler.events().push(
                HandlerEvent::EndObserved,
            ),
    {
        self.handler.on_end_of_stream(trailers);
    }

    /// Law: a body stream of the given chunks followed by its end reaches
    /// the handler as exactly those chunk events, in stream order, followed
    /// by exactly one end-of-stream event.
    pub fn observe_stream(&mut self, chunks: &Vec<Vec<u8>>, trailers: Option<&HeaderList>)
        ensures
            final(self).inner == old(self).inner,
            final(self).handler.events() == old(self).handler.events() + chunks@.map_values(
                |c: Vec<u8>| HandlerEvent::ChunkObserved(c@),
            ).push(HandlerEvent::EndObserved),
    {
        let ghost mapped = chunks@.map_values(|c: Vec<u8>| HandlerEvent::ChunkObserved(c@));
        let n = chunks.len();
        let mut i: usize = 0;
        proof {
            assert(self.handler.events() =~= old(self).handler.events() + mapped.take(0));
        }
        while i < n
            invariant
                n == chunks.len(),
                i <= n,
                mapped == chunks@.map_values(|c: Vec<u8>| HandlerEvent::ChunkObserved(c@)),
                self.inner == old(self).inner,
                self.handler.events() == old(self).handler.events() + mapped.take(i as int),
            decreases n - i,
        {
            self.on_data(&chunks[i]);
            i = i + 1;
            proof {
                assert(mapped.take(i as int) =~= mapped.take(i as int - 1).push(
                    mapped[i as int - 1],
                ));
                assert(self.handler.events() =~= old(self).handler.events() + mapped.take(
                    i as int,
                ));
            }
        }
        proof {
            assert(mapped.take(n as int) =~= mapped);
        }
        self.on_end(trailers);
    }
}

// --- the callback response future ---

/// What one poll of the callback stage produced.
pub enum CallbackPoll<B, E, H> {
    /// The inner future is not ready; the handler was not touched.
    Suspended,
    /// The stage resolved: the instrumented response, or the stage's error.
    Finished(Result<RpcResponse<ResponseBody<B, H>>, Error<E>>),
}

/// The response future of the callback stage: it owns the minted handler
/// until the inner future resolves, then fires exactly one head-level hook
/// and hands the handler on.
#[derive(Debug)]
pub struct ResponseFuture<H> {
    pub handler: Option<H>,
}

impl<H: ResponseHandler> ResponseFuture<H> {
    pub fn new(handler: H) -> (r: Self)
        ensures
            r.handler == Some(handler),
    {
        ResponseFuture { handler: Some(handler) }
    }

    /// One poll, given what the inner future reported.
    ///
    /// While the future has not resolved, the handler stays untouched.  On
    /// the inner future's success the handler observes the head once and
    /// moves into the instrumented body; on the inner future's failure the
    /// handler observes the error once, the error value passes through
    /// unchanged, and the handler is released (second value) so that no body
    /// event can ever reach it.  A poll after resolution reports the misuse
    /// error and fires no hook.
    pub fn poll_step<B, E>(&mut self, inner: InnerPoll<B, E>) -> (r: (
        CallbackPoll<B, E, H>,
        Option<H>,
    ))
        ensures
            match old(self).handler {
                Option::None => {
                    &&& r.0 == CallbackPoll::<B, E, H>::Finished(
                        Err(Error::PolledAfterCompletion),
                    )
                    &&& r.1 is None
                    &&& final(self).handler is None
                },
                Option::Some(h0) => match inner {
                    InnerPoll::Suspended => {
                        &&& r.0 matches CallbackPoll::Suspended
                        &&& r.1 is None
                        &&& final(self).handler == old(self).handler
                    },
                    InnerPoll::Finished(Result::Ok(resp)) => {
                        &&& r.0 matches CallbackPoll::Finished(Ok(out)) && out.head == resp.head
                            && out.body.inner == resp.body && out.body.handler.events()
                            == h0.events().push(HandlerEvent::HeadObserved)
                        &&& r.1 is None
                        &&& final(self).handler is None
                    },
                    InnerPoll::Finished(Result::Err(e)) => {
                        &&& r.0 == CallbackPoll::<B, E, H>::Finished(Err(Error::Inner(e)))
                        &&& r.1 matches Some(h) && h.events() == h0.events().push(
                            HandlerEvent::ErrorObserved,
                        )
                        &&& final(self).handler is None
                    },
                },
            },
    {
        if self.handler.is_none() {
            return (CallbackPoll::Finished(Err(Error::PolledAfterCompletion)), None);
        }
        match inner {
            InnerPoll::Suspended => (CallbackPoll::Suspended, None),
            InnerPoll::Finished(res) => {
                let mut handler = self.handler.take().unwrap();
                match res {
                    Ok(resp) => {
                        let RpcResponse { head, body } = resp;
                        handler.on_response(&head);
                        (
                            CallbackPoll::Finished(
                                Ok(
                                    RpcResponse {
                                        head,
                                        body: ResponseBody { inner: body, handler },
                                    },
                                ),
                            ),
                            None,
                        )
                    },
                    Err(e) => {
                        handler.on_error(&e);
                        (CallbackPoll::Finished(Err(Error::Inner(e))), Some(handler))
                    },
                }
            },
        }
    }
}

// --- laws of the callback stage ---

/// Law: a request whose inner future succeeds with the given response and
/// whose body then streams the given chunks shows the handler exactly one
/// head event, then the chunks in stream order, then one end-of-stream
/// event; the response head passes through untouched.
pub fn handler_sees_response_then_body<B, E, H: ResponseHandler>(
    fut: &mut ResponseFuture<H>,
    resp: RpcResponse<B>,
    chunks: &Vec<Vec<u8>>,
    trailers: Option<&HeaderList>,
) -> (r: Option<RpcResponse<ResponseBody<B, H>>>)
    requires
        old(fut).handler matches Some(h) && h.events() == Seq::<HandlerEvent>::empty(),
    ensures
        r matches Some(out) && out.head == resp.head && out.body.handler.events()
            == seq![HandlerEvent::HeadObserved] + chunks@.map_values(
            |c: Vec<u8>| HandlerEvent::ChunkObserved(c@),
        ).push(HandlerEvent::EndObserved),
{
    let ghost head0 = resp.head;
    let (polled, _released) = fut.poll_step::<B, E>(InnerPoll::Finished(Ok(resp)));
    match polled {
        CallbackPoll::Finished(Ok(mut out)) => {
            out.body.observe_stream(chunks, trailers);
            proof {
                assert(Seq::<HandlerEvent>::empty().push(HandlerEvent::HeadObserved)
                    =~= seq![HandlerEvent::HeadObserved]);
            }
            Some(out)
        },
        _ => {
            proof {
                assert(false);
            }
            None
        },
    }
}

/// Law: a request whose inner future fails shows the handler exactly one
/// error event and no body event, and delivers the inner error unchanged.
pub fn handler_sees_error_only<B, E, H: ResponseHandler>(fut: &mut ResponseFuture<H>, error: E) -> (r: (
    CallbackPoll<B, E, H>,
    Option<H>,
))
    requires
        old(fut).handler matches Some(h) && h.events() == Seq::<HandlerEvent>::empty(),
    ensures
        r.0 == CallbackPoll::<B, E, H>::Finished(Err(Error::Inner(error))),
        r.1 matches Some(h) && h.events() =~= seq![HandlerEvent::ErrorObserved],
{
    fut.poll_step::<B, E>(InnerPoll::Finished(Err(error)))
}

/// Law: once the future has resolved, a further poll always reports the
/// misuse error, whatever the inner future would report, and fires no hook.
pub fn second_poll_reports_misuse<B, E, H: ResponseHandler>(
    fut: &mut ResponseFuture<H>,
    first: InnerPoll<B, E>,
    second: InnerPoll<B, E>,
) -> (r: ((CallbackPoll<B, E, H>, Option<H>), (CallbackPoll<B, E, H>, Option<H>)))
    requires
        old(fut).handler is Some,
        first matches InnerPoll::Finished(_),
    ensures
        r.1.0 == CallbackPoll::<B, E, H>::Finished(Err(Error::PolledAfterCompletion)),
        r.1.1 is None,
        final(fut).handler is None,
{
    let a = fut.poll_step::<B, E>(first);
    let b = fut.poll_step::<B, E>(second);
    (a, b)
}

} // verus!
