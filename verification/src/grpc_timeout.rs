//! Deadline enforcement: parsing the client-declared timeout header,
//! reconciling it with the server ceiling, and deciding the race between the
//! inner handler and the timer.

use vstd::prelude::*;
use crate::dur::{Dur, dur_min, dur_min_spec};
use crate::http_model::{copy_bytes, lookup, HeaderList, InnerPoll, ResponseHead, RpcResponse};

verus! {

// --- the timeout header grammar ---

/// The bytes of the header name that carries a client-declared timeout.
pub open spec fn grpc_timeout_name() -> Seq<u8> {
    seq![103u8, 114u8, 112u8, 99u8, 45u8, 116u8, 105u8, 109u8, 101u8, 111u8, 117u8, 116u8]
}

/// The header name that carries a client-declared timeout.
pub fn timeout_header_name() -> (r: Vec<u8>)
    ensures
        r@ == grpc_timeout_name(),
{
    let r: Vec<u8> = vec![103u8, 114u8, 112u8, 99u8, 45u8, 116u8, 105u8, 109u8, 101u8, 111u8, 117u8, 116u8];
    proof {
        assert(r@ =~= grpc_timeout_name());
    }
    r
}

pub open spec fn is_digit(b: u8) -> bool {
    48 <= b <= 57
}

pub open spec fn all_digits(s: Seq<u8>) -> bool {
    forall|i: int| 0 <= i < s.len() ==> is_digit(#[trigger] s[i])
}

/// The number the digit bytes spell, most significant first.
pub open spec fn digits_val(s: Seq<u8>) -> int
    decreases s.len(),
{
    if s.len() == 0 {
        0
    } else {
        digits_val(s.drop_last()) * 10 + (s.last() - 48)
    }
}

pub open spec fn pow10(n: nat) -> int
    decreases n,
{
    if n == 0 {
        1
    } else {
        10 * pow10((n - 1) as nat)
    }
}

proof fn lemma_pow10_mono(i: nat, j: nat)
    requires
        i <= j,
    ensures
        1 <= pow10(i) <= pow10(j),
    decreases j,
{
    if i < j {
        lemma_pow10_mono(i, (j - 1) as nat);
    } else if i > 0 {
        lemma_pow10_mono((i - 1) as nat, (i - 1) as nat);
    }
}

/// How many nanoseconds one unit of the given unit letter lasts; zero for a
/// letter that is no unit.
pub open spec fn unit_nanos(u: u8) -> int {
    if u == 72u8 {
        3_600_000_000_000
    } else if u == 77u8 {
        60_000_000_000
    } else if u == 83u8 {
        1_000_000_000
    } else if u == 109u8 {
        1_000_000
    } else if u == 117u8 {
        1_000
    } else if u == 110u8 {
        1
    } else {
        0
    }
}

/// A well-formed timeout value: one to eight digits followed by a unit
/// letter.
pub open spec fn valid_timeout(s: Seq<u8>) -> bool {
    &&& 2 <= s.len() <= 9
    &&& all_digits(s.take(s.len() - 1))
    &&& unit_nanos(s.last()) != 0
}

/// The span a well-formed timeout value declares, in nanoseconds.
pub open spec fn timeout_nanos(s: Seq<u8>) -> int {
    digits_val(s.take(s.len() - 1)) * unit_nanos(s.last())
}

/// Parse one timeout value: the declared span on a well-formed value, and
/// nothing on any other.
pub fn parse_timeout_value(val: &Vec<u8>) -> (r: Option<Dur>)
    ensures
        valid_timeout(val@) ==> (r matches Some(d) && d.wf() && d.as_nanos() == timeout_nanos(
            val@,
        )),
        !valid_timeout(val@) ==> r is None,
{
    let n = val.len();
    if n < 2 || n > 9 {
        return None;
    }
    let mut acc: u64 = 0;
    let mut i: usize = 0;
    proof {
        assert(val@.take(0) =~= Seq::<u8>::empty());
    }
    while i < n - 1
        invariant
            2 <= n <= 9,
            n == val@.len(),
            i <= n - 1,
            all_digits(val@.take(i as int)),
            acc == digits_val(val@.take(i as int)),
            acc < pow10(i as nat),
        decreases n - 1 - i,
    {
        let b = val[i];
        if b < 48 || 57 < b {
            proof {
                assert(val@.take(n - 1)[i as int] == b);
                assert(!all_digits(val@.take(n - 1)));
            }
            return None;
        }
        proof {
            lemma_pow10_mono(i as nat, 7);
            reveal_with_fuel(pow10, 9);
        }
        acc = acc * 10 + ((b - 48) as u64);
        i = i + 1;
        proof {
            assert(val@.take(i as int).drop_last() =~= val@.take(i as int - 1));
            assert(val@.take(i as int).last() == val@[i as int - 1]);
            assert forall|j: int| 0 <= j < i implies is_digit(#[trigger] val@.take(i as int)[j]) by {
                if j < i - 1 {
                    assert(val@.take(i as int - 1)[j] == val@.take(i as int)[j]);
                }
            }
        }
    }
    proof {
        lemma_pow10_mono((n - 1) as nat, 8);
        reveal_with_fuel(pow10, 9);
        assert(acc <= 99_999_999);
        assert(val@.take(n - 1) == val@.take(val@.len() - 1));
        assert(val@.last() == val@[n - 1]);
    }
    let unit = val[n - 1];
    let d: Dur;
    if unit == 72u8 {
        d = Dur::from_secs(acc * 3600);
        proof {
            assert((acc as int * 3600) * 1_000_000_000 == acc as int * 3_600_000_000_000)
                by (nonlinear_arith);
        }
    } else if unit == 77u8 {
        d = Dur::from_secs(acc * 60);
        proof {
            assert((acc as int * 60) * 1_000_000_000 == acc as int * 60_000_000_000)
                by (nonlinear_arith);
        }
    } else if unit == 83u8 {
        d = Dur::from_secs(acc);
    } else if unit == 109u8 {
        d = Dur::from_millis(acc);
    } else if unit == 117u8 {
        d = Dur::from_micros(acc);
    } else if unit == 110u8 {
        d = Dur::from_nanos(acc);
    } else {
        proof {
            assert(unit_nanos(val@.last()) == 0);
        }
        return None;
    }
    Some(d)
}

/// Parse the client-declared timeout out of a request's headers.
///
/// An absent header is no declaration; a present, well-formed value is the
/// declared span; a present, malformed value is handed back unparsed so the
/// caller can log it and go on without a client deadline.
pub fn try_parse_grpc_timeout(headers: &HeaderList) -> (r: Result<Option<Dur>, Vec<u8>>)
    ensures
        match lookup(headers.view_entries(), grpc_timeout_name()) {
            None => r == Ok::<Option<Dur>, Vec<u8>>(None),
            Some(v) => if valid_timeout(v) {
                r matches Ok(Some(d)) && d.wf() && d.as_nanos() == timeout_nanos(v)
            } else {
                r matches Err(e) && e@ == v
            },
        },
{
    let name = timeout_header_name();
    match headers.get(&name) {
        None => Ok(None),
        Some(val) => match parse_timeout_value(val) {
            Some(d) => Ok(Some(d)),
            None => Err(copy_bytes(val)),
        },
    }
}

// --- deadline reconciliation ---

/// The effective deadline: absent when neither side set one, the present one
/// when only one side set one, and the shorter when both did.
pub open spec fn reconcile_spec(client: Option<Dur>, server: Option<Dur>) -> Option<Dur> {
    match (client, server) {
        (Option::None, Option::None) => Option::None,
        (Option::Some(c), Option::None) => Option::Some(c),
        (Option::None, Option::Some(s)) => Option::Some(s),
        (Option::Some(c), Option::Some(s)) => Option::Some(dur_min_spec(c, s)),
    }
}

pub fn reconcile(client: Option<Dur>, server: Option<Dur>) -> (r: Option<Dur>)
    requires
        client matches Some(c) ==> c.wf(),
        server matches Some(s) ==> s.wf(),
    ensures
        r == reconcile_spec(client, server),
{
    match (client, server) {
        (None, None) => None,
        (Some(c), None) => Some(c),
        (None, Some(s)) => Some(s),
        (Some(c), Some(s)) => Some(dur_min(c, s)),
    }
}

/// The client-declared timeout a header list carries, in nanoseconds, with a
/// malformed or absent declaration counting as none.
pub open spec fn client_nanos(entries: Seq<(Seq<u8>, Seq<u8>)>) -> Option<int> {
    match lookup(entries, grpc_timeout_name()) {
        Option::None => Option::None,
        Option::Some(v) => if valid_timeout(v) {
            Option::Some(timeout_nanos(v))
        } else {
            Option::None
        },
    }
}

// --- the deadline-enforcing service ---

/// A service decorator that races its inner service against the effective
/// deadline of each request.
#[derive(Debug, Clone)]
pub struct GrpcTimeout<S> {
    pub inner: S,
    pub server_timeout: Option<Dur>,
}

impl<S> GrpcTimeout<S> {
    pub fn new(inner: S, server_timeout: Option<Dur>) -> (r: Self)
        ensures
            r.inner == inner,
            r.server_timeout == server_timeout,
    {
        Self { inner, server_timeout }
    }

    /// The deadline for one request: the client declaration, tolerated as
    /// absent when malformed, reconciled with the server ceiling.
    pub fn effective_timeout(&self, headers: &HeaderList) -> (r: Option<Dur>)
        requires
            self.server_timeout matches Some(s) ==> s.wf(),
        ensures
            match (client_nanos(headers.view_entries()), self.server_timeout) {
                (Option::None, Option::None) => r is None,
                (Option::None, Option::Some(s)) => r == Some(s),
                (Option::Some(c), Option::None) => r matches Some(d) && d.wf() && d.as_nanos()
                    == c,
                (Option::Some(c), Option::Some(s)) => r matches Some(d) && d.wf() && d.as_nanos()
                    == (if c <= s.as_nanos() {
                    c
                } else {
                    s.as_nanos()
                }),
            },
    {
        let client = match try_parse_grpc_timeout(headers) {
            Ok(c) => c,
            Err(_) => None,
        };
        reconcile(client, self.server_timeout)
    }
}

// --- the raced response ---

/// The body of a raced response: the inner body when the inner service
/// finished, or nothing when the deadline expired.
#[derive(Debug)]
pub struct MaybeEmptyBody<B> {
    pub inner: Option<B>,
}

impl<B> MaybeEmptyBody<B> {
    pub fn full(inner: B) -> (r: Self)
        ensures
            r.inner == Some(inner),
    {
        Self { inner: Some(inner) }
    }

    pub fn empty() -> (r: Self)
        ensures
            r.inner is None,
    {
        Self { inner: None }
    }

    /// Whether there is an inner body to delegate to.
    pub fn has_body(&self) -> (r: bool)
        ensures
            r == (self.inner is Some),
    {
        self.inner.is_some()
    }

    /// Whether the stream is over, given the inner body's own answer when
    /// there is an inner body: an empty body is over at once.
    pub fn is_end_stream(&self, inner_end: bool) -> (r: bool)
        ensures
            r == match self.inner {
                Option::Some(_) => inner_end,
                Option::None => true,
            },
    {
        match &self.inner {
            Some(_) => inner_end,
            None => true,
        }
    }

    /// The size hint, given the inner body's own bounds when there is an
    /// inner body: an empty body is exactly zero bytes.
    pub fn size_hint(&self, inner_lower: u64, inner_upper: Option<u64>) -> (r: (u64, Option<u64>))
        ensures
            r == match self.inner {
                Option::Some(_) => (inner_lower, inner_upper),
                Option::None => (0u64, Option::Some(0u64)),
            },
    {
        match &self.inner {
            Some(_) => (inner_lower, inner_upper),
            None => (0, Some(0)),
        }
    }
}

// --- the synthesized timeout response ---

/// The fixed headers of the synthesized deadline-exceeded response: the wire
/// protocol's content type, its deadline-exceeded status code, and a fixed
/// percent-encoded message.
pub open spec fn timeout_headers_spec() -> Seq<(Seq<u8>, Seq<u8>)> {
    seq![
        (
            seq![99u8, 111u8, 110u8, 116u8, 101u8, 110u8, 116u8, 45u8, 116u8, 121u8, 112u8, 101u8],
            seq![
                97u8,
                112u8,
                112u8,
                108u8,
                105u8,
                99u8,
                97u8,
                116u8,
                105u8,
                111u8,
                110u8,
                47u8,
                103u8,
                114u8,
                112u8,
                99u8,
            ],
        ),
        (
            seq![103u8, 114u8, 112u8, 99u8, 45u8, 115u8, 116u8, 97u8, 116u8, 117u8, 115u8],
            seq![52u8],
        ),
        (
            seq![103u8, 114u8, 112u8, 99u8, 45u8, 109u8, 101u8, 115u8, 115u8, 97u8, 103u8, 101u8],
            seq![
                84u8,
                105u8,
                109u8,
                101u8,
                111u8,
                117u8,
                116u8,
                37u8,
                50u8,
                48u8,
                101u8,
                120u8,
                112u8,
                105u8,
                114u8,
                101u8,
                100u8,
            ],
        ),
    ]
}

/// The response the middleware fabricates when the deadline expires: status
/// 200, the fixed deadline-exceeded headers, and an empty body.
pub fn timeout_response<B>() -> (r: RpcResponse<MaybeEmptyBody<B>>)
    ensures
        r.head.status == 200,
        r.head.headers.view_entries() == timeout_headers_spec(),
        r.body.inner is None,
{
    let mut headers = HeaderList::new();
    headers.push(
        vec![99u8, 111u8, 110u8, 116u8, 101u8, 110u8, 116u8, 45u8, 116u8, 121u8, 112u8, 101u8],
        vec![
            97u8,
            112u8,
            112u8,
            108u8,
            105u8,
            99u8,
            97u8,
            116u8,
            105u8,
            111u8,
            110u8,
            47u8,
            103u8,
            114u8,
            112u8,
            99u8,
        ],
    );
    headers.push(
        vec![103u8, 114u8, 112u8, 99u8, 45u8, 115u8, 116u8, 97u8, 116u8, 117u8, 115u8],
        vec![52u8],
    );
    headers.push(
        vec![103u8, 114u8, 112u8, 99u8, 45u8, 109u8, 101u8, 115u8, 115u8, 97u8, 103u8, 101u8],
        vec![
            84u8,
            105u8,
            109u8,
            101u8,
            111u8,
            117u8,
            116u8,
            37u8,
            50u8,
            48u8,
            101u8,
            120u8,
            112u8,
            105u8,
            114u8,
            101u8,
            100u8,
        ],
    );
    proof {
        assert(headers.view_entries() =~~= timeout_headers_spec());
    }
    RpcResponse { head: ResponseHead { status: 200, headers }, body: MaybeEmptyBody::empty() }
}

// --- the race decision ---

/// What the race decided on one poll.
pub enum RacePoll<B, E> {
    /// Neither the inner future nor the timer is ready.
    Suspended,
    /// The race is over: the real response or the inner error, exactly as
    /// the inner future gave them, or the synthesized timeout response.
    Finished(Result<RpcResponse<MaybeEmptyBody<B>>, E>),
}

/// One poll of the race between the inner future and the timer.
///
/// The inner future's completion always wins: its response passes through
/// with head untouched and body re-wrapped, and its error passes through
/// unchanged.  Only while the inner future is still pending may an armed,
/// fired timer end the race with the synthesized timeout response.  A
/// finished race is terminal: the caller consumes the future and does not
/// poll either arm again.
pub fn race_poll_step<B, E>(inner: InnerPoll<B, E>, deadline_armed: bool, timer_fired: bool) -> (r:
    RacePoll<B, E>)
    ensures
        match inner {
            InnerPoll::Finished(res) => match res {
                Result::Ok(resp) => r matches RacePoll::Finished(Ok(out)) && out.head == resp.head
                    && out.body.inner == Some(resp.body),
                Result::Err(e) => r matches RacePoll::Finished(Err(e2)) && e2 == e,
            },
            InnerPoll::Suspended => if deadline_armed && timer_fired {
                r matches RacePoll::Finished(Ok(out)) && out.head.status == 200
                    && out.head.headers.view_entries() == timeout_headers_spec()
                    && out.body.inner is None
            } else {
                r matches RacePoll::Suspended
            },
        },
{
    match inner {
        InnerPoll::Finished(res) => match res {
            Ok(resp) => RacePoll::Finished(
                Ok(
                    RpcResponse {
                        head: resp.head,
                        body: MaybeEmptyBody::full(resp.body),
                    },
                ),
            ),
            Err(e) => RacePoll::Finished(Err(e)),
        },
        InnerPoll::Suspended => {
            if deadline_armed && timer_fired {
                RacePoll::Finished(Ok(timeout_response()))
            } else {
                RacePoll::Suspended
            }
        },
    }
}

} // verus!
