//! The transport seam: an interface for issuing one HTTP-like request and
//! receiving a status code, plus a deterministic recording/replaying client
//! that stands in for the network when the adapters are exercised.

use vstd::prelude::*;

verus! {

#[derive(Clone, Copy, Debug, PartialEq, Eq, Structural)]
pub enum HttpMethod {
    Get,
    Put,
    Post,
}

/// One request as the adapters hand it to a transport.
#[derive(Debug)]
pub struct HttpRequest {
    pub method: HttpMethod,
    pub url: String,
    pub body: Option<String>,
}

/// Mathematical image of a request.
pub struct RequestView {
    pub method: HttpMethod,
    pub url: Seq<char>,
    pub body: Option<Seq<char>>,
}

impl View for HttpRequest {
    type V = RequestView;

    open spec fn view(&self) -> RequestView {
        RequestView {
            method: self.method,
            url: self.url@,
            body: match self.body {
                Some(b) => Some(b@),
                None => None,
            },
        }
    }
}

/// What a transport returned for one request: a status code, or no answer
/// at all (the provider could not be reached).
#[derive(Clone, Copy, Debug, PartialEq, Eq, Structural)]
pub enum SendOutcome {
    Reply(u16),
    Unreachable,
}

impl SendOutcome {
    pub open spec fn reply(self) -> Option<u16> {
        match self {
            SendOutcome::Reply(code) => Some(code),
            SendOutcome::Unreachable => None,
        }
    }
}

/// One request issued through a transport, with the status it drew.
pub struct Exchange {
    pub request: RequestView,
    pub reply: Option<u16>,
}

pub open spec fn is_success_code(code: u16) -> bool {
    200 <= code < 300
}

pub open spec fn is_success_reply(reply: Option<u16>) -> bool {
    match reply {
        Some(code) => is_success_code(code),
        None => false,
    }
}

/// The requests of a run of exchanges, in order.
pub open spec fn requests_of(h: Seq<Exchange>) -> Seq<RequestView> {
    h.map_values(|e: Exchange| e.request)
}

/// An injectable transport. `history()` is every exchange made through it so
/// far, oldest first; `send` appends exactly one exchange, whatever the
/// outcome. A transport whose replies are a function of its own state — the
/// recording client — says so through `deterministic()`, and then also
/// promises that each reply is the head of its canned queue when that head
/// matches; of any other transport's replies nothing is promised.
pub trait Transport: Sized {
    /// Every exchange made through this transport, oldest first. An impl
    /// that keeps this default cannot meet `send`'s history clause, so a
    /// verified impl must override it; an unverified transport (the
    /// production one, which really reaches the network) is bound by no
    /// proof and may keep it.
    open spec fn history(&self) -> Seq<Exchange> {
        Seq::empty()
    }

    /// The canned replies still queued, oldest first. Meaningful only for a
    /// replaying transport; a transport that has none keeps the default.
    open spec fn queue(&self) -> Seq<ExpectationView> {
        Seq::empty()
    }

    /// Whether the reply `send` draws is a function of the transport's own
    /// state. True of the recording client; false by default, and of any
    /// transport that really reaches the network.
    open spec fn deterministic() -> bool {
        false
    }

    /// A transport that has issued nothing yet and has nothing queued.
    fn create() -> (t: Self)
        ensures
            t.history() == Seq::<Exchange>::empty(),
            t.queue() == Seq::<ExpectationView>::empty(),
    ;

    fn send(&mut self, request: HttpRequest) -> (out: SendOutcome)
        ensures
            final(self).history() == old(self).history().push(
                Exchange { request: request@, reply: out.reply() },
            ),
            Self::deterministic() ==> out.reply() == replay_reply(old(self).queue(), request@)
                && final(self).queue() == replay_rest(old(self).queue(), request@),
    ;
}

/// One canned answer of the recording client: the request it expects next,
/// and the status it will give for it.
pub struct Expectation {
    pub method: HttpMethod,
    pub url: String,
    pub status: u16,
}

/// A queued expectation as the contracts see it: method, url, canned status.
pub type ExpectationView = (HttpMethod, Seq<char>, u16);

/// Whether the head of a canned queue answers this request.
pub open spec fn replay_matches(queue: Seq<ExpectationView>, request: RequestView) -> bool {
    queue.len() > 0 && queue[0].0 == request.method && queue[0].1 == request.url
}

/// How a replaying transport answers one request: the head's canned status
/// when the head matches the request's method and url; no answer otherwise.
pub open spec fn replay_reply(queue: Seq<ExpectationView>, request: RequestView) -> Option<u16> {
    if replay_matches(queue, request) {
        Some(queue[0].2)
    } else {
        None
    }
}

/// The queue a replaying transport keeps after one request: the head is
/// consumed exactly when it answered.
pub open spec fn replay_rest(
    queue: Seq<ExpectationView>,
    request: RequestView,
) -> Seq<ExpectationView> {
    if replay_matches(queue, request) {
        queue.drop_first()
    } else {
        queue
    }
}

/// The queue left after a whole run of requests, replayed in order.
pub open spec fn replay_rest_all(
    queue: Seq<ExpectationView>,
    requests: Seq<RequestView>,
) -> Seq<ExpectationView>
    decreases requests.len(),
{
    if requests.len() == 0 {
        queue
    } else {
        replay_rest_all(replay_rest(queue, requests[0]), requests.drop_first())
    }
}

/// A whole run against a replaying transport: each reply is what the queue,
/// replayed over the requests before it, gives for that request, and the
/// queue left is what the run did not consume.
pub open spec fn replayed_run(
    queue0: Seq<ExpectationView>,
    sent: Seq<Exchange>,
    queue1: Seq<ExpectationView>,
) -> bool {
    &&& queue1 == replay_rest_all(queue0, requests_of(sent))
    &&& forall|i: int|
        0 <= i < sent.len() ==> (#[trigger] sent[i]).reply == replay_reply(
            replay_rest_all(queue0, requests_of(sent).take(i)),
            sent[i].request,
        )
}

pub proof fn lemma_replay_rest_all_push(
    queue: Seq<ExpectationView>,
    requests: Seq<RequestView>,
    r: RequestView,
)
    ensures
        replay_rest_all(queue, requests.push(r)) == replay_rest(
            replay_rest_all(queue, requests),
            r,
        ),
    decreases requests.len(),
{
    if requests.len() == 0 {
        assert(requests.push(r)[0] == r);
        assert(requests.push(r).drop_first() =~= Seq::<RequestView>::empty());
        assert(replay_rest_all(queue, requests.push(r)) == replay_rest_all(
            replay_rest(queue, r),
            Seq::<RequestView>::empty(),
        ));
        assert(replay_rest_all(queue, requests) == queue);
    } else {
        assert(requests.push(r)[0] == requests[0]);
        assert(requests.push(r).drop_first() =~= requests.drop_first().push(r));
        assert(replay_rest_all(queue, requests.push(r)) == replay_rest_all(
            replay_rest(queue, requests[0]),
            requests.drop_first().push(r),
        ));
        lemma_replay_rest_all_push(replay_rest(queue, requests[0]), requests.drop_first(), r);
    }
}

struct LoggedExchange {
    request: HttpRequest,
    outcome: SendOutcome,
}

/// The deterministic test double: holds an ordered queue of expectations,
/// records every request verbatim, and answers each with the canned status
/// at the head of the queue. A request that arrives when the queue is empty,
/// or that does not match the head, draws no answer (`Unreachable`), which
/// the adapters surface as an error.
pub struct RecordingClient {
    expectations: Vec<Expectation>,
    log: Vec<LoggedExchange>,
}

impl RecordingClient {
    /// The canned answers not yet given, in the order they will be drawn.
    pub closed spec fn pending(&self) -> Seq<ExpectationView> {
        self.expectations@.map_values(|e: Expectation| (e.method, e.url@, e.status))
    }

    /// Queues one more expected request and its canned status.
    pub fn add_expectation(&mut self, method: HttpMethod, url: String, status: u16)
        ensures
            final(self).history() == old(self).history(),
            final(self).queue() == old(self).queue().push((method, url@, status)),
    {
        self.expectations.push(Expectation { method, url, status });
        proof {
            assert(self.pending() =~= old(self).pending().push(
                (self.expectations@.last().method, self.expectations@.last().url@,
                self.expectations@.last().status),
            ));
        }
    }

    /// Every request issued so far, verbatim and in order.
    pub fn get_sent_requests(&self) -> (r: Vec<HttpRequest>)
        ensures
            r@.map_values(|q: HttpRequest| q@) == self.history().map_values(
                |e: Exchange| e.request,
            ),
    {
        let mut r: Vec<HttpRequest> = Vec::new();
        let mut i: usize = 0;
        while i < self.log.len()
            invariant
                i <= self.log@.len(),
                r@.map_values(|q: HttpRequest| q@) == self.history().map_values(
                    |e: Exchange| e.request,
                ).take(i as int),
            decreases self.log@.len() - i,
        {
            let q = &self.log[i].request;
            let body = match &q.body {
                Some(b) => Some(b.clone()),
                None => None,
            };
            let copied = HttpRequest { method: q.method, url: q.url.clone(), body };
            proof {
                assert(copied@ == self.log@[i as int].request@);
            }
            r.push(copied);
            proof {
                let requests = self.history().map_values(|e: Exchange| e.request);
                assert(requests[i as int] == self.log@[i as int].request@);
                assert(requests.take(i as int + 1) =~= requests.take(i as int).push(
                    requests[i as int],
                ));
                assert(r@.map_values(|q: HttpRequest| q@) =~= requests.take(i as int + 1));
            }
            i = i + 1;
        }
        proof {
            assert(self.history().map_values(|e: Exchange| e.request).take(
                self.log@.len() as int,
            ) =~= self.history().map_values(|e: Exchange| e.request));
        }
        r
    }
}

impl Transport for RecordingClient {
    closed spec fn history(&self) -> Seq<Exchange> {
        self.log@.map_values(
            |e: LoggedExchange| Exchange { request: e.request@, reply: e.outcome.reply() },
        )
    }

    open spec fn queue(&self) -> Seq<ExpectationView> {
        self.pending()
    }

    open spec fn deterministic() -> bool {
        true
    }

    fn create() -> (t: Self)
        ensures
            t.history() == Seq::<Exchange>::empty(),
            t.queue() == Seq::<ExpectationView>::empty(),
    {
        let t = RecordingClient { expectations: Vec::new(), log: Vec::new() };
        proof {
            assert(t.history() =~= Seq::<Exchange>::empty());
            assert(t.pending() =~= Seq::<ExpectationView>::empty());
        }
        t
    }

    fn send(&mut self, request: HttpRequest) -> (out: SendOutcome)
        ensures
            final(self).history() == old(self).history().push(
                Exchange { request: request@, reply: out.reply() },
            ),
            Self::deterministic() ==> out.reply() == replay_reply(old(self).queue(), request@)
                && final(self).queue() == replay_rest(old(self).queue(), request@),
    {
        let out = if self.expectations.len() > 0 {
            proof {
                assert(self.pending()[0] == (
                    self.expectations@[0].method,
                    self.expectations@[0].url@,
                    self.expectations@[0].status,
                ));
            }
            let matches_head = self.expectations[0].method == request.method
                && self.expectations[0].url == request.url;
            if matches_head {
                let head = self.expectations.remove(0);
                proof {
                    assert(self.pending() =~= old(self).pending().drop_first());
                }
                SendOutcome::Reply(head.status)
            } else {
                SendOutcome::Unreachable
            }
        } else {
            SendOutcome::Unreachable
        };
        self.log.push(LoggedExchange { request, outcome: out });
        proof {
            assert(self.history() =~= old(self).history().push(
                Exchange { request: self.log@.last().request@, reply: out.reply() },
            ));
        }
        out
    }
}

} // verus!
