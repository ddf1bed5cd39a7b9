//! The dispatcher of broker messages: which registered handler a message goes
//! to, what it is handed, and what becomes of the handler's answer.

use crate::span::{SpanKind, SpanStart};
use crate::topic::{judge, Verdict};
#[allow(unused_imports)]
use crate::topic::{law_overrun, levels, overruns_at, verdict_of};
use vstd::prelude::*;

verus! {

/// The name of the tracer that the dispatcher reports to.
pub const TRACER_NAME: &'static str = "mqtt-consumer";

/// The quality of service of every subscription: each message exactly once.
pub const SUBSCRIPTION_QOS: i32 = 2;

/// The description of the status of a span whose message could not be handled.
pub const HANDLING_FAILED: &'static str = "failed to handle the event";

/// Why a message was not consumed.
#[derive(Debug, PartialEq, Eq)]
pub enum MessagingError {
    /// No registered handler takes the topic.
    UnregisteredHandler,
    /// The handler failed, for the reason given.
    ConsumerError(String),
}

/// What a handler is registered for.
#[derive(Debug, PartialEq, Eq)]
pub struct DispatcherDefinition {
    /// The topic filter.
    pub name: String,
    /// The kind of message; the dispatcher does not look at it.
    pub msg_type: String,
}

/// A message as it came from the broker.
#[derive(Debug, PartialEq, Eq)]
pub struct Message {
    /// The topic that it was published to.
    pub topic: String,
    /// Its content.
    pub payload: Vec<u8>,
}

/// What a handler is handed.
#[derive(Debug, PartialEq, Eq)]
pub struct ConsumerPayload {
    /// The topic that the message was published to.
    pub from: String,
    /// The kind of message; the broker does not tell, so it is empty.
    pub msg_type: String,
    /// The message's content.
    pub payload: Vec<u8>,
    /// Name and value of each header; the broker sends none.
    pub headers: Option<Vec<(String, String)>>,
}

/// A message on its way to a handler.
#[derive(Debug, PartialEq, Eq)]
pub struct Delivery {
    /// The place of the handler among those registered.
    pub handler: usize,
    /// The span that covers the handler's work.
    pub span: SpanStart,
    /// What the handler is handed.
    pub payload: ConsumerPayload,
}

/// What is recorded of a handler's work, and returned for it.
#[derive(Debug, PartialEq, Eq)]
pub struct Conclusion<E> {
    /// The handler's own answer.
    pub result: Result<(), E>,
    /// Whether the answer is recorded in the span as an error.
    pub recorded_error: bool,
    /// The description of the span's error status, where it gets one.
    pub error_status: Option<String>,
}

/// What happens while the dispatcher consumes.
#[derive(Debug, PartialEq, Eq)]
pub enum StreamEvent<E> {
    /// The stream of deliveries has ended.
    Ended,
    /// The stream delivered no message: the connection was interrupted.
    Interrupted,
    /// A message came.
    Delivered(Message),
    /// A message was consumed, or not.
    Consumed(Result<(), E>),
}

/// What the dispatcher does next.
#[derive(Debug, PartialEq, Eq)]
pub enum StreamStep<E> {
    /// Return, with success.
    Finish,
    /// Wait for the next delivery.
    Await,
    /// Consume the message.
    Consume(Message),
    /// Report the failure, then wait for the next delivery.
    ReportAndAwait(E),
}

/// Where the search for a handler ended.
#[derive(Clone, Copy, Debug, PartialEq, Eq, Structural)]
pub enum Search {
    /// At the handler in this place.
    Found(usize),
    /// Without a handler.
    Nobody,
    /// At a filter that names a level beyond the end of the topic.
    Overrun(usize),
}

/// Whether the search gets to the filter in place `i`: every filter before it
/// passes the topic on.
pub open spec fn reached(filters: Seq<Seq<char>>, topic: Seq<char>, i: int) -> bool {
    &&& 0 <= i < filters.len()
    &&& forall|j: int| 0 <= j < i ==> verdict_of(#[trigger] filters[j], topic) == Verdict::Passed
}

/// Whether the search ends at the filter in place `i`, with the given verdict.
pub open spec fn ends_at(
    filters: Seq<Seq<char>>,
    topic: Seq<char>,
    i: int,
    verdict: Verdict,
) -> bool {
    reached(filters, topic, i) && verdict_of(filters[i], topic) == verdict
}

/// Whether a message published to `topic` goes to the handler in place `i`.
pub open spec fn routes_to(filters: Seq<Seq<char>>, topic: Seq<char>, i: int) -> bool {
    ends_at(filters, topic, i, Verdict::Accepted)
}

/// Whether the search ends without asking for a level that the topic lacks.
pub open spec fn searchable(filters: Seq<Seq<char>>, topic: Seq<char>) -> bool {
    forall|i: int| !ends_at(filters, topic, i, Verdict::Overrun)
}

/// The registered handlers, in the order of registration, each with its topic
/// filter. It is seen as the sequence of the pairs of filter and handler.
pub struct MQTTDispatcher<H> {
    topics: Vec<String>,
    handlers: Vec<H>,
}

impl<H> View for MQTTDispatcher<H> {
    type V = Seq<(Seq<char>, H)>;

    closed spec fn view(&self) -> Seq<(Seq<char>, H)> {
        Seq::new(self.topics@.len(), |i: int| (self.topics@[i]@, self.handlers@[i]))
    }
}

impl<H> MQTTDispatcher<H> {
    /// Whether every filter has its handler.
    pub closed spec fn aligned(&self) -> bool {
        self.topics@.len() == self.handlers@.len()
    }

    /// Whether every filter has its handler, and no filter is empty.
    pub open spec fn wf(&self) -> bool {
        &&& self.aligned()
        &&& forall|i: int| 0 <= i < self@.len() ==> (#[trigger] self@[i]).0.len() > 0
    }

    /// The topic filters, in the order of registration.
    pub open spec fn filters(&self) -> Seq<Seq<char>> {
        self@.map_values(|entry: (Seq<char>, H)| entry.0)
    }

    /// A dispatcher without handlers.
    pub fn new() -> (dispatcher: Self)
        ensures
            dispatcher.wf(),
            dispatcher@ == Seq::<(Seq<char>, H)>::empty(),
    {
        let dispatcher = MQTTDispatcher { topics: Vec::new(), handlers: Vec::new() };
        proof {
            assert(dispatcher@ =~= Seq::<(Seq<char>, H)>::empty());
        }
        dispatcher
    }

    /// Registers a handler behind those already registered. A definition without
    /// a name is ignored.
    pub fn register(self, definition: &DispatcherDefinition, handler: H) -> (dispatcher: Self)
        requires
            self.wf(),
        ensures
            dispatcher.wf(),
            dispatcher@ == (if definition.name@.len() == 0 {
                self@
            } else {
                self@.push((definition.name@, handler))
            }),
    {
        if definition.name.as_str().is_empty() {
            return self;
        }
        let mut topics: Vec<String> = self.topics;
        let mut handlers: Vec<H> = self.handlers;
        topics.push(definition.name.clone());
        handlers.push(handler);
        let dispatcher = MQTTDispatcher { topics, handlers };
        proof {
            assert(dispatcher@ =~= self@.push((definition.name@, handler)));
        }
        dispatcher
    }

    /// The registered handlers.
    pub fn handlers(&self) -> (handlers: &Vec<H>)
        requires
            self.wf(),
        ensures
            handlers@ == self@.map_values(|entry: (Seq<char>, H)| entry.1),
    {
        proof {
            assert(self.handlers@ =~= self@.map_values(|entry: (Seq<char>, H)| entry.1));
        }
        &self.handlers
    }

    /// What to subscribe to: every filter, in order, with its quality of service.
    pub fn subscriptions(&self) -> (subscriptions: Vec<(String, i32)>)
        requires
            self.wf(),
        ensures
            subscriptions@.map_values(|entry: (String, i32)| (entry.0@, entry.1))
                == self.filters().map_values(|filter: Seq<char>| (filter, SUBSCRIPTION_QOS)),
            subscriptions@.len() == self@.len(),
            forall|i: int|
                0 <= i < self@.len() ==> (#[trigger] subscriptions@[i]).0@ == self@[i].0
                    && subscriptions@[i].1 == 2,
    {
        let mut subscriptions: Vec<(String, i32)> = Vec::new();
        let n: usize = self.topics.len();
        for i in 0..n
            invariant
                n == self.topics@.len(),
                subscriptions@.len() == i,
                forall|j: int|
                    0 <= j < i ==> (#[trigger] subscriptions@[j]).0@ == self.topics@[j]@
                        && subscriptions@[j].1 == SUBSCRIPTION_QOS,
        {
            subscriptions.push((self.topics[i].clone(), SUBSCRIPTION_QOS));
        }
        proof {
            assert(subscriptions@.map_values(|entry: (String, i32)| (entry.0@, entry.1))
                =~= self.filters().map_values(|filter: Seq<char>| (filter, SUBSCRIPTION_QOS)));
        }
        subscriptions
    }

    /// Searches the handler of a topic. Filters are asked in the order of
    /// registration; a filter that accepts or rejects the topic ends the search.
    pub fn search(&self, received_topic: &str) -> (search: Search)
        requires
            self.wf(),
        ensures
            match search {
                Search::Found(i) => routes_to(self.filters(), received_topic@, i as int),
                Search::Overrun(i) => ends_at(
                    self.filters(),
                    received_topic@,
                    i as int,
                    Verdict::Overrun,
                ),
                Search::Nobody => forall|i: int|
                    reached(self.filters(), received_topic@, i) ==> {
                        let verdict = verdict_of(self.filters()[i], received_topic@);
                        verdict == Verdict::Passed || verdict == Verdict::Rejected
                    },
            },
    {
        let ghost filters = self.filters();
        let n: usize = self.topics.len();
        for i in 0..n
            invariant
                n == self.topics@.len(),
                filters == self.filters(),
                filters.len() == n,
                forall|j: int| 0 <= j < n ==> #[trigger] filters[j] == self.topics@[j]@,
                forall|j: int|
                    0 <= j < i ==> verdict_of(#[trigger] filters[j], received_topic@)
                        == Verdict::Passed,
        {
            proof {
                assert(filters[i as int] == self.topics@[i as int]@);
            }
            match judge(self.topics[i].as_str(), received_topic) {
                Verdict::Accepted => {
                    return Search::Found(i);
                },
                Verdict::Rejected => {
                    proof {
                        assert forall|k: int| reached(filters, received_topic@, k) implies {
                            let verdict = verdict_of(filters[k], received_topic@);
                            verdict == Verdict::Passed || verdict == Verdict::Rejected
                        } by {
                            if k > i {
                                assert(verdict_of(filters[i as int], received_topic@)
                                    == Verdict::Passed);
                            }
                        }
                    }
                    return Search::Nobody;
                },
                Verdict::Overrun => {
                    return Search::Overrun(i);
                },
                Verdict::Passed => {},
            }
        }
        Search::Nobody
    }

    /// The place of the handler of a topic. There is none where no filter accepts
    /// the topic before one rejects it.
    pub fn get_handler_index(&self, received_topic: &str) -> (index: Result<usize, MessagingError>)
        requires
            self.wf(),
            searchable(self.filters(), received_topic@),
        ensures
            match index {
                Ok(i) => routes_to(self.filters(), received_topic@, i as int),
                Err(error) => error == MessagingError::UnregisteredHandler && forall|i: int|
                    !routes_to(self.filters(), received_topic@, i),
            },
    {
        match self.search(received_topic) {
            Search::Found(i) => Ok(i),
            Search::Nobody => Err(MessagingError::UnregisteredHandler),
            Search::Overrun(i) => {
                proof {
                    assert(ends_at(self.filters(), received_topic@, i as int, Verdict::Overrun));
                }
                Err(MessagingError::UnregisteredHandler)
            },
        }
    }

    /// What is to be done for a message: the handler that it goes to, the span
    /// that covers the work, and what the handler is handed.
    pub fn consume(&self, msg: &Message) -> (delivery: Result<Delivery, MessagingError>)
        requires
            self.wf(),
            searchable(self.filters(), msg.topic@),
        ensures
            match delivery {
                Ok(delivery) => {
                    &&& routes_to(self.filters(), msg.topic@, delivery.handler as int)
                    &&& delivery.handler < self@.len()
                    &&& delivery.span.name@ == msg.topic@
                    &&& delivery.span.kind == SpanKind::Consumer
                    &&& delivery.payload.from@ == msg.topic@
                    &&& delivery.payload.msg_type@.len() == 0
                    &&& delivery.payload.payload@ == msg.payload@
                    &&& delivery.payload.headers is None
                },
                Err(error) => error == MessagingError::UnregisteredHandler && forall|i: int|
                    !routes_to(self.filters(), msg.topic@, i),
            },
    {
        let handler: usize = match self.get_handler_index(msg.topic.as_str()) {
            Ok(i) => i,
            Err(error) => {
                return Err(error);
            },
        };
        Ok(
            Delivery {
                handler,
                span: SpanStart { name: msg.topic.clone(), kind: SpanKind::Consumer },
                payload: ConsumerPayload {
                    from: msg.topic.clone(),
                    msg_type: String::new(),
                    payload: msg.payload.clone(),
                    headers: None,
                },
            },
        )
    }
}

/// What becomes of a handler's answer: it is returned as it is, and a failure is
/// recorded in the span.
pub fn conclude<E>(answer: Result<(), E>) -> (conclusion: Conclusion<E>)
    ensures
        conclusion.result == answer,
        conclusion.recorded_error == (answer is Err),
        match conclusion.error_status {
            Some(description) => answer is Err && description@ == HANDLING_FAILED@,
            None => answer is Ok,
        },
        conclusion.error_status matches Some(description) ==> description@
            == "failed to handle the event"@,
{
    match answer {
        Ok(done) => Conclusion { result: Ok(done), recorded_error: false, error_status: None },
        Err(error) => Conclusion {
            result: Err(error),
            recorded_error: true,
            error_status: Some(HANDLING_FAILED.to_owned()),
        },
    }
}

/// What the dispatcher does next: it goes on until the stream ends, whatever the
/// handlers answer.
pub fn next_step<E>(event: StreamEvent<E>) -> (step: StreamStep<E>)
    ensures
        match event {
            StreamEvent::Ended => step == StreamStep::<E>::Finish,
            StreamEvent::Interrupted => step == StreamStep::<E>::Await,
            StreamEvent::Delivered(msg) => step == StreamStep::<E>::Consume(msg),
            StreamEvent::Consumed(Ok(_)) => step == StreamStep::<E>::Await,
            StreamEvent::Consumed(Err(error)) => step == StreamStep::<E>::ReportAndAwait(error),
        },
{
    match event {
        StreamEvent::Ended => StreamStep::Finish,
        StreamEvent::Interrupted => StreamStep::Await,
        StreamEvent::Delivered(msg) => StreamStep::Consume(msg),
        StreamEvent::Consumed(Ok(_)) => StreamStep::Await,
        StreamEvent::Consumed(Err(error)) => StreamStep::ReportAndAwait(error),
    }
}

/// A topic goes to one handler at most.
pub proof fn law_one_handler_at_most(filters: Seq<Seq<char>>, topic: Seq<char>, i: int, j: int)
    requires
        routes_to(filters, topic, i),
        routes_to(filters, topic, j),
    ensures
        i == j,
{
    if i < j {
        assert(verdict_of(filters[i], topic) == Verdict::Passed);
    } else if j < i {
        assert(verdict_of(filters[j], topic) == Verdict::Passed);
    }
}

/// Registering another handler leaves every topic that had a handler with that
/// handler.
pub proof fn law_registering_keeps_routes(
    filters: Seq<Seq<char>>,
    added: Seq<char>,
    topic: Seq<char>,
    i: int,
)
    requires
        routes_to(filters, topic, i),
    ensures
        routes_to(filters.push(added), topic, i),
{
    let longer = filters.push(added);
    assert forall|j: int| 0 <= j < i implies verdict_of(#[trigger] longer[j], topic)
        == Verdict::Passed by {
        assert(longer[j] == filters[j]);
    }
}

/// A handler registered last gets the topics that its filter accepts and all the
/// earlier filters pass on, and takes none from the others.
pub proof fn law_last_registered_gets_what_is_passed_on(
    filters: Seq<Seq<char>>,
    added: Seq<char>,
    topic: Seq<char>,
)
    ensures
        routes_to(filters.push(added), topic, filters.len() as int) <==> verdict_of(added, topic)
            == Verdict::Accepted && forall|j: int|
            0 <= j < filters.len() ==> verdict_of(#[trigger] filters[j], topic) == Verdict::Passed,
{
    let longer = filters.push(added);
    assert(forall|j: int| 0 <= j < filters.len() ==> #[trigger] filters[j] == longer[j]);
}

/// A filter that rejects a topic hides every handler registered behind it.
pub proof fn law_rejection_hides_later_handlers(
    filters: Seq<Seq<char>>,
    topic: Seq<char>,
    i: int,
    j: int,
)
    requires
        ends_at(filters, topic, i, Verdict::Rejected),
    ensures
        !routes_to(filters, topic, j),
{
    if routes_to(filters, topic, j) {
        if i < j {
            assert(verdict_of(filters[i], topic) == Verdict::Passed);
        } else if j < i {
            assert(verdict_of(filters[j], topic) == Verdict::Passed);
        }
    }
}

/// No search for the handler of a topic asks for a level that the topic lacks, when
/// the topic has at least as many levels as every filter.
pub proof fn law_deep_topics_are_searchable(filters: Seq<Seq<char>>, topic: Seq<char>)
    requires
        forall|i: int|
            0 <= i < filters.len() ==> levels(#[trigger] filters[i]).len() <= levels(topic).len(),
    ensures
        searchable(filters, topic),
{
    assert forall|i: int| !ends_at(filters, topic, i, Verdict::Overrun) by {
        if ends_at(filters, topic, i, Verdict::Overrun) {
            law_overrun(filters[i], topic);
            let k = choose|k: int| overruns_at(levels(filters[i]), levels(topic), k);
            assert(levels(filters[i]).len() <= levels(topic).len());
        }
    }
}

/// The filters are those that were registered, as they were registered.
pub proof fn law_filters_are_as_registered<H>(dispatcher: MQTTDispatcher<H>)
    ensures
        dispatcher.filters().len() == dispatcher@.len(),
        forall|i: int|
            0 <= i < dispatcher@.len() ==> #[trigger] dispatcher.filters()[i] == dispatcher@[i].0,
{
}

/// Without handlers no topic has one. Registering another handler neither gives nor
/// takes a topic of those registered before, and no place behind the last has any.
pub proof fn law_registering_changes_no_other_route(
    filters: Seq<Seq<char>>,
    added: Seq<char>,
    topic: Seq<char>,
    i: int,
)
    ensures
        !routes_to(Seq::<Seq<char>>::empty(), topic, i),
        i < filters.len() ==> (routes_to(filters.push(added), topic, i) <==> routes_to(
            filters,
            topic,
            i,
        )),
        i > filters.len() ==> !routes_to(filters.push(added), topic, i),
        i < 0 ==> !routes_to(filters, topic, i),
{
    let longer = filters.push(added);
    assert(forall|j: int| 0 <= j < filters.len() ==> #[trigger] filters[j] == longer[j]);
}

/// A search asks for a level that the topic lacks at the first filter that settles
/// anything, where that filter names such a level, and only there.
pub proof fn law_searches_end_at_the_first_filter_that_settles(
    filters: Seq<Seq<char>>,
    added: Seq<char>,
    topic: Seq<char>,
)
    ensures
        searchable(Seq::<Seq<char>>::empty(), topic),
        searchable(filters.push(added), topic) <==> searchable(filters, topic) && !(verdict_of(
            added,
            topic,
        ) == Verdict::Overrun && forall|j: int|
            0 <= j < filters.len() ==> verdict_of(#[trigger] filters[j], topic) == Verdict::Passed),
{
    let longer = filters.push(added);
    let n = filters.len() as int;
    assert(forall|j: int| 0 <= j < filters.len() ==> #[trigger] filters[j] == longer[j]);
    assert(forall|i: int| i < n ==> (ends_at(filters, topic, i, Verdict::Overrun) <==> ends_at(
        longer,
        topic,
        i,
        Verdict::Overrun,
    )));
    assert(ends_at(longer, topic, n, Verdict::Overrun) <==> verdict_of(added, topic)
        == Verdict::Overrun && forall|j: int|
        0 <= j < filters.len() ==> verdict_of(#[trigger] filters[j], topic) == Verdict::Passed);
    if searchable(filters, topic) && !ends_at(longer, topic, n, Verdict::Overrun) {
        assert forall|i: int| !ends_at(longer, topic, i, Verdict::Overrun) by {
            if i < n {
                assert(!ends_at(filters, topic, i, Verdict::Overrun));
            }
        }
    }
    if searchable(longer, topic) {
        assert forall|i: int| !ends_at(filters, topic, i, Verdict::Overrun) by {
            assert(!ends_at(longer, topic, i, Verdict::Overrun));
        }
    }
}

} // verus!
