//! The decisions of a JetStream stream service: the subjects of its stream
//! and of its consumers, how a consumer is described to NATS, and where the
//! answer to a consumed message goes.
use vstd::prelude::*;

use crate::nats_names::{sanity_check_nats_name, spec_sanity_check, NatsNameError};

verus! {

pub open spec fn opt_view(o: Option<String>) -> Option<Seq<char>> {
    match o {
        Some(s) => Some(s@),
        None => None,
    }
}

pub open spec fn strings_view(v: Seq<String>) -> Seq<Seq<char>> {
    v.map_values(|s: String| s@)
}

/// `a.b`: a subject below another.
pub open spec fn spec_join_subject(a: Seq<char>, b: Seq<char>) -> Seq<char> {
    a + "."@ + b
}

/// Joins two subjects with a dot.
pub fn join_subject(a: &str, b: &str) -> (s: String)
    ensures
        s@ == spec_join_subject(a@, b@),
{
    let mut s = a.to_owned();
    s.append(".");
    s.append(b);
    s
}

/// The subjects of the stream of a service: every subject below the service subject.
pub fn stream_subject(service_subject: &str) -> (s: String)
    ensures
        s@ == service_subject@ + ".>"@,
{
    let mut s = service_subject.to_owned();
    s.append(".>");
    s
}

/// The prefix of the log lines of a stream service.
pub fn service_log_prefix(name: &str) -> (s: String)
    ensures
        s@ == "JS-LOG::"@ + name@ + "::"@,
{
    let mut s = String::from_str("JS-LOG::");
    s.append(name);
    s.append("::");
    s
}

/// A handler of an endpoint: one that answers at once, or one that answers
/// later.
#[derive(Clone)]
pub enum EndpointType<S, A> {
    Sync(S),
    Async(A),
}

impl<S, A> EndpointType<S, A> {
    /// How the handler is shown in debugging output.
    pub fn describe(&self) -> (s: &'static str)
        ensures
            s@ == match self {
                EndpointType::Async(_) => "EndpointType::Async(<function>)"@,
                EndpointType::Sync(_) => "EndpointType::Sync(<function>)"@,
            },
    {
        match self {
            EndpointType::Async(_) => "EndpointType::Async(<function>)",
            EndpointType::Sync(_) => "EndpointType::Sync(<function>)",
        }
    }
}

/// What a consumer is made of: its name, the subject it listens to below the
/// service subject, its handler, and what makes the subjects of its answers.
#[derive(Clone)]
pub struct ConsumerBuilder<H, F> {
    pub name: String,
    pub subject: String,
    pub handler: H,
    pub response_subject_fn: Option<F>,
}

/// A consumer of a service, described by a subject that may sit below a prefix.
#[derive(Clone)]
pub struct ServiceConsumerBuilder<A, F> {
    pub name: String,
    pub subject: String,
    pub subject_prefix: Option<String>,
    pub async_handler: A,
    pub response_subject_fn: Option<F>,
}

impl<A, F> ServiceConsumerBuilder<A, F> {
    /// A consumer without prefix and without answer subjects.
    pub fn new(name: String, subject: String, async_handler: A) -> (b: Self)
        ensures
            b.name == name,
            b.subject == subject,
            b.subject_prefix is None,
            b.async_handler == async_handler,
            b.response_subject_fn is None,
    {
        ServiceConsumerBuilder {
            name,
            subject,
            subject_prefix: None,
            async_handler,
            response_subject_fn: None,
        }
    }

    /// The same consumer, with its subject below `prefix`.
    pub fn with_subject_prefix(self, prefix: String) -> (b: Self)
        ensures
            b.subject_prefix == Some(prefix),
            b.name == self.name,
            b.subject == self.subject,
            b.async_handler == self.async_handler,
            b.response_subject_fn == self.response_subject_fn,
    {
        ServiceConsumerBuilder { subject_prefix: Some(prefix), ..self }
    }

    /// The same consumer, with `fn_gen` making the subjects of its answers.
    pub fn with_response_subject_fn(self, fn_gen: F) -> (b: Self)
        ensures
            b.response_subject_fn == Some(fn_gen),
            b.name == self.name,
            b.subject == self.subject,
            b.subject_prefix == self.subject_prefix,
            b.async_handler == self.async_handler,
    {
        ServiceConsumerBuilder { response_subject_fn: Some(fn_gen), ..self }
    }

    /// The subject of the consumer: below its prefix, when it has one.
    pub open spec fn spec_full_subject(&self) -> Seq<char> {
        match self.subject_prefix {
            Some(p) => spec_join_subject(p@, self.subject@),
            None => self.subject@,
        }
    }

    /// The consumer, with its subject below its prefix and its handler as an
    /// asynchronous endpoint.
    pub fn into_consumer_builder<S>(self) -> (c: ConsumerBuilder<EndpointType<S, A>, F>)
        ensures
            c.name == self.name,
            c.subject@ == self.spec_full_subject(),
            self.subject_prefix matches Some(p) ==> c.subject@ == p@ + "."@ + self.subject@,
            self.subject_prefix is None ==> c.subject@ == self.subject@,
            c.handler == EndpointType::<S, A>::Async(self.async_handler),
            c.response_subject_fn == self.response_subject_fn,
    {
        let subject = match &self.subject_prefix {
            Some(prefix) => join_subject(prefix.as_str(), self.subject.as_str()),
            None => self.subject.clone(),
        };
        ConsumerBuilder {
            name: self.name,
            subject,
            handler: EndpointType::Async(self.async_handler),
            response_subject_fn: self.response_subject_fn,
        }
    }
}

/// How a consumer is registered with NATS: durable under its name, with
/// explicit acknowledgement, listening to one subject.
#[derive(Debug, Clone)]
pub struct ConsumerConfig {
    pub durable_name: String,
    pub filter_subject: String,
}

/// The configuration of a consumer of the service with subject
/// `service_subject`: refused when its name is not a valid NATS name.
pub fn plan_consumer(service_subject: &str, name: &str, subject: &str) -> (r: Result<
    ConsumerConfig,
    NatsNameError,
>)
    ensures
        match r {
            Ok(c) => spec_sanity_check(name@) is Ok && c.durable_name@ == name@
                && c.filter_subject@ == spec_join_subject(service_subject@, subject@),
            Err(e) => spec_sanity_check(name@) == Err::<(), _>(e.view_error()),
        },
{
    let filter_subject = join_subject(service_subject, subject);
    match sanity_check_nats_name(name) {
        Ok(()) => Ok(ConsumerConfig { durable_name: name.to_owned(), filter_subject }),
        Err(e) => Err(e),
    }
}

/// What the log lines of a consumer's handler name.
#[derive(Debug, Clone)]
pub struct LogInfo {
    pub prefix: String,
    pub service_name: String,
    pub service_subject: String,
    pub endpoint_name: String,
    pub endpoint_subject: String,
}

/// The log information of a consumer, from what NATS reports of it: a
/// consumer without a durable name is logged as "Consumer Name Not Found".
pub fn consumer_log_info(
    prefix: String,
    service_name: String,
    service_subject: String,
    durable_name: Option<String>,
    filter_subject: String,
) -> (l: LogInfo)
    ensures
        l.prefix == prefix,
        l.service_name == service_name,
        l.service_subject == service_subject,
        l.endpoint_name@ == match durable_name {
            Some(n) => n@,
            None => "Consumer Name Not Found"@,
        },
        l.endpoint_subject == filter_subject,
{
    LogInfo {
        prefix,
        service_name,
        service_subject,
        endpoint_name: match durable_name {
            Some(n) => n,
            None => String::from_str("Consumer Name Not Found"),
        },
        endpoint_subject: filter_subject,
    }
}

/// The name of the header by which a message asks for its answer on another subject.
pub fn header_name_reply_override() -> (s: &'static str)
    ensures
        s@ == "reply_override"@,
{
    "reply_override"
}

/// Where the answer to a consumed message goes: the subject that its
/// `reply_override` header names, or else its reply subject; nowhere when it
/// has neither.
pub fn reply_subject(reply_override: Option<String>, reply: Option<String>) -> (r: Option<String>)
    ensures
        r == match reply_override {
            Some(o) => Some(o),
            None => reply,
        },
{
    match reply_override {
        Some(o) => Some(o),
        None => reply,
    }
}

/// The subjects on which the answer to a consumed message is also published:
/// each subject that the consumer's generator made, below the service subject.
pub fn response_subjects(service_subject: &str, generated: &Vec<String>) -> (r: Vec<String>)
    ensures
        r@.len() == generated@.len(),
        forall|i: int|
            0 <= i < generated@.len() ==> #[trigger] r@[i]@ == spec_join_subject(
                service_subject@,
                generated@[i]@,
            ),
{
    let mut r: Vec<String> = Vec::new();
    let mut i: usize = 0;
    while i < generated.len()
        invariant
            i <= generated@.len(),
            r@.len() == i,
            forall|j: int|
                0 <= j < i ==> #[trigger] r@[j]@ == spec_join_subject(
                    service_subject@,
                    generated@[j]@,
                ),
        decreases generated@.len() - i,
    {
        r.push(join_subject(service_subject, generated[i].as_str()));
        i = i + 1;
    }
    r
}

/// The payload of the answer to a handler that failed: the error's message.
pub fn error_payload(message: &str) -> (b: Vec<u8>)
    ensures
        b@ == vstd::utf8::encode_utf8(message@),
{
    message.as_bytes_vec()
}


/// What is published for a consumed message, from its handler's outcome: the
/// response bytes and the subject tags of a result, or the UTF-8 text of an
/// error and no tags.
pub fn message_answer(outcome: Result<(Vec<u8>, Vec<(String, String)>), String>) -> (r: (
    Vec<u8>,
    Vec<(String, String)>,
))
    ensures
        match outcome {
            Ok((bytes, tags)) => r.0 == bytes && r.1 == tags,
            Err(e) => r.0@ == vstd::utf8::encode_utf8(e@) && r.1@.len() == 0,
        },
{
    match outcome {
        Ok((bytes, tags)) => (bytes, tags),
        Err(e) => (error_payload(e.as_str()), Vec::new()),
    }
}


/// One step of answering a consumed message, in the order they are taken.
#[derive(Debug, Clone)]
pub enum AnswerStep {
    /// Publish the answer on the reply subject.
    PublishReply(String),
    /// Publish the answer on a subject that the consumer's generator made.
    PublishResponse(String),
    /// Acknowledge the message.
    Ack,
}

/// The steps of answering a message, by the text of their subjects.
pub enum AnswerStepView {
    PublishReply(Seq<char>),
    PublishResponse(Seq<char>),
    Ack,
}

impl View for AnswerStep {
    type V = AnswerStepView;

    open spec fn view(&self) -> AnswerStepView {
        match self {
            AnswerStep::PublishReply(s) => AnswerStepView::PublishReply(s@),
            AnswerStep::PublishResponse(s) => AnswerStepView::PublishResponse(s@),
            AnswerStep::Ack => AnswerStepView::Ack,
        }
    }
}

/// The steps of answering a consumed message: the answer goes first to the
/// reply subject (the `reply_override` header, else the message's reply
/// subject) where there is one, then to each subject that the generator made,
/// below the service subject, in order; then the message is acknowledged.
pub open spec fn spec_answer_steps(
    reply_override: Option<Seq<char>>,
    reply: Option<Seq<char>>,
    service_subject: Seq<char>,
    generated: Option<Seq<Seq<char>>>,
) -> Seq<AnswerStepView> {
    let to_reply = match reply_override {
        Some(o) => seq![AnswerStepView::PublishReply(o)],
        None => match reply {
            Some(r) => seq![AnswerStepView::PublishReply(r)],
            None => seq![],
        },
    };
    let responses = match generated {
        Some(g) => g.map_values(
            |t: Seq<char>| AnswerStepView::PublishResponse(spec_join_subject(service_subject, t)),
        ),
        None => seq![],
    };
    to_reply + responses + seq![AnswerStepView::Ack]
}

/// The text of optional texts.
pub open spec fn opt_strings_view(o: Option<Vec<String>>) -> Option<Seq<Seq<char>>> {
    match o {
        Some(v) => Some(strings_view(v@)),
        None => None,
    }
}

/// The steps of answering a consumed message, from its `reply_override`
/// header, its reply subject, the service subject and what the consumer's
/// generator made of the answer's tags (`None` where it has no generator).
pub fn answer_steps(
    reply_override: Option<String>,
    reply: Option<String>,
    service_subject: &str,
    generated: Option<Vec<String>>,
) -> (r: Vec<AnswerStep>)
    ensures
        r@.map_values(|a: AnswerStep| a@) == spec_answer_steps(
            opt_view(reply_override),
            opt_view(reply),
            service_subject@,
            opt_strings_view(generated),
        ),
{
    let ghost gen_view = opt_strings_view(generated);
    let ghost to_reply: Seq<AnswerStepView> = match opt_view(reply_override) {
        Some(o) => seq![AnswerStepView::PublishReply(o)],
        None => match opt_view(reply) {
            Some(x) => seq![AnswerStepView::PublishReply(x)],
            None => seq![],
        },
    };
    let ghost responses: Seq<AnswerStepView> = match gen_view {
        Some(g) => g.map_values(
            |t: Seq<char>| AnswerStepView::PublishResponse(spec_join_subject(service_subject@, t)),
        ),
        None => seq![],
    };
    let mut r: Vec<AnswerStep> = Vec::new();
    match reply_subject(reply_override, reply) {
        Some(s) => {
            r.push(AnswerStep::PublishReply(s));
        },
        None => {},
    }
    assert(r@.map_values(|a: AnswerStep| a@) =~= to_reply);
    let subjects: Vec<String> = match &generated {
        Some(g) => response_subjects(service_subject, g),
        None => Vec::new(),
    };
    assert(subjects@.len() == responses.len());
    assert(forall|k: int|
        0 <= k < subjects@.len() ==> AnswerStepView::PublishResponse(#[trigger] subjects@[k]@)
            == responses[k]);
    let mut i: usize = 0;
    while i < subjects.len()
        invariant
            i <= subjects@.len(),
            subjects@.len() == responses.len(),
            forall|k: int|
                0 <= k < subjects@.len() ==> AnswerStepView::PublishResponse(#[trigger] subjects@[k]@)
                    == responses[k],
            r@.map_values(|a: AnswerStep| a@) =~= to_reply + responses.take(i as int),
        decreases subjects@.len() - i,
    {
        let step = AnswerStep::PublishResponse(subjects[i].clone());
        assert(step@ == responses[i as int]);
        let ghost before = r@;
        r.push(step);
        assert(r@.map_values(|a: AnswerStep| a@) =~= before.map_values(|a: AnswerStep| a@).push(
            responses[i as int],
        ));
        assert(responses.take(i as int + 1) =~= responses.take(i as int).push(responses[i as int]));
        assert(r@.map_values(|a: AnswerStep| a@) =~= to_reply + responses.take(i as int + 1));
        i = i + 1;
    }
    assert(responses.take(i as int) =~= responses);
    let ghost before_ack = r@;
    r.push(AnswerStep::Ack);
    assert(r@.map_values(|a: AnswerStep| a@) =~= before_ack.map_values(|a: AnswerStep| a@).push(
        AnswerStepView::Ack,
    ));
    assert(r@.map_values(|a: AnswerStep| a@) =~= to_reply + responses + seq![AnswerStepView::Ack]);
    r
}

/// Where a stream service that answers with tags sends the answer to a
/// message with a reply subject: `{reply}.{service_subject}.{endpoint_subject}`.
pub fn tagged_reply_subject(reply: &str, service_subject: &str, endpoint_subject: &str) -> (s: String)
    ensures
        s@ == spec_join_subject(spec_join_subject(reply@, service_subject@), endpoint_subject@),
{
    let first = join_subject(reply, service_subject);
    join_subject(first.as_str(), endpoint_subject)
}

/// What such a service publishes for a consumed message: the serialized
/// result and its tags, or the UTF-8 text of an error and no tags.
pub fn tagged_message_answer(outcome: Result<(Vec<u8>, Option<Vec<String>>), String>) -> (r: (
    Vec<u8>,
    Option<Vec<String>>,
))
    ensures
        match outcome {
            Ok((bytes, tags)) => r.0 == bytes && r.1 == tags,
            Err(e) => r.0@ == vstd::utf8::encode_utf8(e@) && r.1 is None,
        },
{
    match outcome {
        Ok((bytes, tags)) => (bytes, tags),
        Err(e) => (error_payload(e.as_str()), None),
    }
}


/// Every consumer of a service listens below the service subject, where the
/// service's stream (`{service_subject}.>`) takes every subject.
pub proof fn law_consumer_subject_in_stream(service_subject: Seq<char>, subject: Seq<char>)
    ensures
        spec_join_subject(service_subject, subject).take(service_subject.len() as int + 1) == service_subject
            + "."@,
        (service_subject + ".>"@).take(service_subject.len() as int + 1) == service_subject + "."@,
{
    reveal_strlit(".");
    reveal_strlit(".>");
    assert(spec_join_subject(service_subject, subject).take(service_subject.len() as int + 1)
        =~= service_subject + "."@);
    assert((service_subject + ".>"@).take(service_subject.len() as int + 1) =~= service_subject + "."@);
}

/// The position of the first service named `name`.
pub fn position_of_name(names: &Vec<String>, name: &str) -> (r: Option<usize>)
    ensures
        match r {
            Some(i) => i < names@.len() && names@[i as int]@ == name@ && forall|j: int|
                0 <= j < i ==> names@[j]@ != name@,
            None => forall|j: int| 0 <= j < names@.len() ==> names@[j]@ != name@,
        },
{
    let mut i: usize = 0;
    while i < names.len()
        invariant
            i <= names@.len(),
            forall|j: int| 0 <= j < i ==> names@[j]@ != name@,
        decreases names@.len() - i,
    {
        if crate::text::str_eq(names[i].as_str(), name) {
            return Some(i);
        }
        i = i + 1;
    }
    None
}

/// The services of a client with one more: a client without services gets a
/// list of that one.
pub fn append_service<T>(services: Option<Vec<T>>, service: T) -> (r: Option<Vec<T>>)
    ensures
        r matches Some(v) && v@ == match services {
            Some(s) => s@,
            None => Seq::<T>::empty(),
        }.push(service),
{
    let mut current = match services {
        Some(s) => s,
        None => Vec::new(),
    };
    current.push(service);
    Some(current)
}

/// The services of a client with more: a client without services gets the new ones.
pub fn extend_services<T>(services: Option<Vec<T>>, more: Vec<T>) -> (r: Option<Vec<T>>)
    ensures
        r matches Some(v) && v@ == match services {
            Some(s) => s@,
            None => Seq::<T>::empty(),
        } + more@,
{
    let mut current = match services {
        Some(s) => s,
        None => Vec::new(),
    };
    let mut more = more;
    current.append(&mut more);
    Some(current)
}

/// The services started for a client: none is recorded as no list.
pub fn services_or_none<T>(services: Vec<T>) -> (r: Option<Vec<T>>)
    ensures
        services@.len() == 0 ==> r is None,
        services@.len() > 0 ==> r == Some(services),
{
    if services.len() == 0 {
        None
    } else {
        Some(services)
    }
}

/// A service found by its name after it was added.
pub proof fn law_added_service_is_found(names: Seq<Seq<char>>, name: Seq<char>)
    ensures
        exists|i: int|
            0 <= i < names.push(name).len() && names.push(name)[i] == name && forall|j: int|
                0 <= j < i ==> names.push(name)[j] != name,
    decreases names.len(),
{
    if exists|i: int| 0 <= i < names.len() && names[i] == name {
        let k = choose|i: int| 0 <= i < names.len() && names[i] == name;
        lemma_first_match(names.push(name), name, k);
    } else {
        let n = names.len() as int;
        assert(names.push(name)[n] == name);
        assert forall|j: int| 0 <= j < n implies names.push(name)[j] != name by {
            assert(names.push(name)[j] == names[j]);
        }
    }
}

proof fn lemma_first_match(s: Seq<Seq<char>>, name: Seq<char>, k: int)
    requires
        0 <= k < s.len(),
        s[k] == name,
    ensures
        exists|i: int| 0 <= i < s.len() && s[i] == name && forall|j: int| 0 <= j < i ==> s[j] != name,
    decreases k,
{
    if forall|j: int| 0 <= j < k ==> s[j] != name {
    } else {
        let j = choose|j: int| 0 <= j < k && s[j] == name;
        lemma_first_match(s, name, j);
    }
}

/// A consumer built with a prefix listens on its prefix, a dot, then its own
/// subject; one without a prefix listens on its own subject.
pub proof fn law_consumer_subject_below_prefix<A, F>(b: ServiceConsumerBuilder<A, F>)
    ensures
        b.subject_prefix matches Some(p) ==> b.spec_full_subject() == p@ + "."@ + b.subject@,
        b.subject_prefix is None ==> b.spec_full_subject() == b.subject@,
{
}

} // verus!
