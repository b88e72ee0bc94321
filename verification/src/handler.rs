//! The notification protocol, as a verified step machine.
//!
//! One invocation is a strict sequence: extract the event fields, create a
//! topic, subscribe the recipient, and — only when the subscribe call hands
//! back a subscription identifier — publish a message, then acknowledge.
//! The remote messaging service is the caller's business: `Handler::start`
//! returns the first remote operation to perform, the caller performs it and
//! feeds the outcome to `Handler::step`, which answers with the next
//! operation, the final response, or the error that aborts the invocation.

use vstd::prelude::*;
use vstd::string::StringExecFns;

use crate::event::EventFields;
use crate::event::InputError;
use crate::event::extract_fields;
use crate::event::spec_bucket_field;
use crate::event::spec_extract_err;
use crate::event::spec_key_field;
use crate::event::spec_region_field;
use crate::event::spec_well_formed;
use crate::json::Json;
use crate::json::spec_lookup;

verus! {

/// The fixed configuration of one deployment: the topic to create, the
/// recipient to subscribe, and the region used when neither the event nor
/// the environment names one.
#[derive(Debug, PartialEq, Eq)]
pub struct Config {
    pub topic_name: String,
    pub recipient: String,
    pub default_region: String,
}

/// The three remote operations, named for error reports.
#[derive(Debug, PartialEq, Eq, Clone, Copy)]
pub enum Operation {
    CreateTopic,
    Subscribe,
    Publish,
}

/// Why an invocation failed: a bad event, or a remote call that errored,
/// with the message the messaging service gave.
#[derive(Debug, PartialEq, Eq)]
pub enum HandlerError {
    Input(InputError),
    Remote(Operation, String),
}

/// What one remote call came back with: an optional identifier (a topic,
/// subscription or message identifier — the service may omit it), or an
/// error message.
#[derive(Debug, PartialEq, Eq)]
pub enum RemoteOutcome {
    Success(Option<String>),
    Failure(String),
}

/// One remote operation for the caller to perform next.
#[derive(Debug, PartialEq, Eq)]
pub enum Action {
    CreateTopic { name: String },
    Subscribe { topic_arn: String, protocol: String, endpoint: String },
    Publish { topic_arn: String, message: String },
}

/// Which remote call the machine is waiting on.
#[derive(Debug, PartialEq, Eq)]
pub enum Phase {
    AwaitingTopic,
    AwaitingSubscription(String),
    AwaitingPublish,
}

/// The state between two remote calls of one invocation.
#[derive(Debug, PartialEq, Eq)]
pub struct Handler {
    pub config: Config,
    pub fields: EventFields,
    /// The region the messaging client targets, after the fallback chain.
    pub region: String,
    pub phase: Phase,
}

/// The acknowledgment returned on success.
#[derive(Debug, PartialEq, Eq)]
pub struct Response {
    pub region: String,
    pub bucket: String,
    pub file: String,
    pub notification: String,
}

/// What a step of the machine yields: the next operation, the final
/// acknowledgment, or the error that aborts the invocation.
#[derive(Debug, PartialEq, Eq)]
pub enum StepResult {
    Next(Handler, Action),
    Done(Response),
    Failed(HandlerError),
}

/// View of an optional string.
pub open spec fn spec_opt_view(o: Option<String>) -> Option<Seq<char>> {
    match o {
        Option::Some(s) => Option::Some(s@),
        Option::None => Option::None,
    }
}

/// The region the client targets: the event's region when non-empty, else
/// the environment's default when non-empty, else the fixed fallback.
pub open spec fn spec_resolve_region(
    event_region: Seq<char>,
    provider: Option<Seq<char>>,
    fallback: Seq<char>,
) -> Seq<char> {
    if event_region.len() > 0 {
        event_region
    } else {
        match provider {
            Option::Some(p) => if p.len() > 0 {
                p
            } else {
                fallback
            },
            Option::None => fallback,
        }
    }
}

/// The sentence published to subscribers.
pub open spec fn spec_message(key: Seq<char>, bucket: Seq<char>, region: Seq<char>) -> Seq<char> {
    "File: "@ + key + " is copied to your s3 bucket: "@ + bucket + " in region: "@ + region
}

/// The fixed-format notification status in the acknowledgment.
pub open spec fn spec_notification(recipient: Seq<char>) -> Seq<char> {
    "Email notification sent to: "@ + recipient
}

/// The topic identifier the machine keeps: what the create-topic call
/// returned, or empty when the service omitted it.
pub open spec fn spec_arn_of(id: Option<String>) -> Seq<char> {
    match id {
        Option::Some(s) => s@,
        Option::None => Seq::<char>::empty(),
    }
}

/// The acknowledgment `resp` is the one the invocation behind `pre` owes:
/// the event's region, bucket and key verbatim, and the fixed notification
/// sentence naming the recipient.
pub open spec fn spec_response_of(pre: Handler, resp: Response) -> bool {
    &&& resp.region == pre.fields.region
    &&& resp.bucket == pre.fields.bucket
    &&& resp.file == pre.fields.key
    &&& resp.notification@ == spec_notification(pre.config.recipient@)
}

/// `h` and `a` are what starting an invocation on `event` under `config`
/// yields: the extracted fields, the resolved region, the machine waiting on
/// the create-topic call, and that call as the first action.
pub open spec fn spec_started(
    config: Config,
    event: Json,
    provider: Option<Seq<char>>,
    h: Handler,
    a: Action,
) -> bool {
    &&& h.config == config
    &&& Option::Some(h.fields.region@) == spec_region_field(event)
    &&& Option::Some(h.fields.bucket@) == spec_bucket_field(event)
    &&& Option::Some(h.fields.key@) == spec_key_field(event)
    &&& h.region@ == spec_resolve_region(h.fields.region@, provider, config.default_region@)
    &&& h.phase == Phase::AwaitingTopic
    &&& (a matches Action::CreateTopic { name } && name == config.topic_name)
}

/// The whole transition relation of the machine: for each phase and each
/// outcome of the awaited call, exactly what `step` yields.
pub open spec fn spec_step(pre: Handler, outcome: RemoteOutcome, r: StepResult) -> bool {
    match pre.phase {
        Phase::AwaitingTopic => match outcome {
            // A create-topic error aborts the invocation: subscribe and
            // publish are never issued.
            RemoteOutcome::Failure(m) => r == StepResult::Failed(
                HandlerError::Remote(Operation::CreateTopic, m),
            ),
            // The topic identifier (or empty, when omitted) is kept, and the
            // subscribe call is next: the fixed recipient, by email.
            RemoteOutcome::Success(id) => {
                &&& r matches StepResult::Next(h, a)
                &&& h.config == pre.config
                &&& h.fields == pre.fields
                &&& h.region == pre.region
                &&& (h.phase matches Phase::AwaitingSubscription(arn) && arn@ == spec_arn_of(id))
                &&& (a matches Action::Subscribe { topic_arn, protocol, endpoint }
                    && topic_arn@ == spec_arn_of(id) && protocol@ == "email"@ && endpoint
                    == pre.config.recipient)
            },
        },
        Phase::AwaitingSubscription(arn) => match outcome {
            // A subscribe error aborts the invocation: publish is never
            // issued (the topic, already created, stays as it is).
            RemoteOutcome::Failure(m) => r == StepResult::Failed(
                HandlerError::Remote(Operation::Subscribe, m),
            ),
            RemoteOutcome::Success(sub) => match sub {
                // No subscription identifier: the publish is skipped and the
                // invocation still succeeds.
                Option::None => (r matches StepResult::Done(resp) && spec_response_of(pre, resp)),
                // A subscription identifier: publish the sentence naming the
                // key, the bucket and the resolved region, to the topic.
                Option::Some(_) => {
                    &&& r matches StepResult::Next(h, a)
                    &&& h.config == pre.config
                    &&& h.fields == pre.fields
                    &&& h.region == pre.region
                    &&& h.phase == Phase::AwaitingPublish
                    &&& (a matches Action::Publish { topic_arn, message }
                        && topic_arn == arn && message@ == spec_message(
                        pre.fields.key@,
                        pre.fields.bucket@,
                        pre.region@,
                    ))
                },
            },
        },
        Phase::AwaitingPublish => match outcome {
            // A publish error aborts the invocation.
            RemoteOutcome::Failure(m) => r == StepResult::Failed(
                HandlerError::Remote(Operation::Publish, m),
            ),
            // Published (whether or not a message identifier came back):
            // acknowledge.
            RemoteOutcome::Success(_) => (r matches StepResult::Done(resp) && spec_response_of(
                pre,
                resp,
            )),
        },
    }
}

/// `j` is the JSON shape of the acknowledgment `r`: an object with exactly
/// the fields `region`, `bucket`, `file` and `Notification`, in that order.
pub open spec fn spec_response_json(j: Json, r: Response) -> bool {
    &&& j matches Json::Obj(fs)
    &&& fs@.len() == 4
    &&& fs@[0].0@ == "region"@ && fs@[0].1 == Json::Str(r.region)
    &&& fs@[1].0@ == "bucket"@ && fs@[1].1 == Json::Str(r.bucket)
    &&& fs@[2].0@ == "file"@ && fs@[2].1 == Json::Str(r.file)
    &&& fs@[3].0@ == "Notification"@ && fs@[3].1 == Json::Str(r.notification)
}

impl Response {
    /// The acknowledgment as a JSON object, ready for the caller to send
    /// back: `{region, bucket, file, Notification}`.
    pub fn to_json(&self) -> (j: Json)
        ensures
            spec_response_json(j, *self),
    {
        let mut fields: Vec<(String, Json)> = Vec::new();
        fields.push(("region".to_owned(), Json::Str(self.region.clone())));
        fields.push(("bucket".to_owned(), Json::Str(self.bucket.clone())));
        fields.push(("file".to_owned(), Json::Str(self.file.clone())));
        fields.push(("Notification".to_owned(), Json::Str(self.notification.clone())));
        Json::Obj(fields)
    }
}

/// The region the client targets, by the fallback chain: the event's region
/// when non-empty, else the environment's default when non-empty, else the
/// fixed fallback.
pub fn resolve_region(event_region: &String, provider: &Option<String>, fallback: &String) -> (r:
    String)
    ensures
        r@ == spec_resolve_region(
            event_region@,
            match provider {
                Option::Some(p) => Option::Some(p@),
                Option::None => Option::<Seq<char>>::None,
            },
            fallback@,
        ),
{
    if !event_region.as_str().is_empty() {
        event_region.clone()
    } else {
        match provider {
            Option::Some(p) => if !p.as_str().is_empty() {
                p.clone()
            } else {
                fallback.clone()
            },
            Option::None => fallback.clone(),
        }
    }
}

/// The sentence published to subscribers.
pub fn format_message(key: &String, bucket: &String, region: &String) -> (r: String)
    ensures
        r@ == spec_message(key@, bucket@, region@),
{
    let mut s: String = "File: ".to_owned();
    s.append(key.as_str());
    s.append(" is copied to your s3 bucket: ");
    s.append(bucket.as_str());
    s.append(" in region: ");
    s.append(region.as_str());
    s
}

/// The fixed-format notification status in the acknowledgment.
pub fn format_notification(recipient: &String) -> (r: String)
    ensures
        r@ == spec_notification(recipient@),
{
    let mut s: String = "Email notification sent to: ".to_owned();
    s.append(recipient.as_str());
    s
}

impl Handler {
    /// Begins one invocation: extracts region, bucket and key from the
    /// event, failing — before any remote call — on the first field that is
    /// absent or not a string; resolves the client's region; and hands back
    /// the create-topic call as the first remote operation.
    pub fn start(config: Config, event: &Json, provider_region: Option<String>) -> (r: Result<
        (Handler, Action),
        InputError,
    >)
        ensures
            r is Ok <==> spec_well_formed(*event),
            match r {
                Result::Ok((h, a)) => spec_started(
                    config,
                    *event,
                    spec_opt_view(provider_region),
                    h,
                    a,
                ),
                Result::Err(e) => spec_extract_err(*event, e),
            },
    {
        let fields = match extract_fields(event) {
            Result::Ok(fields) => fields,
            Result::Err(e) => {
                return Result::Err(e);
            },
        };
        let region = resolve_region(&fields.region, &provider_region, &config.default_region);
        let action = Action::CreateTopic { name: config.topic_name.clone() };
        let handler = Handler { config, fields, region, phase: Phase::AwaitingTopic };
        Result::Ok((handler, action))
    }

    /// Takes the outcome of the remote call the machine was waiting on and
    /// decides what follows, exactly as `spec_step` lays the protocol down.
    pub fn step(self, outcome: RemoteOutcome) -> (r: StepResult)
        ensures
            spec_step(self, outcome, r),
    {
        let Handler { config, fields, region, phase } = self;
        match phase {
            Phase::AwaitingTopic => match outcome {
                RemoteOutcome::Failure(m) => StepResult::Failed(
                    HandlerError::Remote(Operation::CreateTopic, m),
                ),
                RemoteOutcome::Success(id) => {
                    let arn: String = match id {
                        Option::Some(s) => s,
                        Option::None => String::new(),
                    };
                    let action = Action::Subscribe {
                        topic_arn: arn.clone(),
                        protocol: "email".to_owned(),
                        endpoint: config.recipient.clone(),
                    };
                    let next = Handler {
                        config,
                        fields,
                        region,
                        phase: Phase::AwaitingSubscription(arn),
                    };
                    StepResult::Next(next, action)
                },
            },
            Phase::AwaitingSubscription(arn) => match outcome {
                RemoteOutcome::Failure(m) => StepResult::Failed(
                    HandlerError::Remote(Operation::Subscribe, m),
                ),
                RemoteOutcome::Success(sub) => match sub {
                    Option::None => {
                        let notification = format_notification(&config.recipient);
                        StepResult::Done(
                            Response {
                                region: fields.region,
                                bucket: fields.bucket,
                                file: fields.key,
                                notification,
                            },
                        )
                    },
                    Option::Some(_) => {
                        let message = format_message(&fields.key, &fields.bucket, &region);
                        let action = Action::Publish { topic_arn: arn, message };
                        let next = Handler { config, fields, region, phase: Phase::AwaitingPublish };
                        StepResult::Next(next, action)
                    },
                },
            },
            Phase::AwaitingPublish => match outcome {
                RemoteOutcome::Failure(m) => StepResult::Failed(
                    HandlerError::Remote(Operation::Publish, m),
                ),
                RemoteOutcome::Success(_) => {
                    let notification = format_notification(&config.recipient);
                    StepResult::Done(
                        Response {
                            region: fields.region,
                            bucket: fields.bucket,
                            file: fields.key,
                            notification,
                        },
                    )
                },
            },
        }
    }
}

/// For a well-formed event carrying region R, bucket B and key K, when every
/// remote call succeeds and the subscribe call returns a subscription
/// identifier, the run is exactly create-topic, subscribe, publish — the
/// published sentence naming K, B and the resolved region — and it ends in
/// the acknowledgment `{region: R, bucket: B, file: K}` with the fixed
/// notification sentence naming the recipient.
pub proof fn lemma_successful_run(
    config: Config,
    event: Json,
    provider: Option<Seq<char>>,
    h0: Handler,
    a0: Action,
    topic_id: Option<String>,
    h1: Handler,
    a1: Action,
    sub_id: String,
    h2: Handler,
    a2: Action,
    publish_id: Option<String>,
    r: StepResult,
)
    requires
        spec_started(config, event, provider, h0, a0),
        spec_step(h0, RemoteOutcome::Success(topic_id), StepResult::Next(h1, a1)),
        spec_step(h1, RemoteOutcome::Success(Option::Some(sub_id)), StepResult::Next(h2, a2)),
        spec_step(h2, RemoteOutcome::Success(publish_id), r),
    ensures
        a0 matches Action::CreateTopic { name } && name == config.topic_name,
        a1 matches Action::Subscribe { topic_arn, protocol, endpoint } && topic_arn@ == spec_arn_of(
            topic_id,
        ) && protocol@ == "email"@ && endpoint == config.recipient,
        a2 matches Action::Publish { topic_arn, message } && topic_arn@ == spec_arn_of(topic_id)
            && message@ == spec_message(
            h0.fields.key@,
            h0.fields.bucket@,
            spec_resolve_region(h0.fields.region@, provider, config.default_region@),
        ),
        r matches StepResult::Done(resp) && Option::Some(resp.region@) == spec_region_field(event)
            && Option::Some(resp.bucket@) == spec_bucket_field(event) && Option::Some(resp.file@)
            == spec_key_field(event) && resp.notification@ == spec_notification(config.recipient@),
{
}

/// When the subscribe call succeeds but hands no subscription identifier
/// back, the publish is never issued — the run ends right there — and the
/// invocation still succeeds, with the same acknowledgment a published run
/// yields.
pub proof fn lemma_no_subscription_skips_publish(
    config: Config,
    event: Json,
    provider: Option<Seq<char>>,
    h0: Handler,
    a0: Action,
    topic_id: Option<String>,
    h1: Handler,
    a1: Action,
    r: StepResult,
)
    requires
        spec_started(config, event, provider, h0, a0),
        spec_step(h0, RemoteOutcome::Success(topic_id), StepResult::Next(h1, a1)),
        spec_step(h1, RemoteOutcome::Success(Option::None), r),
    ensures
        r matches StepResult::Done(resp) && Option::Some(resp.region@) == spec_region_field(event)
            && Option::Some(resp.bucket@) == spec_bucket_field(event) && Option::Some(resp.file@)
            == spec_key_field(event) && resp.notification@ == spec_notification(config.recipient@),
{
}

/// When the create-topic call fails, the invocation aborts with that error.
/// The abort carries no machine state and no action, so subscribe and
/// publish are never issued.
pub proof fn lemma_create_topic_failure_aborts(
    config: Config,
    event: Json,
    provider: Option<Seq<char>>,
    h0: Handler,
    a0: Action,
    m: String,
    r: StepResult,
)
    requires
        spec_started(config, event, provider, h0, a0),
        spec_step(h0, RemoteOutcome::Failure(m), r),
    ensures
        r == StepResult::Failed(HandlerError::Remote(Operation::CreateTopic, m)),
{
}

/// In the acknowledgment JSON, looking each of the four fields up yields
/// exactly the corresponding response string.
pub proof fn lemma_response_json_lookup(j: Json, r: Response)
    requires
        spec_response_json(j, r),
    ensures
        j.spec_get("region"@) == Option::Some(Json::Str(r.region)),
        j.spec_get("bucket"@) == Option::Some(Json::Str(r.bucket)),
        j.spec_get("file"@) == Option::Some(Json::Str(r.file)),
        j.spec_get("Notification"@) == Option::Some(Json::Str(r.notification)),
{
    reveal_with_fuel(spec_lookup, 5);
    reveal_strlit("region");
    reveal_strlit("bucket");
    reveal_strlit("file");
    reveal_strlit("Notification");
    assert("region"@[0] == 'r');
    assert("bucket"@[0] == 'b');
    assert("file"@[0] == 'f');
    assert("Notification"@[0] == 'N');
    let fs = j->Obj_0@;
    assert(fs.skip(1) =~= seq![fs[1], fs[2], fs[3]]);
    assert(fs.skip(1).skip(1) =~= seq![fs[2], fs[3]]);
    assert(fs.skip(1).skip(1).skip(1) =~= seq![fs[3]]);
}

/// When the subscribe call fails, the invocation aborts with that error, so
/// publish is never issued; the create-topic call has already completed and
/// the abort asks nothing further of it.
pub proof fn lemma_subscribe_failure_aborts(
    config: Config,
    event: Json,
    provider: Option<Seq<char>>,
    h0: Handler,
    a0: Action,
    topic_id: Option<String>,
    h1: Handler,
    a1: Action,
    m: String,
    r: StepResult,
)
    requires
        spec_started(config, event, provider, h0, a0),
        spec_step(h0, RemoteOutcome::Success(topic_id), StepResult::Next(h1, a1)),
        spec_step(h1, RemoteOutcome::Failure(m), r),
    ensures
        r == StepResult::Failed(HandlerError::Remote(Operation::Subscribe, m)),
{
}

} // verus!
