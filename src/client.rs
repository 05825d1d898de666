use vstd::prelude::*;

verus! {

/// serde_json::Value, declared so that a batch of updates in a shape the bot
/// does not read can be carried as it came; nothing is assumed of its content.
#[verifier::external_type_specification]
#[verifier::external_body]
pub struct ExJsonValue(serde_json::Value);

/// Who sent an inbound message.
#[derive(Debug)]
pub struct ZaloSender {
    pub id: String,
    pub is_bot: bool,
    pub display_name: Option<String>,
}

/// The chat an inbound message came from.
#[derive(Debug)]
pub struct ZaloChat {
    pub id: String,
    pub chat_type: String,
}

/// An inbound message.
#[derive(Debug)]
pub struct ZaloMessage {
    pub sender: ZaloSender,
    pub chat: ZaloChat,
    pub text: Option<String>,
    pub photo: Option<String>,
    pub caption: Option<String>,
    pub message_id: String,
    pub date: u64,
}

/// One entry of a batch of updates.
#[derive(Debug)]
pub struct ZaloUpdate {
    pub message: Option<ZaloMessage>,
    pub event_name: String,
}

/// The batch field of an updates answer, in each of the shapes it comes in.
#[derive(Debug)]
pub enum ZaloUpdatesResult {
    Single(ZaloUpdate),
    Multiple(Vec<ZaloUpdate>),
    /// Anything else, such as an empty object.
    Empty(serde_json::Value),
}

/// The answer to a long poll for updates.
#[derive(Debug)]
pub struct ZaloUpdatesResponse {
    pub ok: bool,
    pub result: ZaloUpdatesResult,
}

/// What the platform reports about a message it accepted.
#[derive(Debug)]
pub struct ZaloSendResult {
    pub message_id: String,
    pub date: u64,
}

/// The answer to sending a photo.
#[derive(Debug)]
pub struct ZaloSendPhotoResponse {
    pub ok: bool,
    pub result: ZaloSendResult,
}

/// The answer to sending a text.
#[derive(Debug)]
pub struct ZaloSendMessageResponse {
    pub ok: bool,
    pub result: ZaloSendResult,
}

/// The messages that a list of updates carries, in order.
pub open spec fn messages_in(updates: Seq<ZaloUpdate>) -> Seq<ZaloMessage>
    decreases updates.len(),
{
    if updates.len() == 0 {
        Seq::empty()
    } else {
        let rest = messages_in(updates.drop_first());
        match updates[0].message {
            Some(m) => seq![m] + rest,
            None => rest,
        }
    }
}

/// The messages that a batch carries, whatever its shape.
pub open spec fn messages_of(result: ZaloUpdatesResult) -> Seq<ZaloMessage> {
    match result {
        ZaloUpdatesResult::Single(u) => match u.message {
            Some(m) => seq![m],
            None => Seq::empty(),
        },
        ZaloUpdatesResult::Multiple(list) => messages_in(list@),
        ZaloUpdatesResult::Empty(_) => Seq::empty(),
    }
}

/// The messages that a batch carries, in the order the platform sent them.
pub fn normalize_updates(result: ZaloUpdatesResult) -> (r: Vec<ZaloMessage>)
    ensures
        r@ == messages_of(result),
{
    let mut out: Vec<ZaloMessage> = Vec::new();
    match result {
        ZaloUpdatesResult::Single(u) => {
            if let Some(m) = u.message {
                out.push(m);
            }
            assert(out@ =~= messages_of(result));
        },
        ZaloUpdatesResult::Multiple(list) => {
            let ghost all = list@;
            let mut rest = list;
            while rest.len() > 0
                invariant
                    out@ + messages_in(rest@) == messages_in(all),
                decreases rest@.len(),
            {
                let ghost before = rest@;
                let u = rest.remove(0);
                proof {
                    assert(rest@ =~= before.drop_first());
                }
                if let Some(m) = u.message {
                    proof {
                        assert(out@.push(m) + messages_in(rest@) =~= out@ + messages_in(before));
                    }
                    out.push(m);
                }
            }
            assert(out@ + messages_in(rest@) =~= out@);
        },
        ZaloUpdatesResult::Empty(_) => {
            assert(out@ =~= messages_of(result));
        },
    }
    out
}

/// The parts of an answer's envelope that decide whether it reports success.
#[derive(Debug)]
pub struct Envelope {
    /// The success flag, when it is a boolean.
    pub ok: Option<bool>,
    /// Whether the answer has a result field.
    pub has_result: bool,
    /// The failure description, when it is a string.
    pub description: Option<String>,
}

impl View for Envelope {
    type V = (Option<bool>, bool, Option<Seq<char>>);

    open spec fn view(&self) -> (Option<bool>, bool, Option<Seq<char>>) {
        (
            self.ok,
            self.has_result,
            match self.description {
                Some(d) => Some(d@),
                None => None,
            },
        )
    }
}

/// The envelope that a body holds when it is a JSON document, as
/// `(ok, has_result, description)`; `None` when it is not JSON.
pub uninterp spec fn envelope_of(body: Seq<char>) -> Option<(Option<bool>, bool, Option<Seq<char>>)>;

/// Relies on serde_json::from_str into a serde_json::Value, then on
/// Value::get, Value::as_bool and Value::as_str to read the fields `ok`,
/// `result` and `description`: the outcome depends on the text alone.
#[verifier::external_body]
fn parse_envelope(body: &str) -> (r: Option<Envelope>)
    ensures
        r is Some <==> envelope_of(body@) is Some,
        r matches Some(e) ==> e@ == envelope_of(body@)->0,
{
    match serde_json::from_str::<serde_json::Value>(body) {
        Ok(v) => Some(Envelope {
            ok: v.get("ok").and_then(serde_json::Value::as_bool),
            has_result: v.get("result").is_some(),
            description: v.get("description").and_then(serde_json::Value::as_str).map(String::from),
        }),
        Err(_) => None,
    }
}

/// Why an answer of the chat platform was refused.
#[derive(Debug, Clone, PartialEq, Eq)]
pub enum ClientError {
    /// A status outside 200 to 299, with the raw body.
    Status { status: u16, body: String },
    /// The body is not a JSON document.
    Malformed(String),
    /// The envelope reports failure: its description, or the raw body when it
    /// has none.
    Api(String),
    /// The envelope reports success but carries no result.
    MissingResult,
}

/// The abstract value of a verdict on an answer.
pub enum Verdict {
    Accepted,
    Status(u16, Seq<char>),
    Malformed(Seq<char>),
    Api(Seq<char>),
    MissingResult,
}

/// The abstract value of the outcome of a check.
pub open spec fn verdict_of(r: Result<(), ClientError>) -> Verdict {
    match r {
        Ok(_) => Verdict::Accepted,
        Err(ClientError::Status { status, body }) => Verdict::Status(status, body@),
        Err(ClientError::Malformed(b)) => Verdict::Malformed(b@),
        Err(ClientError::Api(d)) => Verdict::Api(d@),
        Err(ClientError::MissingResult) => Verdict::MissingResult,
    }
}

pub open spec fn is_success_status(status: u16) -> bool {
    200 <= status < 300
}

/// The verdict on an answer with status `status` and body `body`, whose
/// envelope is `env`: first the status, then the envelope's success flag.
pub open spec fn response_verdict(
    status: u16,
    body: Seq<char>,
    env: Option<(Option<bool>, bool, Option<Seq<char>>)>,
) -> Verdict {
    if !is_success_status(status) {
        Verdict::Status(status, body)
    } else {
        match env {
            None => Verdict::Malformed(body),
            Some((ok, has_result, description)) => if ok == Some(true) {
                if has_result {
                    Verdict::Accepted
                } else {
                    Verdict::MissingResult
                }
            } else {
                match description {
                    Some(d) => Verdict::Api(d),
                    None => Verdict::Api(body),
                }
            },
        }
    }
}

/// Checks an answer whose envelope, when the body is JSON, is `envelope`.
pub fn check_response(status: u16, body: &str, envelope: Option<Envelope>) -> (r: Result<
    (),
    ClientError,
>)
    ensures
        verdict_of(r) == response_verdict(
            status,
            body@,
            match envelope {
                Some(e) => Some(e@),
                None => None,
            },
        ),
{
    if !(200 <= status && status < 300) {
        return Err(ClientError::Status { status, body: String::from_str(body) });
    }
    match envelope {
        None => Err(ClientError::Malformed(String::from_str(body))),
        Some(e) => {
            if e.ok == Some(true) {
                if e.has_result {
                    Ok(())
                } else {
                    Err(ClientError::MissingResult)
                }
            } else {
                match e.description {
                    Some(d) => Err(ClientError::Api(d)),
                    None => Err(ClientError::Api(String::from_str(body))),
                }
            }
        },
    }
}

/// Checks an answer of the chat platform at both levels: the HTTP status,
/// then the success flag of the envelope that the body holds.
pub fn validate_response(status: u16, body: &str) -> (r: Result<(), ClientError>)
    ensures
        verdict_of(r) == response_verdict(status, body@, envelope_of(body@)),
{
    let envelope = parse_envelope(body);
    check_response(status, body, envelope)
}

} // verus!
