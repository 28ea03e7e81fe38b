use vstd::prelude::*;
use crate::api::{error_reply, Action, Reply};
use crate::codec::{json_object, json_object_of};

verus! {

/// The request handlers. Each takes the state of one request and what
/// happened last, and returns the next state and what the caller is to do:
/// the handlers decide, the caller reads, writes and sends.
pub struct Handler {}

impl Handler {
    /// The handlers.
    pub fn new() -> Self {
        Handler {  }
    }
}

/// A message to publish on the bus.
#[derive(PartialEq, Eq, Debug)]
pub struct Publication {
    pub subject: String,
    pub payload: Vec<u8>,
}

/// A `Publication` as a mathematical value.
pub struct PublicationView {
    pub subject: Seq<char>,
    pub payload: Seq<u8>,
}

impl View for Publication {
    type V = PublicationView;

    open spec fn view(&self) -> PublicationView {
        PublicationView { subject: self.subject@, payload: self.payload@ }
    }
}

impl DeepView for Publication {
    type V = PublicationView;

    open spec fn deep_view(&self) -> PublicationView {
        self@
    }
}

/// The body of the reply that reports a failure with `message`: the JSON
/// object whose `result` is `error` and whose `message` is `message`.
pub open spec fn error_body(message: Seq<char>) -> Seq<u8> {
    json_object_of(seq![("result"@, "error"@), ("message"@, message)])
}

/// What is published to answer a request: `data` on the subject that the
/// request names for its reply, and nothing where it names none.
pub open spec fn reply_publication(reply: Option<Seq<char>>, data: Seq<u8>) -> Option<
    PublicationView,
> {
    match reply {
        Some(subject) => Some(PublicationView { subject, payload: data }),
        None => None,
    }
}

impl Handler {
    /// Decides what is published to answer a request with `data`. A request
    /// that names no subject for its reply gets none.
    pub fn send_reply(&self, reply: Option<String>, data: Vec<u8>) -> (res: Option<Publication>)
        ensures
            res.deep_view() == reply_publication(reply.deep_view(), data@),
    {
        match reply {
            Some(subject) => Some(Publication { subject, payload: data }),
            None => None,
        }
    }

    /// Decides what is published to answer a request with an error: the JSON
    /// object whose `result` is `error` and whose `message` is
    /// `error_message`.
    pub fn send_error(&self, reply: Option<String>, error_message: String) -> (res: Option<
        Publication,
    >)
        ensures
            res.deep_view() == reply_publication(reply.deep_view(), error_body(error_message@)),
    {
        let mut members: Vec<(String, String)> = Vec::new();
        members.push((String::from_str("result"), String::from_str("error")));
        members.push((String::from_str("message"), error_message));
        assert(members.deep_view() =~= seq![
            ("result"@, "error"@),
            ("message"@, error_message@),
        ]);
        self.send_reply(reply, json_object(&members))
    }
}

/// What a reply says where the store failed.
pub const STORAGE_ERROR: &'static str = "Internal storage error";

/// That the store holds no model `name`.
pub open spec fn msg_not_found(name: Seq<char>) -> Seq<char> {
    "Model with the name "@ + name + " not found"@
}

/// Writes `msg_not_found`.
pub fn not_found_message(name: &str) -> (res: String)
    ensures
        res@ == msg_not_found(name@),
{
    let mut message = String::from_str("Model with the name ");
    message.append(name);
    message.append(" not found");
    message
}

/// The reply that reports a failure of the store.
pub fn storage_error() -> (res: Action)
    ensures
        res@ == error_reply(STORAGE_ERROR@),
{
    Action::Reply { reply: Reply::Error { message: String::from_str(STORAGE_ERROR) } }
}

} // verus!
