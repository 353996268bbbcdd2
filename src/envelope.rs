use crate::errors::ClientError;
use crate::text::{decimal, decimal_value, parse_decimal, push_decimal, text_is};
use vstd::prelude::*;
use vstd::string::*;

verus! {

/// The event tag of an envelope.
#[derive(Clone, Copy, Debug, PartialEq, Eq, Structural)]
pub enum MessageType {
    PartRequest,
    Status,
    Complete,
    InitiateUpload,
    Reply,
    Heartbeat,
    Join,
}

/// The name under which an event travels on the wire.
pub open spec fn event_name(t: MessageType) -> Seq<char> {
    match t {
        MessageType::PartRequest => "part_request"@,
        MessageType::Status => "status"@,
        MessageType::Complete => "complete_upload"@,
        MessageType::InitiateUpload => "initiate_upload"@,
        MessageType::Reply => "phx_reply"@,
        MessageType::Heartbeat => "heartbeat"@,
        MessageType::Join => "phx_join"@,
    }
}

/// The event a wire name stands for, if any.
pub open spec fn event_of_name(s: Seq<char>) -> Option<MessageType> {
    if s == "part_request"@ {
        Some(MessageType::PartRequest)
    } else if s == "status"@ {
        Some(MessageType::Status)
    } else if s == "complete_upload"@ {
        Some(MessageType::Complete)
    } else if s == "initiate_upload"@ {
        Some(MessageType::InitiateUpload)
    } else if s == "phx_reply"@ {
        Some(MessageType::Reply)
    } else if s == "heartbeat"@ {
        Some(MessageType::Heartbeat)
    } else if s == "phx_join"@ {
        Some(MessageType::Join)
    } else {
        None
    }
}

impl MessageType {
    /// The wire name of this event.
    pub fn wire_name(&self) -> (r: &'static str)
        ensures
            r@ == event_name(*self),
    {
        match self {
            MessageType::PartRequest => "part_request",
            MessageType::Status => "status",
            MessageType::Complete => "complete_upload",
            MessageType::InitiateUpload => "initiate_upload",
            MessageType::Reply => "phx_reply",
            MessageType::Heartbeat => "heartbeat",
            MessageType::Join => "phx_join",
        }
    }

    /// The event that a wire name stands for.
    pub fn from_wire_name(s: &str) -> (r: Option<MessageType>)
        ensures
            r == event_of_name(s@),
    {
        if text_is(s, "part_request") {
            Some(MessageType::PartRequest)
        } else if text_is(s, "status") {
            Some(MessageType::Status)
        } else if text_is(s, "complete_upload") {
            Some(MessageType::Complete)
        } else if text_is(s, "initiate_upload") {
            Some(MessageType::InitiateUpload)
        } else if text_is(s, "phx_reply") {
            Some(MessageType::Reply)
        } else if text_is(s, "heartbeat") {
            Some(MessageType::Heartbeat)
        } else if text_is(s, "phx_join") {
            Some(MessageType::Join)
        } else {
            None
        }
    }
}

/// The join an envelope belongs to; `None` for traffic outside any join.
#[derive(Clone, Copy, Debug, PartialEq, Eq, Structural)]
pub struct JoinReference(pub Option<u64>);

/// A sender's reference for correlating replies with requests.
#[derive(Clone, Debug)]
pub enum MsgReference {
    Number(u64),
    Text(String),
}

/// The logical channel an envelope travels on, `"<kind>:<id>"`.
#[derive(Clone, Debug)]
pub struct Topic(pub String);

/// The unit exchanged with the server: join reference, message reference,
/// topic, event and payload, in this order. The payload is kept as JSON text
/// and is opaque to the transport.
#[derive(Clone, Debug)]
pub struct ChannelMessage(pub JoinReference, pub MsgReference, pub Topic, pub MessageType, pub String);

/// The JSON text of `s` as a string literal, quotes and escapes included.
pub uninterp spec fn json_quoted(s: Seq<char>) -> Seq<char>;

/// The texts of the elements of the JSON array that `text` holds, each in
/// compact form; `None` if `text` is not a JSON array.
pub uninterp spec fn json_array_items(text: Seq<char>) -> Option<Seq<Seq<char>>>;

/// The string that the JSON string literal `text` denotes; `None` if `text`
/// is not a JSON string.
pub uninterp spec fn json_string_value(text: Seq<char>) -> Option<Seq<char>>;

/// Relies on serde_json::to_string: a `str` serialises to its JSON string
/// literal. Writing a `str` into a `Vec` cannot fail, so no error comes back.
#[verifier::external_body]
fn quote_json(s: &str) -> (r: String)
    ensures
        r@ == json_quoted(s@),
{
    match serde_json::to_string(s) {
        Ok(q) => q,
        Err(_) => String::new(),
    }
}

/// Relies on serde_json::from_str into a `Vec<serde_json::Value>`, with each
/// element printed back by the `Display` of `serde_json::Value` (compact JSON).
#[verifier::external_body]
fn split_json_array(text: &str) -> (r: Option<Vec<String>>)
    ensures
        match r {
            None => json_array_items(text@) is None,
            Some(v) => json_array_items(text@) == Some(v@.map_values(|s: String| s@)),
        },
{
    match serde_json::from_str::<Vec<serde_json::Value>>(text) {
        Ok(items) => Some(items.iter().map(|v| v.to_string()).collect()),
        Err(_) => None,
    }
}

/// Relies on serde_json::from_str into a `String`: the value of a JSON string
/// literal.
#[verifier::external_body]
fn unquote_json(text: &str) -> (r: Option<String>)
    ensures
        match r {
            None => json_string_value(text@) is None,
            Some(s) => json_string_value(text@) == Some(s@),
        },
{
    match serde_json::from_str::<String>(text) {
        Ok(s) => Some(s),
        Err(_) => None,
    }
}

pub open spec fn join_ref_text(j: JoinReference) -> Seq<char> {
    match j.0 {
        None => "null"@,
        Some(n) => decimal(n as nat),
    }
}

pub open spec fn msg_ref_text(m: MsgReference) -> Seq<char> {
    match m {
        MsgReference::Number(n) => decimal(n as nat),
        MsgReference::Text(t) => json_quoted(t@),
    }
}

/// The wire text of an envelope: a JSON array of its five parts.
pub open spec fn frame_text(m: ChannelMessage) -> Seq<char> {
    "["@ + join_ref_text(m.0) + ","@ + msg_ref_text(m.1) + ","@ + json_quoted(m.2.0@) + ","@
        + "\""@ + event_name(m.3) + "\""@ + ","@ + m.4@ + "]"@
}

/// The join reference that the first element of a frame spells.
pub open spec fn join_ref_of(item: Seq<char>) -> Option<JoinReference> {
    if item == "null"@ {
        Some(JoinReference(None))
    } else {
        match decimal_value(item) {
            Some(n) => Some(JoinReference(Some(n))),
            None => None,
        }
    }
}

/// Whether the second element of a frame is a message reference.
pub open spec fn is_msg_ref(item: Seq<char>) -> bool {
    decimal_value(item) is Some || json_string_value(item) is Some
}

/// `m` is the message reference that `item` spells: a number if it is one,
/// else the string it quotes.
pub open spec fn msg_ref_is(m: MsgReference, item: Seq<char>) -> bool {
    match decimal_value(item) {
        Some(n) => m == MsgReference::Number(n),
        None => match m {
            MsgReference::Text(t) => json_string_value(item) == Some(t@),
            MsgReference::Number(_) => false,
        },
    }
}

/// Whether `text` is a well-formed frame: a JSON array of exactly five
/// elements whose parts each have the expected shape and whose event tag is
/// known.
pub open spec fn well_formed_frame(text: Seq<char>) -> bool {
    match json_array_items(text) {
        None => false,
        Some(items) => items.len() == 5 && join_ref_of(items[0]) is Some && is_msg_ref(items[1])
            && json_string_value(items[2]) is Some && match json_string_value(items[3]) {
            None => false,
            Some(name) => event_of_name(name) is Some,
        },
    }
}

/// `m` is the envelope that the well-formed frame `text` carries.
pub open spec fn decodes_to(text: Seq<char>, m: ChannelMessage) -> bool {
    let items = json_array_items(text)->Some_0;
    &&& Some(m.0) == join_ref_of(items[0])
    &&& msg_ref_is(m.1, items[1])
    &&& json_string_value(items[2]) == Some(m.2.0@)
    &&& Some(m.3) == event_of_name(json_string_value(items[3])->Some_0)
    &&& m.4@ == items[4]
}

impl ChannelMessage {
    /// The wire text of this envelope.
    pub fn encode(&self) -> (r: String)
        ensures
            r@ == frame_text(*self),
    {
        let mut out = String::from_str("[");
        match self.0.0 {
            None => out.append("null"),
            Some(n) => push_decimal(&mut out, n),
        }
        out.append(",");
        match &self.1 {
            MsgReference::Number(n) => push_decimal(&mut out, *n),
            MsgReference::Text(t) => {
                let q = quote_json(t.as_str());
                out.append(q.as_str());
            },
        }
        out.append(",");
        let topic = quote_json(self.2.0.as_str());
        out.append(topic.as_str());
        out.append(",");
        out.append("\"");
        out.append(self.3.wire_name());
        out.append("\"");
        out.append(",");
        out.append(self.4.as_str());
        out.append("]");
        assert(out@ =~= frame_text(*self));
        out
    }

    /// Read an envelope from its wire text. Fails with `MalformedEnvelope`
    /// exactly when the text is not a five-element array of the expected
    /// shape with a known event tag.
    pub fn decode(text: &str) -> (r: Result<ChannelMessage, ClientError>)
        ensures
            match r {
                Ok(m) => well_formed_frame(text@) && decodes_to(text@, m),
                Err(e) => !well_formed_frame(text@) && e is MalformedEnvelope,
            },
    {
        let items = match split_json_array(text) {
            None => return Err(ClientError::MalformedEnvelope),
            Some(items) => items,
        };
        let ghost views = items@.map_values(|s: String| s@);
        if items.len() != 5 {
            return Err(ClientError::MalformedEnvelope);
        }
        assert(views[0] == items[0]@ && views[1] == items[1]@ && views[2] == items[2]@);
        assert(views[3] == items[3]@ && views[4] == items[4]@);
        let join = if text_is(items[0].as_str(), "null") {
            JoinReference(None)
        } else {
            match parse_decimal(items[0].as_str()) {
                Some(n) => JoinReference(Some(n)),
                None => return Err(ClientError::MalformedEnvelope),
            }
        };
        let msg_ref = match parse_decimal(items[1].as_str()) {
            Some(n) => MsgReference::Number(n),
            None => match unquote_json(items[1].as_str()) {
                Some(t) => MsgReference::Text(t),
                None => return Err(ClientError::MalformedEnvelope),
            },
        };
        let topic = match unquote_json(items[2].as_str()) {
            Some(t) => t,
            None => return Err(ClientError::MalformedEnvelope),
        };
        let event = match unquote_json(items[3].as_str()) {
            Some(name) => match MessageType::from_wire_name(name.as_str()) {
                Some(e) => e,
                None => return Err(ClientError::MalformedEnvelope),
            },
            None => return Err(ClientError::MalformedEnvelope),
        };
        let payload = items[4].clone();
        Ok(ChannelMessage(join, msg_ref, Topic(topic), event, payload))
    }
}

/// The object store an upload is headed for.
#[derive(Clone, Copy, Debug, PartialEq, Eq, Structural)]
pub enum DestinationType {
    Azure,
    S3,
    LakeFS,
}

pub open spec fn destination_name(d: DestinationType) -> Seq<char> {
    match d {
        DestinationType::Azure => "azure"@,
        DestinationType::S3 => "s3"@,
        DestinationType::LakeFS => "lakefs"@,
    }
}

impl DestinationType {
    /// The name of the destination kind on the wire.
    pub fn wire_name(&self) -> (r: &'static str)
        ensures
            r@ == destination_name(*self),
    {
        match self {
            DestinationType::Azure => "azure",
            DestinationType::S3 => "s3",
            DestinationType::LakeFS => "lakefs",
        }
    }
}

/// The body of an `InitiateUpload` envelope.
#[derive(Clone, Debug)]
pub struct InitiateUploadPayload {
    pub id: String,
    pub destination_type: DestinationType,
    pub file_path: String,
}

/// The JSON text of an `InitiateUpload` payload.
pub open spec fn initiate_upload_text(
    id: Seq<char>,
    destination: DestinationType,
    file_path: Seq<char>,
) -> Seq<char> {
    "{\"id\":"@ + json_quoted(id) + ",\"destination_type\":\""@ + destination_name(destination)
        + "\",\"file_path\":"@ + json_quoted(file_path) + "}"@
}

impl InitiateUploadPayload {
    pub fn new(id: String, destination_type: DestinationType, file_path: String) -> (r:
        InitiateUploadPayload)
        ensures
            r.id@ == id@,
            r.destination_type == destination_type,
            r.file_path@ == file_path@,
    {
        InitiateUploadPayload { id, destination_type, file_path }
    }

    /// The payload as JSON text, fields in declaration order.
    pub fn to_json(&self) -> (r: String)
        ensures
            r@ == initiate_upload_text(self.id@, self.destination_type, self.file_path@),
    {
        let mut out = String::from_str("{\"id\":");
        let id = quote_json(self.id.as_str());
        out.append(id.as_str());
        out.append(",\"destination_type\":\"");
        out.append(self.destination_type.wire_name());
        out.append("\",\"file_path\":");
        let path = quote_json(self.file_path.as_str());
        out.append(path.as_str());
        out.append("}");
        assert(out@ =~= initiate_upload_text(self.id@, self.destination_type, self.file_path@));
        out
    }
}

} // verus!
