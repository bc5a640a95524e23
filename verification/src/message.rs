//! The messages that travel between a client and the server, and their wire
//! shape.

use crate::json::{json_error, json_quote, json_string_at, json_string_literal, json_syntax_error, json_text_at};
use crate::profile::{id_text, invalid_id_reason, parse_id, ProfileId, ProfileIdView};
use crate::text::same_text;
use vstd::prelude::*;
use vstd::string::StringExecFns;

verus! {

/// An event sent to a client.
#[derive(Debug, PartialEq, Eq)]
pub enum ServerMessage {
    /// A profile changed. `metadata` is the JSON text of the new metadata; it
    /// is carried through and never read.
    ProfileUpdated { id: ProfileId, metadata: String },
    /// A profile was deleted.
    ProfileDeleted { id: ProfileId },
    /// The client's last frame could not be understood.
    Error { message: String },
}

/// Mathematical model of a [`ServerMessage`].
pub enum ServerMessageView {
    ProfileUpdated { id: ProfileIdView, metadata: Seq<char> },
    ProfileDeleted { id: ProfileIdView },
    Error { message: Seq<char> },
}

impl View for ServerMessage {
    type V = ServerMessageView;

    open spec fn view(&self) -> ServerMessageView {
        match *self {
            ServerMessage::ProfileUpdated { id, metadata } => ServerMessageView::ProfileUpdated {
                id: id@,
                metadata: metadata@,
            },
            ServerMessage::ProfileDeleted { id } => ServerMessageView::ProfileDeleted { id: id@ },
            ServerMessage::Error { message } => ServerMessageView::Error { message: message@ },
        }
    }
}

impl Clone for ServerMessage {
    fn clone(&self) -> (copy: ServerMessage)
        ensures
            copy@ == self@,
    {
        match self {
            ServerMessage::ProfileUpdated { id, metadata } => ServerMessage::ProfileUpdated {
                id: id.clone(),
                metadata: metadata.clone(),
            },
            ServerMessage::ProfileDeleted { id } => ServerMessage::ProfileDeleted { id: id.clone() },
            ServerMessage::Error { message } => ServerMessage::Error { message: message.clone() },
        }
    }
}

/// A control message sent by a client.
#[derive(Debug, PartialEq, Eq)]
pub enum ClientMessage {
    Subscribe { profile_id: ProfileId },
    Unsubscribe { profile_id: ProfileId },
}

/// Mathematical model of a [`ClientMessage`].
pub enum ClientMessageView {
    Subscribe { profile_id: ProfileIdView },
    Unsubscribe { profile_id: ProfileIdView },
}

impl View for ClientMessage {
    type V = ClientMessageView;

    open spec fn view(&self) -> ClientMessageView {
        match *self {
            ClientMessage::Subscribe { profile_id } => ClientMessageView::Subscribe {
                profile_id: profile_id@,
            },
            ClientMessage::Unsubscribe { profile_id } => ClientMessageView::Unsubscribe {
                profile_id: profile_id@,
            },
        }
    }
}

/// Why a client frame was not understood.
#[derive(Debug, PartialEq, Eq)]
pub enum DecodeError {
    /// The frame is no JSON document.
    Malformed { detail: String },
    /// The frame has no `event` string.
    MissingEvent,
    /// The `event` is neither `subscribe` nor `unsubscribe`.
    UnknownEvent { name: String },
    /// The frame has no `payload.resourceId` string.
    MissingResourceId,
    /// `payload.resourceId` is no profile identifier.
    InvalidResourceId { text: String },
}

/// Mathematical model of a [`DecodeError`].
pub enum DecodeErrorView {
    Malformed { detail: Seq<char> },
    MissingEvent,
    UnknownEvent { name: Seq<char> },
    MissingResourceId,
    InvalidResourceId { text: Seq<char> },
}

impl View for DecodeError {
    type V = DecodeErrorView;

    open spec fn view(&self) -> DecodeErrorView {
        match *self {
            DecodeError::Malformed { detail } => DecodeErrorView::Malformed { detail: detail@ },
            DecodeError::MissingEvent => DecodeErrorView::MissingEvent,
            DecodeError::UnknownEvent { name } => DecodeErrorView::UnknownEvent { name: name@ },
            DecodeError::MissingResourceId => DecodeErrorView::MissingResourceId,
            DecodeError::InvalidResourceId { text } => DecodeErrorView::InvalidResourceId {
                text: text@,
            },
        }
    }
}

/// What went wrong, in words.
pub open spec fn decode_error_detail(err: DecodeErrorView) -> Seq<char> {
    match err {
        DecodeErrorView::Malformed { detail } => detail,
        DecodeErrorView::MissingEvent => "missing field `event`"@,
        DecodeErrorView::UnknownEvent { name } => "unknown variant `"@ + name
            + "`, expected `subscribe` or `unsubscribe`"@,
        DecodeErrorView::MissingResourceId => "missing field `resourceId`"@,
        DecodeErrorView::InvalidResourceId { text } => invalid_id_reason(text),
    }
}

/// The text of the `error` event that answers a frame which failed with
/// `err`.
pub open spec fn decode_error_message(err: DecodeErrorView) -> Seq<char> {
    "Failed to deserialize message: "@ + decode_error_detail(err) + "."@
}

/// The frame `{"event":<event>,"payload":{<field>:<value>}}`, where `event`
/// and `field` are written between quotes as they are and `value` is JSON
/// text already.
pub open spec fn frame_text(event: Seq<char>, field: Seq<char>, value: Seq<char>) -> Seq<char> {
    "{\"event\":\""@ + event + "\",\"payload\":{\""@ + field + "\":"@ + value + "}}"@
}

/// The wire text of a server message.
pub open spec fn server_frame(msg: ServerMessageView) -> Seq<char> {
    match msg {
        ServerMessageView::ProfileUpdated { id, metadata } => frame_text(
            "profileUpdated"@,
            "metadata"@,
            metadata,
        ),
        ServerMessageView::ProfileDeleted { id } => frame_text(
            "profileDeleted"@,
            "resourceId"@,
            json_string_literal(id_text(id)),
        ),
        ServerMessageView::Error { message } => frame_text(
            "error"@,
            "message"@,
            json_string_literal(message),
        ),
    }
}

/// The client message that an `event` name and a resource identifier text
/// make, both as found in a frame (`None`: not found).
pub open spec fn client_message_of(event: Option<Seq<char>>, resource: Option<Seq<char>>) -> Result<
    ClientMessageView,
    DecodeErrorView,
> {
    match event {
        None => Err(DecodeErrorView::MissingEvent),
        Some(name) => if name != "subscribe"@ && name != "unsubscribe"@ {
            Err(DecodeErrorView::UnknownEvent { name })
        } else {
            match resource {
                None => Err(DecodeErrorView::MissingResourceId),
                Some(text) => match parse_id(text) {
                    None => Err(DecodeErrorView::InvalidResourceId { text }),
                    Some(id) => if name == "subscribe"@ {
                        Ok(ClientMessageView::Subscribe { profile_id: id })
                    } else {
                        Ok(ClientMessageView::Unsubscribe { profile_id: id })
                    },
                },
            }
        },
    }
}

/// The client message that a frame holds.
pub open spec fn decode_frame(text: Seq<char>) -> Result<ClientMessageView, DecodeErrorView> {
    match json_syntax_error(text) {
        Some(detail) => Err(DecodeErrorView::Malformed { detail }),
        None => client_message_of(
            json_text_at(text, "/event"@),
            json_text_at(text, "/payload/resourceId"@),
        ),
    }
}

pub open spec fn option_text(text: Option<String>) -> Option<Seq<char>> {
    match text {
        Some(t) => Some(t@),
        None => None,
    }
}

pub open spec fn decoded_view(decoded: Result<ClientMessage, DecodeError>) -> Result<
    ClientMessageView,
    DecodeErrorView,
> {
    match decoded {
        Ok(msg) => Ok(msg@),
        Err(err) => Err(err@),
    }
}

/// Writes one frame. See [`frame_text`].
pub fn write_frame(event: &str, field: &str, value: &str) -> (frame: String)
    ensures
        frame@ == frame_text(event@, field@, value@),
{
    String::from_str("{\"event\":\"").concat(event).concat("\",\"payload\":{\"").concat(
        field,
    ).concat("\":").concat(value).concat("}}")
}

impl ServerMessage {
    /// The wire text of this message.
    pub fn encode(&self) -> (frame: String)
        ensures
            frame@ == server_frame(self@),
    {
        match self {
            ServerMessage::ProfileUpdated { id, metadata } => write_frame(
                "profileUpdated",
                "metadata",
                metadata.as_str(),
            ),
            ServerMessage::ProfileDeleted { id } => {
                let text = id.as_str();
                let literal = json_quote(text.as_str());
                write_frame("profileDeleted", "resourceId", literal.as_str())
            },
            ServerMessage::Error { message } => {
                let literal = json_quote(message.as_str());
                write_frame("error", "message", literal.as_str())
            },
        }
    }
}

impl DecodeError {
    /// The text of the `error` event that reports this failure.
    pub fn message(&self) -> (text: String)
        ensures
            text@ == decode_error_message(self@),
    {
        let detail = match self {
            DecodeError::Malformed { detail } => detail.clone(),
            DecodeError::MissingEvent => String::from_str("missing field `event`"),
            DecodeError::UnknownEvent { name } => String::from_str("unknown variant `").concat(
                name.as_str(),
            ).concat("`, expected `subscribe` or `unsubscribe`"),
            DecodeError::MissingResourceId => String::from_str("missing field `resourceId`"),
            DecodeError::InvalidResourceId { text } => String::from_str(
                "Invalid profile id: ",
            ).concat(text.as_str()).concat(
                ". Must be a base-64 encoded UUID or a 6-character alphanumeric string.",
            ),
        };
        String::from_str("Failed to deserialize message: ").concat(detail.as_str()).concat(".")
    }
}

impl ClientMessage {
    /// The message made by an event name and a resource identifier text,
    /// each as found in a frame. See [`client_message_of`].
    pub fn from_parts(event: Option<String>, resource: Option<String>) -> (decoded: Result<
        ClientMessage,
        DecodeError,
    >)
        ensures
            decoded_view(decoded) == client_message_of(option_text(event), option_text(resource)),
            decoded matches Ok(ClientMessage::Subscribe { profile_id }) ==> profile_id.wf(),
            decoded matches Ok(ClientMessage::Unsubscribe { profile_id }) ==> profile_id.wf(),
    {
        let name = match event {
            None => {
                return Err(DecodeError::MissingEvent);
            },
            Some(name) => name,
        };
        let subscribe = same_text(name.as_str(), "subscribe");
        let unsubscribe = same_text(name.as_str(), "unsubscribe");
        if !subscribe && !unsubscribe {
            return Err(DecodeError::UnknownEvent { name });
        }
        let text = match resource {
            None => {
                return Err(DecodeError::MissingResourceId);
            },
            Some(text) => text,
        };
        match ProfileId::try_from(text.clone()) {
            Err(_) => Err(DecodeError::InvalidResourceId { text }),
            Ok(profile_id) => if subscribe {
                Ok(ClientMessage::Subscribe { profile_id })
            } else {
                Ok(ClientMessage::Unsubscribe { profile_id })
            },
        }
    }

    /// Reads a client frame: a JSON object whose `event` is `subscribe` or
    /// `unsubscribe` and whose `payload` holds a `resourceId`.
    pub fn decode(text: &str) -> (decoded: Result<ClientMessage, DecodeError>)
        ensures
            decoded_view(decoded) == decode_frame(text@),
            decoded matches Ok(ClientMessage::Subscribe { profile_id }) ==> profile_id.wf(),
            decoded matches Ok(ClientMessage::Unsubscribe { profile_id }) ==> profile_id.wf(),
    {
        match json_error(text) {
            Some(detail) => Err(DecodeError::Malformed { detail }),
            None => {
                let event = json_string_at(text, "/event");
                let resource = json_string_at(text, "/payload/resourceId");
                ClientMessage::from_parts(event, resource)
            },
        }
    }
}

} // verus!
