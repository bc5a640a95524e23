//! The bus bridge: what is published when a profile changes, and what a
//! message received from the bus means.

use crate::channel::{decode_channel, parse_channel, ChannelError, ChannelErrorView, EventKind};
use crate::json::{json_error, json_syntax_error};
use crate::profile::{valid_id, ProfileId, ProfileIdView};
use vstd::prelude::*;
use vstd::utf8::{decode_utf8, valid_utf8};

verus! {

/// Calls `core::str::from_utf8`.
///
/// Trusted: the bytes are read as text exactly when they are valid UTF-8,
/// and the text is then their decoding.
#[verifier::external_body]
fn utf8_text(bytes: &[u8]) -> (text: Option<&str>)
    ensures
        match text {
            Some(s) => valid_utf8(bytes@) && s@ == decode_utf8(bytes@),
            None => !valid_utf8(bytes@),
        },
{
    core::str::from_utf8(bytes).ok()
}

/// A message for the bus: where to publish and what.
#[derive(Debug, PartialEq, Eq)]
pub struct Publication {
    pub channel: String,
    pub payload: String,
}

/// The kind of a push received from the bus.
#[derive(Debug, Clone, Copy, PartialEq, Eq, Structural)]
pub enum PushKind {
    /// A message that matched a pattern subscription.
    PMessage,
    /// Any other push.
    Other,
}

/// One value of a push.
#[derive(Debug, PartialEq, Eq)]
pub enum PushValue {
    BulkString(Vec<u8>),
    /// Any value that is no bulk string.
    Other,
}

/// A push received from the bus. A pattern message holds the pattern, the
/// channel name and the payload, in this order.
#[derive(Debug, PartialEq, Eq)]
pub struct PushInfo {
    pub kind: PushKind,
    pub data: Vec<PushValue>,
}

/// A change reported by the bus.
#[derive(Debug, PartialEq, Eq)]
pub enum BusEvent {
    Updated { id: ProfileId, metadata: String },
    Deleted { id: ProfileId },
}

/// Mathematical model of a [`BusEvent`].
pub enum BusEventView {
    Updated { id: ProfileIdView, metadata: Seq<char> },
    Deleted { id: ProfileIdView },
}

impl View for BusEvent {
    type V = BusEventView;

    open spec fn view(&self) -> BusEventView {
        match *self {
            BusEvent::Updated { id, metadata } => BusEventView::Updated {
                id: id@,
                metadata: metadata@,
            },
            BusEvent::Deleted { id } => BusEventView::Deleted { id: id@ },
        }
    }
}

/// Why a push was not understood.
#[derive(Debug, PartialEq, Eq)]
pub enum BusError {
    /// The second value is missing or no bulk string.
    ExpectedChannel,
    /// The channel name is not valid UTF-8.
    ChannelNotText,
    /// The channel name has no `:` or no profile identifier after it.
    Channel { error: ChannelError },
    /// The third value is missing or no bulk string.
    ExpectedPayload,
    /// The channel name starts with an unknown event kind.
    UnknownEvent { name: String },
    /// The payload of an update is not valid UTF-8.
    PayloadNotText,
    /// The payload of an update is no JSON document.
    InvalidPayload { detail: String },
}

/// Mathematical model of a [`BusError`].
pub enum BusErrorView {
    ExpectedChannel,
    ChannelNotText,
    Channel { error: ChannelErrorView },
    ExpectedPayload,
    UnknownEvent { name: Seq<char> },
    PayloadNotText,
    InvalidPayload { detail: Seq<char> },
}

impl View for BusError {
    type V = BusErrorView;

    open spec fn view(&self) -> BusErrorView {
        match *self {
            BusError::ExpectedChannel => BusErrorView::ExpectedChannel,
            BusError::ChannelNotText => BusErrorView::ChannelNotText,
            BusError::Channel { error } => BusErrorView::Channel { error: error@ },
            BusError::ExpectedPayload => BusErrorView::ExpectedPayload,
            BusError::UnknownEvent { name } => BusErrorView::UnknownEvent { name: name@ },
            BusError::PayloadNotText => BusErrorView::PayloadNotText,
            BusError::InvalidPayload { detail } => BusErrorView::InvalidPayload { detail: detail@ },
        }
    }
}

/// The bytes of the bulk string at position `at`, if there is one.
pub open spec fn bulk_at(data: Seq<PushValue>, at: int) -> Option<Seq<u8>> {
    if 0 <= at < data.len() {
        match data[at] {
            PushValue::BulkString(bytes) => Some(bytes@),
            PushValue::Other => None,
        }
    } else {
        None
    }
}

/// What an update's payload means: its text, if it is a JSON document.
pub open spec fn update_of(id: ProfileIdView, payload: Seq<u8>) -> Result<
    Option<BusEventView>,
    BusErrorView,
> {
    if !valid_utf8(payload) {
        Err(BusErrorView::PayloadNotText)
    } else {
        match json_syntax_error(decode_utf8(payload)) {
            Some(detail) => Err(BusErrorView::InvalidPayload { detail }),
            None => Ok(Some(BusEventView::Updated { id, metadata: decode_utf8(payload) })),
        }
    }
}

/// What a pattern message means, given what its channel name reads as and
/// the bytes of its payload (`None`: no bulk string). A channel name without
/// `:` or without an identifier fails first, a missing payload next, an
/// unknown event kind last. The payload of a deletion is not read.
pub open spec fn channel_event(
    parsed: Result<(EventKind, ProfileIdView), ChannelErrorView>,
    payload: Option<Seq<u8>>,
) -> Result<Option<BusEventView>, BusErrorView> {
    match parsed {
        Err(ChannelErrorView::UnknownKind { name }) => match payload {
            None => Err(BusErrorView::ExpectedPayload),
            Some(_) => Err(BusErrorView::UnknownEvent { name }),
        },
        Err(error) => Err(BusErrorView::Channel { error }),
        Ok((kind, id)) => match payload {
            None => Err(BusErrorView::ExpectedPayload),
            Some(bytes) => match kind {
                EventKind::Update => update_of(id, bytes),
                EventKind::Delete => Ok(Some(BusEventView::Deleted { id })),
            },
        },
    }
}

/// What a push means. `Ok(None)`: the push is no pattern message and is
/// passed over. Of a pattern message the first value, the pattern, is not
/// read; the second is the channel name and the third the payload.
pub open spec fn bus_event_of(kind: PushKind, data: Seq<PushValue>) -> Result<
    Option<BusEventView>,
    BusErrorView,
> {
    if kind != PushKind::PMessage {
        Ok(None)
    } else {
        match bulk_at(data, 1) {
            None => Err(BusErrorView::ExpectedChannel),
            Some(name) => if !valid_utf8(name) {
                Err(BusErrorView::ChannelNotText)
            } else {
                channel_event(parse_channel(decode_utf8(name)), bulk_at(data, 2))
            },
        }
    }
}

pub open spec fn bus_result_view(result: Result<Option<BusEvent>, BusError>) -> Result<
    Option<BusEventView>,
    BusErrorView,
> {
    match result {
        Ok(Some(event)) => Ok(Some(event@)),
        Ok(None) => Ok(None),
        Err(err) => Err(err@),
    }
}

/// The identifier that an event speaks of.
pub open spec fn event_id(event: BusEventView) -> ProfileIdView {
    match event {
        BusEventView::Updated { id, .. } => id,
        BusEventView::Deleted { id } => id,
    }
}

/// The bulk string at position `at`, if there is one.
fn bulk_string(data: &Vec<PushValue>, at: usize) -> (bytes: Option<&Vec<u8>>)
    ensures
        match bytes {
            Some(b) => bulk_at(data@, at as int) == Some(b@),
            None => bulk_at(data@, at as int) is None,
        },
{
    if at < data.len() {
        match &data[at] {
            PushValue::BulkString(bytes) => Some(bytes),
            PushValue::Other => None,
        }
    } else {
        None
    }
}

/// Reads a push. See [`bus_event_of`].
pub fn decode_push(msg: &PushInfo) -> (result: Result<Option<BusEvent>, BusError>)
    ensures
        bus_result_view(result) == bus_event_of(msg.kind, msg.data@),
        result matches Ok(Some(event)) ==> valid_id(event_id(event@)),
{
    if msg.kind != PushKind::PMessage {
        return Ok(None);
    }
    let name = match bulk_string(&msg.data, 1) {
        None => {
            return Err(BusError::ExpectedChannel);
        },
        Some(bytes) => match utf8_text(bytes.as_slice()) {
            None => {
                return Err(BusError::ChannelNotText);
            },
            Some(name) => name,
        },
    };
    let payload = bulk_string(&msg.data, 2);
    match decode_channel(name) {
        Err(ChannelError::UnknownKind { name }) => match payload {
            None => Err(BusError::ExpectedPayload),
            Some(_) => Err(BusError::UnknownEvent { name }),
        },
        Err(error) => Err(BusError::Channel { error }),
        Ok((kind, id)) => match payload {
            None => Err(BusError::ExpectedPayload),
            Some(bytes) => match kind {
                EventKind::Delete => Ok(Some(BusEvent::Deleted { id })),
                EventKind::Update => match utf8_text(bytes.as_slice()) {
                    None => Err(BusError::PayloadNotText),
                    Some(text) => match json_error(text) {
                        Some(detail) => Err(BusError::InvalidPayload { detail }),
                        None => Ok(Some(BusEvent::Updated { id, metadata: text.to_owned() })),
                    },
                },
            },
        },
    }
}

} // verus!
