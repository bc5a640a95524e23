//! Bus channel names: `update:<id>` and `delete:<id>`.

use crate::profile::{id_text, parse_id, ProfileId, ProfileIdView};
use crate::text::{chars_of, same_text, string_of};
use vstd::prelude::*;
use vstd::string::StringExecFns;

verus! {

/// What happened to a profile.
#[derive(Debug, Clone, Copy, PartialEq, Eq, Structural)]
pub enum EventKind {
    Update,
    Delete,
}

/// The token that stands for an event kind in a channel name.
pub open spec fn kind_token(kind: EventKind) -> Seq<char> {
    match kind {
        EventKind::Update => "update"@,
        EventKind::Delete => "delete"@,
    }
}

/// The channel on which events of `kind` for the profile `id` travel.
pub open spec fn channel_text(kind: EventKind, id: ProfileIdView) -> Seq<char> {
    kind_token(kind) + ":"@ + id_text(id)
}

/// Position of the first `:` in `text`, or the length of `text` where it
/// holds none.
pub open spec fn first_colon(text: Seq<char>) -> int
    decreases text.len(),
{
    if text.len() == 0 || text[0] == ':' {
        0
    } else {
        1 + first_colon(text.drop_first())
    }
}

/// Why a channel name was not understood.
#[derive(Debug, PartialEq, Eq)]
pub enum ChannelError {
    /// The name holds no `:`.
    NoSeparator,
    /// What follows the first `:` is no profile identifier.
    InvalidId { text: String },
    /// What precedes the first `:` is neither `update` nor `delete`.
    UnknownKind { name: String },
}

/// Mathematical model of a [`ChannelError`].
pub enum ChannelErrorView {
    NoSeparator,
    InvalidId { text: Seq<char> },
    UnknownKind { name: Seq<char> },
}

impl View for ChannelError {
    type V = ChannelErrorView;

    open spec fn view(&self) -> ChannelErrorView {
        match *self {
            ChannelError::NoSeparator => ChannelErrorView::NoSeparator,
            ChannelError::InvalidId { text } => ChannelErrorView::InvalidId { text: text@ },
            ChannelError::UnknownKind { name } => ChannelErrorView::UnknownKind { name: name@ },
        }
    }
}

/// The event kind and profile that a channel name stands for. The name is
/// split at its first `:`; the identifier is read before the kind.
pub open spec fn parse_channel(text: Seq<char>) -> Result<(EventKind, ProfileIdView), ChannelErrorView> {
    let at = first_colon(text);
    if at >= text.len() {
        Err(ChannelErrorView::NoSeparator)
    } else {
        let name = text.subrange(0, at);
        let rest = text.subrange(at + 1, text.len() as int);
        match parse_id(rest) {
            None => Err(ChannelErrorView::InvalidId { text: rest }),
            Some(id) => if name == "update"@ {
                Ok((EventKind::Update, id))
            } else if name == "delete"@ {
                Ok((EventKind::Delete, id))
            } else {
                Err(ChannelErrorView::UnknownKind { name })
            },
        }
    }
}

pub open spec fn parsed_view(parsed: Result<(EventKind, ProfileId), ChannelError>) -> Result<
    (EventKind, ProfileIdView),
    ChannelErrorView,
> {
    match parsed {
        Ok((kind, id)) => Ok((kind, id@)),
        Err(err) => Err(err@),
    }
}

/// `first_colon` is bounded by the length, points at a `:` when it is inside
/// the text, and has no `:` before it.
pub proof fn lemma_first_colon(text: Seq<char>)
    ensures
        0 <= first_colon(text) <= text.len(),
        first_colon(text) < text.len() ==> text[first_colon(text)] == ':',
        forall|j: int| 0 <= j < first_colon(text) ==> text[j] != ':',
    decreases text.len(),
{
    if text.len() == 0 || text[0] == ':' {
    } else {
        let rest = text.drop_first();
        lemma_first_colon(rest);
        assert forall|j: int| 0 <= j < first_colon(text) implies text[j] != ':' by {
            if j > 0 {
                assert(text[j] == rest[j - 1]);
            }
        }
        if first_colon(text) < text.len() {
            assert(text[first_colon(text)] == rest[first_colon(rest)]);
        }
    }
}

/// A position that holds the first `:` is `first_colon`.
pub proof fn lemma_first_colon_is(text: Seq<char>, at: int)
    requires
        0 <= at <= text.len(),
        at < text.len() ==> text[at] == ':',
        forall|j: int| 0 <= j < at ==> text[j] != ':',
    ensures
        first_colon(text) == at,
{
    lemma_first_colon(text);
    let found = first_colon(text);
    if found < at {
        assert(text[found] == ':');
    } else if found > at {
        assert(text[at] != ':');
    }
}

/// The name of the channel for events of `kind` on the profile `id`. The
/// name of a well-formed identifier reads back as the same kind and
/// identifier.
pub fn channel_name(kind: EventKind, id: &ProfileId) -> (name: String)
    ensures
        name@ == channel_text(kind, id@),
        id.wf() ==> parse_channel(name@) == Ok::<(EventKind, ProfileIdView), ChannelErrorView>(
            (kind, id@),
        ),
{
    let token = match kind {
        EventKind::Update => "update",
        EventKind::Delete => "delete",
    };
    let text = id.as_str();
    let name = String::from_str(token).concat(":").concat(text.as_str());
    proof {
        reveal_strlit("update");
        reveal_strlit("delete");
        reveal_strlit(":");
        let t = kind_token(kind);
        assert(name@ == t + ":"@ + text@);
        assert(t.len() == 6);
        assert(name@[6] == ':');
        assert forall|j: int| 0 <= j < 6 implies name@[j] != ':' by {
            assert(name@[j] == t[j]);
        }
        lemma_first_colon_is(name@, 6);
        assert(name@.subrange(0, 6) =~= t);
        assert(name@.subrange(7, name@.len() as int) =~= text@);
        assert("update"@ != "delete"@) by {
            assert("update"@[0] != "delete"@[0]);
        }
    }
    name
}

/// The pattern that matches the channels of every profile for events of
/// `kind`.
pub fn subscription_pattern(kind: EventKind) -> (pattern: String)
    ensures
        pattern@ == kind_token(kind) + ":*"@,
{
    match kind {
        EventKind::Update => String::from_str("update").concat(":*"),
        EventKind::Delete => String::from_str("delete").concat(":*"),
    }
}

/// Reads a channel name. See [`parse_channel`].
pub fn decode_channel(name: &str) -> (parsed: Result<(EventKind, ProfileId), ChannelError>)
    ensures
        parsed_view(parsed) == parse_channel(name@),
        parsed matches Ok((_, id)) ==> id.wf(),
{
    let chars = chars_of(name);
    let mut at: usize = 0;
    while at < chars.len() && chars[at] != ':'
        invariant
            at <= chars@.len(),
            forall|j: int| 0 <= j < at ==> chars@[j] != ':',
        decreases chars@.len() - at,
    {
        at = at + 1;
    }
    proof {
        lemma_first_colon_is(name@, at as int);
    }
    if at >= chars.len() {
        return Err(ChannelError::NoSeparator);
    }
    let kind_text = string_of(&chars, 0, at);
    let rest = string_of(&chars, at + 1, chars.len());
    match ProfileId::try_from(rest.clone()) {
        Err(_) => Err(ChannelError::InvalidId { text: rest }),
        Ok(id) => if same_text(kind_text.as_str(), "update") {
            Ok((EventKind::Update, id))
        } else if same_text(kind_text.as_str(), "delete") {
            Ok((EventKind::Delete, id))
        } else {
            Err(ChannelError::UnknownKind { name: kind_text })
        },
    }
}

} // verus!
