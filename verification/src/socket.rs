//! The subscription registry and the local fan-out.
//!
//! A [`State`] records which listener is subscribed to which profile. Its
//! model is the set of `(profile, listener)` pairs; every operation says how
//! it changes that set.

use crate::bus::{
    bus_event_of, decode_push, event_id, BusError, BusEvent, BusEventView, Publication, PushInfo,
};
use crate::channel::{channel_name, channel_text, parse_channel, ChannelErrorView, EventKind};
use crate::json::{json_error, json_quote, json_string_literal, json_syntax_error};
use crate::message::{
    decode_error_message, decode_frame, ClientMessage, ClientMessageView, ServerMessage,
    ServerMessageView,
};
use crate::profile::{id_text, ProfileId, ProfileIdView};
use tokio::sync::mpsc::UnboundedSender;
use vstd::prelude::*;

verus! {

/// `tokio::sync::mpsc::UnboundedSender`, carried through as an opaque value:
/// nothing is known of what a queue holds.
#[verifier::external_type_specification]
#[verifier::external_body]
#[verifier::reject_recursive_types(T)]
pub struct ExUnboundedSender<T>(UnboundedSender<T>);

/// Calls `Uuid::new_v4` and `Uuid::as_u128`. Nothing is claimed of the
/// result: it is random.
#[verifier::external_body]
fn fresh_uuid() -> u128 {
    uuid::Uuid::new_v4().as_u128()
}

/// Calls `UnboundedSender::clone`: a second handle to the same queue.
#[verifier::external_body]
fn clone_sender(tx: &UnboundedSender<ServerMessage>) -> UnboundedSender<ServerMessage> {
    tx.clone()
}

/// Calls `UnboundedSender::send`, which never blocks. `false` means that the
/// receiving half is gone and the message was dropped; which of the two
/// happens is up to the receiver, so nothing is claimed of the result.
#[verifier::external_body]
fn push_event(tx: &UnboundedSender<ServerMessage>, message: ServerMessage) -> bool {
    tx.send(message).is_ok()
}

/// The sending half of a connection's outbound queue.
pub struct EventSender {
    tx: UnboundedSender<ServerMessage>,
}

impl EventSender {
    /// The handle that events are pushed through.
    pub closed spec fn queue(self) -> UnboundedSender<ServerMessage> {
        self.tx
    }

    /// The sender that pushes through `tx`.
    pub fn new(tx: UnboundedSender<ServerMessage>) -> (sender: EventSender)
        ensures
            sender.queue() == tx,
    {
        EventSender { tx }
    }

    /// Queues `message` for the connection's writer, without blocking.
    /// `false`: the writer is gone and the message was dropped.
    pub fn send(&self, message: ServerMessage) -> bool {
        push_event(&self.tx, message)
    }
}

impl Clone for EventSender {
    fn clone(&self) -> EventSender {
        EventSender { tx: clone_sender(&self.tx) }
    }
}

/// One live connection: its identity and its outbound queue. Two listeners
/// with the same `uuid` are the same connection.
pub struct Listener {
    pub uuid: u128,
    pub tx: EventSender,
}

impl Listener {
    /// A listener with a fresh random identity.
    pub fn new(tx: EventSender) -> (listener: Listener)
        ensures
            listener.tx == tx,
    {
        Listener { uuid: fresh_uuid(), tx }
    }
}

impl Clone for Listener {
    fn clone(&self) -> (copy: Listener)
        ensures
            copy.uuid == self.uuid,
    {
        Listener { uuid: self.uuid, tx: self.tx.clone() }
    }
}

/// A subscription: a profile and the identity of a listener.
pub type Subscription = (ProfileIdView, u128);

/// The listeners subscribed to `id`.
pub open spec fn subscribers_of(subs: Set<Subscription>, id: ProfileIdView) -> Set<u128> {
    Set::new(|uuid: u128| subs.contains((id, uuid)))
}

/// `subs` without every subscription of the listener `uuid`.
pub open spec fn without_listener(subs: Set<Subscription>, uuid: u128) -> Set<Subscription> {
    Set::new(|s: Subscription| subs.contains(s) && s.1 != uuid)
}

/// `subs` without every subscription to the profile `id`.
pub open spec fn without_profile(subs: Set<Subscription>, id: ProfileIdView) -> Set<Subscription> {
    Set::new(|s: Subscription| subs.contains(s) && s.0 != id)
}

/// The subscriptions after a listener's control message was applied.
pub open spec fn apply_message(subs: Set<Subscription>, uuid: u128, msg: ClientMessageView) -> Set<
    Subscription,
> {
    match msg {
        ClientMessageView::Subscribe { profile_id } => subs.insert((profile_id, uuid)),
        ClientMessageView::Unsubscribe { profile_id } => subs.remove((profile_id, uuid)),
    }
}

/// The outcome of one push to one listener.
#[derive(Debug, Clone, Copy, PartialEq, Eq)]
pub struct Delivery {
    pub listener: u128,
    /// `false`: the listener's queue was closed and the event was dropped.
    pub delivered: bool,
}

/// The report names exactly the listeners in `targets`, each once.
pub open spec fn reaches_exactly(report: Seq<Delivery>, targets: Set<u128>) -> bool {
    &&& forall|k: int| 0 <= k < report.len() ==> targets.contains(#[trigger] report[k].listener)
    &&& forall|uuid: u128|
        targets.contains(uuid) ==> exists|k: int|
            0 <= k < report.len() && #[trigger] report[k].listener == uuid
    &&& forall|k: int, l: int|
        0 <= k < l < report.len() ==> #[trigger] report[k].listener != #[trigger] report[l].listener
}

/// An event and the outcome of pushing it to each of its targets.
#[derive(Debug, PartialEq, Eq)]
pub struct Dispatch {
    pub message: ServerMessage,
    pub report: Vec<Delivery>,
}

/// The event that tells clients of a change reported by the bus.
pub open spec fn message_of_event(event: BusEventView) -> ServerMessageView {
    match event {
        BusEventView::Updated { id, metadata } => ServerMessageView::ProfileUpdated { id, metadata },
        BusEventView::Deleted { id } => ServerMessageView::ProfileDeleted { id },
    }
}

/// The subscriptions after the bus reported a change: a deletion ends every
/// subscription to the deleted profile, an update ends none.
pub open spec fn after_event(subs: Set<Subscription>, event: BusEventView) -> Set<Subscription> {
    match event {
        BusEventView::Updated { .. } => subs,
        BusEventView::Deleted { id } => without_profile(subs, id),
    }
}

/// One frame read from a connection.
#[derive(Debug, PartialEq, Eq)]
pub enum SocketFrame {
    Text(String),
    Close,
    /// A binary frame, a ping or a pong.
    Other,
}

/// What the reader does with a frame.
#[derive(Debug, PartialEq, Eq)]
pub enum ReadAction {
    /// Apply the control message to the registry and go on reading.
    Apply(ClientMessage),
    /// Tell the client that its frame was not understood and go on reading.
    Reply(ServerMessage),
    /// Pass the frame over and go on reading.
    Skip,
    /// Stop reading: the client closed the connection.
    Stop,
}

/// Mathematical model of a [`ReadAction`].
pub enum ReadActionView {
    Apply(ClientMessageView),
    Reply(ServerMessageView),
    Skip,
    Stop,
}

impl View for ReadAction {
    type V = ReadActionView;

    open spec fn view(&self) -> ReadActionView {
        match *self {
            ReadAction::Apply(msg) => ReadActionView::Apply(msg@),
            ReadAction::Reply(msg) => ReadActionView::Reply(msg@),
            ReadAction::Skip => ReadActionView::Skip,
            ReadAction::Stop => ReadActionView::Stop,
        }
    }
}

/// What the reader does with a text frame: a frame that is understood is
/// applied, any other is answered with an `error` event.
pub open spec fn text_action(text: Seq<char>) -> ReadActionView {
    match decode_frame(text) {
        Ok(msg) => ReadActionView::Apply(msg),
        Err(err) => ReadActionView::Reply(
            ServerMessageView::Error { message: decode_error_message(err) },
        ),
    }
}

/// A frame that is not understood is answered with one `error` event and
/// never stops the reader.
pub proof fn law_malformed_frame_is_answered(text: Seq<char>)
    requires
        decode_frame(text) is Err,
    ensures
        text_action(text) == ReadActionView::Reply(
            ServerMessageView::Error { message: decode_error_message(decode_frame(text)->Err_0) },
        ),
        text_action(text) !is Stop,
{
}

/// Decides what the reader does with `frame`. No frame but a close frame
/// stops the reader.
pub fn read_action(frame: SocketFrame) -> (action: ReadAction)
    ensures
        action@ == match frame {
            SocketFrame::Text(text) => text_action(text@),
            SocketFrame::Close => ReadActionView::Stop,
            SocketFrame::Other => ReadActionView::Skip,
        },
{
    match frame {
        SocketFrame::Text(text) => match ClientMessage::decode(text.as_str()) {
            Ok(msg) => ReadAction::Apply(msg),
            Err(err) => ReadAction::Reply(ServerMessage::Error { message: err.message() }),
        },
        SocketFrame::Close => ReadAction::Stop,
        SocketFrame::Other => ReadAction::Skip,
    }
}

struct Entry {
    id: ProfileId,
    listeners: Vec<Listener>,
}

spec fn listed(listeners: Seq<Listener>, uuid: u128) -> bool {
    exists|j: int| 0 <= j < listeners.len() && #[trigger] listeners[j].uuid == uuid
}

spec fn distinct(listeners: Seq<Listener>) -> bool {
    forall|a: int, b: int|
        0 <= a < b < listeners.len() ==> #[trigger] listeners[a].uuid != #[trigger] listeners[b].uuid
}

spec fn holds(e: Entry, s: Subscription) -> bool {
    e.id@ == s.0 && listed(e.listeners@, s.1)
}

spec fn pairs(entries: Seq<Entry>) -> Set<Subscription> {
    Set::new(|s: Subscription| exists|i: int| 0 <= i < entries.len() && holds(#[trigger] entries[i], s))
}

spec fn well_formed(entries: Seq<Entry>) -> bool {
    &&& forall|i: int, j: int|
        0 <= i < j < entries.len() ==> #[trigger] entries[i].id@ != #[trigger] entries[j].id@
    &&& forall|i: int| 0 <= i < entries.len() ==> distinct(#[trigger] entries[i].listeners@)
}

/// The registry: who listens to which profile.
pub struct State {
    entries: Vec<Entry>,
}

impl View for State {
    type V = Set<Subscription>;

    closed spec fn view(&self) -> Set<Subscription> {
        pairs(self.entries@)
    }
}

/// Position of the listener `uuid` in `listeners`.
fn find_listener(listeners: &Vec<Listener>, uuid: u128) -> (found: Option<usize>)
    ensures
        match found {
            Some(j) => j < listeners@.len() && listeners@[j as int].uuid == uuid,
            None => !listed(listeners@, uuid),
        },
{
    let mut j: usize = 0;
    while j < listeners.len()
        invariant
            j <= listeners@.len(),
            forall|k: int| 0 <= k < j ==> listeners@[k].uuid != uuid,
        decreases listeners@.len() - j,
    {
        if listeners[j].uuid == uuid {
            return Some(j);
        }
        j = j + 1;
    }
    None
}

proof fn lemma_pairs_without(entries: Seq<Entry>, i: int)
    requires
        well_formed(entries),
        0 <= i < entries.len(),
    ensures
        well_formed(entries.remove(i)),
        pairs(entries.remove(i)) == without_profile(pairs(entries), entries[i].id@),
{
    let rest = entries.remove(i);
    assert forall|a: int, b: int| 0 <= a < b < rest.len() implies #[trigger] rest[a].id@
        != #[trigger] rest[b].id@ by {
        let a0 = if a < i { a } else { a + 1 };
        let b0 = if b < i { b } else { b + 1 };
        assert(rest[a] == entries[a0]);
        assert(rest[b] == entries[b0]);
    }
    assert forall|a: int| 0 <= a < rest.len() implies distinct(#[trigger] rest[a].listeners@) by {
        let a0 = if a < i { a } else { a + 1 };
        assert(rest[a] == entries[a0]);
    }
    let want = without_profile(pairs(entries), entries[i].id@);
    assert forall|s: Subscription| pairs(rest).contains(s) == want.contains(s) by {
        if pairs(rest).contains(s) {
            let a = choose|a: int| 0 <= a < rest.len() && holds(#[trigger] rest[a], s);
            let a0 = if a < i { a } else { a + 1 };
            assert(rest[a] == entries[a0]);
            assert(holds(entries[a0], s));
        }
        if want.contains(s) {
            let a0 = choose|a0: int| 0 <= a0 < entries.len() && holds(#[trigger] entries[a0], s);
            assert(a0 != i);
            let a = if a0 < i { a0 } else { a0 - 1 };
            assert(rest[a] == entries[a0]);
            assert(holds(rest[a], s));
        }
    }
    assert(pairs(rest) =~= want);
}

proof fn lemma_pairs_with(entries: Seq<Entry>, e: Entry)
    requires
        well_formed(entries),
        distinct(e.listeners@),
        forall|i: int| 0 <= i < entries.len() ==> #[trigger] entries[i].id@ != e.id@,
    ensures
        well_formed(entries.push(e)),
        forall|s: Subscription| #[trigger]
            pairs(entries.push(e)).contains(s) == (pairs(entries).contains(s) || holds(e, s)),
{
    let more = entries.push(e);
    assert forall|s: Subscription| #[trigger]
        pairs(more).contains(s) == (pairs(entries).contains(s) || holds(e, s)) by {
        if pairs(more).contains(s) {
            let a = choose|a: int| 0 <= a < more.len() && holds(#[trigger] more[a], s);
            if a < entries.len() {
                assert(more[a] == entries[a]);
                assert(holds(entries[a], s));
            }
        }
        if pairs(entries).contains(s) {
            let a = choose|a: int| 0 <= a < entries.len() && holds(#[trigger] entries[a], s);
            assert(more[a] == entries[a]);
            assert(holds(more[a], s));
        }
        if holds(e, s) {
            assert(more[entries.len() as int] == e);
            assert(holds(more[entries.len() as int], s));
        }
    }
}

/// Position of the entry of `id`.
fn find_entry(entries: &Vec<Entry>, id: &ProfileId) -> (found: Option<usize>)
    ensures
        match found {
            Some(i) => i < entries@.len() && entries@[i as int].id@ == id@,
            None => forall|i: int| 0 <= i < entries@.len() ==> (#[trigger] entries@[i]).id@ != id@,
        },
{
    let mut i: usize = 0;
    while i < entries.len()
        invariant
            i <= entries@.len(),
            forall|k: int| 0 <= k < i ==> (#[trigger] entries@[k]).id@ != id@,
        decreases entries@.len() - i,
    {
        if entries[i].id.same(id) {
            return Some(i);
        }
        i = i + 1;
    }
    None
}

/// Takes the listener `uuid` out of `listeners`, if it is there.
fn strip(listeners: &mut Vec<Listener>, uuid: u128)
    requires
        distinct(old(listeners)@),
    ensures
        distinct(final(listeners)@),
        forall|u: u128|
            listed(final(listeners)@, u) == (listed(old(listeners)@, u) && u != uuid),
{
    match find_listener(listeners, uuid) {
        None => {},
        Some(j) => {
            let ghost before = listeners@;
            listeners.remove(j);
            proof {
                let after = listeners@;
                assert forall|k: int| 0 <= k < after.len() implies #[trigger] after[k]
                    == before[if k < j { k } else { k + 1 }] by {}
                assert forall|u: u128| listed(after, u) == (listed(before, u) && u != uuid) by {
                    if listed(after, u) {
                        let k = choose|k: int| 0 <= k < after.len() && #[trigger] after[k].uuid == u;
                        let k0 = if k < j { k } else { k + 1 };
                        assert(after[k] == before[k0]);
                        assert(before[k0].uuid == u);
                    }
                    if listed(before, u) && u != uuid {
                        let k0 = choose|k0: int|
                            0 <= k0 < before.len() && #[trigger] before[k0].uuid == u;
                        let k = if k0 < j { k0 } else { k0 - 1 };
                        assert(after[k] == before[k0]);
                    }
                }
                assert forall|a: int, b: int| 0 <= a < b < after.len() implies #[trigger] after[a].uuid
                    != #[trigger] after[b].uuid by {
                    assert(after[a] == before[if a < j { a } else { a + 1 }]);
                    assert(after[b] == before[if b < j { b } else { b + 1 }]);
                }
            }
        },
    }
}

/// Adds `listener` to `listeners` unless a listener with its identity is
/// there already.
fn enlist(listeners: &mut Vec<Listener>, listener: Listener)
    requires
        distinct(old(listeners)@),
    ensures
        distinct(final(listeners)@),
        forall|u: u128|
            listed(final(listeners)@, u) == (listed(old(listeners)@, u) || u == listener.uuid),
{
    match find_listener(listeners, listener.uuid) {
        Some(_) => {},
        None => {
            let ghost before = listeners@;
            listeners.push(listener);
            proof {
                let after = listeners@;
                assert forall|u: u128|
                    listed(after, u) == (listed(before, u) || u == listener.uuid) by {
                    if listed(after, u) {
                        let k = choose|k: int| 0 <= k < after.len() && #[trigger] after[k].uuid == u;
                        if k < before.len() {
                            assert(after[k] == before[k]);
                        }
                    }
                    if listed(before, u) {
                        let k = choose|k: int| 0 <= k < before.len() && #[trigger] before[k].uuid == u;
                        assert(after[k] == before[k]);
                    }
                    if u == listener.uuid {
                        assert(after[before.len() as int].uuid == u);
                    }
                }
                assert forall|a: int, b: int| 0 <= a < b < after.len() implies #[trigger] after[a].uuid
                    != #[trigger] after[b].uuid by {
                    if b < before.len() {
                        assert(after[a] == before[a]);
                        assert(after[b] == before[b]);
                    } else {
                        assert(after[a] == before[a]);
                        assert(before[a].uuid != listener.uuid);
                    }
                }
            }
        },
    }
}

/// Replacing one entry's listeners changes the subscriptions to that
/// entry's profile and no others.
proof fn lemma_pairs_update(entries: Seq<Entry>, i: int, e: Entry)
    requires
        well_formed(entries),
        0 <= i < entries.len(),
        e.id@ == entries[i].id@,
        distinct(e.listeners@),
    ensures
        well_formed(entries.update(i, e)),
        forall|s: Subscription| #[trigger]
            pairs(entries.update(i, e)).contains(s) == (if s.0 == e.id@ {
                listed(e.listeners@, s.1)
            } else {
                pairs(entries).contains(s)
            }),
{
    let next = entries.update(i, e);
    assert forall|a: int, b: int| 0 <= a < b < next.len() implies #[trigger] next[a].id@
        != #[trigger] next[b].id@ by {
        assert(next[a].id@ == entries[a].id@);
        assert(next[b].id@ == entries[b].id@);
    }
    assert forall|s: Subscription| #[trigger]
        pairs(next).contains(s) == (if s.0 == e.id@ {
            listed(e.listeners@, s.1)
        } else {
            pairs(entries).contains(s)
        }) by {
        if pairs(next).contains(s) {
            let a = choose|a: int| 0 <= a < next.len() && holds(#[trigger] next[a], s);
            if a != i {
                assert(next[a] == entries[a]);
                assert(holds(entries[a], s));
                assert(entries[a].id@ != entries[i].id@);
            }
        }
        if s.0 == e.id@ && listed(e.listeners@, s.1) {
            assert(holds(next[i], s));
        }
        if s.0 != e.id@ && pairs(entries).contains(s) {
            let a = choose|a: int| 0 <= a < entries.len() && holds(#[trigger] entries[a], s);
            assert(a != i);
            assert(next[a] == entries[a]);
            assert(holds(next[a], s));
        }
    }
}

/// In a well-formed registry the subscribers of a profile are the listeners
/// of its one entry.
proof fn lemma_pairs_at(entries: Seq<Entry>, i: int)
    requires
        well_formed(entries),
        0 <= i < entries.len(),
    ensures
        forall|u: u128| #[trigger]
            pairs(entries).contains((entries[i].id@, u)) == listed(entries[i].listeners@, u),
{
    assert forall|u: u128| #[trigger]
        pairs(entries).contains((entries[i].id@, u)) == listed(entries[i].listeners@, u) by {
        let s: Subscription = (entries[i].id@, u);
        if pairs(entries).contains(s) {
            let a = choose|a: int| 0 <= a < entries.len() && holds(#[trigger] entries[a], s);
            assert(a == i);
        }
        if listed(entries[i].listeners@, u) {
            assert(holds(entries[i], s));
        }
    }
}

/// No entry for a profile: no subscriber to it.
proof fn lemma_pairs_absent(entries: Seq<Entry>, id: ProfileIdView)
    requires
        forall|i: int| 0 <= i < entries.len() ==> (#[trigger] entries[i]).id@ != id,
    ensures
        forall|u: u128| !(#[trigger] pairs(entries).contains((id, u))),
{
    assert forall|u: u128| !(#[trigger] pairs(entries).contains((id, u))) by {
        let s: Subscription = (id, u);
        if pairs(entries).contains(s) {
            let a = choose|a: int| 0 <= a < entries.len() && holds(#[trigger] entries[a], s);
            assert(entries[a].id@ != id);
        }
    }
}

/// Drops the entries that hold no listener. The subscriptions stay as they
/// are.
fn prune(entries: &mut Vec<Entry>)
    requires
        well_formed(old(entries)@),
    ensures
        well_formed(final(entries)@),
        pairs(final(entries)@) == pairs(old(entries)@),
        forall|k: int|
            0 <= k < final(entries)@.len() ==> (#[trigger] final(entries)@[k]).listeners@.len() > 0,
{
    let ghost before = entries@;
    let mut i: usize = 0;
    while i < entries.len()
        invariant
            i <= entries@.len(),
            well_formed(entries@),
            pairs(entries@) == pairs(before),
            forall|k: int| 0 <= k < i ==> (#[trigger] entries@[k]).listeners@.len() > 0,
        decreases entries@.len() - i,
    {
        if entries[i].listeners.len() == 0 {
            proof {
                let current = entries@;
                lemma_pairs_without(current, i as int);
                lemma_pairs_at(current, i as int);
                assert forall|u: u128| !listed(current[i as int].listeners@, u) by {}
                assert(without_profile(pairs(current), current[i as int].id@) =~= pairs(current));
            }
            entries.remove(i);
        } else {
            i = i + 1;
        }
    }
}

impl State {
    #[verifier::type_invariant]
    spec fn inv(self) -> bool {
        well_formed(self.entries@)
    }

    /// A registry without subscriptions.
    pub fn new() -> (state: State)
        ensures
            state@ == Set::<Subscription>::empty(),
    {
        let state = State { entries: Vec::new() };
        assert(state@ =~= Set::<Subscription>::empty());
        state
    }

    /// Moves the entries out, leaving the registry empty.
    fn take_entries(&mut self) -> (entries: Vec<Entry>)
        ensures
            entries@ == old(self).entries@,
            well_formed(entries@),
            final(self).entries@.len() == 0,
    {
        proof {
            use_type_invariant(&*self);
        }
        let mut entries: Vec<Entry> = Vec::new();
        core::mem::swap(&mut self.entries, &mut entries);
        entries
    }

    /// Whether `uuid` is subscribed to `id`.
    pub fn is_subscribed(&self, id: &ProfileId, uuid: u128) -> (yes: bool)
        ensures
            yes == self@.contains((id@, uuid)),
    {
        proof {
            use_type_invariant(self);
        }
        match find_entry(&self.entries, id) {
            None => false,
            Some(i) => {
                let found = find_listener(&self.entries[i].listeners, uuid);
                proof {
                    let s: Subscription = (id@, uuid);
                    if found is Some {
                        assert(holds(self.entries@[i as int], s));
                    } else {
                        if self@.contains(s) {
                            let a = choose|a: int|
                                0 <= a < self.entries@.len() && holds(#[trigger] self.entries@[a], s);
                            assert(a == i);
                        }
                    }
                }
                found.is_some()
            },
        }
    }
    /// Subscribes `listener` to `id`. Subscribing twice changes nothing.
    pub fn subscribe(&mut self, id: ProfileId, listener: Listener)
        ensures
            final(self)@ == old(self)@.insert((id@, listener.uuid)),
    {
        let mut entries = self.take_entries();
        let ghost before = entries@;
        let ghost s: Subscription = (id@, listener.uuid);
        match find_entry(&entries, &id) {
            None => {
                let mut listeners: Vec<Listener> = Vec::new();
                listeners.push(listener);
                let entry = Entry { id, listeners };
                proof {
                    assert(entry.listeners@[0].uuid == s.1);
                    lemma_pairs_with(before, entry);
                    assert forall|t: Subscription| holds(entry, t) == (t == s) by {
                        if holds(entry, t) {
                            let j = choose|j: int|
                                0 <= j < entry.listeners@.len() && #[trigger] entry.listeners@[j].uuid
                                    == t.1;
                        }
                    }
                    assert(pairs(before.push(entry)) =~= pairs(before).insert(s));
                }
                entries.push(entry);
            },
            Some(i) => {
                let mut entry = entries.remove(i);
                proof {
                    lemma_pairs_at(before, i as int);
                    lemma_pairs_without(before, i as int);
                }
                enlist(&mut entry.listeners, listener);
                proof {
                    let rest = before.remove(i as int);
                    assert forall|k: int| 0 <= k < rest.len() implies (#[trigger] rest[k]).id@
                        != entry.id@ by {
                        assert(rest[k] == before[if k < i { k } else { k + 1 }]);
                    }
                    lemma_pairs_with(rest, entry);
                    assert(pairs(rest.push(entry)) =~= pairs(before).insert(s));
                }
                entries.push(entry);
            },
        }
        self.entries = entries;
    }

    /// Ends the subscription of the listener `uuid` to `id`. Without such a
    /// subscription nothing changes.
    pub fn unsubscribe(&mut self, id: &ProfileId, uuid: u128)
        ensures
            final(self)@ == old(self)@.remove((id@, uuid)),
    {
        let mut entries = self.take_entries();
        let ghost before = entries@;
        let ghost s: Subscription = (id@, uuid);
        match find_entry(&entries, id) {
            None => {
                proof {
                    lemma_pairs_absent(before, id@);
                    assert(pairs(before) =~= pairs(before).remove(s));
                }
            },
            Some(i) => {
                let mut entry = entries.remove(i);
                proof {
                    lemma_pairs_at(before, i as int);
                    lemma_pairs_without(before, i as int);
                }
                strip(&mut entry.listeners, uuid);
                if entry.listeners.len() > 0 {
                    proof {
                        let rest = before.remove(i as int);
                        assert forall|k: int| 0 <= k < rest.len() implies (#[trigger] rest[k]).id@
                            != entry.id@ by {
                            assert(rest[k] == before[if k < i { k } else { k + 1 }]);
                        }
                        lemma_pairs_with(rest, entry);
                        assert(pairs(rest.push(entry)) =~= pairs(before).remove(s));
                    }
                    entries.push(entry);
                } else {
                    proof {
                        assert forall|u: u128| !listed(entry.listeners@, u) by {}
                        assert(pairs(before.remove(i as int)) =~= pairs(before).remove(s));
                    }
                }
            },
        }
        self.entries = entries;
    }

    /// Forgets every subscription to `id`.
    pub fn drop_resource(&mut self, id: &ProfileId)
        ensures
            final(self)@ == without_profile(old(self)@, id@),
    {
        let mut entries = self.take_entries();
        let ghost before = entries@;
        match find_entry(&entries, id) {
            None => {
                proof {
                    lemma_pairs_absent(before, id@);
                    assert(pairs(before) =~= without_profile(pairs(before), id@));
                }
            },
            Some(i) => {
                proof {
                    lemma_pairs_without(before, i as int);
                }
                entries.remove(i);
            },
        }
        self.entries = entries;
    }

    /// The listeners subscribed to `id`, each once.
    pub fn subscribers(&self, id: &ProfileId) -> (uuids: Vec<u128>)
        ensures
            uuids@.no_duplicates(),
            uuids@.to_set() == subscribers_of(self@, id@),
    {
        proof {
            use_type_invariant(self);
        }
        let mut uuids: Vec<u128> = Vec::new();
        match find_entry(&self.entries, id) {
            None => {
                proof {
                    lemma_pairs_absent(self.entries@, id@);
                    assert(uuids@.to_set() =~= subscribers_of(self@, id@));
                }
            },
            Some(i) => {
                let listeners = &self.entries[i].listeners;
                let mut j: usize = 0;
                while j < listeners.len()
                    invariant
                        j <= listeners@.len(),
                        uuids@.len() == j,
                        forall|k: int| 0 <= k < j ==> uuids@[k] == (#[trigger] listeners@[k]).uuid,
                    decreases listeners@.len() - j,
                {
                    uuids.push(listeners[j].uuid);
                    j = j + 1;
                }
                proof {
                    lemma_pairs_at(self.entries@, i as int);
                    assert forall|a: int, b: int| 0 <= a < b < uuids@.len() implies uuids@[a]
                        != uuids@[b] by {
                        assert(listeners@[a].uuid != listeners@[b].uuid);
                    }
                    assert forall|u: u128| uuids@.to_set().contains(u) == subscribers_of(
                        self@,
                        id@,
                    ).contains(u) by {
                        if uuids@.contains(u) {
                            let k = choose|k: int| 0 <= k < uuids@.len() && uuids@[k] == u;
                            assert(listeners@[k].uuid == u);
                        }
                        if listed(listeners@, u) {
                            let k = choose|k: int|
                                0 <= k < listeners@.len() && #[trigger] listeners@[k].uuid == u;
                            assert(uuids@[k] == u);
                        }
                    }
                    assert(uuids@.to_set() =~= subscribers_of(self@, id@));
                }
            },
        }
        uuids
    }

    /// Pushes `message` onto the queue of every listener subscribed to `id`
    /// and reports each push. A push to a closed queue is dropped.
    pub fn notify_local(&self, id: &ProfileId, message: &ServerMessage) -> (report: Vec<Delivery>)
        ensures
            reaches_exactly(report@, subscribers_of(self@, id@)),
    {
        proof {
            use_type_invariant(self);
        }
        let mut report: Vec<Delivery> = Vec::new();
        match find_entry(&self.entries, id) {
            None => {
                proof {
                    lemma_pairs_absent(self.entries@, id@);
                }
            },
            Some(i) => {
                let listeners = &self.entries[i].listeners;
                let mut j: usize = 0;
                while j < listeners.len()
                    invariant
                        j <= listeners@.len(),
                        report@.len() == j,
                        forall|k: int|
                            0 <= k < j ==> (#[trigger] report@[k]).listener == listeners@[k].uuid,
                    decreases listeners@.len() - j,
                {
                    let delivered = listeners[j].tx.send(message.clone());
                    report.push(Delivery { listener: listeners[j].uuid, delivered });
                    j = j + 1;
                }
                proof {
                    lemma_pairs_at(self.entries@, i as int);
                    let targets = subscribers_of(self@, id@);
                    assert forall|k: int| 0 <= k < report@.len() implies targets.contains(
                        #[trigger] report@[k].listener,
                    ) by {
                        assert(listeners@[k].uuid == report@[k].listener);
                    }
                    assert forall|u: u128| targets.contains(u) implies exists|k: int|
                        0 <= k < report@.len() && #[trigger] report@[k].listener == u by {
                        let k = choose|k: int|
                            0 <= k < listeners@.len() && #[trigger] listeners@[k].uuid == u;
                        assert(report@[k].listener == u);
                    }
                    assert forall|k: int, l: int| 0 <= k < l < report@.len() implies #[trigger] report@[k].listener
                        != #[trigger] report@[l].listener by {
                        assert(listeners@[k].uuid != listeners@[l].uuid);
                    }
                }
            },
        }
        report
    }
    /// Ends every subscription of the listener `uuid`: the teardown of a
    /// connection.
    pub fn remove_everywhere(&mut self, uuid: u128)
        ensures
            final(self)@ == without_listener(old(self)@, uuid),
    {
        let mut entries = self.take_entries();
        let ghost before = entries@;
        let mut i: usize = 0;
        while i < entries.len()
            invariant
                i <= entries@.len(),
                entries@.len() == before.len(),
                well_formed(entries@),
                forall|k: int| 0 <= k < before.len() ==> (#[trigger] entries@[k]).id@ == before[k].id@,
                forall|k: int, u: u128|
                    0 <= k < i ==> (#[trigger] listed(entries@[k].listeners@, u)) == (listed(
                        before[k].listeners@,
                        u,
                    ) && u != uuid),
                forall|k: int| i <= k < before.len() ==> (#[trigger] entries@[k]) == before[k],
            decreases entries@.len() - i,
        {
            let ghost current = entries@;
            let mut entry = entries.remove(i);
            strip(&mut entry.listeners, uuid);
            entries.insert(i, entry);
            proof {
                assert(entries@ =~= current.update(i as int, entry));
                lemma_pairs_update(current, i as int, entry);
                assert forall|k: int, u: u128| 0 <= k < i + 1 implies (#[trigger] listed(
                    entries@[k].listeners@,
                    u,
                )) == (listed(before[k].listeners@, u) && u != uuid) by {
                    if k < i {
                        assert(entries@[k] == current[k]);
                    }
                }
                assert forall|k: int| i + 1 <= k < before.len() implies (#[trigger] entries@[k])
                    == before[k] by {
                    assert(entries@[k] == current[k]);
                }
            }
            i = i + 1;
        }
        proof {
            let after = entries@;
            assert forall|s: Subscription| pairs(after).contains(s) == without_listener(
                pairs(before),
                uuid,
            ).contains(s) by {
                if pairs(after).contains(s) {
                    let a = choose|a: int| 0 <= a < after.len() && holds(#[trigger] after[a], s);
                    assert(listed(after[a].listeners@, s.1));
                    assert(holds(before[a], s));
                }
                if pairs(before).contains(s) && s.1 != uuid {
                    let a = choose|a: int| 0 <= a < before.len() && holds(#[trigger] before[a], s);
                    assert(listed(after[a].listeners@, s.1));
                    assert(holds(after[a], s));
                }
            }
            assert(pairs(after) =~= without_listener(pairs(before), uuid));
        }
        prune(&mut entries);
        self.entries = entries;
    }

    /// Applies a listener's control message.
    pub fn apply(&mut self, listener: &Listener, message: ClientMessage)
        ensures
            final(self)@ == apply_message(old(self)@, listener.uuid, message@),
    {
        match message {
            ClientMessage::Subscribe { profile_id } => self.subscribe(profile_id, listener.clone()),
            ClientMessage::Unsubscribe { profile_id } => self.unsubscribe(&profile_id, listener.uuid),
        }
    }

    /// Tells every listener subscribed to `id` that the profile now has
    /// `metadata`. The registry does not change.
    pub fn notify_updated(&self, id: &ProfileId, metadata: String) -> (sent: Dispatch)
        ensures
            sent.message@ == (ServerMessageView::ProfileUpdated { id: id@, metadata: metadata@ }),
            reaches_exactly(sent.report@, subscribers_of(self@, id@)),
    {
        let message = ServerMessage::ProfileUpdated { id: id.clone(), metadata };
        let report = self.notify_local(id, &message);
        Dispatch { message, report }
    }

    /// Tells every listener subscribed to `id` that the profile was deleted,
    /// then forgets every subscription to it.
    pub fn notify_deleted(&mut self, id: &ProfileId) -> (sent: Dispatch)
        ensures
            sent.message@ == (ServerMessageView::ProfileDeleted { id: id@ }),
            reaches_exactly(sent.report@, subscribers_of(old(self)@, id@)),
            final(self)@ == without_profile(old(self)@, id@),
    {
        let message = ServerMessage::ProfileDeleted { id: id.clone() };
        let report = self.notify_local(id, &message);
        self.drop_resource(id);
        Dispatch { message, report }
    }

    /// Announces that the profile `id` now has `metadata`, which is JSON text.
    /// `None` exactly when `metadata` is no JSON document: nothing is published
    /// that a receiver would reject.
    pub fn notify_profile_updated(&self, id: &ProfileId, metadata: &str) -> (publication: Option<Publication>)
        ensures
            publication is Some <==> json_syntax_error(metadata@) is None,
            publication matches Some(p) ==> {
                &&& p.channel@ == channel_text(EventKind::Update, id@)
                &&& p.payload@ == metadata@
                &&& id.wf() ==> parse_channel(p.channel@) == Ok::<
                    (EventKind, ProfileIdView),
                    ChannelErrorView,
                >((EventKind::Update, id@))
            },
    {
        match json_error(metadata) {
            Some(_) => None,
            None => Some(
                Publication { channel: channel_name(EventKind::Update, id), payload: metadata.to_owned() },
            ),
        }
    }

    /// Announces that the profile `id` was deleted. The payload is the
    /// identifier as a JSON string; receivers do not read it.
    pub fn notify_profile_deleted(&self, id: &ProfileId) -> (publication: Publication)
        ensures
            publication.channel@ == channel_text(EventKind::Delete, id@),
            publication.payload@ == json_string_literal(id_text(id@)),
            id.wf() ==> parse_channel(publication.channel@) == Ok::<
                (EventKind, ProfileIdView),
                ChannelErrorView,
            >((EventKind::Delete, id@)),
    {
        let text = id.as_str();
        Publication { channel: channel_name(EventKind::Delete, id), payload: json_quote(text.as_str()) }
    }

    /// Fans out a change that the bus reported.
    pub fn dispatch(&mut self, event: BusEvent) -> (sent: Dispatch)
        ensures
            sent.message@ == message_of_event(event@),
            reaches_exactly(sent.report@, subscribers_of(old(self)@, event_id(event@))),
            final(self)@ == after_event(old(self)@, event@),
    {
        match event {
            BusEvent::Updated { id, metadata } => self.notify_updated(&id, metadata),
            BusEvent::Deleted { id } => self.notify_deleted(&id),
        }
    }

    /// Handles one push from the bus: reads it and fans the change out. A
    /// push that is no pattern message is passed over; one that is not
    /// understood is an error and changes nothing.
    pub fn handle_redis_message(&mut self, msg: &PushInfo) -> (result: Result<Option<Dispatch>, BusError>)
        ensures
            match bus_event_of(msg.kind, msg.data@) {
                Ok(Some(event)) => result matches Ok(Some(sent)) && sent.message@ == message_of_event(
                    event,
                ) && reaches_exactly(
                    sent.report@,
                    subscribers_of(old(self)@, event_id(event)),
                ) && final(self)@ == after_event(old(self)@, event),
                Ok(None) => result matches Ok(None) && final(self)@ == old(self)@,
                Err(err) => result matches Err(e) && e@ == err && final(self)@ == old(self)@,
            },
    {
        match decode_push(msg) {
            Err(err) => Err(err),
            Ok(None) => Ok(None),
            Ok(Some(event)) => Ok(Some(self.dispatch(event))),
        }
    }
}

/// Carries out what [`read_action`] decided for the connection `listener`.
/// `false` stops the reader: after `Stop`, and after a reply that could not
/// be queued because the connection's writer is gone.
pub fn perform(state: &mut State, listener: &Listener, action: ReadAction) -> (go_on: bool)
    ensures
        final(state)@ == match action@ {
            ReadActionView::Apply(msg) => apply_message(old(state)@, listener.uuid, msg),
            _ => old(state)@,
        },
        action is Apply || action is Skip ==> go_on,
        action is Stop ==> !go_on,
{
    match action {
        ReadAction::Apply(msg) => {
            state.apply(listener, msg);
            true
        },
        ReadAction::Reply(msg) => listener.tx.send(msg),
        ReadAction::Skip => true,
        ReadAction::Stop => false,
    }
}

} // verus!