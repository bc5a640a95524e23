//! What holds of the registry and the fan-out across several operations,
//! stated over the model of subscriptions.

use crate::bus::{event_id, BusEventView};
use crate::profile::ProfileIdView;
use crate::socket::{
    after_event, reaches_exactly, subscribers_of, without_listener, without_profile, Delivery,
    Subscription,
};
use vstd::prelude::*;

verus! {

/// The subscriptions after a run of events reported by the bus.
pub open spec fn after_events(subs: Set<Subscription>, events: Seq<BusEventView>) -> Set<Subscription>
    decreases events.len(),
{
    if events.len() == 0 {
        subs
    } else {
        after_event(after_events(subs, events.drop_last()), events.last())
    }
}

/// How often a report names the listener `uuid`.
pub open spec fn times_reached(report: Seq<Delivery>, uuid: u128) -> nat
    decreases report.len(),
{
    if report.len() == 0 {
        0
    } else {
        times_reached(report.drop_last(), uuid) + if report.last().listener == uuid {
            1nat
        } else {
            0nat
        }
    }
}

/// A report that does not name `uuid` reaches it zero times.
pub proof fn lemma_absent_is_never_reached(report: Seq<Delivery>, uuid: u128)
    requires
        forall|k: int| 0 <= k < report.len() ==> (#[trigger] report[k]).listener != uuid,
    ensures
        times_reached(report, uuid) == 0,
    decreases report.len(),
{
    if report.len() > 0 {
        let head = report.drop_last();
        assert forall|k: int| 0 <= k < head.len() implies (#[trigger] head[k]).listener != uuid by {
            assert(head[k] == report[k]);
        }
        lemma_absent_is_never_reached(head, uuid);
    }
}

/// A report that names `uuid` at one position and nowhere else reaches it
/// once.
pub proof fn lemma_named_once_is_reached_once(report: Seq<Delivery>, uuid: u128, at: int)
    requires
        0 <= at < report.len(),
        report[at].listener == uuid,
        forall|k: int| 0 <= k < report.len() && k != at ==> (#[trigger] report[k]).listener != uuid,
    ensures
        times_reached(report, uuid) == 1,
    decreases report.len(),
{
    let head = report.drop_last();
    if at == report.len() - 1 {
        assert forall|k: int| 0 <= k < head.len() implies (#[trigger] head[k]).listener != uuid by {
            assert(head[k] == report[k]);
        }
        lemma_absent_is_never_reached(head, uuid);
    } else {
        assert(head[at] == report[at]);
        assert forall|k: int| 0 <= k < head.len() && k != at implies (#[trigger] head[k]).listener
            != uuid by {
            assert(head[k] == report[k]);
        }
        lemma_named_once_is_reached_once(head, uuid, at);
        assert(report.last().listener != uuid);
    }
}

/// A fan-out to the subscribers of a profile reaches a subscribed listener
/// exactly once and any other listener not at all.
pub proof fn law_fan_out_reaches_each_subscriber_once(
    subs: Set<Subscription>,
    id: ProfileIdView,
    uuid: u128,
    report: Seq<Delivery>,
)
    requires
        reaches_exactly(report, subscribers_of(subs, id)),
    ensures
        subs.contains((id, uuid)) ==> times_reached(report, uuid) == 1,
        !subs.contains((id, uuid)) ==> times_reached(report, uuid) == 0,
{
    let targets = subscribers_of(subs, id);
    if subs.contains((id, uuid)) {
        assert(targets.contains(uuid));
        let at = choose|k: int| 0 <= k < report.len() && #[trigger] report[k].listener == uuid;
        assert forall|k: int| 0 <= k < report.len() && k != at implies (#[trigger] report[k]).listener
            != uuid by {
            if k < at {
                assert(report[k].listener != report[at].listener);
            } else {
                assert(report[at].listener != report[k].listener);
            }
        }
        lemma_named_once_is_reached_once(report, uuid, at);
    } else {
        assert forall|k: int| 0 <= k < report.len() implies (#[trigger] report[k]).listener
            != uuid by {
            assert(targets.contains(report[k].listener));
        }
        lemma_absent_is_never_reached(report, uuid);
    }
}

/// A listener that subscribes to a profile is reached exactly once by the
/// next fan-out for that profile, whatever the subscriptions were before.
pub proof fn law_subscriber_receives_update_once(
    subs: Set<Subscription>,
    id: ProfileIdView,
    uuid: u128,
    report: Seq<Delivery>,
)
    requires
        reaches_exactly(report, subscribers_of(subs.insert((id, uuid)), id)),
    ensures
        times_reached(report, uuid) == 1,
{
    law_fan_out_reaches_each_subscriber_once(subs.insert((id, uuid)), id, uuid, report);
}

/// Events reported by the bus never add a subscription.
pub proof fn lemma_events_only_remove(subs: Set<Subscription>, events: Seq<BusEventView>)
    ensures
        after_events(subs, events).subset_of(subs),
    decreases events.len(),
{
    if events.len() > 0 {
        lemma_events_only_remove(subs, events.drop_last());
    }
}

/// After a listener unsubscribes from a profile, no fan-out for that
/// profile reaches it, however many events are dispatched in between.
pub proof fn law_unsubscribed_receives_nothing(
    subs: Set<Subscription>,
    id: ProfileIdView,
    uuid: u128,
    events: Seq<BusEventView>,
    report: Seq<Delivery>,
)
    requires
        reaches_exactly(report, subscribers_of(after_events(subs.remove((id, uuid)), events), id)),
    ensures
        times_reached(report, uuid) == 0,
{
    let later = after_events(subs.remove((id, uuid)), events);
    lemma_events_only_remove(subs.remove((id, uuid)), events);
    assert(!later.contains((id, uuid)));
    law_fan_out_reaches_each_subscriber_once(later, id, uuid, report);
}

/// After a connection's teardown the registry holds its identity nowhere,
/// and no fan-out for any profile reaches it, however many events are
/// dispatched in between.
pub proof fn law_disconnected_receives_nothing(
    subs: Set<Subscription>,
    uuid: u128,
    id: ProfileIdView,
    events: Seq<BusEventView>,
    report: Seq<Delivery>,
)
    requires
        reaches_exactly(report, subscribers_of(after_events(without_listener(subs, uuid), events), id)),
    ensures
        forall|s: Subscription| #[trigger] without_listener(subs, uuid).contains(s) ==> s.1 != uuid,
        times_reached(report, uuid) == 0,
{
    let later = after_events(without_listener(subs, uuid), events);
    lemma_events_only_remove(without_listener(subs, uuid), events);
    assert(!later.contains((id, uuid)));
    law_fan_out_reaches_each_subscriber_once(later, id, uuid, report);
}

/// After a teardown, a new listener that subscribes to a profile is the
/// only one of the two that a fan-out for it reaches.
pub proof fn law_only_new_listener_is_notified(
    subs: Set<Subscription>,
    gone: u128,
    fresh: u128,
    id: ProfileIdView,
    report: Seq<Delivery>,
)
    requires
        gone != fresh,
        reaches_exactly(report, subscribers_of(without_listener(subs, gone).insert((id, fresh)), id)),
    ensures
        times_reached(report, fresh) == 1,
        times_reached(report, gone) == 0,
{
    let later = without_listener(subs, gone).insert((id, fresh));
    law_fan_out_reaches_each_subscriber_once(later, id, fresh, report);
    law_fan_out_reaches_each_subscriber_once(later, id, gone, report);
}

/// The fan-out of a deletion clears the profile's subscribers: a later
/// fan-out for the same profile reaches nobody.
pub proof fn law_deleted_profile_has_no_subscribers(
    subs: Set<Subscription>,
    id: ProfileIdView,
    report: Seq<Delivery>,
)
    requires
        reaches_exactly(
            report,
            subscribers_of(after_event(subs, BusEventView::Deleted { id }), id),
        ),
    ensures
        subscribers_of(without_profile(subs, id), id) == Set::<u128>::empty(),
        report.len() == 0,
{
    let later = without_profile(subs, id);
    assert(subscribers_of(later, id) =~= Set::<u128>::empty());
    if report.len() > 0 {
        assert(subscribers_of(later, id).contains(report[0].listener));
    }
}

} // verus!
