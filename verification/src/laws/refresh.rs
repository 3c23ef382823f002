//! What holds of bringing a headset up to date.
use vstd::prelude::*;
use crate::errors::{DeviceError, HidError};
use crate::events::DeviceEvent;
use crate::properties::DeviceProperties;
use crate::query::QueryReply;
use crate::refresh::{
    active_refresh, after_heard, after_replies, after_reply, battery_reply_step, battery_step,
    begin_step, first_passive_step, heard_connection, left_after, next_step, passive_refresh,
    replied_connection, reply_step, reports_connection, PassiveStep, RefreshStep,
};
use crate::state::apply_events;

verus! {

/// The events of the replies, one reply after another.
pub open spec fn events_of(replies: Seq<QueryReply>) -> Seq<DeviceEvent>
    decreases replies.len(),
{
    if replies.len() == 0 {
        Seq::empty()
    } else {
        events_of(replies.drop_last()) + match replies.last() {
            QueryReply::Events(events) => events@,
            _ => Seq::empty(),
        }
    }
}

/// A reply with events has them all taken up; any other reply changes nothing.
pub proof fn replies_are_taken_up(
    p: DeviceProperties,
    events: Vec<DeviceEvent>,
    e: HidError,
    replies: Seq<QueryReply>,
)
    ensures
        after_reply(p, QueryReply::Events(events)) == apply_events(p, events@),
        after_reply(p, QueryReply::NoResponse) == p,
        after_reply(p, QueryReply::WriteFailed(e)) == p,
        after_heard(p, Some(events)) == apply_events(p, events@),
        after_heard(p, None) == p,
        after_replies(p, replies) == apply_events(p, events_of(replies)),
{
    after_replies_are_events(p, replies);
}

/// The packets are sent in order: the next one is the first that is left, and it is then
/// no longer left. Where none is left, the refresh succeeds exactly where something was
/// answered.
pub proof fn packets_are_sent_in_order(pending: Seq<Vec<u8>>, responded: bool)
    ensures
        pending.len() > 0 ==> (next_step(pending, responded) matches RefreshStep::Query(packet, wait)
            && packet == pending[0] && wait.delay.total_nanos() == 50 * 1_000_000
            && wait.limit.total_nanos() == 1_000_000_000),
        pending.len() > 0 ==> seq![pending[0]] + left_after(pending, next_step(pending, responded))
            == pending,
        pending.len() == 0 && responded ==> next_step(pending, responded) == RefreshStep::Done(
            Ok(()),
        ),
        pending.len() == 0 && !responded ==> next_step(pending, responded) == RefreshStep::Done(
            Err(DeviceError::NoResponse()),
        ),
{
    if pending.len() > 0 {
        assert(seq![pending[0]] + pending.skip(1) =~= pending);
    }
}

/// A failed write ends an active refresh with its error. Any other reply is followed by
/// the next packet exactly where the headset is known to be connected; otherwise the
/// refresh ends, and succeeds exactly where something was answered.
pub proof fn replies_decide_what_follows(
    pending: Seq<Vec<u8>>,
    responded: bool,
    after: DeviceProperties,
    reply: QueryReply,
    prepared: Result<(), DeviceError>,
)
    ensures
        reply matches QueryReply::WriteFailed(e) ==> reply_step(pending, responded, after, reply)
            == RefreshStep::Done(Err(DeviceError::HidError(e))),
        !(reply is WriteFailed) && after.connected == Some(true) ==> reply_step(
            pending,
            responded,
            after,
            reply,
        ) == next_step(pending, responded),
        !(reply is WriteFailed) && after.connected != Some(true) && responded ==> reply_step(
            pending,
            responded,
            after,
            reply,
        ) == RefreshStep::Done(Ok(())),
        !(reply is WriteFailed) && after.connected != Some(true) && !responded ==> reply_step(
            pending,
            responded,
            after,
            reply,
        ) == RefreshStep::Done(Err(DeviceError::NoResponse())),
        prepared is Ok ==> begin_step(prepared, pending, responded) == next_step(
            pending,
            responded,
        ),
        prepared matches Err(d) ==> begin_step(prepared, pending, responded) == RefreshStep::Done(
            Err(d),
        ),
{
}

/// A whole active refresh takes up the events of all the replies to the packets that it
/// sent, in order. It ends with the error of a write that failed, and otherwise succeeds
/// exactly where some packet was answered; an unanswered one is no response.
pub proof fn active_refresh_takes_up_all_events(
    packets: Seq<Vec<u8>>,
    p: DeviceProperties,
    replies: Seq<QueryReply>,
)
    requires
        replies.len() >= packets.len(),
    ensures
        ({
            let run = active_refresh(packets, p, replies);
            let taken = replies.take(run.sent.len() as int);
            let failed = taken.len() > 0 && taken.last() is WriteFailed;
            let answered = exists|i: int| 0 <= i < taken.len() && (#[trigger] taken[i]) is Events;
            &&& run.sent.len() <= packets.len()
            &&& run.sent == packets.take(run.sent.len() as int)
            &&& packets.len() > 0 ==> run.sent.len() > 0
            &&& run.properties == apply_events(p, events_of(taken))
            &&& failed ==> run.result == Err::<(), DeviceError>(
                DeviceError::HidError(taken.last()->WriteFailed_0),
            )
            &&& !failed && answered ==> run.result == Ok::<(), DeviceError>(())
            &&& !failed && !answered ==> run.result == Err::<(), DeviceError>(
                DeviceError::NoResponse(),
            )
        }),
{
    let run = active_refresh(packets, p, replies);
    let taken = replies.take(run.sent.len() as int);
    crate::refresh::active_refresh_takes_up_replies(packets, p, replies);
    crate::refresh::active_refresh_result(packets, p, replies);
    after_replies_are_events(p, taken);
}

proof fn after_replies_are_events(p: DeviceProperties, replies: Seq<QueryReply>)
    ensures
        after_replies(p, replies) == apply_events(p, events_of(replies)),
    decreases replies.len(),
{
    if replies.len() > 0 {
        let front = replies.drop_last();
        after_replies_are_events(p, front);
        match replies.last() {
            QueryReply::Events(last) => {
                crate::laws::batches_of_events_add_up(p, events_of(front), last@);
            },
            _ => {
                assert(events_of(replies) =~= events_of(front));
            },
        }
    }
}

/// A headset has reported that it is connected exactly where that very event is among
/// those that were heard or came as a reply.
pub proof fn connection_is_reported_by_its_event(
    events: Vec<DeviceEvent>,
    heard: Option<Vec<DeviceEvent>>,
    reply: QueryReply,
)
    ensures
        reports_connection(events@) <==> events@.contains(DeviceEvent::WirelessConnected(true)),
        heard is None ==> !heard_connection(heard),
        heard matches Some(h) ==> (heard_connection(heard) <==> h@.contains(
            DeviceEvent::WirelessConnected(true),
        )),
        !(reply is Events) ==> !replied_connection(reply),
        reply matches QueryReply::Events(r) ==> (replied_connection(reply) <==> r@.contains(
            DeviceEvent::WirelessConnected(true),
        )),
{
}

/// A passive refresh listens for two seconds where that is allowed, and then asks for the
/// battery level where there is a packet for it. It asks for everything exactly where a
/// connection was reported and no write failed.
pub proof fn passive_refresh_takes_these_steps(
    allowed: bool,
    requested: bool,
    packet: Option<Vec<u8>>,
    reply: QueryReply,
)
    ensures
        allowed ==> (first_passive_step(allowed) matches PassiveStep::Listen(d) && d.total_nanos()
            == 2_000_000_000 && d.wf()),
        !allowed ==> first_passive_step(allowed) is FetchBatteryPacket,
        packet matches Some(p) ==> (battery_step(requested, packet) matches PassiveStep::Query(
            sent,
            wait,
        ) && sent == p && wait.delay.total_nanos() == 50 * 1_000_000 && wait.limit.total_nanos()
            == 1_000_000_000),
        packet is None && requested ==> battery_step(requested, packet) is RefreshAll,
        packet is None && !requested ==> battery_step(requested, packet) == PassiveStep::Done(
            Ok(()),
        ),
        reply matches QueryReply::WriteFailed(e) ==> battery_reply_step(requested, reply)
            == PassiveStep::Done(Err(DeviceError::HidError(e))),
        !(reply is WriteFailed) && requested ==> battery_reply_step(requested, reply) is RefreshAll,
        !(reply is WriteFailed) && !requested ==> battery_reply_step(requested, reply)
            == PassiveStep::Done(Ok(())),
{
}

/// A whole passive refresh takes up what was heard, where it listened, and after that what
/// came as a reply, where it asked. It goes on to an active refresh exactly where that
/// holds a report of a connection and the battery query, if there was one, was written.
pub proof fn passive_refresh_takes_up_all_events(
    p: DeviceProperties,
    allowed: bool,
    heard: Option<Vec<DeviceEvent>>,
    packet: Option<Vec<u8>>,
    reply: QueryReply,
)
    ensures
        ({
            let run = passive_refresh(p, allowed, heard, packet, reply);
            let first = if allowed && heard is Some { heard->0@ } else { Seq::empty() };
            let second = if packet is Some && reply is Events {
                reply->Events_0@
            } else {
                Seq::empty()
            };
            let failed = packet is Some && reply is WriteFailed;
            let connected = first.contains(DeviceEvent::WirelessConnected(true))
                || second.contains(DeviceEvent::WirelessConnected(true));
            &&& run.properties == apply_events(p, first + second)
            &&& failed ==> run.end == PassiveStep::Done(
                Err(DeviceError::HidError(reply->WriteFailed_0)),
            )
            &&& !failed && connected ==> run.end is RefreshAll
            &&& !failed && !connected ==> run.end == PassiveStep::Done(Ok(()))
        }),
{
    let first = if allowed && heard is Some { heard->0@ } else { Seq::empty() };
    let second = if packet is Some && reply is Events { reply->Events_0@ } else { Seq::empty() };
    crate::laws::batches_of_events_add_up(p, first, second);
}

} // verus!
