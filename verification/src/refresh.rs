//! Bringing what is known of a headset up to date.
//!
//! An active refresh asks for everything, packet by packet, and gives up as soon
//! as the headset is not known to be connected. A passive refresh listens for
//! what the headset sends on its own and asks only for the battery level, which
//! a headset does not report by itself.
use vstd::prelude::*;
use crate::duration::Duration;
use crate::errors::DeviceError;
use crate::events::DeviceEvent;
use crate::properties::DeviceProperties;
use crate::query::{response_wait, QueryReply, ResponseWait};
use crate::state::{apply_events, DeviceState};

verus! {

/// How long a passive refresh listens, in seconds.
pub const PASSIVE_REFRESH_TIMEOUT_SECS: u64 = 2;

/// An active refresh: the packets that are still to be sent, and whether any
/// packet has been answered.
pub struct ActiveRefresh {
    pub pending: Vec<Vec<u8>>,
    pub responded: bool,
}

/// What an active refresh does next.
pub enum RefreshStep {
    /// Writes the packet, in the steps of [`crate::write`], and waits for the response
    /// in this way.
    Query(Vec<u8>, ResponseWait),
    Done(Result<(), DeviceError>),
}

/// The result of an active refresh that was not cut short by an error.
pub open spec fn refresh_result(responded: bool) -> Result<(), DeviceError> {
    if responded { Ok(()) } else { Err(DeviceError::NoResponse()) }
}

/// The next packet, or the result once there is none.
pub open spec fn next_step(pending: Seq<Vec<u8>>, responded: bool) -> RefreshStep {
    if pending.len() > 0 {
        RefreshStep::Query(pending[0], response_wait())
    } else {
        RefreshStep::Done(refresh_result(responded))
    }
}

/// The first step, where `prepared` is what came of what is particular to the
/// headset. An error of that ends the refresh before any packet.
pub open spec fn begin_step(
    prepared: Result<(), DeviceError>,
    pending: Seq<Vec<u8>>,
    responded: bool,
) -> RefreshStep {
    match prepared {
        Ok(_) => next_step(pending, responded),
        Err(d) => RefreshStep::Done(Err(d)),
    }
}

/// The packets that are still to be sent after a step.
pub open spec fn left_after(pending: Seq<Vec<u8>>, step: RefreshStep) -> Seq<Vec<u8>> {
    if step is Query { pending.skip(1) } else { pending }
}

/// The properties after a reply.
pub open spec fn after_reply(p: DeviceProperties, reply: QueryReply) -> DeviceProperties {
    match reply {
        QueryReply::Events(events) => apply_events(p, events@),
        _ => p,
    }
}

/// What follows a reply that left the properties `after`, where `responded` says
/// whether it or an earlier packet was answered.
pub open spec fn reply_step(
    pending: Seq<Vec<u8>>,
    responded: bool,
    after: DeviceProperties,
    reply: QueryReply,
) -> RefreshStep {
    match reply {
        QueryReply::WriteFailed(e) => RefreshStep::Done(Err(DeviceError::HidError(e))),
        _ => if after.connected == Some(true) {
            next_step(pending, responded)
        } else {
            RefreshStep::Done(refresh_result(responded))
        },
    }
}

impl ActiveRefresh {
    /// An active refresh that sends these packets in order.
    pub fn new(packets: Vec<Vec<u8>>) -> (r: Self)
        ensures
            r.pending == packets,
            !r.responded,
    {
        ActiveRefresh { pending: packets, responded: false }
    }

    /// The first step, where `prepared` is what came of what is particular to the
    /// headset.
    pub fn begin(&mut self, prepared: Result<(), DeviceError>) -> (step: RefreshStep)
        ensures
            step == begin_step(prepared, old(self).pending@, old(self).responded),
            final(self).pending@ == left_after(old(self).pending@, step),
            final(self).responded == old(self).responded,
            prepared matches Err(d) ==> *final(self) == *old(self) && step == RefreshStep::Done(
                Err(d),
            ),
    {
        match prepared {
            Ok(()) => self.start(),
            Err(d) => RefreshStep::Done(Err(d)),
        }
    }

    /// The next packet, or the result once there is none.
    pub fn start(&mut self) -> (step: RefreshStep)
        ensures
            step == next_step(old(self).pending@, old(self).responded),
            final(self).pending@ == left_after(old(self).pending@, step),
            final(self).responded == old(self).responded,
    {
        if self.pending.len() > 0 {
            let packet = self.pending.remove(0);
            assert(self.pending@ =~= old(self).pending@.skip(1));
            RefreshStep::Query(packet, ResponseWait::new())
        } else {
            RefreshStep::Done(self.result())
        }
    }

    /// Takes up the reply to a packet.
    pub fn take_reply<D, U>(&mut self, state: &mut DeviceState<D, U>, reply: QueryReply) -> (step:
        RefreshStep)
        ensures
            final(self).responded == (old(self).responded || reply is Events),
            final(state).transport == old(state).transport,
            final(state).device_properties == after_reply(old(state).device_properties, reply),
            step == reply_step(
                old(self).pending@,
                final(self).responded,
                final(state).device_properties,
                reply,
            ),
            final(self).pending@ == left_after(old(self).pending@, step),
    {
        match reply {
            QueryReply::WriteFailed(e) => {
                return RefreshStep::Done(Err(DeviceError::from(e)));
            },
            QueryReply::NoResponse => {},
            QueryReply::Events(events) => {
                state.update_self_with_events(&events);
                self.responded = true;
            },
        }
        match state.device_properties.connected {
            Some(true) => self.start(),
            _ => RefreshStep::Done(self.result()),
        }
    }

    fn result(&self) -> (r: Result<(), DeviceError>)
        ensures
            r == refresh_result(self.responded),
    {
        if self.responded {
            Ok(())
        } else {
            Err(DeviceError::NoResponse())
        }
    }
}

/// What a whole active refresh comes to.
pub struct RefreshOutcome {
    pub properties: DeviceProperties,
    pub result: Result<(), DeviceError>,
    /// The packets that were sent.
    pub sent: Seq<Vec<u8>>,
}

/// What an active refresh comes to from a step on, with `pending` the packets
/// behind it, where `replies` are the replies to the packets from then on.
pub open spec fn active_run(
    step: RefreshStep,
    pending: Seq<Vec<u8>>,
    responded: bool,
    p: DeviceProperties,
    replies: Seq<QueryReply>,
) -> RefreshOutcome
    decreases pending.len() + (if step is Query { 1int } else { 0 }),
{
    match step {
        RefreshStep::Done(result) => RefreshOutcome { properties: p, result, sent: Seq::empty() },
        RefreshStep::Query(packet, _) => {
            let reply = replies[0];
            let after = after_reply(p, reply);
            let answered = responded || reply is Events;
            let next = reply_step(pending, answered, after, reply);
            let rest = active_run(
                next,
                left_after(pending, next),
                answered,
                after,
                replies.skip(1),
            );
            RefreshOutcome { sent: seq![packet] + rest.sent, ..rest }
        },
    }
}

/// What an active refresh with these packets comes to.
pub open spec fn active_refresh(
    packets: Seq<Vec<u8>>,
    p: DeviceProperties,
    replies: Seq<QueryReply>,
) -> RefreshOutcome {
    let first = next_step(packets, false);
    active_run(first, left_after(packets, first), false, p, replies)
}

/// What an active refresh with these packets comes to, where `prepared` is what
/// came of what is particular to the headset.
pub open spec fn prepared_refresh(
    prepared: Result<(), DeviceError>,
    packets: Seq<Vec<u8>>,
    p: DeviceProperties,
    replies: Seq<QueryReply>,
) -> RefreshOutcome {
    let first = begin_step(prepared, packets, false);
    active_run(first, left_after(packets, first), false, p, replies)
}

/// An error of what is particular to the headset is the result, unchanged, and no
/// packet is sent. Where there was none, the packets are sent.
pub proof fn failed_preparation_sends_nothing(
    prepared: Result<(), DeviceError>,
    packets: Seq<Vec<u8>>,
    p: DeviceProperties,
    replies: Seq<QueryReply>,
)
    ensures
        prepared matches Err(d) ==> prepared_refresh(prepared, packets, p, replies) == (
        RefreshOutcome { properties: p, result: Err(d), sent: Seq::empty() }),
        prepared is Ok ==> prepared_refresh(prepared, packets, p, replies) == active_refresh(
            packets,
            p,
            replies,
        ),
{
}

/// The packets from a step on.
pub open spec fn packets_from(step: RefreshStep, pending: Seq<Vec<u8>>) -> Seq<Vec<u8>> {
    match step {
        RefreshStep::Query(packet, _) => seq![packet] + pending,
        RefreshStep::Done(_) => Seq::empty(),
    }
}

/// The properties after these replies.
pub open spec fn after_replies(p: DeviceProperties, replies: Seq<QueryReply>) -> DeviceProperties
    decreases replies.len(),
{
    if replies.len() == 0 {
        p
    } else {
        after_reply(after_replies(p, replies.drop_last()), replies.last())
    }
}

proof fn first_reply_first(p: DeviceProperties, replies: Seq<QueryReply>)
    requires
        replies.len() > 0,
    ensures
        after_replies(p, replies) == after_replies(after_reply(p, replies[0]), replies.skip(1)),
    decreases replies.len(),
{
    if replies.len() > 1 {
        first_reply_first(p, replies.drop_last());
        assert(replies.drop_last().skip(1) =~= replies.skip(1).drop_last());
    } else {
        assert(replies.drop_last() =~= Seq::empty());
        assert(replies.skip(1) =~= Seq::empty());
        assert(after_replies(p, replies.drop_last()) == p);
    }
}

proof fn run_takes_up_replies(
    step: RefreshStep,
    pending: Seq<Vec<u8>>,
    responded: bool,
    p: DeviceProperties,
    replies: Seq<QueryReply>,
)
    requires
        replies.len() >= packets_from(step, pending).len(),
    ensures
        ({
            let run = active_run(step, pending, responded, p, replies);
            &&& run.sent.len() <= packets_from(step, pending).len()
            &&& run.sent =~= packets_from(step, pending).take(run.sent.len() as int)
            &&& run.properties == after_replies(p, replies.take(run.sent.len() as int))
        }),
    decreases pending.len() + (if step is Query { 1int } else { 0 }),
{
    let run = active_run(step, pending, responded, p, replies);
    match step {
        RefreshStep::Done(_) => {
            assert(replies.take(0) =~= Seq::empty());
        },
        RefreshStep::Query(packet, _) => {
            let reply = replies[0];
            let after = after_reply(p, reply);
            let answered = responded || reply is Events;
            let next = reply_step(pending, answered, after, reply);
            let left = left_after(pending, next);
            assert(next is Query ==> packets_from(next, left) =~= pending);
            run_takes_up_replies(next, left, answered, after, replies.skip(1));
            let taken = replies.take(run.sent.len() as int);
            first_reply_first(p, taken);
            assert(taken.skip(1) =~= replies.skip(1).take(run.sent.len() - 1));
        },
    }
}

/// An active refresh sends its packets in order, from the first on, and takes up
/// exactly the replies to those that it sent.
pub proof fn active_refresh_takes_up_replies(
    packets: Seq<Vec<u8>>,
    p: DeviceProperties,
    replies: Seq<QueryReply>,
)
    requires
        replies.len() >= packets.len(),
    ensures
        ({
            let run = active_refresh(packets, p, replies);
            &&& run.sent.len() <= packets.len()
            &&& run.sent == packets.take(run.sent.len() as int)
            &&& run.properties == after_replies(p, replies.take(run.sent.len() as int))
        }),
{
    let first = next_step(packets, false);
    run_takes_up_replies(first, left_after(packets, first), false, p, replies);
    if packets.len() > 0 {
        assert(packets_from(first, left_after(packets, first)) =~= packets);
    }
}

proof fn run_stops_when_disconnected(
    step: RefreshStep,
    pending: Seq<Vec<u8>>,
    responded: bool,
    p: DeviceProperties,
    replies: Seq<QueryReply>,
    k: int,
)
    requires
        replies.len() >= packets_from(step, pending).len(),
        1 <= k <= active_run(step, pending, responded, p, replies).sent.len(),
    ensures
        ({
            let sent = active_run(step, pending, responded, p, replies).sent.len();
            let connected = after_replies(p, replies.take(k)).connected == Some(true);
            let failed = replies[k - 1] is WriteFailed;
            &&& k < sent ==> connected && !failed
            &&& k == sent && k < packets_from(step, pending).len() ==> !connected || failed
        }),
    decreases pending.len() + (if step is Query { 1int } else { 0 }),
{
    run_takes_up_replies(step, pending, responded, p, replies);
    let reply = replies[0];
    let after = after_reply(p, reply);
    let answered = responded || reply is Events;
    let next = reply_step(pending, answered, after, reply);
    let left = left_after(pending, next);
    assert(next is Query ==> packets_from(next, left) =~= pending);
    first_reply_first(p, replies.take(k));
    assert(replies.take(k).skip(1) =~= replies.skip(1).take(k - 1));
    if k > 1 {
        run_stops_when_disconnected(next, left, answered, after, replies.skip(1), k - 1);
    } else {
        assert(replies.skip(1).take(0) =~= Seq::empty());
        assert(active_run(next, left, answered, after, replies.skip(1)).sent.len() >= (
        if next is Query { 1int } else { 0 }));
    }
}

/// After the first packet, an active refresh sends another only while the headset
/// is known to be connected; it leaves packets unsent only where a write failed
/// or the headset is not known to be connected.
pub proof fn active_refresh_stops_when_disconnected(
    packets: Seq<Vec<u8>>,
    p: DeviceProperties,
    replies: Seq<QueryReply>,
    k: int,
)
    requires
        replies.len() >= packets.len(),
        1 <= k <= active_refresh(packets, p, replies).sent.len(),
    ensures
        ({
            let sent = active_refresh(packets, p, replies).sent.len();
            let connected = after_replies(p, replies.take(k)).connected == Some(true);
            let failed = replies[k - 1] is WriteFailed;
            &&& k < sent ==> connected && !failed
            &&& k == sent && k < packets.len() ==> !connected || failed
        }),
{
    let first = next_step(packets, false);
    assert(packets.len() > 0 ==> packets_from(first, left_after(packets, first)) =~= packets);
    run_stops_when_disconnected(first, left_after(packets, first), false, p, replies, k);
}

/// The result of a run of which the last reply failed to be asked for, or in
/// which some packet was answered or not.
pub open spec fn result_of_replies(responded: bool, replies: Seq<QueryReply>) -> Result<
    (),
    DeviceError,
> {
    if replies.len() > 0 && replies.last() is WriteFailed {
        Err(DeviceError::HidError(replies.last()->WriteFailed_0))
    } else {
        refresh_result(
            responded || exists|i: int| 0 <= i < replies.len() && #[trigger] replies[i] is Events,
        )
    }
}

proof fn run_result(
    step: RefreshStep,
    pending: Seq<Vec<u8>>,
    responded: bool,
    p: DeviceProperties,
    replies: Seq<QueryReply>,
)
    requires
        replies.len() >= packets_from(step, pending).len(),
        step is Query,
    ensures
        ({
            let run = active_run(step, pending, responded, p, replies);
            run.result == result_of_replies(responded, replies.take(run.sent.len() as int))
        }),
    decreases pending.len(),
{
    let run = active_run(step, pending, responded, p, replies);
    run_takes_up_replies(step, pending, responded, p, replies);
    let taken = replies.take(run.sent.len() as int);
    let reply = replies[0];
    let after = after_reply(p, reply);
    let answered = responded || reply is Events;
    let next = reply_step(pending, answered, after, reply);
    let left = left_after(pending, next);
    assert(next is Query ==> packets_from(next, left) =~= pending);
    assert(taken[0] == reply);
    if next is Query {
        run_result(next, left, answered, after, replies.skip(1));
        let rest = active_run(next, left, answered, after, replies.skip(1));
        let rest_taken = replies.skip(1).take(rest.sent.len() as int);
        assert(rest_taken =~= taken.skip(1));
        assert(rest.sent.len() >= 1);
        assert(taken.last() == rest_taken.last());
        if exists|i: int| 0 <= i < taken.len() && #[trigger] taken[i] is Events {
            let i = choose|i: int| 0 <= i < taken.len() && #[trigger] taken[i] is Events;
            if i > 0 {
                assert(rest_taken[i - 1] is Events);
            }
        }
        if exists|i: int| 0 <= i < rest_taken.len() && #[trigger] rest_taken[i] is Events {
            let i = choose|i: int| 0 <= i < rest_taken.len() && #[trigger] rest_taken[i] is Events;
            assert(taken[i + 1] is Events);
        }
    } else {
        assert(run.sent.len() == 1);
    }
}

/// An active refresh ends with the error of the write that failed, if the last
/// one did; otherwise it succeeds exactly where some packet was answered.
pub proof fn active_refresh_result(
    packets: Seq<Vec<u8>>,
    p: DeviceProperties,
    replies: Seq<QueryReply>,
)
    requires
        replies.len() >= packets.len(),
    ensures
        ({
            let run = active_refresh(packets, p, replies);
            run.result == result_of_replies(false, replies.take(run.sent.len() as int))
        }),
{
    let first = next_step(packets, false);
    if packets.len() > 0 {
        assert(packets_from(first, left_after(packets, first)) =~= packets);
        run_result(first, left_after(packets, first), false, p, replies);
    }
}

/// A passive refresh: whether the headset has reported that it is connected, in
/// which case everything is asked for.
pub struct PassiveRefresh {
    pub request_active_refresh: bool,
}

/// What a passive refresh does next.
pub enum PassiveStep {
    /// Listens this long at most.
    Listen(Duration),
    /// Asks the headset which packet queries the battery level.
    FetchBatteryPacket,
    /// Writes the packet, in the steps of [`crate::write`], and waits for the response
    /// in this way.
    Query(Vec<u8>, ResponseWait),
    /// Does an active refresh, whose result is the result.
    RefreshAll,
    Done(Result<(), DeviceError>),
}

/// Whether the events hold that the headset is connected. Some headsets send that
/// when they have just been turned on.
pub open spec fn reports_connection(events: Seq<DeviceEvent>) -> bool {
    exists|i: int| 0 <= i < events.len() && #[trigger] events[i] == DeviceEvent::WirelessConnected(true)
}

fn has_connection_report(events: &Vec<DeviceEvent>) -> (b: bool)
    ensures
        b == reports_connection(events@),
{
    let mut i: usize = 0;
    while i < events.len()
        invariant
            i <= events@.len(),
            forall|j: int|
                0 <= j < i ==> #[trigger] events@[j] != DeviceEvent::WirelessConnected(true),
        decreases events@.len() - i,
    {
        match events[i] {
            DeviceEvent::WirelessConnected(true) => {
                assert(events@[i as int] == DeviceEvent::WirelessConnected(true));
                return true;
            },
            _ => {},
        }
        i = i + 1;
    }
    false
}

/// How a passive refresh ends where no write failed.
pub open spec fn passive_end(request_active_refresh: bool) -> PassiveStep {
    if request_active_refresh { PassiveStep::RefreshAll } else { PassiveStep::Done(Ok(())) }
}

/// Whether what was heard makes an active refresh necessary.
pub open spec fn heard_connection(heard: Option<Vec<DeviceEvent>>) -> bool {
    heard matches Some(events) && reports_connection(events@)
}

/// Whether a reply makes an active refresh necessary.
pub open spec fn replied_connection(reply: QueryReply) -> bool {
    reply matches QueryReply::Events(events) && reports_connection(events@)
}

/// The properties after what was heard.
pub open spec fn after_heard(p: DeviceProperties, heard: Option<Vec<DeviceEvent>>) -> DeviceProperties {
    match heard {
        Some(events) => apply_events(p, events@),
        None => p,
    }
}

/// The first step of a passive refresh.
pub open spec fn first_passive_step(allowed: bool) -> PassiveStep {
    if allowed {
        PassiveStep::Listen(Duration { secs: 2, nanos: 0 })
    } else {
        PassiveStep::FetchBatteryPacket
    }
}

/// What follows from the packet that queries the battery level, if there is one.
pub open spec fn battery_step(request_active_refresh: bool, packet: Option<Vec<u8>>) -> PassiveStep {
    match packet {
        Some(p) => PassiveStep::Query(p, response_wait()),
        None => passive_end(request_active_refresh),
    }
}

/// What follows the reply to that packet.
pub open spec fn battery_reply_step(request_active_refresh: bool, reply: QueryReply) -> PassiveStep {
    match reply {
        QueryReply::WriteFailed(e) => PassiveStep::Done(Err(DeviceError::HidError(e))),
        _ => passive_end(request_active_refresh),
    }
}

impl PassiveRefresh {
    pub fn new() -> (r: Self)
        ensures
            !r.request_active_refresh,
    {
        PassiveRefresh { request_active_refresh: false }
    }

    /// The first step, where `allowed` says whether the headset is to be listened to.
    pub fn start(&self, allowed: bool) -> (step: PassiveStep)
        ensures
            step == first_passive_step(allowed),
    {
        if allowed {
            PassiveStep::Listen(Duration::from_secs(PASSIVE_REFRESH_TIMEOUT_SECS))
        } else {
            PassiveStep::FetchBatteryPacket
        }
    }

    fn take_events<D, U>(&mut self, state: &mut DeviceState<D, U>, events: &Vec<DeviceEvent>)
        ensures
            final(self).request_active_refresh == (old(self).request_active_refresh
                || reports_connection(events@)),
            final(state).transport == old(state).transport,
            final(state).device_properties == apply_events(old(state).device_properties, events@),
    {
        if has_connection_report(events) {
            self.request_active_refresh = true;
        }
        state.update_self_with_events(events);
    }

    /// Takes up what was heard.
    pub fn take_heard<D, U>(
        &mut self,
        state: &mut DeviceState<D, U>,
        heard: Option<Vec<DeviceEvent>>,
    ) -> (step: PassiveStep)
        ensures
            step == PassiveStep::FetchBatteryPacket,
            final(self).request_active_refresh == (old(self).request_active_refresh
                || heard_connection(heard)),
            final(state).transport == old(state).transport,
            final(state).device_properties == after_heard(old(state).device_properties, heard),
    {
        match heard {
            Some(events) => {
                self.take_events(state, &events);
            },
            None => {},
        }
        PassiveStep::FetchBatteryPacket
    }

    /// What follows from the packet that queries the battery level, if the headset has one.
    pub fn take_battery_packet(&self, packet: Option<Vec<u8>>) -> (step: PassiveStep)
        ensures
            step == battery_step(self.request_active_refresh, packet),
    {
        match packet {
            Some(p) => PassiveStep::Query(p, ResponseWait::new()),
            None => self.end(),
        }
    }

    /// Takes up the reply to that packet.
    pub fn take_reply<D, U>(&mut self, state: &mut DeviceState<D, U>, reply: QueryReply) -> (step:
        PassiveStep)
        ensures
            final(self).request_active_refresh == (old(self).request_active_refresh
                || replied_connection(reply)),
            final(state).transport == old(state).transport,
            final(state).device_properties == after_reply(old(state).device_properties, reply),
            step == battery_reply_step(final(self).request_active_refresh, reply),
    {
        match reply {
            QueryReply::WriteFailed(e) => PassiveStep::Done(Err(DeviceError::from(e))),
            QueryReply::NoResponse => self.end(),
            QueryReply::Events(events) => {
                self.take_events(state, &events);
                self.end()
            },
        }
    }

    fn end(&self) -> (step: PassiveStep)
        ensures
            step == passive_end(self.request_active_refresh),
    {
        if self.request_active_refresh {
            PassiveStep::RefreshAll
        } else {
            PassiveStep::Done(Ok(()))
        }
    }
}

/// What a whole passive refresh comes to.
pub struct PassiveOutcome {
    pub properties: DeviceProperties,
    /// The last step.
    pub end: PassiveStep,
}

/// What a passive refresh comes to, where `heard` is what is heard if the headset
/// is listened to, and `reply` the reply if there is a battery packet.
pub open spec fn passive_refresh(
    p: DeviceProperties,
    allowed: bool,
    heard: Option<Vec<DeviceEvent>>,
    battery_packet: Option<Vec<u8>>,
    reply: QueryReply,
) -> PassiveOutcome {
    let listens = first_passive_step(allowed) is Listen;
    let after_listening = if listens { after_heard(p, heard) } else { p };
    let request = listens && heard_connection(heard);
    match battery_step(request, battery_packet) {
        PassiveStep::Query(_, _) => PassiveOutcome {
            properties: after_reply(after_listening, reply),
            end: battery_reply_step(request || replied_connection(reply), reply),
        },
        end => PassiveOutcome { properties: after_listening, end },
    }
}

/// A passive refresh asks for everything exactly where the headset has reported
/// during it that it is connected and the battery query, if there is one, could
/// be written. Otherwise it is done, and fails only where that write failed.
pub proof fn passive_refresh_end(
    p: DeviceProperties,
    allowed: bool,
    heard: Option<Vec<DeviceEvent>>,
    battery_packet: Option<Vec<u8>>,
    reply: QueryReply,
)
    ensures
        ({
            let end = passive_refresh(p, allowed, heard, battery_packet, reply).end;
            let failed = battery_packet is Some && reply is WriteFailed;
            &&& end is RefreshAll <==> !failed && ((allowed && heard_connection(heard)) || (
            battery_packet is Some && replied_connection(reply)))
            &&& end is RefreshAll || end is Done
            &&& end matches PassiveStep::Done(r) ==> (r is Err <==> failed)
        }),
{
}

/// A headset that is neither listened to nor has a battery packet is left as it
/// was; one that reports nothing keeps its properties.
pub proof fn quiet_passive_refresh_changes_nothing(
    p: DeviceProperties,
    allowed: bool,
    heard: Option<Vec<DeviceEvent>>,
    battery_packet: Option<Vec<u8>>,
    reply: QueryReply,
)
    requires
        !allowed || heard is None,
        battery_packet is None || !(reply is Events),
    ensures
        passive_refresh(p, allowed, heard, battery_packet, reply).properties == p,
{
}

} // verus!
