//! The background reader of a claimed interface.
//!
//! Whatever the headset sends is read as it comes. Each packet is first shown to
//! the hook of the driver, which can act on reports such as those of buttons, and
//! is then queued for whoever reads next.
use vstd::prelude::*;
use crate::errors::UsbError;
use crate::queue::{fits, queue_run, QueueRun, QueueUse};

verus! {

/// What the background reader does next.
#[derive(Debug, Clone, Copy, PartialEq, Eq, Structural)]
pub enum ReaderStep {
    /// Looks whether it has been told to stop.
    CheckStop,
    /// Reads from the interrupt endpoint.
    Read,
    /// Shows the packet of this many bytes to the hook.
    CallHook(usize),
    /// Queues the packet of this many bytes.
    Queue(usize),
    /// Ends.
    End,
}

/// What the background reader has just done.
#[derive(Debug, Clone, Copy)]
pub enum ReaderEvent {
    /// It has looked whether it has been told to stop.
    Told { stop: bool },
    /// It has read.
    HasRead(Result<usize, UsbError>),
    /// It has shown the packet of this many bytes to the hook.
    HookCalled(usize),
    /// It has queued a packet.
    Queued,
}

/// Whether a read shows that the device is gone.
pub open spec fn is_gone(result: Result<usize, UsbError>) -> bool {
    result matches Err(e) && (e == UsbError::NoDevice || e == UsbError::Pipe)
}

/// What the background reader does after an event. Every read that brings no
/// packet is followed by another, unless the device is gone.
pub open spec fn step_after(event: ReaderEvent) -> ReaderStep {
    match event {
        ReaderEvent::Told { stop } => if stop { ReaderStep::End } else { ReaderStep::Read },
        ReaderEvent::HasRead(result) => match result {
            Ok(n) => if n > 0 { ReaderStep::CallHook(n) } else { ReaderStep::CheckStop },
            Err(_) => if is_gone(result) { ReaderStep::End } else { ReaderStep::CheckStop },
        },
        ReaderEvent::HookCalled(n) => ReaderStep::Queue(n),
        ReaderEvent::Queued => ReaderStep::CheckStop,
    }
}

/// What the background reader does after an event.
pub fn reader_step(event: ReaderEvent) -> (step: ReaderStep)
    ensures
        step == step_after(event),
{
    match event {
        ReaderEvent::Told { stop } => if stop { ReaderStep::End } else { ReaderStep::Read },
        ReaderEvent::HasRead(result) => match result {
            Ok(n) => if n > 0 { ReaderStep::CallHook(n) } else { ReaderStep::CheckStop },
            Err(UsbError::NoDevice) | Err(UsbError::Pipe) => ReaderStep::End,
            Err(_) => ReaderStep::CheckStop,
        },
        ReaderEvent::HookCalled(n) => ReaderStep::Queue(n),
        ReaderEvent::Queued => ReaderStep::CheckStop,
    }
}

/// A read from the interrupt endpoint: its result, and the buffer after it.
pub struct EndpointRead {
    pub result: Result<usize, UsbError>,
    pub buf: Seq<u8>,
}

/// Something that happens on a claimed interface.
pub enum Happening {
    /// The background reader does its next step; `stop` is what it finds if it
    /// looks whether it has been told to stop, and `read` what it reads if it reads.
    Reader { stop: bool, read: EndpointRead },
    /// Somebody reads from the queue into a buffer of this many bytes.
    Taken(nat),
}

/// The traffic on a claimed interface so far.
pub struct Traffic {
    /// What the background reader does next.
    pub step: ReaderStep,
    /// Its buffer.
    pub buf: Seq<u8>,
    /// Its reads.
    pub reads: Seq<EndpointRead>,
    /// The packets that were shown to the hook.
    pub hooked: Seq<Seq<u8>>,
    /// How the queue has been used.
    pub uses: Seq<QueueUse>,
}

/// The traffic when an interface has just been claimed.
pub open spec fn no_traffic() -> Traffic {
    Traffic {
        step: ReaderStep::CheckStop,
        buf: Seq::empty(),
        reads: Seq::empty(),
        hooked: Seq::empty(),
        uses: Seq::empty(),
    }
}

/// The traffic after something has happened.
pub open spec fn after_happening(t: Traffic, h: Happening) -> Traffic {
    match h {
        Happening::Taken(room) => Traffic { uses: t.uses.push(QueueUse::Read(room)), ..t },
        Happening::Reader { stop, read } => match t.step {
            ReaderStep::CheckStop => Traffic { step: step_after(ReaderEvent::Told { stop }), ..t },
            ReaderStep::Read => Traffic {
                step: step_after(ReaderEvent::HasRead(read.result)),
                buf: read.buf,
                reads: t.reads.push(read),
                ..t
            },
            ReaderStep::CallHook(n) => Traffic {
                step: step_after(ReaderEvent::HookCalled(n)),
                hooked: t.hooked.push(t.buf.take(n as int)),
                ..t
            },
            ReaderStep::Queue(n) => Traffic {
                step: step_after(ReaderEvent::Queued),
                uses: t.uses.push(QueueUse::Deliver(t.buf.take(n as int))),
                ..t
            },
            ReaderStep::End => t,
        },
    }
}

/// The traffic after all of this has happened, in order.
pub open spec fn traffic(happenings: Seq<Happening>) -> Traffic
    decreases happenings.len(),
{
    if happenings.len() == 0 {
        no_traffic()
    } else {
        after_happening(traffic(happenings.drop_last()), happenings.last())
    }
}

/// The packets that reads have brought: of each read that brought bytes, those bytes.
pub open spec fn packets_in(reads: Seq<EndpointRead>) -> Seq<Seq<u8>>
    decreases reads.len(),
{
    if reads.len() == 0 {
        Seq::empty()
    } else {
        let before = packets_in(reads.drop_last());
        match reads.last().result {
            Ok(n) => if n > 0 { before.push(reads.last().buf.take(n as int)) } else { before },
            Err(_) => before,
        }
    }
}

/// The packet that has been read but not yet shown to the hook, if there is one.
pub open spec fn not_yet_hooked(t: Traffic) -> Seq<Seq<u8>> {
    match t.step {
        ReaderStep::CallHook(n) => seq![t.buf.take(n as int)],
        _ => Seq::empty(),
    }
}

/// The packet that the hook has seen but that is not yet queued, if there is one.
pub open spec fn not_yet_queued(t: Traffic) -> Seq<Seq<u8>> {
    match t.step {
        ReaderStep::Queue(n) => seq![t.buf.take(n as int)],
        _ => Seq::empty(),
    }
}

/// What has become of the queue.
pub open spec fn queue_of(t: Traffic) -> QueueRun {
    queue_run(Seq::empty(), t.uses)
}

/// The hook sees every packet that was read exactly once, in order and with exactly
/// its bytes, and before it is queued: at any moment the packets of the reads are
/// those that the hook has seen and at most the one that it is about to see, and
/// those that the hook has seen are those that were queued and at most the one that
/// is about to be queued. Timeouts, empty reads and errors add nothing.
pub proof fn hook_sees_packets_before_they_are_queued(happenings: Seq<Happening>)
    ensures
        ({
            let t = traffic(happenings);
            &&& packets_in(t.reads) == t.hooked + not_yet_hooked(t)
            &&& t.hooked == queue_of(t).delivered + not_yet_queued(t)
        }),
    decreases happenings.len(),
{
    let t = traffic(happenings);
    if happenings.len() > 0 {
        let b = traffic(happenings.drop_last());
        hook_sees_packets_before_they_are_queued(happenings.drop_last());
        if t.uses != b.uses {
            assert(t.uses.drop_last() =~= b.uses);
        }
        if b.step is Read {
            assert(t.reads != b.reads ==> t.reads.drop_last() =~= b.reads);
        }
    }
    assert(packets_in(t.reads) =~= t.hooked + not_yet_hooked(t));
    assert(t.hooked =~= queue_of(t).delivered + not_yet_queued(t));
}

/// Whoever reads from the queue gets the packets that the headset has sent, in
/// order and each once, however reading and the background reader mix: what was
/// taken, what is queued and what is still on its way are together the packets
/// of the reads.
pub proof fn packets_are_taken_in_order(happenings: Seq<Happening>)
    ensures
        ({
            let t = traffic(happenings);
            packets_in(t.reads) == queue_of(t).read + queue_of(t).queue + not_yet_queued(t)
                + not_yet_hooked(t)
        }),
{
    let t = traffic(happenings);
    hook_sees_packets_before_they_are_queued(happenings);
    crate::queue::packets_are_read_in_order(Seq::empty(), t.uses);
    assert(Seq::<Seq<u8>>::empty() + queue_of(t).delivered =~= queue_of(t).delivered);
}

/// Whether the background reader reads at most `room` bytes, all of them into its
/// buffer, and whoever reads from the queue has room for as many.
pub open spec fn has_room(h: Happening, room: nat) -> bool {
    match h {
        Happening::Taken(r) => r >= room,
        Happening::Reader { stop, read } => read.buf.len() <= room && (read.result matches Ok(n)
            ==> n <= read.buf.len()),
    }
}

/// Packets are handed out whole where nobody reads with less room than the
/// background reader has.
pub proof fn packets_are_taken_whole(happenings: Seq<Happening>, room: nat)
    requires
        forall|i: int| 0 <= i < happenings.len() ==> has_room(#[trigger] happenings[i], room),
    ensures
        queue_of(traffic(happenings)).handed == queue_of(traffic(happenings)).read,
{
    uses_fit(happenings, room);
    crate::queue::packets_are_handed_out_whole(Seq::empty(), traffic(happenings).uses, room);
}

proof fn uses_fit(happenings: Seq<Happening>, room: nat)
    requires
        forall|i: int| 0 <= i < happenings.len() ==> has_room(#[trigger] happenings[i], room),
    ensures
        traffic(happenings).buf.len() <= room,
        traffic(happenings).step matches ReaderStep::CallHook(n) ==> n <= traffic(
            happenings,
        ).buf.len(),
        traffic(happenings).step matches ReaderStep::Queue(n) ==> n <= traffic(
            happenings,
        ).buf.len(),
        forall|i: int|
            0 <= i < traffic(happenings).uses.len() ==> fits(
                #[trigger] traffic(happenings).uses[i],
                room,
            ),
    decreases happenings.len(),
{
    if happenings.len() > 0 {
        let front = happenings.drop_last();
        assert forall|i: int| 0 <= i < front.len() implies has_room(#[trigger] front[i], room) by {
            assert(front[i] == happenings[i]);
        }
        uses_fit(front, room);
        assert(has_room(happenings[happenings.len() - 1], room));
        let b = traffic(front);
        let t = traffic(happenings);
        assert forall|i: int| 0 <= i < t.uses.len() implies fits(#[trigger] t.uses[i], room) by {
            if i < b.uses.len() {
                assert(t.uses[i] == b.uses[i]);
            }
        }
    }
}

/// A background reader that nobody tells to stop goes on reading until the device
/// is gone, whatever else its reads come to, and does not read again after that.
pub proof fn reader_goes_on_until_the_device_is_gone(happenings: Seq<Happening>)
    requires
        forall|i: int|
            0 <= i < happenings.len() ==> ((#[trigger] happenings[i]) matches Happening::Reader {
                stop,
                read,
            } ==> !stop),
    ensures
        ({
            let t = traffic(happenings);
            &&& t.step is End <==> t.reads.len() > 0 && is_gone(t.reads.last().result)
            &&& forall|i: int|
                0 <= i < t.reads.len() - 1 ==> !is_gone((#[trigger] t.reads[i]).result)
        }),
    decreases happenings.len(),
{
    if happenings.len() > 0 {
        let front = happenings.drop_last();
        assert forall|i: int| 0 <= i < front.len() implies ((
        #[trigger] front[i]) matches Happening::Reader { stop, read } ==> !stop) by {
            assert(front[i] == happenings[i]);
        }
        reader_goes_on_until_the_device_is_gone(front);
        assert(happenings[happenings.len() - 1] == happenings.last());
        let b = traffic(front);
        let t = traffic(happenings);
        assert forall|i: int| 0 <= i < t.reads.len() - 1 implies !is_gone(
            (#[trigger] t.reads[i]).result,
        ) by {
            assert(t.reads[i] == b.reads[i]);
            if i == b.reads.len() - 1 {
                assert(b.reads[i] == b.reads.last());
            }
        }
    }
}

/// A background reader that has ended does nothing more.
pub proof fn ended_reader_does_nothing(t: Traffic, stop: bool, read: EndpointRead)
    requires
        t.step is End,
    ensures
        after_happening(t, Happening::Reader { stop, read }) == t,
{
}

} // verus!
