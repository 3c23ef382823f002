//! The packets that the background reader of a claimed interface has collected.
use vstd::prelude::*;
use std::collections::VecDeque;
use crate::duration::Duration;

verus! {

/// Packets in the order in which they arrived.
pub struct PacketQueue {
    packets: VecDeque<Vec<u8>>,
}

/// What a read from the queue comes to.
#[derive(Clone, Copy, PartialEq, Eq, Structural)]
pub enum ReadStep {
    /// A packet was taken; so many of its bytes are in the buffer.
    Delivered(usize),
    /// Nothing arrived in time.
    TimedOut,
    /// Nothing is there yet; a packet is to be waited for this long at most.
    Wait(Duration),
}

impl View for PacketQueue {
    type V = Seq<Seq<u8>>;

    closed spec fn view(&self) -> Seq<Seq<u8>> {
        self.packets@.map_values(|p: Vec<u8>| p@)
    }
}

/// How many bytes of a packet a buffer of `room` bytes takes.
pub open spec fn taken(packet: Seq<u8>, room: nat) -> nat {
    if packet.len() < room { packet.len() } else { room }
}

/// The bytes of a packet that a buffer of `room` bytes takes.
pub open spec fn handed_out(packet: Seq<u8>, room: nat) -> Seq<u8> {
    packet.take(taken(packet, room) as int)
}

/// The queue once a packet has been delivered.
pub open spec fn after_delivery(queue: Seq<Seq<u8>>, packet: Seq<u8>) -> Seq<Seq<u8>> {
    queue.push(packet)
}

/// The queue once the oldest packet, if there is one, has been read.
pub open spec fn after_read(queue: Seq<Seq<u8>>) -> Seq<Seq<u8>> {
    if queue.len() > 0 { queue.skip(1) } else { queue }
}

impl PacketQueue {
    pub fn new() -> (q: Self)
        ensures
            q@ == Seq::<Seq<u8>>::empty(),
    {
        let q = PacketQueue { packets: VecDeque::new() };
        assert(q@ =~= Seq::<Seq<u8>>::empty());
        q
    }

    /// Adds the packet that stands in the first `n` bytes of `buf`.
    pub fn deliver(&mut self, buf: &[u8], n: usize)
        requires
            n <= buf@.len(),
        ensures
            final(self)@ == after_delivery(old(self)@, buf@.take(n as int)),
    {
        let mut packet: Vec<u8> = Vec::new();
        let mut copied: usize = 0;
        while copied < n
            invariant
                copied <= n <= buf@.len(),
                packet@ == buf@.take(copied as int),
            decreases n - copied,
        {
            packet.push(buf[copied]);
            proof {
                assert(buf@.take(copied + 1) =~= buf@.take(copied as int).push(buf@[copied as int]));
            }
            copied = copied + 1;
        }
        self.packets.push_back(packet);
        assert(self@ =~= old(self)@.push(buf@.take(n as int)));
    }

    /// Takes the oldest packet into `buf`, as much of it as there is room for.
    /// Where there is none, says how long to wait of a `timeout` that began
    /// `elapsed` ago.
    pub fn read_interrupt(&mut self, buf: &mut [u8], timeout: Duration, elapsed: Duration) -> (step:
        ReadStep)
        requires
            timeout.wf(),
            elapsed.wf(),
        ensures
            old(self)@.len() > 0 ==> {
                let n = taken(old(self)@[0], old(buf)@.len());
                &&& step == ReadStep::Delivered(n as usize)
                &&& final(buf)@ == handed_out(old(self)@[0], old(buf)@.len()) + old(buf)@.skip(
                    n as int,
                )
            },
            final(self)@ == after_read(old(self)@),
            old(self)@.len() == 0 ==> {
                &&& final(buf)@ == old(buf)@
                &&& if elapsed.total_nanos() >= timeout.total_nanos() {
                    step == ReadStep::TimedOut
                } else {
                    step matches ReadStep::Wait(rest) && rest.wf() && rest.total_nanos()
                        == timeout.total_nanos() - elapsed.total_nanos()
                }
            },
    {
        let ghost before = self@;
        match self.packets.pop_front() {
            Some(packet) => {
                let n: usize = if packet.len() < buf.len() { packet.len() } else { buf.len() };
                let mut copied: usize = 0;
                let ghost room = buf@;
                while copied < n
                    invariant
                        copied <= n <= packet@.len(),
                        n <= room.len() == buf@.len(),
                        buf@ == packet@.take(copied as int) + room.skip(copied as int),
                    decreases n - copied,
                {
                    buf[copied] = packet[copied];
                    copied = copied + 1;
                    proof {
                        assert(buf@ =~= packet@.take(copied as int) + room.skip(copied as int));
                    }
                }
                assert(self@ =~= before.skip(1));
                ReadStep::Delivered(n)
            },
            None => match timeout.remaining_after(elapsed) {
                Some(rest) => ReadStep::Wait(rest),
                None => ReadStep::TimedOut,
            },
        }
    }
}

impl ReadStep {
    /// The number of bytes that the read returns, once it returns.
    pub fn bytes_read(&self) -> (n: Option<usize>)
        ensures
            n == match self {
                ReadStep::Delivered(n) => Some(*n),
                ReadStep::TimedOut => Some(0usize),
                ReadStep::Wait(_) => None,
            },
    {
        match self {
            ReadStep::Delivered(n) => Some(*n),
            ReadStep::TimedOut => Some(0),
            ReadStep::Wait(_) => None,
        }
    }
}

/// Something that is done with the queue.
pub enum QueueUse {
    Deliver(Seq<u8>),
    /// A read into a buffer of this many bytes.
    Read(nat),
}

/// What using the queue comes to.
pub struct QueueRun {
    pub queue: Seq<Seq<u8>>,
    pub delivered: Seq<Seq<u8>>,
    /// The packets that were read.
    pub read: Seq<Seq<u8>>,
    /// What of each of them was put into the buffer.
    pub handed: Seq<Seq<u8>>,
}

/// The run once the queue has been used once more.
pub open spec fn after_use(run: QueueRun, u: QueueUse) -> QueueRun {
    match u {
        QueueUse::Deliver(packet) => QueueRun {
            queue: after_delivery(run.queue, packet),
            delivered: run.delivered.push(packet),
            ..run
        },
        QueueUse::Read(room) => if run.queue.len() > 0 {
            QueueRun {
                queue: after_read(run.queue),
                read: run.read.push(run.queue[0]),
                handed: run.handed.push(handed_out(run.queue[0], room)),
                ..run
            }
        } else {
            QueueRun { queue: after_read(run.queue), ..run }
        },
    }
}

/// What a queue comes to that is used in these ways, one after another.
pub open spec fn queue_run(queue: Seq<Seq<u8>>, uses: Seq<QueueUse>) -> QueueRun
    decreases uses.len(),
{
    if uses.len() == 0 {
        QueueRun {
            queue,
            delivered: Seq::empty(),
            read: Seq::empty(),
            handed: Seq::empty(),
        }
    } else {
        after_use(queue_run(queue, uses.drop_last()), uses.last())
    }
}

/// However deliveries and reads mix, packets that arrive are kept and are read in
/// the order in which they arrived, each once: what was read, followed by what is
/// still queued, is what was queued at first, followed by what was delivered.
pub proof fn packets_are_read_in_order(queue: Seq<Seq<u8>>, uses: Seq<QueueUse>)
    ensures
        ({
            let run = queue_run(queue, uses);
            run.read + run.queue == queue + run.delivered
        }),
    decreases uses.len(),
{
    let run = queue_run(queue, uses);
    if uses.len() > 0 {
        packets_are_read_in_order(queue, uses.drop_last());
        let before = queue_run(queue, uses.drop_last());
        match uses.last() {
            QueueUse::Deliver(packet) => {
                assert(run.read + run.queue =~= (before.read + before.queue).push(packet));
                assert(queue + run.delivered =~= (queue + before.delivered).push(packet));
            },
            QueueUse::Read(_) => {
                assert(run.read + run.queue =~= before.read + before.queue);
            },
        }
    } else {
        assert(run.read + run.queue =~= queue + run.delivered);
    }
}

/// Whether a use is with packets of at most `room` bytes and buffers of at least as many.
pub open spec fn fits(u: QueueUse, room: nat) -> bool {
    match u {
        QueueUse::Deliver(packet) => packet.len() <= room,
        QueueUse::Read(r) => r >= room,
    }
}

/// Packets are handed out whole, and what is queued keeps fitting, where the buffers
/// have room for every packet.
pub proof fn packets_are_handed_out_whole(queue: Seq<Seq<u8>>, uses: Seq<QueueUse>, room: nat)
    requires
        forall|i: int| 0 <= i < queue.len() ==> (#[trigger] queue[i]).len() <= room,
        forall|i: int| 0 <= i < uses.len() ==> fits(#[trigger] uses[i], room),
    ensures
        queue_run(queue, uses).handed == queue_run(queue, uses).read,
        forall|i: int|
            0 <= i < queue_run(queue, uses).queue.len() ==> (#[trigger] queue_run(
                queue,
                uses,
            ).queue[i]).len() <= room,
    decreases uses.len(),
{
    if uses.len() > 0 {
        let front = uses.drop_last();
        assert forall|i: int| 0 <= i < front.len() implies fits(#[trigger] front[i], room) by {
            assert(front[i] == uses[i]);
        }
        packets_are_handed_out_whole(queue, front, room);
        assert(fits(uses[uses.len() - 1], room));
        let before = queue_run(queue, front).queue;
        let after = queue_run(queue, uses).queue;
        match uses.last() {
            QueueUse::Read(r) => {
                if before.len() > 0 {
                    assert(before[0].len() <= room);
                    assert(handed_out(before[0], r) =~= before[0]);
                    assert(forall|i: int| 0 <= i < after.len() ==> after[i] == before[i + 1]);
                }
            },
            QueueUse::Deliver(_) => {
                assert(forall|i: int| 0 <= i < before.len() ==> after[i] == before[i]);
            },
        }
    }
}

} // verus!
