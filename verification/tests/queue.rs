use hyper_headset::cleanup::CleanupSlot;
use hyper_headset::duration::Duration;
use hyper_headset::errors::UsbError;
use hyper_headset::queue::{PacketQueue, ReadStep};
use hyper_headset::reader::{reader_step, ReaderEvent, ReaderStep};

const SECOND: Duration = Duration { secs: 1, nanos: 0 };
const NOTHING: Duration = Duration { secs: 0, nanos: 0 };

fn has_read(result: Result<usize, UsbError>) -> ReaderStep {
    reader_step(ReaderEvent::HasRead(result))
}

#[test]
fn reader_goes_on_until_the_device_is_gone() {
    assert_eq!(has_read(Ok(5)), ReaderStep::CallHook(5));
    assert_eq!(has_read(Ok(0)), ReaderStep::CheckStop);
    assert_eq!(has_read(Err(UsbError::Timeout)), ReaderStep::CheckStop);
    assert_eq!(has_read(Err(UsbError::Io)), ReaderStep::CheckStop);
    assert_eq!(has_read(Err(UsbError::NoDevice)), ReaderStep::End);
    assert_eq!(has_read(Err(UsbError::Pipe)), ReaderStep::End);
}

#[test]
fn reader_stops_when_told() {
    assert_eq!(reader_step(ReaderEvent::Told { stop: false }), ReaderStep::Read);
    assert_eq!(reader_step(ReaderEvent::Told { stop: true }), ReaderStep::End);
}

/// Runs the reader on these reads. Between two steps nothing is taken from the queue.
#[test]
fn hook_sees_packets_before_they_are_queued() {
    let reads: [(Result<usize, UsbError>, [u8; 3]); 6] = [
        (Ok(2), [1, 2, 0]),
        (Err(UsbError::Timeout), [9, 9, 9]),
        (Ok(0), [9, 9, 9]),
        (Ok(1), [3, 9, 9]),
        (Err(UsbError::NoDevice), [9, 9, 9]),
        (Ok(3), [9, 9, 9]),
    ];
    let mut reads = reads.into_iter();
    let mut queue = PacketQueue::new();
    let mut buf = [0u8; 3];
    let mut seen = Vec::new();
    let mut event = ReaderEvent::Told { stop: false };
    loop {
        event = match reader_step(event) {
            ReaderStep::CheckStop => ReaderEvent::Told { stop: false },
            ReaderStep::Read => {
                let (result, bytes) = reads.next().expect("the device is gone before");
                buf = bytes;
                ReaderEvent::HasRead(result)
            }
            ReaderStep::CallHook(n) => {
                seen.push(format!("hook {:?}", &buf[..n]));
                ReaderEvent::HookCalled(n)
            }
            ReaderStep::Queue(n) => {
                seen.push(format!("queue {:?}", &buf[..n]));
                queue.deliver(&buf, n);
                ReaderEvent::Queued
            }
            ReaderStep::End => break,
        };
    }
    assert_eq!(seen, ["hook [1, 2]", "queue [1, 2]", "hook [3]", "queue [3]"]);
    assert_eq!(reads.count(), 1);
    let mut buf = [0u8; 3];
    assert!(queue.read_interrupt(&mut buf, SECOND, NOTHING) == ReadStep::Delivered(2));
    assert_eq!(buf, [1, 2, 0]);
    assert!(queue.read_interrupt(&mut buf, SECOND, NOTHING) == ReadStep::Delivered(1));
    assert_eq!(buf, [3, 2, 0]);
}

#[test]
fn reads_and_deliveries_mix() {
    let mut q = PacketQueue::new();
    let mut buf = [0u8; 1];
    q.deliver(&[1], 1);
    q.deliver(&[2], 1);
    q.read_interrupt(&mut buf, SECOND, NOTHING);
    assert_eq!(buf, [1]);
    q.deliver(&[3], 1);
    q.read_interrupt(&mut buf, SECOND, NOTHING);
    assert_eq!(buf, [2]);
    q.read_interrupt(&mut buf, SECOND, NOTHING);
    assert_eq!(buf, [3]);
    assert!(q.read_interrupt(&mut buf, NOTHING, NOTHING) == ReadStep::TimedOut);
    q.deliver(&[4], 1);
    q.read_interrupt(&mut buf, SECOND, NOTHING);
    assert_eq!(buf, [4]);
}

#[test]
fn packets_come_out_in_order() {
    let mut q = PacketQueue::new();
    q.deliver(&[1, 2, 3, 9, 9], 3);
    q.deliver(&[4], 1);
    let mut buf = [0u8; 4];
    assert!(q.read_interrupt(&mut buf, SECOND, NOTHING) == ReadStep::Delivered(3));
    assert_eq!(buf, [1, 2, 3, 0]);
    assert!(q.read_interrupt(&mut buf, SECOND, NOTHING) == ReadStep::Delivered(1));
    assert_eq!(buf, [4, 2, 3, 0]);
    assert!(q.read_interrupt(&mut buf, SECOND, SECOND) == ReadStep::TimedOut);
}

#[test]
fn long_packets_are_cut() {
    let mut q = PacketQueue::new();
    q.deliver(&[1, 2, 3], 3);
    let mut buf = [0u8; 2];
    assert!(q.read_interrupt(&mut buf, NOTHING, SECOND) == ReadStep::Delivered(2));
    assert_eq!(buf, [1, 2]);
    assert!(q.read_interrupt(&mut buf, NOTHING, SECOND) == ReadStep::TimedOut);
}

#[test]
fn empty_queue_waits_or_times_out() {
    let mut q = PacketQueue::new();
    let mut buf = [7u8; 2];
    let step = q.read_interrupt(&mut buf, SECOND, Duration { secs: 0, nanos: 1 });
    assert!(step == ReadStep::Wait(Duration { secs: 0, nanos: 999_999_999 }));
    assert!(q.read_interrupt(&mut buf, NOTHING, NOTHING) == ReadStep::TimedOut);
    assert_eq!(buf, [7, 7]);
}

#[test]
fn bytes_of_a_read() {
    assert_eq!(ReadStep::Delivered(4).bytes_read(), Some(4));
    assert_eq!(ReadStep::TimedOut.bytes_read(), Some(0));
    assert_eq!(ReadStep::Wait(SECOND).bytes_read(), None);
}

#[test]
fn cleanup_is_handed_out_once() {
    let mut slot = CleanupSlot::new();
    assert_eq!(slot.take_cleanup(), None);
    slot.register_libusb_cleanup("first");
    slot.register_libusb_cleanup("second");
    assert_eq!(slot.take_cleanup(), Some("second"));
    assert_eq!(slot.take_cleanup(), None);
    slot.register_libusb_cleanup("third");
    slot.clear_libusb_cleanup();
    assert_eq!(slot.take_cleanup(), None);
}
