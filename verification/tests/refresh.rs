use hyper_headset::duration::Duration;
use hyper_headset::errors::{DeviceError, HidError};
use hyper_headset::events::DeviceEvent;
use hyper_headset::properties::DeviceProperties;
use hyper_headset::query::{query_reply, QueryReply, QueryStep, ResponseWait};
use hyper_headset::refresh::{ActiveRefresh, PassiveRefresh, PassiveStep, RefreshStep};
use hyper_headset::state::DeviceState;
use hyper_headset::transport::HidTransport;
use hyper_headset::write::{
    after_feature_report, next_write_step, write_hid_report, WriteEvent, WriteStep,
};

const WAIT: ResponseWait = ResponseWait {
    delay: Duration { secs: 0, nanos: 50_000_000 },
    limit: Duration { secs: 1, nanos: 0 },
};

fn state() -> DeviceState<(), ()> {
    DeviceState {
        transport: HidTransport::Hidapi(()),
        device_properties: DeviceProperties::new(1, 2, None),
    }
}

fn error(message: &str) -> HidError {
    HidError::HidApiError { message: message.to_string() }
}

/// Runs an active refresh and says which packets were sent and what it came to.
fn run(
    s: &mut DeviceState<(), ()>,
    packets: Vec<Vec<u8>>,
    replies: Vec<QueryReply>,
) -> (Vec<Vec<u8>>, Result<(), DeviceError>) {
    let mut sent = Vec::new();
    let mut replies = replies.into_iter();
    let mut refresh = ActiveRefresh::new(packets);
    let mut step = refresh.start();
    loop {
        match step {
            RefreshStep::Query(packet, wait) => {
                assert!(wait == WAIT);
                sent.push(packet);
                let reply = replies.next().expect("a reply for each packet");
                step = refresh.take_reply(s, reply);
            }
            RefreshStep::Done(result) => return (sent, result),
        }
    }
}

fn connected() -> QueryReply {
    QueryReply::Events(vec![DeviceEvent::WirelessConnected(true)])
}

#[test]
fn connected_headset_is_asked_everything() {
    let mut s = state();
    let (sent, result) = run(
        &mut s,
        vec![vec![1], vec![2], vec![3]],
        vec![
            connected(),
            QueryReply::NoResponse,
            QueryReply::Events(vec![DeviceEvent::BatterLevel(70), DeviceEvent::Muted(true)]),
        ],
    );
    assert_eq!(sent, [[1], [2], [3]]);
    assert!(result == Ok(()));
    assert_eq!(s.device_properties.battery_level, Some(70));
    assert_eq!(s.device_properties.muted, Some(true));
}

#[test]
fn silent_headset_is_asked_once() {
    let mut s = state();
    let (sent, result) = run(&mut s, vec![vec![1], vec![2]], vec![QueryReply::NoResponse]);
    assert_eq!(sent, [[1]]);
    assert!(result == Err(DeviceError::NoResponse()));
}

#[test]
fn disconnected_headset_is_left_alone() {
    let mut s = state();
    let (sent, result) = run(
        &mut s,
        vec![vec![1], vec![2], vec![3]],
        vec![connected(), QueryReply::Events(vec![DeviceEvent::WirelessConnected(false)])],
    );
    assert_eq!(sent, [[1], [2]]);
    assert!(result == Ok(()));
    assert_eq!(s.device_properties.connected, Some(false));
}

#[test]
fn answer_without_connection_report_ends_the_refresh() {
    let mut s = state();
    let (sent, result) = run(
        &mut s,
        vec![vec![1], vec![2]],
        vec![QueryReply::Events(vec![DeviceEvent::BatterLevel(5)])],
    );
    assert_eq!(sent.len(), 1);
    assert!(result == Ok(()));
    assert_eq!(s.device_properties.battery_level, Some(5));
}

#[test]
fn failed_write_ends_the_refresh() {
    let mut s = state();
    let (sent, result) = run(
        &mut s,
        vec![vec![1], vec![2], vec![3]],
        vec![connected(), QueryReply::WriteFailed(error("gone"))],
    );
    assert_eq!(sent.len(), 2);
    assert!(result == Err(DeviceError::HidError(error("gone"))));
}

#[test]
fn refresh_without_packets_has_no_response() {
    let mut s = state();
    s.device_properties.connected = Some(true);
    assert!(run(&mut s, Vec::new(), Vec::new()) == (Vec::new(), Err(DeviceError::NoResponse())));
}

#[test]
fn passive_refresh_listens_where_allowed() {
    let r = PassiveRefresh::new();
    assert!(matches!(
        r.start(true),
        PassiveStep::Listen(Duration { secs: 2, nanos: 0 })
    ));
    assert!(matches!(r.start(false), PassiveStep::FetchBatteryPacket));
}

#[test]
fn passive_refresh_takes_up_events() {
    let mut s = state();
    let mut r = PassiveRefresh::new();
    let step = r.take_heard(&mut s, Some(vec![DeviceEvent::Muted(true)]));
    assert!(matches!(step, PassiveStep::FetchBatteryPacket));
    assert!(matches!(r.take_battery_packet(Some(vec![9])), PassiveStep::Query(p, WAIT) if p == [9]));
    let step = r.take_reply(&mut s, QueryReply::Events(vec![DeviceEvent::BatterLevel(33)]));
    assert!(matches!(step, PassiveStep::Done(Ok(()))));
    assert_eq!(s.device_properties.muted, Some(true));
    assert_eq!(s.device_properties.battery_level, Some(33));
}

#[test]
fn passive_refresh_without_battery_packet() {
    let mut s = state();
    let mut r = PassiveRefresh::new();
    r.take_heard(&mut s, None);
    assert!(matches!(r.take_battery_packet(None), PassiveStep::Done(Ok(()))));
    r.take_heard(&mut s, Some(vec![DeviceEvent::WirelessConnected(true)]));
    assert!(matches!(r.take_battery_packet(None), PassiveStep::RefreshAll));
}

#[test]
fn headset_that_turns_on_is_asked_everything() {
    let mut s = state();
    let mut r = PassiveRefresh::new();
    assert!(matches!(r.take_reply(&mut s, QueryReply::NoResponse), PassiveStep::Done(Ok(()))));
    let off = QueryReply::Events(vec![DeviceEvent::WirelessConnected(false)]);
    assert!(matches!(r.take_reply(&mut s, off), PassiveStep::Done(Ok(()))));
    assert!(matches!(r.take_reply(&mut s, connected()), PassiveStep::RefreshAll));
    assert!(matches!(r.take_reply(&mut s, QueryReply::NoResponse), PassiveStep::RefreshAll));
}

#[test]
fn failed_battery_query_ends_the_passive_refresh() {
    let mut s = state();
    let mut r = PassiveRefresh::new();
    r.take_heard(&mut s, Some(vec![DeviceEvent::WirelessConnected(true)]));
    match r.take_reply(&mut s, QueryReply::WriteFailed(error("x"))) {
        PassiveStep::Done(result) => {
            assert!(result == Err(DeviceError::HidError(error("x"))));
        }
        _ => panic!("the refresh has ended"),
    }
}

#[test]
fn written_packets_are_done() {
    assert!(matches!(write_hid_report(true, Ok(64)), WriteStep::Done(Ok(()))));
    assert!(matches!(write_hid_report(false, Ok(0)), WriteStep::Done(Ok(()))));
}

#[test]
fn windows_falls_back_to_feature_reports() {
    let refused = || error("WriteFile: (0x00000001) Incorrect function.");
    match write_hid_report(true, Err(refused())) {
        WriteStep::SendFeatureReport(e) => assert!(e == refused()),
        _ => panic!("a feature report is sent"),
    }
    match write_hid_report(false, Err(refused())) {
        WriteStep::Done(r) => assert!(r == Err(refused())),
        _ => panic!("only on Windows"),
    }
    match write_hid_report(true, Err(error("other"))) {
        WriteStep::Done(r) => assert!(r == Err(error("other"))),
        _ => panic!("only where it was refused"),
    }
    assert!(after_feature_report(refused(), Ok(())) == Ok(()));
    assert!(after_feature_report(refused(), Err(error("late"))) == Err(refused()));
}

#[test]
fn responses_are_given_a_moment() {
    assert!(ResponseWait::new() == WAIT);
    assert!(matches!(WAIT.after_written(Ok(())), QueryStep::Await(WAIT)));
    match WAIT.after_written(Err(error("gone"))) {
        QueryStep::Done(QueryReply::WriteFailed(e)) => assert!(e == error("gone")),
        _ => panic!("nothing is waited for"),
    }
    assert!(matches!(query_reply(None), QueryReply::NoResponse));
    match query_reply(Some(vec![DeviceEvent::BatterLevel(7)])) {
        QueryReply::Events(events) => {
            assert!(matches!(events.as_slice(), [DeviceEvent::BatterLevel(7)]))
        }
        _ => panic!("there is a response"),
    }
}

#[test]
fn failed_preparation_sends_nothing() {
    let mut refresh = ActiveRefresh::new(vec![vec![1], vec![2]]);
    match refresh.begin(Err(DeviceError::HeadSetOff())) {
        RefreshStep::Done(result) => assert!(result == Err(DeviceError::HeadSetOff())),
        RefreshStep::Query(_, _) => panic!("no packet is sent"),
    }
    assert_eq!(refresh.pending, [[1], [2]]);
    assert!(matches!(refresh.begin(Ok(())), RefreshStep::Query(p, WAIT) if p == [1]));
    assert_eq!(refresh.pending, [[2]]);
}

/// Writes a packet and says in which steps.
fn written_in(on_windows: bool, written: Option<HidError>, sent: Option<HidError>) -> Vec<String> {
    let mut outcomes = (written, sent);
    let mut steps = Vec::new();
    let mut event = WriteEvent::Asked;
    loop {
        event = match next_write_step(on_windows, event) {
            WriteStep::Prepare => {
                steps.push("prepare".to_string());
                WriteEvent::Prepared
            }
            WriteStep::Write => {
                steps.push("write".to_string());
                WriteEvent::Written(outcomes.0.take().map_or(Ok(64), Err))
            }
            WriteStep::SendFeatureReport(e) => {
                steps.push("feature report".to_string());
                WriteEvent::FeatureReportSent(e, outcomes.1.take().map_or(Ok(()), Err))
            }
            WriteStep::Done(Ok(())) => {
                steps.push("done".to_string());
                return steps;
            }
            WriteStep::Done(Err(e)) => {
                steps.push(e.debug_string());
                return steps;
            }
        }
    }
}

#[test]
fn every_write_follows_a_preparation() {
    let refused = || Some(error("Incorrect function"));
    let shown = "HidApiError { message: \"Incorrect function\" }";
    assert_eq!(written_in(true, None, None), ["prepare", "write", "done"]);
    assert_eq!(written_in(false, refused(), None), ["prepare", "write", shown]);
    assert_eq!(written_in(true, refused(), None), ["prepare", "write", "feature report", "done"]);
    assert_eq!(
        written_in(true, refused(), Some(error("late"))),
        ["prepare", "write", "feature report", shown]
    );
}
