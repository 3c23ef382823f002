use hyper_headset::connect::{
    after_search, attempt_string, connect_compatible_device, ConnectEvent, ConnectStep,
};
use hyper_headset::discovery::{DeviceInfo, Discovery};
use hyper_headset::duration::Duration;
use hyper_headset::errors::{DeviceError, HidError};
use hyper_headset::events::DeviceEvent;
use hyper_headset::properties::DeviceProperties;
use hyper_headset::register::{
    all_product_ids, all_vendor_ids, custom_open_targets, find_entry, is_owned_by_custom_opener,
    DeviceEntry,
};
use hyper_headset::search::{Search, SearchStep};
use hyper_headset::state::DeviceState;
use hyper_headset::transport::{HidTransport, LibusbTransport};

type Entry = DeviceEntry<&'static str, &'static str>;

fn register() -> Vec<Entry> {
    vec![
        DeviceEntry {
            vendor_ids: &[0x0951],
            product_ids: &[0x1718, 0x018b],
            factory: "two",
            custom_open: None,
        },
        DeviceEntry {
            vendor_ids: &[0x03f0],
            product_ids: &[0x06be],
            factory: "three s",
            custom_open: Some("libusb"),
        },
        DeviceEntry {
            vendor_ids: &[0x03f0, 0x0951],
            product_ids: &[0x05b7, 0x018b],
            factory: "three",
            custom_open: None,
        },
    ]
}

fn info(vendor_id: u16, product_id: u16, name: Option<&str>) -> DeviceInfo {
    DeviceInfo { vendor_id, product_id, product_string: name.map(|n| n.to_string()) }
}

fn api_error(message: &str) -> HidError {
    HidError::HidApiError { message: message.to_string() }
}

fn consider(d: &mut Discovery<u8, u8>, device: &DeviceInfo) -> bool {
    let r = register();
    d.consider(&r, &all_product_ids(&r), &all_vendor_ids(&r), device)
}

fn custom_state(handle: u8) -> DeviceState<u8, u8> {
    DeviceState {
        transport: HidTransport::Libusb(LibusbTransport::open(handle, 0, 0x81, None)),
        device_properties: DeviceProperties::new(0x06be, 0x03f0, None),
    }
}

#[test]
fn ids_of_all_entries() {
    assert_eq!(all_product_ids(&register()), [0x1718, 0x018b, 0x06be, 0x05b7, 0x018b]);
    assert_eq!(all_vendor_ids(&register()), [0x0951, 0x03f0, 0x03f0, 0x0951]);
    assert_eq!(all_vendor_ids::<(), ()>(&[]), Vec::<u16>::new());
}

#[test]
fn ownership_needs_both_ids_and_an_opener() {
    assert!(is_owned_by_custom_opener(&register(), 0x03f0, 0x06be));
    assert!(!is_owned_by_custom_opener(&register(), 0x0951, 0x06be));
    assert!(!is_owned_by_custom_opener(&register(), 0x03f0, 0x05b7));
}

#[test]
fn first_entry_is_found() {
    assert_eq!(find_entry(&register(), 0x0951, 0x018b), Some(0));
    assert_eq!(find_entry(&register(), 0x03f0, 0x018b), Some(2));
    assert_eq!(find_entry(&register(), 0x03f0, 0x1718), None);
}

#[test]
fn openers_are_tried_where_wanted() {
    let r = register();
    assert_eq!(custom_open_targets(&r, &all_product_ids(&r), &all_vendor_ids(&r)), [1]);
    assert_eq!(custom_open_targets(&r, &[0x1718], &[0x03f0]), Vec::<usize>::new());
    assert_eq!(custom_open_targets(&r, &[0x06be], &[0x0951]), Vec::<usize>::new());
    assert_eq!(custom_open_targets(&r, &[0x06be], &[1, 0x03f0]), [1]);
}

#[test]
fn devices_are_selected() {
    let mut d = Discovery::new();
    assert!(consider(&mut d, &info(0x0951, 0x1718, Some("HyperX Cloud II"))));
    assert!(!consider(&mut d, &info(0x03f0, 0x06be, Some("HyperX Cloud III S"))));
    assert!(!consider(&mut d, &info(0x046d, 0x0001, Some("Mouse"))));
    assert!(!consider(&mut d, &info(0x046d, 0x0002, None)));
    assert!(d.potential.is_empty());
    assert_eq!(d.unsupported_report(), None);
}

#[test]
fn found_headsets_are_in_order() {
    let mut d: Discovery<u8, u8> = Discovery::new();
    assert!(d.add_custom(Ok(Some(custom_state(40)))) == Ok(()));
    assert!(d.add_custom(Ok(None)) == Ok(()));
    assert!(d.add_custom(Ok(Some(custom_state(41)))) == Ok(()));
    d.add_opened(&info(0x0951, 0x1718, None), Ok(1));
    d.add_opened(&info(0x0951, 0x018b, None), Err(api_error("busy")));
    d.add_opened(&info(0x03f0, 0x05b7, None), Ok(2));
    let names = vec![Some("a".to_string()), None];
    let states = match DeviceState::new(d, names) {
        Ok(states) => states,
        Err(e) => panic!("{}", e.debug_string()),
    };
    assert_eq!(states.len(), 4);
    assert!(matches!(&states[0].transport, HidTransport::Libusb(t) if t.handle == 40));
    assert!(matches!(&states[1].transport, HidTransport::Libusb(t) if t.handle == 41));
    assert!(matches!(states[2].transport, HidTransport::Hidapi(1)));
    assert!(matches!(states[3].transport, HidTransport::Hidapi(2)));
    let named = DeviceProperties::new(0x1718, 0x0951, Some("a".to_string()));
    assert!(states[2].device_properties == named);
    assert!(states[3].device_properties == DeviceProperties::new(0x05b7, 0x03f0, None));
}

#[test]
fn failing_opener_ends_the_search() {
    let mut d: Discovery<u8, u8> = Discovery::new();
    assert!(d.add_custom(Err(DeviceError::HeadSetOff())) == Err(DeviceError::HeadSetOff()));
    assert!(d.custom_states.is_empty());
}

#[test]
fn failed_search_names_the_last_failure() {
    let mut d: Discovery<u8, u8> = Discovery::new();
    d.add_opened(&info(0x0951, 0x1718, None), Err(api_error("first")));
    d.add_opened(&info(0x0951, 0x1718, None), Err(api_error("second")));
    let e = DeviceState::new(d, Vec::new()).err();
    assert!(e == Some(DeviceError::HidError(api_error("second"))));
}

#[test]
fn empty_search_finds_no_device() {
    let d: Discovery<u8, u8> = Discovery::new();
    assert!(DeviceState::new(d, Vec::new()).err() == Some(DeviceError::NoDeviceFound()));
}

#[test]
fn one_unsupported_device_is_reported() {
    let mut d = Discovery::new();
    consider(&mut d, &info(0x03f0, 0x0abc, Some("HyperX Cloud X")));
    consider(&mut d, &info(0x03f0, 0x0abc, Some("HyperX Cloud X")));
    assert_eq!(
        d.unsupported_report().as_deref(),
        Some(
            "Found the following HyperX device: [\n    vendorID: 0x03F0 productID: 0x0ABC name: \
             HyperX Cloud X\n]\nHowever, either it is not supported or the product ID is not yet \
             known."
        )
    );
}

#[test]
fn several_unsupported_devices_are_reported() {
    let mut d = Discovery::new();
    consider(&mut d, &info(0x03f0, 0x0abc, Some("HyperX A")));
    consider(&mut d, &info(0x03f0, 0x0abc, Some("The HyperX B")));
    assert_eq!(
        d.unsupported_report().as_deref(),
        Some(
            "Found the following HyperX devices: [\n    vendorID: 0x03F0 productID: 0x0ABC name: \
             HyperX A,\n    vendorID: 0x03F0 productID: 0x0ABC name: The HyperX B\n]\nHowever, \
             either they are not supported or the product ID is not yet known."
        )
    );
    d.add_opened(&info(0x0951, 0x1718, None), Ok(1));
    assert_eq!(d.unsupported_report(), None);
}

fn after(event: ConnectEvent) -> ConnectStep {
    connect_compatible_device(&register(), event)
}

#[test]
fn handlers_are_selected() {
    assert!(matches!(
        after(ConnectEvent::Try { vendor_id: 0x03f0, product_id: 0x018b }),
        ConnectStep::Build(2)
    ));
    assert!(matches!(
        after(ConnectEvent::Try { vendor_id: 0x03f0, product_id: 0x1718 }),
        ConnectStep::Fail(DeviceError::NoDeviceFound())
    ));
    assert!(matches!(
        after(ConnectEvent::NoneLeft),
        ConnectStep::Fail(DeviceError::NoDeviceFound())
    ));
}

#[test]
fn claimed_headsets_are_taken_unasked() {
    assert!(matches!(after(ConnectEvent::Built { is_libusb: true }), ConnectStep::Accept));
    assert!(matches!(after(ConnectEvent::Built { is_libusb: false }), ConnectStep::FetchPackets));
}

#[test]
fn other_headsets_must_answer() {
    let step = after(ConnectEvent::Packets(vec![vec![1], vec![2], vec![3, 3], vec![4]]));
    assert!(matches!(step, ConnectStep::Probe(p) if p == [3, 3]));
    match after(ConnectEvent::Written(Ok(()))) {
        ConnectStep::AwaitResponse(wait) => {
            assert!(wait.delay == Duration { secs: 0, nanos: 50_000_000 });
            assert!(wait.limit == Duration { secs: 1, nanos: 0 });
        }
        _ => panic!("the response is waited for"),
    }
    assert!(matches!(
        after(ConnectEvent::Written(Err(HidError::InvalidZeroSizeData))),
        ConnectStep::Skip
    ));
    assert!(matches!(after(ConnectEvent::Response(None)), ConnectStep::Skip));
    assert!(matches!(after(ConnectEvent::Response(Some(Vec::new()))), ConnectStep::Accept));
    assert!(matches!(
        after(ConnectEvent::Response(Some(vec![DeviceEvent::Muted(true)]))),
        ConnectStep::Accept
    ));
}

/// The first headset is of the register but silent, the second answers.
#[test]
fn the_first_headset_that_answers_is_taken() {
    let responses = [None, Some(Vec::new()), Some(Vec::new())];
    let mut taken = None;
    for (i, response) in responses.into_iter().enumerate() {
        let step = after(ConnectEvent::Try { vendor_id: 0x03f0, product_id: 0x018b });
        assert!(matches!(step, ConnectStep::Build(2)));
        if let ConnectStep::Accept = after(ConnectEvent::Response(response)) {
            taken = Some(i);
            break;
        }
    }
    assert_eq!(taken, Some(1));
}

#[test]
fn attempts_are_announced() {
    assert_eq!(
        attempt_string(&Some("Cloud II".to_string())),
        "Try to connecting to Cloud II"
    );
    assert_eq!(attempt_string(&None), "Try to connecting to ???");
}

/// Searches, and says which steps were taken and what was found.
fn search(
    customs: Vec<Result<Option<DeviceState<u8, u8>>, DeviceError>>,
    listing: Result<Vec<DeviceInfo>, HidError>,
    opens: Vec<Result<u8, HidError>>,
) -> (Vec<String>, Result<Discovery<u8, u8>, DeviceError>) {
    let mut r = register();
    r.push(DeviceEntry {
        vendor_ids: &[0x03f0],
        product_ids: &[0x0777],
        factory: "four",
        custom_open: Some("libusb"),
    });
    let (products, vendors) = (all_product_ids(&r), all_vendor_ids(&r));
    let mut customs = customs.into_iter();
    let mut opens = opens.into_iter();
    let mut listing = Some(listing);
    let mut steps = Vec::new();
    let mut search = Search::new(&r, &products, &vendors);
    let mut step = search.start();
    loop {
        step = match step {
            SearchStep::OpenCustom(place) => {
                steps.push(format!("custom {place}"));
                search.take_custom(customs.next().expect("an opener"))
            }
            SearchStep::ListDevices => {
                steps.push("list".to_string());
                let listing = listing.take().expect("devices are listed once");
                search.take_listing(&r, &products, &vendors, listing)
            }
            SearchStep::OpenDevice(place) => {
                steps.push(format!("open {place}"));
                let opened = opens.next().expect("a device");
                search.take_opened(&r, &products, &vendors, opened)
            }
            SearchStep::ReadNames => return (steps, Ok(search.found)),
            SearchStep::Fail(e) => return (steps, Err(e)),
        }
    }
}

#[test]
fn openers_come_before_hidapi() {
    let listing = vec![
        info(0x046d, 0x0001, Some("Mouse")),
        info(0x0951, 0x1718, None),
        info(0x03f0, 0x06be, Some("HyperX Cloud III S")),
        info(0x03f0, 0x0abc, Some("HyperX X")),
        info(0x03f0, 0x05b7, None),
        info(0x0951, 0x018b, None),
    ];
    let (steps, found) = search(
        vec![Ok(Some(custom_state(40))), Ok(None)],
        Ok(listing),
        vec![Ok(1), Err(api_error("busy")), Ok(2)],
    );
    assert_eq!(steps, ["custom 1", "custom 3", "list", "open 1", "open 4", "open 5"]);
    let found = found.unwrap_or_else(|e| panic!("{}", e.debug_string()));
    assert_eq!(found.custom_states.len(), 1);
    assert_eq!(found.potential.len(), 1);
    assert_eq!(found.potential[0].name, "HyperX X");
    assert!(found.error == Some(api_error("busy")));
    let devices: Vec<(u8, u16)> =
        found.candidates.iter().map(|c| (c.device, c.product_id)).collect();
    assert_eq!(devices, [(1, 0x1718), (2, 0x018b)]);
}

#[test]
fn nothing_is_tried_after_a_failing_opener() {
    let (steps, found) = search(
        vec![Err(DeviceError::HeadSetOff()), Ok(None)],
        Ok(Vec::new()),
        Vec::new(),
    );
    assert_eq!(steps, ["custom 1"]);
    assert!(found.err() == Some(DeviceError::HeadSetOff()));
}

#[test]
fn hidapi_that_does_not_start_ends_the_search() {
    let (steps, found) = search(
        vec![Ok(Some(custom_state(40))), Ok(None)],
        Err(api_error("no udev")),
        Vec::new(),
    );
    assert_eq!(steps, ["custom 1", "custom 3", "list"]);
    assert!(found.err() == Some(DeviceError::HidError(api_error("no udev"))));
}

#[test]
fn failed_search_ends_connecting() {
    match after_search::<u8>(Err(DeviceError::HidError(api_error("no udev")))) {
        Err(ConnectStep::Fail(e)) => assert!(e == DeviceError::HidError(api_error("no udev"))),
        _ => panic!("connecting ends with the error of the search"),
    }
    assert!(matches!(after_search(Ok(vec![1, 2])), Ok(states) if states == [1, 2]));
}
