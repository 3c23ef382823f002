//! Choosing the headset to work with among those that were found.
//!
//! On Windows a headset shows up with several interfaces, of which one can be
//! used. So each is tried in turn: its handler is made, a query is sent, and the
//! first that answers is taken. A claim through libusb already proves that the
//! interface is the right one, and is taken without a query: the firmware can be
//! in a state in which it takes settings but answers no query.
use vstd::prelude::*;
use vstd::string::*;
use crate::errors::{DeviceError, HidError};
use crate::events::DeviceEvent;
use crate::query::{response_wait, ResponseWait};
use crate::register::{find_entry, first_entry, DeviceEntry};

verus! {

/// Which of the query packets is sent to find out whether a headset answers.
pub const PROBE_PACKET: usize = 2;

/// What has just happened while connecting.
pub enum ConnectEvent {
    /// A headset with these ids is tried next.
    Try { vendor_id: u16, product_id: u16 },
    /// No headset is left to try.
    NoneLeft,
    /// The handler has been made.
    Built { is_libusb: bool },
    /// The headset has named its query packets.
    Packets(Vec<Vec<u8>>),
    /// The packet has been written.
    Written(Result<(), HidError>),
    /// The response has been waited for.
    Response(Option<Vec<DeviceEvent>>),
}

/// What is done next.
pub enum ConnectStep {
    /// The handler of this entry of the register is made and its capabilities are taken down.
    Build(usize),
    /// The headset is asked for its query packets.
    FetchPackets,
    /// The packet is written, in the steps of [`crate::write`].
    Probe(Vec<u8>),
    /// The response is waited for in this way.
    AwaitResponse(ResponseWait),
    /// The headset is taken.
    Accept,
    /// The next one is tried.
    Skip,
    /// Connecting ends with this error.
    Fail(DeviceError),
}

/// What follows an event.
pub open spec fn connect_step<F, O>(register: Seq<DeviceEntry<F, O>>, event: ConnectEvent) -> ConnectStep {
    match event {
        ConnectEvent::Try { vendor_id, product_id } => match first_entry(
            register,
            vendor_id,
            product_id,
        ) {
            Some(place) => ConnectStep::Build(place),
            None => ConnectStep::Fail(DeviceError::NoDeviceFound()),
        },
        ConnectEvent::NoneLeft => ConnectStep::Fail(DeviceError::NoDeviceFound()),
        ConnectEvent::Built { is_libusb } => if is_libusb {
            ConnectStep::Accept
        } else {
            ConnectStep::FetchPackets
        },
        ConnectEvent::Packets(packets) => ConnectStep::Probe(packets@[2]),
        ConnectEvent::Written(written) => if written is Ok {
            ConnectStep::AwaitResponse(response_wait())
        } else {
            ConnectStep::Skip
        },
        ConnectEvent::Response(events) => if events is Some {
            ConnectStep::Accept
        } else {
            ConnectStep::Skip
        },
    }
}

/// What follows an event. A headset that is asked for its query packets must have
/// the one that is sent to find out whether it answers.
pub fn connect_compatible_device<F, O>(register: &[DeviceEntry<F, O>], event: ConnectEvent) -> (step:
    ConnectStep)
    requires
        event matches ConnectEvent::Packets(packets) ==> packets@.len() > PROBE_PACKET,
    ensures
        step == connect_step(register@, event),
        event matches ConnectEvent::Try { vendor_id, product_id } ==> (
        step matches ConnectStep::Build(place) ==> {
            &&& place < register@.len()
            &&& register@[place as int].vendor_ids@.contains(vendor_id)
            &&& register@[place as int].product_ids@.contains(product_id)
            &&& forall|j: int|
                0 <= j < place ==> !((#[trigger] register@[j]).vendor_ids@.contains(vendor_id)
                    && register@[j].product_ids@.contains(product_id))
        }),
{
    proof {
        if let ConnectEvent::Try { vendor_id, product_id } = event {
            assert(register.len() <= usize::MAX);
            crate::laws::connect::handler_is_that_of_the_headset(
                register@,
                vendor_id,
                product_id,
            );
        }
    }
    match event {
        ConnectEvent::Try { vendor_id, product_id } => match find_entry(
            register,
            vendor_id,
            product_id,
        ) {
            Some(place) => ConnectStep::Build(place),
            None => ConnectStep::Fail(DeviceError::NoDeviceFound()),
        },
        ConnectEvent::NoneLeft => ConnectStep::Fail(DeviceError::NoDeviceFound()),
        ConnectEvent::Built { is_libusb } => {
            if is_libusb {
                ConnectStep::Accept
            } else {
                ConnectStep::FetchPackets
            }
        },
        ConnectEvent::Packets(packets) => {
            let mut packets = packets;
            ConnectStep::Probe(packets.remove(PROBE_PACKET))
        },
        ConnectEvent::Written(written) => match written {
            Ok(()) => ConnectStep::AwaitResponse(ResponseWait::new()),
            Err(_) => ConnectStep::Skip,
        },
        ConnectEvent::Response(events) => match events {
            Some(_) => ConnectStep::Accept,
            None => ConnectStep::Skip,
        },
    }
}

/// The headsets to try, or the step that follows a failed search.
pub open spec fn search_step<S>(found: Result<S, DeviceError>) -> Result<S, ConnectStep> {
    match found {
        Ok(states) => Ok(states),
        Err(e) => Err(ConnectStep::Fail(e)),
    }
}

/// The headsets to try once the search is over. Where it failed, connecting ends
/// with its error.
pub fn after_search<S>(found: Result<Vec<S>, DeviceError>) -> (r: Result<Vec<S>, ConnectStep>)
    ensures
        r == search_step(found),
        found matches Ok(s) ==> r == Ok::<Vec<S>, ConnectStep>(s),
        found matches Err(e) ==> r == Err::<Vec<S>, ConnectStep>(ConnectStep::Fail(e)),
{
    match found {
        Ok(states) => Ok(states),
        Err(e) => Err(ConnectStep::Fail(e)),
    }
}

/// What the user is told when a headset with this name is tried.
pub open spec fn attempt_text(name: Option<String>) -> Seq<char> {
    "Try to connecting to "@ + match name {
        Some(name) => name@,
        None => "???"@,
    }
}

/// What the user is told when a headset with this name is tried.
pub fn attempt_string(name: &Option<String>) -> (s: String)
    ensures
        s@ == attempt_text(*name),
{
    let mut s = String::from_str("Try to connecting to ");
    match name {
        Some(name) => {
            s.append(name.as_str());
        },
        None => {
            s.append("???");
        },
    }
    s
}

/// A headset that is tried, and what comes of each step that is taken with it.
pub struct Trial {
    pub vendor_id: u16,
    pub product_id: u16,
    pub is_libusb: bool,
    pub packets: Vec<Vec<u8>>,
    pub written: Result<(), HidError>,
    pub response: Option<Vec<DeviceEvent>>,
}

/// How the trial of a headset goes on after a step, until the headset is taken,
/// the next one is tried, or connecting fails.
pub open spec fn verdict_from<F, O>(register: Seq<DeviceEntry<F, O>>, t: Trial, step: ConnectStep) -> ConnectStep
    decreases
        match step {
            ConnectStep::Build(_) => 4int,
            ConnectStep::FetchPackets => 3,
            ConnectStep::Probe(_) => 2,
            ConnectStep::AwaitResponse(_) => 1,
            _ => 0,
        },
{
    match step {
        ConnectStep::Build(_) => verdict_from(
            register,
            t,
            connect_step(register, ConnectEvent::Built { is_libusb: t.is_libusb }),
        ),
        ConnectStep::FetchPackets => verdict_from(
            register,
            t,
            connect_step(register, ConnectEvent::Packets(t.packets)),
        ),
        ConnectStep::Probe(_) => verdict_from(
            register,
            t,
            connect_step(register, ConnectEvent::Written(t.written)),
        ),
        ConnectStep::AwaitResponse(_) => verdict_from(
            register,
            t,
            connect_step(register, ConnectEvent::Response(t.response)),
        ),
        _ => step,
    }
}

/// How the trial of a headset ends.
pub open spec fn verdict<F, O>(register: Seq<DeviceEntry<F, O>>, t: Trial) -> ConnectStep {
    verdict_from(
        register,
        t,
        connect_step(
            register,
            ConnectEvent::Try { vendor_id: t.vendor_id, product_id: t.product_id },
        ),
    )
}

/// Which of the headsets is taken, from the one at `from` on.
pub open spec fn connect_run<F, O>(
    register: Seq<DeviceEntry<F, O>>,
    trials: Seq<Trial>,
    from: nat,
) -> Result<nat, DeviceError>
    decreases trials.len() - from,
{
    if from >= trials.len() {
        Err(connect_step(register, ConnectEvent::NoneLeft)->Fail_0)
    } else {
        match verdict(register, trials[from as int]) {
            ConnectStep::Accept => Ok(from),
            ConnectStep::Fail(e) => Err(e),
            _ => connect_run(register, trials, from + 1),
        }
    }
}

/// Whether some entry of the register is about the headset.
pub open spec fn is_known<F, O>(register: Seq<DeviceEntry<F, O>>, t: Trial) -> bool {
    first_entry(register, t.vendor_id, t.product_id) is Some
}

/// Whether a headset can be used: it is known, and it was claimed through libusb
/// or answers.
pub open spec fn is_usable<F, O>(register: Seq<DeviceEntry<F, O>>, t: Trial) -> bool {
    is_known(register, t) && (t.is_libusb || (t.written is Ok && t.response is Some))
}

proof fn verdict_of_trial<F, O>(register: Seq<DeviceEntry<F, O>>, t: Trial)
    ensures
        verdict(register, t) == if !is_known(register, t) {
            ConnectStep::Fail(DeviceError::NoDeviceFound())
        } else if is_usable(register, t) {
            ConnectStep::Accept
        } else {
            ConnectStep::Skip
        },
{
    reveal_with_fuel(verdict_from, 5);
}

/// The headset that is taken is the first that can be used; all before it are
/// known. Where none is taken, none could be used, or an unknown one came before.
pub proof fn first_usable_headset_is_taken<F, O>(
    register: Seq<DeviceEntry<F, O>>,
    trials: Seq<Trial>,
    from: nat,
)
    requires
        from <= trials.len(),
    ensures
        connect_run(register, trials, from) matches Ok(i) ==> {
            &&& from <= i < trials.len()
            &&& is_usable(register, trials[i as int])
            &&& forall|j: int|
                from <= j < i ==> !is_usable(register, #[trigger] trials[j]) && is_known(
                    register,
                    trials[j],
                )
        },
        connect_run(register, trials, from) matches Err(e) ==> {
            &&& e == DeviceError::NoDeviceFound()
            &&& forall|k: int|
                from <= k < trials.len() && is_usable(register, #[trigger] trials[k]) ==> exists|
                    j: int,
                |
                    from <= j < k && !is_known(register, #[trigger] trials[j])
        },
    decreases trials.len() - from,
{
    if from < trials.len() {
        first_usable_headset_is_taken(register, trials, from + 1);
        verdict_of_trial(register, trials[from as int]);
    }
}

/// What connecting comes to, where `found` is what the search came to.
pub open spec fn connect_outcome<F, O>(
    register: Seq<DeviceEntry<F, O>>,
    found: Result<Seq<Trial>, DeviceError>,
) -> Result<nat, DeviceError> {
    match search_step(found) {
        Ok(trials) => connect_run(register, trials, 0),
        Err(step) => Err(step->Fail_0),
    }
}

/// An error of the search is what connecting ends with, unchanged. Where headsets
/// were found, one that no entry of the register is about ends connecting with
/// `NoDeviceFound`, whatever comes after it, unless one before it can be used.
pub proof fn connecting_fails_at_once<F, O>(
    register: Seq<DeviceEntry<F, O>>,
    found: Result<Seq<Trial>, DeviceError>,
    k: int,
)
    ensures
        found matches Err(e) ==> connect_outcome(register, found) == Err::<nat, DeviceError>(e),
        found matches Ok(trials) ==> (0 <= k < trials.len() && !is_known(register, trials[k]) && (
        forall|j: int| 0 <= j < k ==> !is_usable(register, #[trigger] trials[j]))
            ==> connect_outcome(register, found) == Err::<nat, DeviceError>(
            DeviceError::NoDeviceFound(),
        )),
{
    if found is Ok {
        first_usable_headset_is_taken(register, found->Ok_0, 0);
    }
}

} // verus!
