//! The search for headsets among the HID devices of the machine.
//!
//! Entries of the register with an opener of their own come first: once hidapi
//! has touched an interface, a claim through libusb races with the kernel
//! driver. Only then are the HID devices listed one by one. Each is shown to
//! [`Discovery::consider`], opened through hidapi where that says so, and what
//! came of it is handed to [`Discovery::add_opened`]. That order is kept by
//! [`crate::search`].
use vstd::prelude::*;
use vstd::string::*;
use crate::errors::{DeviceError, HidError};
use crate::properties::{blank_properties, DeviceProperties};
use crate::register::{custom_owned, is_owned_by_custom_opener, DeviceEntry};
use crate::state::DeviceState;
use crate::text::{contains_text, hex_word_string, join_lines, joined, occurs_in, text_views};
use crate::transport::HidTransport;

verus! {

/// A HID device of the machine, as it is listed.
#[derive(Debug, Clone, PartialEq, Eq)]
pub struct DeviceInfo {
    pub vendor_id: u16,
    pub product_id: u16,
    pub product_string: Option<String>,
}

/// A device of the right make that no entry of the register is about.
#[derive(Debug, Clone, PartialEq, Eq)]
pub struct PotentialDevice {
    pub vendor_id: u16,
    pub product_id: u16,
    pub name: String,
}

impl View for PotentialDevice {
    type V = (u16, u16, Seq<char>);

    open spec fn view(&self) -> (u16, u16, Seq<char>) {
        (self.vendor_id, self.product_id, self.name@)
    }
}

/// A device that was opened through hidapi.
pub struct Candidate<D> {
    pub device: D,
    pub product_id: u16,
    pub vendor_id: u16,
}

/// What the search has found so far.
pub struct Discovery<D, U> {
    pub custom_states: Vec<DeviceState<D, U>>,
    pub candidates: Vec<Candidate<D>>,
    pub potential: Vec<PotentialDevice>,
    pub error: Option<HidError>,
}

/// What the listing of the HID devices has found so far.
pub struct Listed<D> {
    pub candidates: Seq<Candidate<D>>,
    pub potential: Seq<(u16, u16, Seq<char>)>,
    pub error: Option<HidError>,
}

/// Whether a listed device is to be opened: it has a wanted product id and a
/// wanted vendor id, and is not left to an opener of its own.
pub open spec fn is_selected<F, O>(
    register: Seq<DeviceEntry<F, O>>,
    product_ids: Seq<u16>,
    vendor_ids: Seq<u16>,
    info: DeviceInfo,
) -> bool {
    &&& !custom_owned(register, info.vendor_id, info.product_id)
    &&& product_ids.contains(info.product_id)
    &&& vendor_ids.contains(info.vendor_id)
}

/// Whether a listed device is of the right make but is not to be opened by anyone.
pub open spec fn is_potential<F, O>(
    register: Seq<DeviceEntry<F, O>>,
    product_ids: Seq<u16>,
    vendor_ids: Seq<u16>,
    info: DeviceInfo,
) -> bool {
    &&& !custom_owned(register, info.vendor_id, info.product_id)
    &&& !is_selected(register, product_ids, vendor_ids, info)
    &&& info.product_string matches Some(name) && occurs_in("HyperX"@, name@)
}

/// The findings once a potential device has been seen, which is kept once.
pub open spec fn with_potential<D>(found: Listed<D>, info: DeviceInfo) -> Listed<D> {
    let device = (info.vendor_id, info.product_id, info.product_string->0@);
    Listed {
        potential: if found.potential.contains(device) {
            found.potential
        } else {
            found.potential.push(device)
        },
        ..found
    }
}

/// The findings once a selected device has been opened or has failed to open.
pub open spec fn with_opened<D>(found: Listed<D>, info: DeviceInfo, opened: Result<D, HidError>) -> Listed<
    D,
> {
    match opened {
        Ok(device) => Listed {
            candidates: found.candidates.push(
                Candidate { device, product_id: info.product_id, vendor_id: info.vendor_id },
            ),
            ..found
        },
        Err(e) => Listed { error: Some(e), ..found },
    }
}

impl<D, U> Discovery<D, U> {
    pub open spec fn listed(&self) -> Listed<D> {
        Listed {
            candidates: self.candidates@,
            potential: self.potential@.map_values(|p: PotentialDevice| p@),
            error: self.error,
        }
    }

    /// Nothing has been found yet.
    pub open spec fn is_empty(&self) -> bool {
        self.custom_states@.len() == 0 && self.candidates@.len() == 0
    }

    pub fn new() -> (d: Self)
        ensures
            d.custom_states@.len() == 0,
            d.listed() == (Listed::<D> {
                candidates: Seq::empty(),
                potential: Seq::empty(),
                error: None,
            }),
    {
        let d = Discovery {
            custom_states: Vec::new(),
            candidates: Vec::new(),
            potential: Vec::new(),
            error: None,
        };
        assert(d.listed().candidates =~= Seq::<Candidate<D>>::empty());
        assert(d.listed().potential =~= Seq::<(u16, u16, Seq<char>)>::empty());
        d
    }

    /// Takes up what an opener of its own came back with: a headset, nothing, or
    /// the error that ends the search.
    pub fn add_custom(&mut self, opened: Result<Option<DeviceState<D, U>>, DeviceError>) -> (r: Result<
        (),
        DeviceError,
    >)
        ensures
            final(self).listed() == old(self).listed(),
            opened matches Ok(Some(state)) ==> final(self).custom_states@
                == old(self).custom_states@.push(state),
            !(opened matches Ok(Some(_))) ==> final(self).custom_states@ == old(self).custom_states@,
            opened is Ok ==> r == Ok::<(), DeviceError>(()),
            opened matches Err(e) ==> r == Err::<(), DeviceError>(e),
    {
        match opened {
            Ok(Some(state)) => {
                self.custom_states.push(state);
                Ok(())
            },
            Ok(None) => Ok(()),
            Err(e) => Err(e),
        }
    }

    fn knows_potential(&self, info: &DeviceInfo, name: &String) -> (known: bool)
        ensures
            known == self.listed().potential.contains((info.vendor_id, info.product_id, name@)),
    {
        let ghost views = self.listed().potential;
        let mut i: usize = 0;
        while i < self.potential.len()
            invariant
                i <= self.potential@.len(),
                views == self.potential@.map_values(|p: PotentialDevice| p@),
                forall|j: int|
                    0 <= j < i ==> views[j] != (info.vendor_id, info.product_id, name@),
            decreases self.potential@.len() - i,
        {
            let p = &self.potential[i];
            if p.vendor_id == info.vendor_id && p.product_id == info.product_id && p.name == *name {
                assert(views[i as int] == (info.vendor_id, info.product_id, name@));
                return true;
            }
            assert(views[i as int] == self.potential@[i as int]@);
            i = i + 1;
        }
        false
    }

    /// Whether a listed device is to be opened through hidapi. One that is not
    /// but looks like a headset of the right make is noted.
    pub fn consider<F, O>(
        &mut self,
        register: &[DeviceEntry<F, O>],
        product_ids: &[u16],
        vendor_ids: &[u16],
        info: &DeviceInfo,
    ) -> (open: bool)
        ensures
            open == is_selected(register@, product_ids@, vendor_ids@, *info),
            final(self).custom_states == old(self).custom_states,
            final(self).listed() == (if is_potential(
                register@,
                product_ids@,
                vendor_ids@,
                *info,
            ) {
                with_potential(old(self).listed(), *info)
            } else {
                old(self).listed()
            }),
    {
        if is_owned_by_custom_opener(register, info.vendor_id, info.product_id) {
            return false;
        }
        if crate::register::contains_id(product_ids, info.product_id)
            && crate::register::contains_id(vendor_ids, info.vendor_id) {
            return true;
        }
        match &info.product_string {
            Some(name) => {
                if contains_text(name.as_str(), "HyperX") && !self.knows_potential(info, name) {
                    let ghost before = self.listed().potential;
                    let device = PotentialDevice {
                        vendor_id: info.vendor_id,
                        product_id: info.product_id,
                        name: name.clone(),
                    };
                    self.potential.push(device);
                    assert(self.listed().potential =~= before.push(device@));
                }
            },
            None => {},
        }
        false
    }

    /// Takes up what opening a selected device came to.
    pub fn add_opened(&mut self, info: &DeviceInfo, opened: Result<D, HidError>)
        ensures
            final(self).custom_states == old(self).custom_states,
            final(self).listed() == with_opened(old(self).listed(), *info, opened),
    {
        match opened {
            Ok(device) => {
                self.candidates.push(
                    Candidate { device, product_id: info.product_id, vendor_id: info.vendor_id },
                );
            },
            Err(e) => {
                self.error = Some(e);
            },
        }
    }
}

/// The state of a headset that was opened through hidapi and has this name.
pub open spec fn candidate_state<D, U>(c: Candidate<D>, name: Option<String>) -> DeviceState<D, U> {
    DeviceState {
        transport: HidTransport::Hidapi(c.device),
        device_properties: blank_properties(c.product_id, c.vendor_id, name),
    }
}

/// The states of the headsets that were opened through hidapi, with their names.
pub open spec fn candidate_states<D, U>(
    candidates: Seq<Candidate<D>>,
    names: Seq<Option<String>>,
) -> Seq<DeviceState<D, U>> {
    Seq::new(candidates.len(), |i: int| candidate_state(candidates[i], names[i]))
}

impl<D, U> DeviceState<D, U> {
    /// The headsets that the search has found, where `names` are the names that
    /// the candidates report. Those with an opener of their own come first.
    pub fn new(discovery: Discovery<D, U>, names: Vec<Option<String>>) -> (r: Result<
        Vec<DeviceState<D, U>>,
        DeviceError,
    >)
        requires
            names@.len() == discovery.candidates@.len(),
        ensures
            discovery.is_empty() <==> r is Err,
            r matches Err(e) ==> e == match discovery.error {
                Some(hid) => DeviceError::HidError(hid),
                None => DeviceError::NoDeviceFound(),
            },
            r matches Ok(states) ==> states@ == discovery.custom_states@ + candidate_states::<D, U>(
                discovery.candidates@,
                names@,
            ),
            r matches Ok(states) ==> states@.len() == discovery.custom_states@.len()
                + discovery.candidates@.len(),
            r matches Ok(states) ==> forall|i: int|
                0 <= i < discovery.candidates@.len() ==> {
                    let state = states@[discovery.custom_states@.len() + i];
                    &&& state.transport == HidTransport::<D, U>::Hidapi(
                        (#[trigger] discovery.candidates@[i]).device,
                    )
                    &&& state.device_properties.product_id == discovery.candidates@[i].product_id
                    &&& state.device_properties.vendor_id == discovery.candidates@[i].vendor_id
                    &&& state.device_properties.device_name == names@[i]
                },
    {
        let ghost found = discovery;
        let ghost all_names = names@;
        let Discovery { custom_states, candidates, potential: _, error } = discovery;
        if candidates.len() == 0 && custom_states.len() == 0 {
            return match error {
                Some(hid) => Err(DeviceError::from(hid)),
                None => Err(DeviceError::NoDeviceFound()),
            };
        }
        let mut states = custom_states;
        let mut candidates = candidates;
        let mut names = names;
        let ghost total = found.candidates@.len() as int;
        let ghost all = candidate_states::<D, U>(found.candidates@, all_names);
        let ghost mut done: int = 0;
        assert(states@ =~= found.custom_states@ + all.take(0));
        while candidates.len() > 0
            invariant
                total == found.candidates@.len() == all_names.len(),
                0 <= done <= total,
                all == candidate_states::<D, U>(found.candidates@, all_names),
                candidates@ == found.candidates@.skip(done),
                names@ == all_names.skip(done),
                states@ == found.custom_states@ + all.take(done),
            decreases candidates.len(),
        {
            let candidate = candidates.remove(0);
            let name = names.remove(0);
            let state = DeviceState {
                transport: HidTransport::Hidapi(candidate.device),
                device_properties: DeviceProperties::new(
                    candidate.product_id,
                    candidate.vendor_id,
                    name,
                ),
            };
            states.push(state);
            proof {
                assert(candidate == found.candidates@[done]);
                assert(name == all_names[done]);
                assert(state == all[done]);
                done = done + 1;
                assert(candidates@ =~= found.candidates@.skip(done));
                assert(names@ =~= all_names.skip(done));
                assert(states@ =~= found.custom_states@ + all.take(done));
            }
        }
        assert(all.take(done) =~= all);
        Ok(states)
    }
}

/// The line of a potential device in the report.
pub open spec fn potential_line(device: (u16, u16, Seq<char>)) -> Seq<char> {
    "    vendorID: 0x"@ + crate::text::hex_word(device.0) + " productID: 0x"@ + crate::text::hex_word(
        device.1,
    ) + " name: "@ + device.2
}

/// The report of the potential devices.
pub open spec fn potential_report(potential: Seq<(u16, u16, Seq<char>)>) -> Seq<char> {
    let several = potential.len() > 1;
    let lines = potential.map_values(|d: (u16, u16, Seq<char>)| potential_line(d));
    "Found the following HyperX device"@ + (if several { "s"@ } else { ""@ }) + ": [\n"@ + joined(
        lines,
        ",\n"@,
    ) + "\n]\nHowever, either "@ + (if several { "they are"@ } else { "it is"@ })
        + " not supported or the product ID is not yet known."@
}

impl<D, U> Discovery<D, U> {
    /// What to tell the user where no headset was found but devices of the right make were.
    pub fn unsupported_report(&self) -> (report: Option<String>)
        ensures
            report is Some <==> self.is_empty() && self.listed().potential.len() > 0,
            report matches Some(s) ==> s@ == potential_report(self.listed().potential),
    {
        if self.candidates.len() > 0 || self.custom_states.len() > 0 || self.potential.len() == 0 {
            return None;
        }
        let ghost listed = self.listed().potential;
        let ghost shown = listed.map_values(|d: (u16, u16, Seq<char>)| potential_line(d));
        let mut lines: Vec<String> = Vec::new();
        let mut i: usize = 0;
        assert(text_views(lines@) =~= shown.take(0));
        while i < self.potential.len()
            invariant
                i <= self.potential@.len(),
                listed == self.potential@.map_values(|p: PotentialDevice| p@),
                shown == listed.map_values(|d: (u16, u16, Seq<char>)| potential_line(d)),
                text_views(lines@) == shown.take(i as int),
            decreases self.potential@.len() - i,
        {
            let ghost before = lines@;
            let p = &self.potential[i];
            let mut line = String::from_str("    vendorID: 0x");
            line.append(hex_word_string(p.vendor_id).as_str());
            line.append(" productID: 0x");
            line.append(hex_word_string(p.product_id).as_str());
            line.append(" name: ");
            line.append(p.name.as_str());
            lines.push(line);
            proof {
                assert(line@ == shown[i as int]);
                assert(text_views(lines@) =~= text_views(before).push(line@));
                assert(shown.take(i + 1) =~= shown.take(i as int).push(shown[i as int]));
            }
            i = i + 1;
        }
        assert(shown.take(self.potential@.len() as int) =~= shown);
        let several: bool = self.potential.len() > 1;
        let mut report = String::from_str("Found the following HyperX device");
        report.append(if several { "s" } else { "" });
        report.append(": [\n");
        report.append(join_lines(&lines, ",\n").as_str());
        report.append("\n]\nHowever, either ");
        report.append(if several { "they are" } else { "it is" });
        report.append(" not supported or the product ID is not yet known.");
        Some(report)
    }
}

/// The findings once a device has been listed, where `opened` is what opening it
/// comes to if it is selected.
pub open spec fn after_device<F, O, D>(
    register: Seq<DeviceEntry<F, O>>,
    product_ids: Seq<u16>,
    vendor_ids: Seq<u16>,
    found: Listed<D>,
    info: DeviceInfo,
    opened: Result<D, HidError>,
) -> Listed<D> {
    if is_selected(register, product_ids, vendor_ids, info) {
        with_opened(found, info, opened)
    } else if is_potential(register, product_ids, vendor_ids, info) {
        with_potential(found, info)
    } else {
        found
    }
}

/// The findings once all the devices have been listed.
pub open spec fn after_devices<F, O, D>(
    register: Seq<DeviceEntry<F, O>>,
    product_ids: Seq<u16>,
    vendor_ids: Seq<u16>,
    devices: Seq<(DeviceInfo, Result<D, HidError>)>,
) -> Listed<D>
    decreases devices.len(),
{
    if devices.len() == 0 {
        Listed { candidates: Seq::empty(), potential: Seq::empty(), error: None }
    } else {
        after_device(
            register,
            product_ids,
            vendor_ids,
            after_devices(register, product_ids, vendor_ids, devices.drop_last()),
            devices.last().0,
            devices.last().1,
        )
    }
}

/// Hidapi opens wanted devices only, and none that has an opener of its own.
pub proof fn only_wanted_devices_are_opened<F, O, D>(
    register: Seq<DeviceEntry<F, O>>,
    product_ids: Seq<u16>,
    vendor_ids: Seq<u16>,
    devices: Seq<(DeviceInfo, Result<D, HidError>)>,
    i: int,
)
    requires
        0 <= i < after_devices(register, product_ids, vendor_ids, devices).candidates.len(),
    ensures
        ({
            let c = after_devices(register, product_ids, vendor_ids, devices).candidates[i];
            &&& !custom_owned(register, c.vendor_id, c.product_id)
            &&& product_ids.contains(c.product_id)
            &&& vendor_ids.contains(c.vendor_id)
        }),
    decreases devices.len(),
{
    if devices.len() > 0 {
        let before = after_devices(register, product_ids, vendor_ids, devices.drop_last());
        if i < before.candidates.len() {
            only_wanted_devices_are_opened(
                register,
                product_ids,
                vendor_ids,
                devices.drop_last(),
                i,
            );
        }
    }
}

/// How many of the devices are selected and open.
pub open spec fn opened_count<F, O, D>(
    register: Seq<DeviceEntry<F, O>>,
    product_ids: Seq<u16>,
    vendor_ids: Seq<u16>,
    devices: Seq<(DeviceInfo, Result<D, HidError>)>,
) -> nat
    decreases devices.len(),
{
    if devices.len() == 0 {
        0
    } else {
        opened_count(register, product_ids, vendor_ids, devices.drop_last()) + if is_selected(
            register,
            product_ids,
            vendor_ids,
            devices.last().0,
        ) && devices.last().1 is Ok { 1nat } else { 0nat }
    }
}

/// Every selected device that opens becomes a candidate, in the order of the listing.
pub proof fn opened_devices_become_candidates<F, O, D>(
    register: Seq<DeviceEntry<F, O>>,
    product_ids: Seq<u16>,
    vendor_ids: Seq<u16>,
    devices: Seq<(DeviceInfo, Result<D, HidError>)>,
    k: int,
)
    requires
        0 <= k < devices.len(),
        is_selected(register, product_ids, vendor_ids, devices[k].0),
        devices[k].1 is Ok,
    ensures
        after_devices(register, product_ids, vendor_ids, devices).candidates.len() == opened_count(
            register,
            product_ids,
            vendor_ids,
            devices,
        ),
        opened_count(register, product_ids, vendor_ids, devices.take(k)) < opened_count(
            register,
            product_ids,
            vendor_ids,
            devices,
        ),
        after_devices(register, product_ids, vendor_ids, devices).candidates[opened_count(
            register,
            product_ids,
            vendor_ids,
            devices.take(k),
        ) as int] == (Candidate {
            device: devices[k].1->Ok_0,
            product_id: devices[k].0.product_id,
            vendor_id: devices[k].0.vendor_id,
        }),
    decreases devices.len(),
{
    let front = devices.drop_last();
    candidates_are_counted(register, product_ids, vendor_ids, front);
    if k < front.len() {
        opened_devices_become_candidates(register, product_ids, vendor_ids, front, k);
        assert(front.take(k) =~= devices.take(k));
    } else {
        assert(devices.take(k) =~= front);
    }
}

proof fn candidates_are_counted<F, O, D>(
    register: Seq<DeviceEntry<F, O>>,
    product_ids: Seq<u16>,
    vendor_ids: Seq<u16>,
    devices: Seq<(DeviceInfo, Result<D, HidError>)>,
)
    ensures
        after_devices(register, product_ids, vendor_ids, devices).candidates.len() == opened_count(
            register,
            product_ids,
            vendor_ids,
            devices,
        ),
    decreases devices.len(),
{
    if devices.len() > 0 {
        candidates_are_counted(register, product_ids, vendor_ids, devices.drop_last());
    }
}

/// Whether a device is of the right make, but neither wanted nor left to an opener
/// of its own.
pub open spec fn is_unclaimed<F, O>(
    register: Seq<DeviceEntry<F, O>>,
    product_ids: Seq<u16>,
    vendor_ids: Seq<u16>,
    device: (u16, u16, Seq<char>),
) -> bool {
    &&& !custom_owned(register, device.0, device.1)
    &&& !(product_ids.contains(device.1) && vendor_ids.contains(device.0))
    &&& occurs_in("HyperX"@, device.2)
}

/// A potential device is noted once, however often it is listed. What is noted is
/// of the right make and neither wanted nor left to an opener of its own.
pub proof fn potential_devices_are_noted_once<F, O, D>(
    register: Seq<DeviceEntry<F, O>>,
    product_ids: Seq<u16>,
    vendor_ids: Seq<u16>,
    devices: Seq<(DeviceInfo, Result<D, HidError>)>,
)
    ensures
        after_devices(register, product_ids, vendor_ids, devices).potential.no_duplicates(),
        forall|k: int|
            0 <= k < devices.len() && is_potential(
                register,
                product_ids,
                vendor_ids,
                (#[trigger] devices[k]).0,
            ) ==> after_devices(register, product_ids, vendor_ids, devices).potential.contains(
                (
                    devices[k].0.vendor_id,
                    devices[k].0.product_id,
                    devices[k].0.product_string->0@,
                ),
            ),
        forall|i: int|
            0 <= i < after_devices(register, product_ids, vendor_ids, devices).potential.len()
                ==> is_unclaimed(
                register,
                product_ids,
                vendor_ids,
                #[trigger] after_devices(register, product_ids, vendor_ids, devices).potential[i],
            ),
    decreases devices.len(),
{
    if devices.len() > 0 {
        let front = devices.drop_last();
        potential_devices_are_noted_once(register, product_ids, vendor_ids, front);
        let before = after_devices(register, product_ids, vendor_ids, front).potential;
        let after = after_devices(register, product_ids, vendor_ids, devices).potential;
        assert forall|k: int|
            0 <= k < devices.len() && is_potential(
                register,
                product_ids,
                vendor_ids,
                (#[trigger] devices[k]).0,
            ) implies after.contains(
            (devices[k].0.vendor_id, devices[k].0.product_id, devices[k].0.product_string->0@),
        ) by {
            let device = (
                devices[k].0.vendor_id,
                devices[k].0.product_id,
                devices[k].0.product_string->0@,
            );
            if k < front.len() {
                assert(front[k] == devices[k]);
                assert(before.contains(device));
                let at = before.index_of(device);
                assert(after[at] == device);
            } else if !before.contains(device) {
                assert(after[after.len() - 1] == device);
            }
        }
    }
}

/// What a failed search ends with is the last failure to open a device, if there was one.
pub proof fn last_failure_is_kept<F, O, D>(
    register: Seq<DeviceEntry<F, O>>,
    product_ids: Seq<u16>,
    vendor_ids: Seq<u16>,
    devices: Seq<(DeviceInfo, Result<D, HidError>)>,
    k: int,
)
    requires
        0 <= k < devices.len(),
        is_selected(register, product_ids, vendor_ids, devices[k].0),
        devices[k].1 is Err,
        forall|j: int|
            k < j < devices.len() ==> !is_selected(
                register,
                product_ids,
                vendor_ids,
                (#[trigger] devices[j]).0,
            ) || devices[j].1 is Ok,
    ensures
        after_devices(register, product_ids, vendor_ids, devices).error == Some(devices[k].1->Err_0),
    decreases devices.len(),
{
    if k < devices.len() - 1 {
        let front = devices.drop_last();
        assert forall|j: int|
            k < j < front.len() implies !is_selected(
                register,
                product_ids,
                vendor_ids,
                (#[trigger] front[j]).0,
            ) || front[j].1 is Ok by {
            assert(front[j] == devices[j]);
        }
        last_failure_is_kept(register, product_ids, vendor_ids, front, k);
        assert(devices[devices.len() - 1] == devices.last());
    }
}

} // verus!
