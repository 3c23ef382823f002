//! What holds of the register and of the search for headsets.
use vstd::prelude::*;
use crate::discovery::{
    after_devices, candidate_states, is_potential, is_selected, potential_report,
    with_opened, with_potential, Candidate, DeviceInfo, Discovery, Listed, PotentialDevice,
};
use crate::errors::{DeviceError, HidError};
use crate::register::{
    custom_owned, first_entry, product_ids_of, vendor_ids_of, wanted_openers, DeviceEntry,
};
use crate::search::{
    after_custom, after_listing, after_opening, device_steps, opened_states, opener_step,
    opener_steps, scanned, search_start, with_opens, Search, SearchModel, SearchStep,
};
use crate::state::DeviceState;
use crate::text::{hex_word, joined};
use crate::transport::HidTransport;

verus! {

/// The entry that is found for a device has both its vendor id and its product id, and
/// no entry before it has both; where none is found, no entry has both.
pub proof fn found_entry_has_both_ids<F, O>(
    register: Seq<DeviceEntry<F, O>>,
    vendor_id: u16,
    product_id: u16,
)
    requires
        register.len() <= usize::MAX,
    ensures
        first_entry(register, vendor_id, product_id) matches Some(place) ==> {
            &&& place < register.len()
            &&& register[place as int].vendor_ids@.contains(vendor_id)
            &&& register[place as int].product_ids@.contains(product_id)
        },
        forall|j: int|
            0 <= j < register.len() && (#[trigger] register[j]).vendor_ids@.contains(vendor_id)
                && register[j].product_ids@.contains(product_id) ==> (first_entry(
                register,
                vendor_id,
                product_id,
            ) matches Some(place) && place <= j),
{
    crate::register::first_entry_is_first(register, vendor_id, product_id);
    assert forall|j: int|
        0 <= j < register.len() && (#[trigger] register[j]).vendor_ids@.contains(vendor_id)
            && register[j].product_ids@.contains(product_id) implies (first_entry(
        register,
        vendor_id,
        product_id,
    ) matches Some(place) && place <= j) by {
        assert(register[j].covers(vendor_id, product_id));
    }
}

/// A device is left to an opener of its own exactly where one entry has such an opener
/// and both ids of the device.
pub proof fn opener_owns_devices_with_both_ids<F, O>(
    register: Seq<DeviceEntry<F, O>>,
    vendor_id: u16,
    product_id: u16,
)
    ensures
        custom_owned(register, vendor_id, product_id) <==> exists|i: int|
            0 <= i < register.len() && (#[trigger] register[i]).custom_open is Some
                && register[i].vendor_ids@.contains(vendor_id)
                && register[i].product_ids@.contains(product_id),
{
}

/// The ids of a register are those of its entries, one entry after another.
pub proof fn ids_are_those_of_the_entries<F, O>(
    first: Seq<DeviceEntry<F, O>>,
    second: Seq<DeviceEntry<F, O>>,
    entry: DeviceEntry<F, O>,
)
    ensures
        product_ids_of(first + second) == product_ids_of(first) + product_ids_of(second),
        vendor_ids_of(first + second) == vendor_ids_of(first) + vendor_ids_of(second),
        product_ids_of(seq![entry]) == entry.product_ids@,
        vendor_ids_of(seq![entry]) == entry.vendor_ids@,
        product_ids_of(Seq::<DeviceEntry<F, O>>::empty()).len() == 0,
        vendor_ids_of(Seq::<DeviceEntry<F, O>>::empty()).len() == 0,
    decreases second.len(),
{
    assert(seq![entry].drop_last() =~= Seq::empty());
    assert(product_ids_of(seq![entry].drop_last()) =~= Seq::empty());
    assert(vendor_ids_of(seq![entry].drop_last()) =~= Seq::empty());
    assert(product_ids_of(seq![entry]) =~= entry.product_ids@);
    assert(vendor_ids_of(seq![entry]) =~= entry.vendor_ids@);
    if second.len() > 0 {
        ids_are_those_of_the_entries(first, second.drop_last(), entry);
        assert((first + second).drop_last() =~= first + second.drop_last());
        assert(product_ids_of(first + second) =~= product_ids_of(first) + product_ids_of(second));
        assert(vendor_ids_of(first + second) =~= vendor_ids_of(first) + vendor_ids_of(second));
    } else {
        assert(first + second =~= first);
        assert(product_ids_of(first) + product_ids_of(second) =~= product_ids_of(first));
        assert(vendor_ids_of(first) + vendor_ids_of(second) =~= vendor_ids_of(first));
    }
}

/// Whether some id is in both lists.
pub open spec fn meet(a: Seq<u16>, b: Seq<u16>) -> bool {
    exists|id: u16| #[trigger] a.contains(id) && b.contains(id)
}

/// The openers that are tried are those of the entries that have an opener, a wanted
/// vendor and a wanted product, each once and in the order of the register.
pub proof fn wanted_openers_are_in_order<F, O>(
    register: Seq<DeviceEntry<F, O>>,
    product_ids: Seq<u16>,
    vendor_ids: Seq<u16>,
    i: usize,
)
    requires
        register.len() <= usize::MAX,
    ensures
        ({
            let tried = wanted_openers(register, product_ids, vendor_ids);
            &&& tried.contains(i) <==> i < register.len() && register[i as int].custom_open is Some
                && meet(register[i as int].vendor_ids@, vendor_ids) && meet(
                register[i as int].product_ids@,
                product_ids,
            )
            &&& forall|a: int, b: int|
                0 <= a < b < tried.len() ==> #[trigger] tried[a] < #[trigger] tried[b]
        }),
{
    crate::register::wanted_openers_are_tried(register, product_ids, vendor_ids, i);
    openers_increase(register, product_ids, vendor_ids);
    if i < register.len() {
        ids_meet(register[i as int].vendor_ids@, vendor_ids);
        ids_meet(register[i as int].product_ids@, product_ids);
    }
}

proof fn ids_meet(a: Seq<u16>, b: Seq<u16>)
    ensures
        meet(a, b) <==> exists|i: int| 0 <= i < a.len() && b.contains(#[trigger] a[i]),
{
    if meet(a, b) {
        let id = choose|id: u16| #[trigger] a.contains(id) && b.contains(id);
        let i = a.index_of(id);
        assert(b.contains(a[i]));
    }
    if exists|i: int| 0 <= i < a.len() && b.contains(#[trigger] a[i]) {
        let i = choose|i: int| 0 <= i < a.len() && b.contains(#[trigger] a[i]);
        assert(a.contains(a[i]));
    }
}

proof fn openers_increase<F, O>(
    register: Seq<DeviceEntry<F, O>>,
    product_ids: Seq<u16>,
    vendor_ids: Seq<u16>,
)
    requires
        register.len() <= usize::MAX,
    ensures
        ({
            let tried = wanted_openers(register, product_ids, vendor_ids);
            &&& forall|a: int| 0 <= a < tried.len() ==> #[trigger] tried[a] < register.len()
            &&& forall|a: int, b: int|
                0 <= a < b < tried.len() ==> #[trigger] tried[a] < #[trigger] tried[b]
        }),
    decreases register.len(),
{
    if register.len() > 0 {
        openers_increase(register.drop_last(), product_ids, vendor_ids);
        let before = wanted_openers(register.drop_last(), product_ids, vendor_ids);
        let tried = wanted_openers(register, product_ids, vendor_ids);
        assert forall|a: int| 0 <= a < tried.len() implies #[trigger] tried[a] < register.len() by {
            if a < before.len() {
                assert(tried[a] == before[a]);
            }
        }
        assert forall|a: int, b: int| 0 <= a < b < tried.len() implies #[trigger] tried[a]
            < #[trigger] tried[b] by {
            assert(tried[a] == before[a]);
            if b < before.len() {
                assert(tried[b] == before[b]);
            }
        }
    }
}

/// A listed device is opened exactly where its product id and its vendor id are wanted
/// and no entry with an opener of its own has both. One that is not opened and not left
/// to such an opener is noted exactly where its name says that it is of the right make.
pub proof fn devices_are_told_apart<F, O>(
    register: Seq<DeviceEntry<F, O>>,
    product_ids: Seq<u16>,
    vendor_ids: Seq<u16>,
    info: DeviceInfo,
)
    ensures
        ({
            let owned = exists|i: int|
                0 <= i < register.len() && (#[trigger] register[i]).custom_open is Some
                    && register[i].vendor_ids@.contains(info.vendor_id)
                    && register[i].product_ids@.contains(info.product_id);
            let wanted = product_ids.contains(info.product_id) && vendor_ids.contains(
                info.vendor_id,
            );
            let named = info.product_string matches Some(name) && exists|
                front: Seq<char>,
                back: Seq<char>,
            |
                name@ == #[trigger] (front + "HyperX"@ + back);
            &&& is_selected(register, product_ids, vendor_ids, info) <==> wanted && !owned
            &&& is_potential(register, product_ids, vendor_ids, info) <==> !wanted && !owned
                && named
        }),
{
    if info.product_string is Some {
        crate::laws::text::occurrence_splits_the_text("HyperX"@, info.product_string->0@);
    }
}

/// What is found is changed by one device at a time: a device that was opened is added
/// behind the candidates with its own ids, a failure is kept, a potential device is
/// added behind the others unless it is there, and nothing else changes.
pub proof fn findings_grow_by_one_device<D>(
    found: Listed<D>,
    info: DeviceInfo,
    opened: Result<D, HidError>,
)
    ensures
        opened matches Ok(device) ==> {
            let after = with_opened(found, info, opened);
            &&& after.candidates.len() == found.candidates.len() + 1
            &&& after.candidates.drop_last() == found.candidates
            &&& after.candidates.last().device == device
            &&& after.candidates.last().product_id == info.product_id
            &&& after.candidates.last().vendor_id == info.vendor_id
            &&& after.potential == found.potential
            &&& after.error == found.error
        },
        opened matches Err(e) ==> {
            let after = with_opened(found, info, opened);
            &&& after.candidates == found.candidates
            &&& after.potential == found.potential
            &&& after.error == Some(e)
        },
        info.product_string matches Some(name) ==> {
            let after = with_potential(found, info);
            let device = (info.vendor_id, info.product_id, name@);
            &&& after.candidates == found.candidates
            &&& after.error == found.error
            &&& after.potential.contains(device)
            &&& found.potential.contains(device) ==> after.potential == found.potential
            &&& !found.potential.contains(device) ==> after.potential.len()
                == found.potential.len() + 1 && after.potential.drop_last() == found.potential
                && after.potential.last() == device
        },
{
    let after = with_opened(found, info, opened);
    if opened is Ok {
        assert(after.candidates.drop_last() =~= found.candidates);
    }
    if let Some(name) = info.product_string {
        let noted = with_potential(found, info);
        let device = (info.vendor_id, info.product_id, name@);
        if !found.potential.contains(device) {
            assert(noted.potential.drop_last() =~= found.potential);
            assert(noted.potential.last() == device);
            assert(noted.potential[noted.potential.len() - 1] == device);
        }
    }
}

/// The findings of a listing are those of its devices, one after another: a wanted
/// device is opened, another may be noted, and the rest leave no trace.
pub proof fn devices_are_taken_in_turn<F, O, D>(
    register: Seq<DeviceEntry<F, O>>,
    product_ids: Seq<u16>,
    vendor_ids: Seq<u16>,
    devices: Seq<(DeviceInfo, Result<D, HidError>)>,
    info: DeviceInfo,
    opened: Result<D, HidError>,
)
    ensures
        ({
            let none = after_devices(
                register,
                product_ids,
                vendor_ids,
                Seq::<(DeviceInfo, Result<D, HidError>)>::empty(),
            );
            let before = after_devices(register, product_ids, vendor_ids, devices);
            let after = after_devices(
                register,
                product_ids,
                vendor_ids,
                devices.push((info, opened)),
            );
            &&& none.candidates.len() == 0
            &&& none.potential.len() == 0
            &&& none.error is None
            &&& is_selected(register, product_ids, vendor_ids, info) ==> after == with_opened(
                before,
                info,
                opened,
            )
            &&& is_potential(register, product_ids, vendor_ids, info) ==> after == with_potential(
                before,
                info,
            )
            &&& !is_selected(register, product_ids, vendor_ids, info) && !is_potential(
                register,
                product_ids,
                vendor_ids,
                info,
            ) ==> after == before
        }),
{
    assert(devices.push((info, opened)).drop_last() =~= devices);
}

/// Every candidate becomes a headset to try: it has the device, the ids and the name of
/// the candidate, and nothing else is known of it.
pub proof fn candidates_become_headsets<D, U>(
    candidates: Seq<Candidate<D>>,
    names: Seq<Option<String>>,
    i: int,
)
    requires
        0 <= i < candidates.len(),
        names.len() == candidates.len(),
    ensures
        ({
            let states = candidate_states::<D, U>(candidates, names);
            let p = states[i].device_properties;
            &&& states.len() == candidates.len()
            &&& states[i].transport == HidTransport::<D, U>::Hidapi(candidates[i].device)
            &&& p.product_id == candidates[i].product_id
            &&& p.vendor_id == candidates[i].vendor_id
            &&& p.device_name == names[i]
            &&& p == crate::properties::blank_properties(
                candidates[i].product_id,
                candidates[i].vendor_id,
                names[i],
            )
        }),
{
}

/// What a search holds is what its parts hold.
pub proof fn findings_are_all_there<D, U>(d: Discovery<D, U>, s: Search<D, U>, p: PotentialDevice)
    ensures
        d.listed().candidates == d.candidates@,
        d.listed().error == d.error,
        d.listed().potential.len() == d.potential@.len(),
        forall|i: int|
            0 <= i < d.potential@.len() ==> #[trigger] d.listed().potential[i] == (
                d.potential@[i].vendor_id,
                d.potential@[i].product_id,
                d.potential@[i].name@,
            ),
        d.is_empty() <==> d.custom_states@.len() == 0 && d.candidates@.len() == 0,
        p@ == (p.vendor_id, p.product_id, p.name@),
        s@.targets == s.targets@,
        s@.tried == s.tried,
        s@.devices == s.devices@,
        s@.at == s.at,
        s@.custom == s.found.custom_states@,
        s@.listed == s.found.listed(),
{
}

/// The report names every potential device with its ids and its name, one on each line,
/// and speaks of one or of several.
pub proof fn report_names_the_devices(potential: Seq<(u16, u16, Seq<char>)>)
    ensures
        ({
            let lines = Seq::new(
                potential.len(),
                |i: int|
                    "    vendorID: 0x"@ + hex_word(potential[i].0) + " productID: 0x"@ + hex_word(
                        potential[i].1,
                    ) + " name: "@ + potential[i].2,
            );
            let all = joined(lines, ",\n"@);
            let end = " not supported or the product ID is not yet known."@;
            &&& potential.len() == 1 ==> potential_report(potential)
                == "Found the following HyperX device"@ + ""@ + ": [\n"@ + all
                + "\n]\nHowever, either "@ + "it is"@ + end
            &&& potential.len() > 1 ==> potential_report(potential)
                == "Found the following HyperX device"@ + "s"@ + ": [\n"@ + all
                + "\n]\nHowever, either "@ + "they are"@ + end
        }),
{
    let lines = Seq::new(
        potential.len(),
        |i: int|
            "    vendorID: 0x"@ + hex_word(potential[i].0) + " productID: 0x"@ + hex_word(
                potential[i].1,
            ) + " name: "@ + potential[i].2,
    );
    assert(potential.map_values(
        |d: (u16, u16, Seq<char>)| crate::discovery::potential_line(d),
    ) =~= lines);
}

/// An opener that found its headset adds it, one that found nothing adds nothing, and
/// either is followed by the next opener or, behind the last, by hidapi. One that failed
/// ends the search with its error.
pub proof fn openers_add_their_headset<D, U>(
    m: SearchModel<D, U>,
    opened: Result<Option<DeviceState<D, U>>, DeviceError>,
)
    ensures
        ({
            let (after, step) = after_custom(m, opened);
            &&& after.targets == m.targets
            &&& after.tried == m.tried + 1
            &&& after.devices == m.devices
            &&& after.at == m.at
            &&& after.listed == m.listed
            &&& opened matches Ok(Some(state)) ==> after.custom == m.custom.push(state)
            &&& !(opened matches Ok(Some(_))) ==> after.custom == m.custom
            &&& opened matches Err(e) ==> step == SearchStep::Fail(e)
            &&& opened is Ok && m.tried + 1 < m.targets.len() ==> step == SearchStep::OpenCustom(
                m.targets[m.tried + 1],
            )
            &&& opened is Ok && m.tried + 1 >= m.targets.len() ==> step == SearchStep::ListDevices
        }),
{
    let (after, step) = after_custom(m, opened);
    if let Ok(Some(state)) = opened {
        assert(after.custom =~= m.custom.push(state));
    } else {
        assert(after.custom =~= m.custom);
    }
}

/// A search starts with nothing found and its first opener, or with hidapi where no
/// opener is to be tried.
pub proof fn search_starts_with_the_openers<D, U>(targets: Seq<usize>)
    ensures
        ({
            let m = search_start::<D, U>(targets);
            &&& m.targets == targets
            &&& m.tried == 0
            &&& m.devices.len() == 0
            &&& m.at == 0
            &&& m.custom.len() == 0
            &&& m.listed.candidates.len() == 0
            &&& m.listed.potential.len() == 0
            &&& m.listed.error is None
        }),
        targets.len() > 0 ==> opener_step(targets, 0) == SearchStep::OpenCustom(targets[0]),
        targets.len() == 0 ==> opener_step(targets, 0) == SearchStep::ListDevices,
{
}

/// Whether this is what is noted of a potential device.
pub open spec fn is_noted<F, O>(
    register: Seq<DeviceEntry<F, O>>,
    product_ids: Seq<u16>,
    vendor_ids: Seq<u16>,
    info: DeviceInfo,
    device: (u16, u16, Seq<char>),
) -> bool {
    &&& is_potential(register, product_ids, vendor_ids, info)
    &&& device.0 == info.vendor_id
    &&& device.1 == info.product_id
    &&& device.2 == info.product_string->0@
}

/// The next device of the listing that is opened is the first wanted one; those before
/// it are not wanted, and of them the potential ones are noted. Where no wanted
/// one is left, the names are read.
pub proof fn next_wanted_device_is_opened<F, O, D, U>(
    register: Seq<DeviceEntry<F, O>>,
    product_ids: Seq<u16>,
    vendor_ids: Seq<u16>,
    m: SearchModel<D, U>,
)
    requires
        0 <= m.at <= m.devices.len(),
    ensures
        ({
            let (after, step) = scanned(register, product_ids, vendor_ids, m);
            &&& m.at <= after.at <= m.devices.len()
            &&& forall|j: int|
                m.at <= j < after.at ==> !is_selected(
                    register,
                    product_ids,
                    vendor_ids,
                    #[trigger] m.devices[j],
                )
            &&& after.at < m.devices.len() ==> is_selected(
                register,
                product_ids,
                vendor_ids,
                m.devices[after.at],
            ) && step == SearchStep::OpenDevice(after.at as usize)
            &&& after.at == m.devices.len() ==> step == SearchStep::ReadNames
            &&& after.targets == m.targets
            &&& after.tried == m.tried
            &&& after.devices == m.devices
            &&& after.custom == m.custom
            &&& after.listed.candidates == m.listed.candidates
            &&& after.listed.error == m.listed.error
            &&& forall|j: int|
                m.at <= j < after.at && is_potential(
                    register,
                    product_ids,
                    vendor_ids,
                    #[trigger] m.devices[j],
                ) ==> after.listed.potential.contains(
                    (
                        m.devices[j].vendor_id,
                        m.devices[j].product_id,
                        m.devices[j].product_string->0@,
                    ),
                )
            &&& m.listed.potential.len() <= after.listed.potential.len()
            &&& after.listed.potential.take(m.listed.potential.len() as int) == m.listed.potential
        }),
    decreases m.devices.len() - m.at,
{
    if m.at < m.devices.len() {
        let info = m.devices[m.at];
        if !is_selected(register, product_ids, vendor_ids, info) {
            let potential = is_potential(register, product_ids, vendor_ids, info);
            let listed = if potential { with_potential(m.listed, info) } else { m.listed };
            let next = SearchModel { at: m.at + 1, listed, ..m };
            next_wanted_device_is_opened(register, product_ids, vendor_ids, next);
            let after = scanned(register, product_ids, vendor_ids, m).0;
            let noted = after.listed.potential;
            assert(next.listed.potential.take(m.listed.potential.len() as int)
                =~= m.listed.potential);
            assert(noted.take(m.listed.potential.len() as int) =~= noted.take(
                next.listed.potential.len() as int,
            ).take(m.listed.potential.len() as int));
            if potential {
                let device = (info.vendor_id, info.product_id, info.product_string->0@);
                findings_grow_by_one_device::<D>(m.listed, info, Err(HidError::InvalidZeroSizeData));
                let at = next.listed.potential.index_of(device);
                assert(noted.take(next.listed.potential.len() as int)[at] == device);
                assert(noted[at] == device);
            }
        } else {
            assert(m.listed.potential.take(m.listed.potential.len() as int)
                =~= m.listed.potential);
        }
    } else {
        assert(m.listed.potential.take(m.listed.potential.len() as int) =~= m.listed.potential);
    }
}

/// What is noted while devices are passed over is noted of a potential one among them.
pub proof fn only_potential_devices_are_noted<F, O, D, U>(
    register: Seq<DeviceEntry<F, O>>,
    product_ids: Seq<u16>,
    vendor_ids: Seq<u16>,
    m: SearchModel<D, U>,
    i: int,
) -> (j: int)
    requires
        0 <= m.at <= m.devices.len(),
        m.listed.potential.len() <= i < scanned(
            register,
            product_ids,
            vendor_ids,
            m,
        ).0.listed.potential.len(),
    ensures
        m.at <= j < scanned(register, product_ids, vendor_ids, m).0.at,
        is_noted(
            register,
            product_ids,
            vendor_ids,
            m.devices[j],
            scanned(register, product_ids, vendor_ids, m).0.listed.potential[i],
        ),
    decreases m.devices.len() - m.at,
{
    let info = m.devices[m.at];
    let listed = if is_potential(register, product_ids, vendor_ids, info) {
        with_potential(m.listed, info)
    } else {
        m.listed
    };
    let next = SearchModel { at: m.at + 1, listed, ..m };
    next_wanted_device_is_opened(register, product_ids, vendor_ids, next);
    if i < listed.potential.len() {
        let noted = scanned(register, product_ids, vendor_ids, m).0.listed.potential;
        assert(noted.take(listed.potential.len() as int)[i] == listed.potential[i]);
        m.at
    } else {
        only_potential_devices_are_noted(register, product_ids, vendor_ids, next, i)
    }
}

/// A listing is looked through from its first device on, and a device that was opened or
/// failed to open is followed by the next. Where hidapi could not be started, that error
/// ends the search.
pub proof fn listing_is_looked_through<F, O, D, U>(
    register: Seq<DeviceEntry<F, O>>,
    product_ids: Seq<u16>,
    vendor_ids: Seq<u16>,
    m: SearchModel<D, U>,
    listing: Result<Vec<DeviceInfo>, HidError>,
    opened: Result<D, HidError>,
)
    requires
        0 <= m.at < m.devices.len(),
    ensures
        ({
            let (after, step) = after_listing(register, product_ids, vendor_ids, m, listing);
            &&& listing matches Err(e) ==> after == m && step == SearchStep::Fail(
                DeviceError::HidError(e),
            )
            &&& listing matches Ok(devices) ==> (after, step) == scanned(
                register,
                product_ids,
                vendor_ids,
                SearchModel { devices: devices@, at: 0, ..m },
            )
        }),
        after_opening(register, product_ids, vendor_ids, m, opened) == scanned(
            register,
            product_ids,
            vendor_ids,
            SearchModel {
                at: m.at + 1,
                listed: with_opened(m.listed, m.devices[m.at], opened),
                ..m
            },
        ),
{
}

/// The steps from a place of the listing on open the wanted devices from there on, each
/// once and in order, and end with the names.
pub proof fn wanted_devices_are_opened_in_order<F, O>(
    register: Seq<DeviceEntry<F, O>>,
    product_ids: Seq<u16>,
    vendor_ids: Seq<u16>,
    devices: Seq<DeviceInfo>,
    from: int,
    i: int,
)
    requires
        0 <= from <= devices.len() <= usize::MAX,
        0 <= i < devices.len(),
    ensures
        ({
            let steps = device_steps(register, product_ids, vendor_ids, devices, from);
            &&& steps.len() > 0
            &&& steps.last() == SearchStep::ReadNames
            &&& steps.contains(SearchStep::OpenDevice(i as usize)) <==> from <= i && is_selected(
                register,
                product_ids,
                vendor_ids,
                devices[i],
            )
            &&& forall|a: int|
                0 <= a < steps.len() - 1 ==> ((#[trigger] steps[a]) matches SearchStep::OpenDevice(
                    x,
                ) && from <= x)
            &&& forall|a: int, b: int|
                0 <= a < b < steps.len() - 1 ==> (#[trigger] steps[a])->OpenDevice_0 < (
                #[trigger] steps[b])->OpenDevice_0
        }),
    decreases devices.len() - from,
{
    let steps = device_steps(register, product_ids, vendor_ids, devices, from);
    if from < devices.len() {
        wanted_devices_are_opened_in_order(
            register,
            product_ids,
            vendor_ids,
            devices,
            from + 1,
            i,
        );
        let rest = device_steps(register, product_ids, vendor_ids, devices, from + 1);
        if is_selected(register, product_ids, vendor_ids, devices[from]) {
            assert(steps[0] == SearchStep::OpenDevice(from as usize));
            assert(forall|a: int| 0 <= a < rest.len() ==> steps[a + 1] == rest[a]);
            assert(steps.last() == rest.last());
            let step = SearchStep::OpenDevice(i as usize);
            if rest.contains(step) {
                assert(steps[rest.index_of(step) + 1] == step);
            }
            if steps.contains(step) && steps.index_of(step) > 0 {
                assert(rest[steps.index_of(step) - 1] == step);
            }
            assert forall|a: int| 0 <= a < steps.len() - 1 implies ((
            #[trigger] steps[a]) matches SearchStep::OpenDevice(x) && from <= x) by {
                if a > 0 {
                    assert(steps[a] == rest[a - 1]);
                }
            }
            assert forall|a: int, b: int| 0 <= a < b < steps.len() - 1 implies (
            #[trigger] steps[a])->OpenDevice_0 < (#[trigger] steps[b])->OpenDevice_0 by {
                assert(steps[b] == rest[b - 1]);
                if a > 0 {
                    assert(steps[a] == rest[a - 1]);
                }
            }
        }
    } else {
        assert(steps[0] == SearchStep::ReadNames);
    }
}

/// The headsets of the openers are those that they came back with, in order, each step
/// names one opener, and each listed device stands with what opening it came to.
pub proof fn openers_and_devices_are_paired<D, U>(
    first: Result<Option<DeviceState<D, U>>, DeviceError>,
    rest: Seq<Result<Option<DeviceState<D, U>>, DeviceError>>,
    targets: Seq<usize>,
    devices: Seq<DeviceInfo>,
    opens: Seq<Result<D, HidError>>,
    i: int,
)
    requires
        0 <= i < targets.len(),
        0 <= i < devices.len(),
    ensures
        opened_states(Seq::<Result<Option<DeviceState<D, U>>, DeviceError>>::empty()).len() == 0,
        first matches Ok(Some(state)) ==> opened_states(seq![first] + rest) == seq![state]
            + opened_states(rest),
        !(first matches Ok(Some(_))) ==> opened_states(seq![first] + rest) == opened_states(rest),
        opener_steps(targets).len() == targets.len(),
        opener_steps(targets)[i] == SearchStep::OpenCustom(targets[i]),
        with_opens(devices, opens).len() == devices.len(),
        with_opens(devices, opens)[i] == (devices[i], opens[i]),
{
    let all = seq![first] + rest;
    assert(all.skip(1) =~= rest);
    assert(all[0] == first);
    if !(first matches Ok(Some(_))) {
        assert(opened_states(all) =~= opened_states(rest));
    }
}

} // verus!
