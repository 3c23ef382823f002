//! The order of the search for headsets.
//!
//! The openers of their own are tried first, one after another, and an error of
//! one of them ends the search. Only then is hidapi started and the HID devices
//! of the machine listed. Those that are wanted are opened in the order of the
//! listing, and in the end the opened devices are asked for their names.
use vstd::prelude::*;
use crate::discovery::{
    after_devices, is_potential, is_selected, with_opened, with_potential, DeviceInfo, Discovery,
    Listed,
};
use crate::errors::{DeviceError, HidError};
use crate::register::{custom_open_targets, wanted_openers, DeviceEntry};
use crate::state::DeviceState;

verus! {

/// What the search does next.
pub enum SearchStep {
    /// The opener of this entry of the register is called.
    OpenCustom(usize),
    /// Hidapi is started and the HID devices are listed.
    ListDevices,
    /// The device at this place of the listing is opened through hidapi.
    OpenDevice(usize),
    /// The opened devices are asked for their names, and the search is over.
    ReadNames,
    /// The search ends with this error.
    Fail(DeviceError),
}

/// A search: the entries whose openers are to be tried and how many have been, the
/// listed devices and how many have been looked at, and what has been found.
pub struct Search<D, U> {
    pub targets: Vec<usize>,
    pub tried: usize,
    pub devices: Vec<DeviceInfo>,
    pub at: usize,
    pub found: Discovery<D, U>,
}

/// What a search knows.
pub struct SearchModel<D, U> {
    pub targets: Seq<usize>,
    pub tried: int,
    pub devices: Seq<DeviceInfo>,
    pub at: int,
    pub custom: Seq<DeviceState<D, U>>,
    pub listed: Listed<D>,
}

impl<D, U> View for Search<D, U> {
    type V = SearchModel<D, U>;

    open spec fn view(&self) -> SearchModel<D, U> {
        SearchModel {
            targets: self.targets@,
            tried: self.tried as int,
            devices: self.devices@,
            at: self.at as int,
            custom: self.found.custom_states@,
            listed: self.found.listed(),
        }
    }
}

/// A search that has found nothing yet.
pub open spec fn search_start<D, U>(targets: Seq<usize>) -> SearchModel<D, U> {
    SearchModel {
        targets,
        tried: 0,
        devices: Seq::empty(),
        at: 0,
        custom: Seq::empty(),
        listed: Listed { candidates: Seq::empty(), potential: Seq::empty(), error: None },
    }
}

/// The next opener, or hidapi once all openers have been tried.
pub open spec fn opener_step(targets: Seq<usize>, tried: int) -> SearchStep {
    if tried < targets.len() {
        SearchStep::OpenCustom(targets[tried])
    } else {
        SearchStep::ListDevices
    }
}

/// The headset that an opener came back with, if it did.
pub open spec fn opened_state<D, U>(opened: Result<Option<DeviceState<D, U>>, DeviceError>) -> Seq<
    DeviceState<D, U>,
> {
    match opened {
        Ok(Some(state)) => seq![state],
        _ => Seq::empty(),
    }
}

/// The search, and what it does next, once an opener has been called.
pub open spec fn after_custom<D, U>(
    m: SearchModel<D, U>,
    opened: Result<Option<DeviceState<D, U>>, DeviceError>,
) -> (SearchModel<D, U>, SearchStep) {
    (
        SearchModel { tried: m.tried + 1, custom: m.custom + opened_state(opened), ..m },
        match opened {
            Ok(_) => opener_step(m.targets, m.tried + 1),
            Err(e) => SearchStep::Fail(e),
        },
    )
}

/// The search, and what it does next, from the device at `m.at` on: devices that
/// are not wanted are passed over, and those of the right make are noted.
pub open spec fn scanned<F, O, D, U>(
    register: Seq<DeviceEntry<F, O>>,
    product_ids: Seq<u16>,
    vendor_ids: Seq<u16>,
    m: SearchModel<D, U>,
) -> (SearchModel<D, U>, SearchStep)
    decreases m.devices.len() - m.at,
{
    if m.at >= m.devices.len() {
        (m, SearchStep::ReadNames)
    } else if is_selected(register, product_ids, vendor_ids, m.devices[m.at]) {
        (m, SearchStep::OpenDevice(m.at as usize))
    } else {
        let listed = if is_potential(register, product_ids, vendor_ids, m.devices[m.at]) {
            with_potential(m.listed, m.devices[m.at])
        } else {
            m.listed
        };
        scanned(register, product_ids, vendor_ids, SearchModel { at: m.at + 1, listed, ..m })
    }
}

/// The search, and what it does next, once the devices have been listed.
pub open spec fn after_listing<F, O, D, U>(
    register: Seq<DeviceEntry<F, O>>,
    product_ids: Seq<u16>,
    vendor_ids: Seq<u16>,
    m: SearchModel<D, U>,
    listing: Result<Vec<DeviceInfo>, HidError>,
) -> (SearchModel<D, U>, SearchStep) {
    match listing {
        Ok(devices) => scanned(
            register,
            product_ids,
            vendor_ids,
            SearchModel { devices: devices@, at: 0, ..m },
        ),
        Err(e) => (m, SearchStep::Fail(DeviceError::HidError(e))),
    }
}

/// The search, and what it does next, once the device at `m.at` has been opened or
/// has failed to open.
pub open spec fn after_opening<F, O, D, U>(
    register: Seq<DeviceEntry<F, O>>,
    product_ids: Seq<u16>,
    vendor_ids: Seq<u16>,
    m: SearchModel<D, U>,
    opened: Result<D, HidError>,
) -> (SearchModel<D, U>, SearchStep) {
    scanned(
        register,
        product_ids,
        vendor_ids,
        SearchModel {
            at: m.at + 1,
            listed: with_opened(m.listed, m.devices[m.at], opened),
            ..m
        },
    )
}

impl<D, U> Search<D, U> {
    /// A search for headsets with these ids.
    pub fn new<F, O>(
        register: &[DeviceEntry<F, O>],
        product_ids: &[u16],
        vendor_ids: &[u16],
    ) -> (s: Self)
        ensures
            s@ == search_start::<D, U>(wanted_openers(register@, product_ids@, vendor_ids@)),
    {
        let s = Search {
            targets: custom_open_targets(register, product_ids, vendor_ids),
            tried: 0,
            devices: Vec::new(),
            at: 0,
            found: Discovery::new(),
        };
        assert(s@.custom =~= Seq::empty());
        assert(s@.devices =~= Seq::empty());
        s
    }

    /// The next opener, or hidapi once all openers have been tried.
    pub fn start(&self) -> (step: SearchStep)
        ensures
            step == opener_step(self@.targets, self@.tried),
    {
        if self.tried < self.targets.len() {
            SearchStep::OpenCustom(self.targets[self.tried])
        } else {
            SearchStep::ListDevices
        }
    }

    /// Takes up what an opener came back with.
    pub fn take_custom(&mut self, opened: Result<Option<DeviceState<D, U>>, DeviceError>) -> (step:
        SearchStep)
        requires
            old(self)@.tried < old(self)@.targets.len(),
        ensures
            (final(self)@, step) == after_custom(old(self)@, opened),
    {
        assert(self.tried < self.targets.len());
        self.tried = self.tried + 1;
        let r = self.found.add_custom(opened);
        assert(self@.custom =~= old(self)@.custom + opened_state(opened));
        match r {
            Ok(()) => self.start(),
            Err(e) => SearchStep::Fail(e),
        }
    }

    fn scan<F, O>(
        &mut self,
        register: &[DeviceEntry<F, O>],
        product_ids: &[u16],
        vendor_ids: &[u16],
    ) -> (step: SearchStep)
        ensures
            (final(self)@, step) == scanned(register@, product_ids@, vendor_ids@, old(self)@),
    {
        while self.at < self.devices.len()
            invariant
                scanned(register@, product_ids@, vendor_ids@, self@) == scanned(
                    register@,
                    product_ids@,
                    vendor_ids@,
                    old(self)@,
                ),
            decreases self.devices.len() - self.at,
        {
            let open = self.found.consider(
                register,
                product_ids,
                vendor_ids,
                &self.devices[self.at],
            );
            if open {
                return SearchStep::OpenDevice(self.at);
            }
            self.at = self.at + 1;
        }
        SearchStep::ReadNames
    }

    /// Takes up the listing of the HID devices, or why hidapi could not be started.
    pub fn take_listing<F, O>(
        &mut self,
        register: &[DeviceEntry<F, O>],
        product_ids: &[u16],
        vendor_ids: &[u16],
        listing: Result<Vec<DeviceInfo>, HidError>,
    ) -> (step: SearchStep)
        ensures
            (final(self)@, step) == after_listing(
                register@,
                product_ids@,
                vendor_ids@,
                old(self)@,
                listing,
            ),
    {
        match listing {
            Ok(devices) => {
                self.devices = devices;
                self.at = 0;
                self.scan(register, product_ids, vendor_ids)
            },
            Err(e) => SearchStep::Fail(DeviceError::from(e)),
        }
    }

    /// Takes up what opening a listed device came to.
    pub fn take_opened<F, O>(
        &mut self,
        register: &[DeviceEntry<F, O>],
        product_ids: &[u16],
        vendor_ids: &[u16],
        opened: Result<D, HidError>,
    ) -> (step: SearchStep)
        requires
            old(self)@.at < old(self)@.devices.len(),
        ensures
            (final(self)@, step) == after_opening(
                register@,
                product_ids@,
                vendor_ids@,
                old(self)@,
                opened,
            ),
    {
        assert(self.at < self.devices.len());
        self.found.add_opened(&self.devices[self.at], opened);
        self.at = self.at + 1;
        self.scan(register, product_ids, vendor_ids)
    }
}

/// A whole search: its steps, and what it knows in the end.
pub struct SearchRun<D, U> {
    pub steps: Seq<SearchStep>,
    pub end: SearchModel<D, U>,
}

/// A run with a step before it.
pub open spec fn preceded<D, U>(step: SearchStep, run: SearchRun<D, U>) -> SearchRun<D, U> {
    SearchRun { steps: seq![step] + run.steps, ..run }
}

/// Looking through the listing never goes back, nor past its end, and leaves it as it is.
pub proof fn scan_moves_on<F, O, D, U>(
    register: Seq<DeviceEntry<F, O>>,
    product_ids: Seq<u16>,
    vendor_ids: Seq<u16>,
    m: SearchModel<D, U>,
)
    requires
        m.at <= m.devices.len(),
    ensures
        ({
            let after = scanned(register, product_ids, vendor_ids, m).0;
            &&& after.devices == m.devices
            &&& m.at <= after.at <= m.devices.len()
        }),
    decreases m.devices.len() - m.at,
{
    if m.at < m.devices.len() && !is_selected(
        register,
        product_ids,
        vendor_ids,
        m.devices[m.at],
    ) {
        let listed = if is_potential(register, product_ids, vendor_ids, m.devices[m.at]) {
            with_potential(m.listed, m.devices[m.at])
        } else {
            m.listed
        };
        scan_moves_on(
            register,
            product_ids,
            vendor_ids,
            SearchModel { at: m.at + 1, listed, ..m },
        );
    }
}

/// The search from a step on once the devices have been listed, where `opens` are
/// what opening the devices of the listing comes to.
pub open spec fn devices_run<F, O, D, U>(
    register: Seq<DeviceEntry<F, O>>,
    product_ids: Seq<u16>,
    vendor_ids: Seq<u16>,
    m: SearchModel<D, U>,
    step: SearchStep,
    opens: Seq<Result<D, HidError>>,
) -> SearchRun<D, U>
    decreases m.devices.len() - m.at,
{
    if step is OpenDevice && m.at < m.devices.len() {
        proof {
            scan_moves_on(
                register,
                product_ids,
                vendor_ids,
                SearchModel {
                    at: m.at + 1,
                    listed: with_opened(m.listed, m.devices[m.at], opens[m.at]),
                    ..m
                },
            );
        }
        let (after, next) = after_opening(register, product_ids, vendor_ids, m, opens[m.at]);
        preceded(step, devices_run(register, product_ids, vendor_ids, after, next, opens))
    } else {
        SearchRun { steps: seq![step], end: m }
    }
}

/// The search from the listing of the devices on.
pub open spec fn listing_run<F, O, D, U>(
    register: Seq<DeviceEntry<F, O>>,
    product_ids: Seq<u16>,
    vendor_ids: Seq<u16>,
    m: SearchModel<D, U>,
    listing: Result<Vec<DeviceInfo>, HidError>,
    opens: Seq<Result<D, HidError>>,
) -> SearchRun<D, U> {
    let (after, next) = after_listing(register, product_ids, vendor_ids, m, listing);
    preceded(
        SearchStep::ListDevices,
        devices_run(register, product_ids, vendor_ids, after, next, opens),
    )
}

/// The search from a step on, where `customs` are what the openers come back with,
/// in the order in which they are tried.
pub open spec fn run_from<F, O, D, U>(
    register: Seq<DeviceEntry<F, O>>,
    product_ids: Seq<u16>,
    vendor_ids: Seq<u16>,
    m: SearchModel<D, U>,
    step: SearchStep,
    customs: Seq<Result<Option<DeviceState<D, U>>, DeviceError>>,
    listing: Result<Vec<DeviceInfo>, HidError>,
    opens: Seq<Result<D, HidError>>,
) -> SearchRun<D, U>
    decreases m.targets.len() - m.tried,
{
    if step is OpenCustom && m.tried < m.targets.len() {
        let (after, next) = after_custom(m, customs[m.tried]);
        preceded(
            step,
            run_from(
                register,
                product_ids,
                vendor_ids,
                after,
                next,
                customs,
                listing,
                opens,
            ),
        )
    } else if step is ListDevices {
        listing_run(register, product_ids, vendor_ids, m, listing, opens)
    } else {
        SearchRun { steps: seq![step], end: m }
    }
}

/// A search for headsets with these ids.
pub open spec fn search_run<F, O, D, U>(
    register: Seq<DeviceEntry<F, O>>,
    product_ids: Seq<u16>,
    vendor_ids: Seq<u16>,
    customs: Seq<Result<Option<DeviceState<D, U>>, DeviceError>>,
    listing: Result<Vec<DeviceInfo>, HidError>,
    opens: Seq<Result<D, HidError>>,
) -> SearchRun<D, U> {
    let targets = wanted_openers(register, product_ids, vendor_ids);
    run_from(
        register,
        product_ids,
        vendor_ids,
        search_start(targets),
        opener_step(targets, 0),
        customs,
        listing,
        opens,
    )
}

/// The steps that call these openers.
pub open spec fn opener_steps(targets: Seq<usize>) -> Seq<SearchStep> {
    targets.map_values(|place: usize| SearchStep::OpenCustom(place))
}

/// The steps from a place of the listing on: each wanted device is opened, and then
/// the names are read.
pub open spec fn device_steps<F, O>(
    register: Seq<DeviceEntry<F, O>>,
    product_ids: Seq<u16>,
    vendor_ids: Seq<u16>,
    devices: Seq<DeviceInfo>,
    from: int,
) -> Seq<SearchStep>
    decreases devices.len() - from,
{
    if from >= devices.len() {
        seq![SearchStep::ReadNames]
    } else {
        let rest = device_steps(register, product_ids, vendor_ids, devices, from + 1);
        if is_selected(register, product_ids, vendor_ids, devices[from]) {
            seq![SearchStep::OpenDevice(from as usize)] + rest
        } else {
            rest
        }
    }
}

/// The headsets that the openers came back with, in order.
pub open spec fn opened_states<D, U>(
    customs: Seq<Result<Option<DeviceState<D, U>>, DeviceError>>,
) -> Seq<DeviceState<D, U>>
    decreases customs.len(),
{
    if customs.len() == 0 {
        Seq::empty()
    } else {
        opened_state(customs[0]) + opened_states(customs.skip(1))
    }
}

/// The devices of a listing, each with what opening it comes to.
pub open spec fn with_opens<D>(devices: Seq<DeviceInfo>, opens: Seq<Result<D, HidError>>) -> Seq<
    (DeviceInfo, Result<D, HidError>),
> {
    Seq::new(devices.len(), |i: int| (devices[i], opens[i]))
}

proof fn rest_after_openers<F, O, D, U>(
    register: Seq<DeviceEntry<F, O>>,
    product_ids: Seq<u16>,
    vendor_ids: Seq<u16>,
    m: SearchModel<D, U>,
    customs: Seq<Result<Option<DeviceState<D, U>>, DeviceError>>,
    listing: Result<Vec<DeviceInfo>, HidError>,
    opens: Seq<Result<D, HidError>>,
)
    requires
        0 <= m.tried <= m.targets.len(),
        customs.len() == m.targets.len(),
        forall|i: int| m.tried <= i < customs.len() ==> (#[trigger] customs[i]) is Ok,
    ensures
        ({
            let run = run_from(
                register,
                product_ids,
                vendor_ids,
                m,
                opener_step(m.targets, m.tried),
                customs,
                listing,
                opens,
            );
            let asked = SearchModel {
                tried: m.targets.len() as int,
                custom: m.custom + opened_states(customs.skip(m.tried)),
                ..m
            };
            let rest = listing_run(register, product_ids, vendor_ids, asked, listing, opens);
            &&& run.steps == opener_steps(m.targets.skip(m.tried)) + rest.steps
            &&& run.end == rest.end
        }),
    decreases m.targets.len() - m.tried,
{
    let left = customs.skip(m.tried);
    if m.tried < m.targets.len() {
        let (after, next) = after_custom(m, customs[m.tried]);
        rest_after_openers(
            register,
            product_ids,
            vendor_ids,
            after,
            customs,
            listing,
            opens,
        );
        assert(left.skip(1) =~= customs.skip(m.tried + 1));
        assert(m.custom + opened_states(left) =~= after.custom + opened_states(left.skip(1)));
        assert(opener_steps(m.targets.skip(m.tried)) =~= seq![
            SearchStep::OpenCustom(m.targets[m.tried]),
        ] + opener_steps(m.targets.skip(m.tried + 1)));
        let run = run_from(
            register,
            product_ids,
            vendor_ids,
            m,
            opener_step(m.targets, m.tried),
            customs,
            listing,
            opens,
        );
        let rest = listing_run(
            register,
            product_ids,
            vendor_ids,
            SearchModel {
                tried: m.targets.len() as int,
                custom: m.custom + opened_states(left),
                ..m
            },
            listing,
            opens,
        );
        assert(run.steps =~= opener_steps(m.targets.skip(m.tried)) + rest.steps);
    } else {
        assert(m.custom + opened_states(left) =~= m.custom);
        assert(opener_steps(m.targets.skip(m.tried)) =~= Seq::empty());
        let rest = listing_run(register, product_ids, vendor_ids, m, listing, opens);
        assert(Seq::<SearchStep>::empty() + rest.steps =~= rest.steps);
    }
}

proof fn devices_in_order<F, O, D, U>(
    register: Seq<DeviceEntry<F, O>>,
    product_ids: Seq<u16>,
    vendor_ids: Seq<u16>,
    m: SearchModel<D, U>,
    opens: Seq<Result<D, HidError>>,
)
    requires
        0 <= m.at <= m.devices.len(),
        m.listed == after_devices(
            register,
            product_ids,
            vendor_ids,
            with_opens(m.devices, opens).take(m.at),
        ),
    ensures
        ({
            let (after, next) = scanned(register, product_ids, vendor_ids, m);
            let run = devices_run(register, product_ids, vendor_ids, after, next, opens);
            &&& run.steps == device_steps(register, product_ids, vendor_ids, m.devices, m.at)
            &&& run.end.listed == after_devices(
                register,
                product_ids,
                vendor_ids,
                with_opens(m.devices, opens),
            )
            &&& run.end.custom == m.custom
        }),
    decreases m.devices.len() - m.at,
{
    let all = with_opens(m.devices, opens);
    if m.at < m.devices.len() {
        assert(all.take(m.at + 1).drop_last() =~= all.take(m.at));
        assert(all.take(m.at + 1).last() == (m.devices[m.at], opens[m.at]));
        let listed = after_devices(register, product_ids, vendor_ids, all.take(m.at + 1));
        let next = SearchModel { at: m.at + 1, listed, ..m };
        devices_in_order(register, product_ids, vendor_ids, next, opens);
    } else {
        assert(all.take(m.at) =~= all);
    }
}

/// Every opener is tried before hidapi is started, in the order of the register.
/// Then the wanted devices are opened in the order of the listing, and last the
/// names are read; where hidapi could not be started, that error is the last step.
/// What was found is what the openers came back with and what the listing gives.
pub proof fn openers_come_before_hidapi<F, O, D, U>(
    register: Seq<DeviceEntry<F, O>>,
    product_ids: Seq<u16>,
    vendor_ids: Seq<u16>,
    customs: Seq<Result<Option<DeviceState<D, U>>, DeviceError>>,
    listing: Result<Vec<DeviceInfo>, HidError>,
    opens: Seq<Result<D, HidError>>,
)
    requires
        customs.len() == wanted_openers(register, product_ids, vendor_ids).len(),
        forall|i: int| 0 <= i < customs.len() ==> (#[trigger] customs[i]) is Ok,
    ensures
        ({
            let run = search_run(register, product_ids, vendor_ids, customs, listing, opens);
            let targets = wanted_openers(register, product_ids, vendor_ids);
            let before = opener_steps(targets).push(SearchStep::ListDevices);
            &&& run.end.custom == opened_states(customs)
            &&& match listing {
                Ok(devices) => {
                    &&& run.steps == before + device_steps(
                        register,
                        product_ids,
                        vendor_ids,
                        devices@,
                        0,
                    )
                    &&& run.end.listed == after_devices(
                        register,
                        product_ids,
                        vendor_ids,
                        with_opens(devices@, opens),
                    )
                },
                Err(e) => run.steps == before.push(SearchStep::Fail(DeviceError::HidError(e))),
            }
        }),
{
    let targets = wanted_openers(register, product_ids, vendor_ids);
    let start = search_start::<D, U>(targets);
    rest_after_openers(register, product_ids, vendor_ids, start, customs, listing, opens);
    assert(targets.skip(0) =~= targets);
    assert(customs.skip(0) =~= customs);
    assert(start.custom + opened_states(customs) =~= opened_states(customs));
    let asked = SearchModel {
        tried: targets.len() as int,
        custom: opened_states(customs),
        ..start
    };
    let run = search_run(register, product_ids, vendor_ids, customs, listing, opens);
    let before = opener_steps(targets).push(SearchStep::ListDevices);
    match listing {
        Ok(devices) => {
            assert(with_opens(devices@, opens).take(0) =~= Seq::empty());
            devices_in_order(
                register,
                product_ids,
                vendor_ids,
                SearchModel { devices: devices@, at: 0, ..asked },
                opens,
            );
            assert(run.steps =~= before + device_steps(
                register,
                product_ids,
                vendor_ids,
                devices@,
                0,
            ));
        },
        Err(e) => {
            assert(run.steps =~= before.push(SearchStep::Fail(DeviceError::HidError(e))));
        },
    }
}

proof fn failure_from<F, O, D, U>(
    register: Seq<DeviceEntry<F, O>>,
    product_ids: Seq<u16>,
    vendor_ids: Seq<u16>,
    m: SearchModel<D, U>,
    customs: Seq<Result<Option<DeviceState<D, U>>, DeviceError>>,
    listing: Result<Vec<DeviceInfo>, HidError>,
    opens: Seq<Result<D, HidError>>,
    k: int,
)
    requires
        0 <= m.tried <= k < m.targets.len(),
        forall|i: int| m.tried <= i < k ==> (#[trigger] customs[i]) is Ok,
        customs[k] is Err,
    ensures
        run_from(
            register,
            product_ids,
            vendor_ids,
            m,
            opener_step(m.targets, m.tried),
            customs,
            listing,
            opens,
        ).steps == opener_steps(m.targets.subrange(m.tried, k + 1)).push(
            SearchStep::Fail(customs[k]->Err_0),
        ),
    decreases k - m.tried,
{
    let (after, next) = after_custom(m, customs[m.tried]);
    let steps = opener_steps(m.targets.subrange(m.tried, k + 1)).push(
        SearchStep::Fail(customs[k]->Err_0),
    );
    let run = run_from(
        register,
        product_ids,
        vendor_ids,
        m,
        opener_step(m.targets, m.tried),
        customs,
        listing,
        opens,
    );
    if m.tried < k {
        failure_from(register, product_ids, vendor_ids, after, customs, listing, opens, k);
        assert(run.steps =~= steps);
    } else {
        let rest = run_from(
            register,
            product_ids,
            vendor_ids,
            after,
            next,
            customs,
            listing,
            opens,
        );
        assert(rest.steps == seq![next]);
        assert(run.steps =~= steps);
    }
}

/// The first opener that fails ends the search with its error: neither a later
/// opener nor hidapi is tried.
pub proof fn failing_opener_ends_the_search<F, O, D, U>(
    register: Seq<DeviceEntry<F, O>>,
    product_ids: Seq<u16>,
    vendor_ids: Seq<u16>,
    customs: Seq<Result<Option<DeviceState<D, U>>, DeviceError>>,
    listing: Result<Vec<DeviceInfo>, HidError>,
    opens: Seq<Result<D, HidError>>,
    k: int,
)
    requires
        0 <= k < wanted_openers(register, product_ids, vendor_ids).len(),
        forall|i: int| 0 <= i < k ==> (#[trigger] customs[i]) is Ok,
        customs[k] is Err,
    ensures
        search_run(register, product_ids, vendor_ids, customs, listing, opens).steps
            == opener_steps(wanted_openers(register, product_ids, vendor_ids).take(k + 1)).push(
            SearchStep::Fail(customs[k]->Err_0),
        ),
{
    let targets = wanted_openers(register, product_ids, vendor_ids);
    failure_from(
        register,
        product_ids,
        vendor_ids,
        search_start(targets),
        customs,
        listing,
        opens,
        k,
    );
    assert(targets.subrange(0, k + 1) =~= targets.take(k + 1));
}

} // verus!
