//! The register of known headsets.
use vstd::prelude::*;

verus! {

/// A kind of headset: the ids under which it is found, how its handler is made
/// (`F`), and the opener (`O`) of those that are not opened through hidapi.
pub struct DeviceEntry<F, O> {
    pub vendor_ids: &'static [u16],
    pub product_ids: &'static [u16],
    pub factory: F,
    pub custom_open: Option<O>,
}

impl<F, O> DeviceEntry<F, O> {
    /// Whether the entry is about a device with these ids.
    pub open spec fn covers(&self, vendor_id: u16, product_id: u16) -> bool {
        self.vendor_ids@.contains(vendor_id) && self.product_ids@.contains(product_id)
    }

    /// Whether the entry has one of the wanted vendors and one of the wanted products.
    pub open spec fn is_wanted(&self, product_ids: Seq<u16>, vendor_ids: Seq<u16>) -> bool {
        &&& exists|i: int|
            0 <= i < self.vendor_ids@.len() && vendor_ids.contains(#[trigger] self.vendor_ids@[i])
        &&& exists|i: int|
            0 <= i < self.product_ids@.len() && product_ids.contains(#[trigger] self.product_ids@[i])
    }

    fn is_about(&self, vendor_id: u16, product_id: u16) -> (b: bool)
        ensures
            b == self.covers(vendor_id, product_id),
    {
        contains_id(self.vendor_ids, vendor_id) && contains_id(self.product_ids, product_id)
    }
}

/// Whether some entry with an opener of its own is about a device with these ids.
pub open spec fn custom_owned<F, O>(
    register: Seq<DeviceEntry<F, O>>,
    vendor_id: u16,
    product_id: u16,
) -> bool {
    exists|i: int|
        0 <= i < register.len() && (#[trigger] register[i]).custom_open is Some
            && register[i].covers(vendor_id, product_id)
}

/// The product ids of all entries, one entry after another.
pub open spec fn product_ids_of<F, O>(register: Seq<DeviceEntry<F, O>>) -> Seq<u16>
    decreases register.len(),
{
    if register.len() == 0 {
        Seq::empty()
    } else {
        product_ids_of(register.drop_last()) + register.last().product_ids@
    }
}

/// The vendor ids of all entries, one entry after another.
pub open spec fn vendor_ids_of<F, O>(register: Seq<DeviceEntry<F, O>>) -> Seq<u16>
    decreases register.len(),
{
    if register.len() == 0 {
        Seq::empty()
    } else {
        vendor_ids_of(register.drop_last()) + register.last().vendor_ids@
    }
}

/// The places in the register, from the first on, of the entries with an opener
/// of their own that are wanted.
pub open spec fn wanted_openers<F, O>(
    register: Seq<DeviceEntry<F, O>>,
    product_ids: Seq<u16>,
    vendor_ids: Seq<u16>,
) -> Seq<usize>
    decreases register.len(),
{
    if register.len() == 0 {
        Seq::empty()
    } else {
        let before = wanted_openers(register.drop_last(), product_ids, vendor_ids);
        if register.last().custom_open is Some && register.last().is_wanted(
            product_ids,
            vendor_ids,
        ) {
            before.push((register.len() - 1) as usize)
        } else {
            before
        }
    }
}

/// The place of the first entry that is about a device with these ids.
pub open spec fn first_entry<F, O>(
    register: Seq<DeviceEntry<F, O>>,
    vendor_id: u16,
    product_id: u16,
) -> Option<usize>
    decreases register.len(),
{
    if register.len() == 0 {
        None
    } else {
        match first_entry(register.drop_last(), vendor_id, product_id) {
            Some(i) => Some(i),
            None => if register.last().covers(vendor_id, product_id) {
                Some((register.len() - 1) as usize)
            } else {
                None
            },
        }
    }
}

/// Whether `id` is one of the ids.
pub fn contains_id(ids: &[u16], id: u16) -> (found: bool)
    ensures
        found == ids@.contains(id),
{
    let mut i: usize = 0;
    while i < ids.len()
        invariant
            i <= ids@.len(),
            forall|j: int| 0 <= j < i ==> ids@[j] != id,
        decreases ids@.len() - i,
    {
        if ids[i] == id {
            assert(ids@[i as int] == id);
            return true;
        }
        i = i + 1;
    }
    false
}

fn shares_id(ids: &[u16], wanted: &[u16]) -> (found: bool)
    ensures
        found == exists|i: int| 0 <= i < ids@.len() && wanted@.contains(#[trigger] ids@[i]),
{
    let mut i: usize = 0;
    while i < ids.len()
        invariant
            i <= ids@.len(),
            forall|j: int| 0 <= j < i ==> !wanted@.contains(#[trigger] ids@[j]),
        decreases ids@.len() - i,
    {
        if contains_id(wanted, ids[i]) {
            assert(wanted@.contains(ids@[i as int]));
            return true;
        }
        i = i + 1;
    }
    false
}

fn append_ids(all: &mut Vec<u16>, ids: &[u16])
    ensures
        final(all)@ == old(all)@ + ids@,
{
    let ghost start = all@;
    let mut i: usize = 0;
    assert(all@ =~= start + ids@.take(0));
    while i < ids.len()
        invariant
            i <= ids@.len(),
            all@ == start + ids@.take(i as int),
        decreases ids@.len() - i,
    {
        all.push(ids[i]);
        i = i + 1;
        assert(all@ =~= start + ids@.take(i as int));
    }
    assert(ids@.take(ids@.len() as int) =~= ids@);
}

/// Whether a device with these ids is left to an opener of its own, so that
/// hidapi must not touch it.
pub fn is_owned_by_custom_opener<F, O>(
    register: &[DeviceEntry<F, O>],
    vendor_id: u16,
    product_id: u16,
) -> (owned: bool)
    ensures
        owned == custom_owned(register@, vendor_id, product_id),
{
    let mut i: usize = 0;
    while i < register.len()
        invariant
            i <= register@.len(),
            forall|j: int|
                0 <= j < i ==> !((#[trigger] register@[j]).custom_open is Some
                    && register@[j].covers(vendor_id, product_id)),
        decreases register@.len() - i,
    {
        if register[i].custom_open.is_some() && register[i].is_about(vendor_id, product_id) {
            assert(register@[i as int].custom_open is Some);
            return true;
        }
        i = i + 1;
    }
    false
}

/// The product ids of all entries.
pub fn all_product_ids<F, O>(register: &[DeviceEntry<F, O>]) -> (ids: Vec<u16>)
    ensures
        ids@ == product_ids_of(register@),
{
    let mut ids: Vec<u16> = Vec::new();
    let mut i: usize = 0;
    while i < register.len()
        invariant
            i <= register@.len(),
            ids@ == product_ids_of(register@.take(i as int)),
        decreases register@.len() - i,
    {
        proof {
            assert(register@.take(i + 1).drop_last() =~= register@.take(i as int));
        }
        append_ids(&mut ids, register[i].product_ids);
        i = i + 1;
    }
    assert(register@.take(register@.len() as int) =~= register@);
    ids
}

/// The vendor ids of all entries.
pub fn all_vendor_ids<F, O>(register: &[DeviceEntry<F, O>]) -> (ids: Vec<u16>)
    ensures
        ids@ == vendor_ids_of(register@),
{
    let mut ids: Vec<u16> = Vec::new();
    let mut i: usize = 0;
    while i < register.len()
        invariant
            i <= register@.len(),
            ids@ == vendor_ids_of(register@.take(i as int)),
        decreases register@.len() - i,
    {
        proof {
            assert(register@.take(i + 1).drop_last() =~= register@.take(i as int));
        }
        append_ids(&mut ids, register[i].vendor_ids);
        i = i + 1;
    }
    assert(register@.take(register@.len() as int) =~= register@);
    ids
}

proof fn later_entries_do_not_matter<F, O>(
    register: Seq<DeviceEntry<F, O>>,
    vendor_id: u16,
    product_id: u16,
    n: int,
)
    requires
        0 <= n <= register.len(),
        first_entry(register.take(n), vendor_id, product_id) is Some,
    ensures
        first_entry(register, vendor_id, product_id) == first_entry(
            register.take(n),
            vendor_id,
            product_id,
        ),
    decreases register.len(),
{
    if n < register.len() {
        assert(register.drop_last().take(n) =~= register.take(n));
        later_entries_do_not_matter(register.drop_last(), vendor_id, product_id, n);
    } else {
        assert(register.take(n) =~= register);
    }
}

/// The place of the first entry that is about a device with these ids.
pub fn find_entry<F, O>(register: &[DeviceEntry<F, O>], vendor_id: u16, product_id: u16) -> (place:
    Option<usize>)
    ensures
        place == first_entry(register@, vendor_id, product_id),
{
    let mut i: usize = 0;
    while i < register.len()
        invariant
            i <= register@.len(),
            first_entry(register@.take(i as int), vendor_id, product_id) is None,
        decreases register@.len() - i,
    {
        proof {
            assert(register@.take(i + 1).drop_last() =~= register@.take(i as int));
            assert(register@.take(i + 1).last() == register@[i as int]);
        }
        if register[i].is_about(vendor_id, product_id) {
            proof {
                later_entries_do_not_matter(register@, vendor_id, product_id, i + 1);
            }
            return Some(i);
        }
        i = i + 1;
    }
    assert(register@.take(register@.len() as int) =~= register@);
    None
}

/// The entry that is found is about the device, and none before it is; where none
/// is found, none is about the device.
pub proof fn first_entry_is_first<F, O>(
    register: Seq<DeviceEntry<F, O>>,
    vendor_id: u16,
    product_id: u16,
)
    requires
        register.len() <= usize::MAX,
    ensures
        first_entry(register, vendor_id, product_id) matches Some(i) ==> {
            &&& i < register.len()
            &&& register[i as int].covers(vendor_id, product_id)
            &&& forall|j: int|
                0 <= j < i ==> !(#[trigger] register[j]).covers(vendor_id, product_id)
        },
        first_entry(register, vendor_id, product_id) is None ==> forall|j: int|
            0 <= j < register.len() ==> !(#[trigger] register[j]).covers(vendor_id, product_id),
    decreases register.len(),
{
    if register.len() > 0 {
        let front = register.drop_last();
        first_entry_is_first(front, vendor_id, product_id);
        assert(forall|j: int| 0 <= j < front.len() ==> front[j] == register[j]);
    }
}

/// The entries whose openers are to be tried before hidapi touches any device, in order.
pub fn custom_open_targets<F, O>(
    register: &[DeviceEntry<F, O>],
    product_ids: &[u16],
    vendor_ids: &[u16],
) -> (places: Vec<usize>)
    ensures
        places@ == wanted_openers(register@, product_ids@, vendor_ids@),
{
    let mut places: Vec<usize> = Vec::new();
    let mut i: usize = 0;
    while i < register.len()
        invariant
            i <= register@.len(),
            places@ == wanted_openers(register@.take(i as int), product_ids@, vendor_ids@),
        decreases register@.len() - i,
    {
        proof {
            assert(register@.take(i + 1).drop_last() =~= register@.take(i as int));
            assert(register@.take(i + 1).last() == register@[i as int]);
        }
        if register[i].custom_open.is_some() && shares_id(register[i].vendor_ids, vendor_ids)
            && shares_id(register[i].product_ids, product_ids) {
            places.push(i);
        }
        i = i + 1;
    }
    assert(register@.take(register@.len() as int) =~= register@);
    places
}

/// A device that some entry is about has ids among those of all entries.
pub proof fn known_devices_have_listed_ids<F, O>(
    register: Seq<DeviceEntry<F, O>>,
    i: int,
    vendor_id: u16,
    product_id: u16,
)
    requires
        0 <= i < register.len(),
        register[i].covers(vendor_id, product_id),
    ensures
        vendor_ids_of(register).contains(vendor_id),
        product_ids_of(register).contains(product_id),
    decreases register.len(),
{
    let front = register.drop_last();
    let vendors = vendor_ids_of(front);
    let products = product_ids_of(front);
    if i < front.len() {
        known_devices_have_listed_ids(front, i, vendor_id, product_id);
        assert(vendor_ids_of(register)[vendors.index_of(vendor_id)] == vendor_id);
        assert(product_ids_of(register)[products.index_of(product_id)] == product_id);
    } else {
        let v = register[i].vendor_ids@.index_of(vendor_id);
        let p = register[i].product_ids@.index_of(product_id);
        assert(vendor_ids_of(register)[vendors.len() + v] == vendor_id);
        assert(product_ids_of(register)[products.len() + p] == product_id);
    }
}

/// An opener is tried exactly where its entry is wanted.
pub proof fn wanted_openers_are_tried<F, O>(
    register: Seq<DeviceEntry<F, O>>,
    product_ids: Seq<u16>,
    vendor_ids: Seq<u16>,
    i: usize,
)
    requires
        register.len() <= usize::MAX,
    ensures
        wanted_openers(register, product_ids, vendor_ids).contains(i) <==> i < register.len()
            && register[i as int].custom_open is Some && register[i as int].is_wanted(
            product_ids,
            vendor_ids,
        ),
    decreases register.len(),
{
    if register.len() > 0 {
        let front = register.drop_last();
        let before = wanted_openers(front, product_ids, vendor_ids);
        let all = wanted_openers(register, product_ids, vendor_ids);
        wanted_openers_are_tried(front, product_ids, vendor_ids, i);
        if before.contains(i) {
            assert(all[before.index_of(i)] == i);
        }
        if all.contains(i) && !before.contains(i) {
            let at = all.index_of(i);
            assert(at == before.len());
        }
        if i == register.len() - 1 && register.last().custom_open is Some
            && register.last().is_wanted(product_ids, vendor_ids) {
            assert(all[all.len() - 1] == i);
        }
    }
}

/// A wanted device that hidapi leaves alone because it has an opener of its own
/// is one whose opener is tried.
pub proof fn skipped_devices_have_their_opener_tried<F, O>(
    register: Seq<DeviceEntry<F, O>>,
    product_ids: Seq<u16>,
    vendor_ids: Seq<u16>,
    vendor_id: u16,
    product_id: u16,
)
    requires
        register.len() <= usize::MAX,
        custom_owned(register, vendor_id, product_id),
        product_ids.contains(product_id),
        vendor_ids.contains(vendor_id),
    ensures
        exists|i: usize|
            #[trigger] wanted_openers(register, product_ids, vendor_ids).contains(i) && i
                < register.len() && register[i as int].covers(vendor_id, product_id),
{
    let i = choose|i: int|
        0 <= i < register.len() && (#[trigger] register[i]).custom_open is Some
            && register[i].covers(vendor_id, product_id);
    let entry = register[i];
    let v = entry.vendor_ids@.index_of(vendor_id);
    let p = entry.product_ids@.index_of(product_id);
    assert(vendor_ids.contains(entry.vendor_ids@[v]));
    assert(product_ids.contains(entry.product_ids@[p]));
    assert(entry.is_wanted(product_ids, vendor_ids));
    wanted_openers_are_tried(register, product_ids, vendor_ids, i as usize);
}

} // verus!
