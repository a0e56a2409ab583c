//! Finding the DRI driver of a device: the PCI table, its predicates, the kernel's name for
//! the driver, and the names the driver's library and entry point go by.
use vstd::prelude::*;

use vstd::string::{StringExecFns, StringSliceAdditionalSpecFns};
use vstd::utf8::{decode_utf8, valid_utf8};

use crate::text::{str_equals, string_from_utf8};

verus! {

/// Why a driver could not be found.
#[derive(Debug, Copy, Clone, PartialEq, Eq, Structural)]
pub enum LoadError {
    /// "Failed to get driver name for FD"
    NoKernelName,
    /// "Failed string conversion"
    NameNotUtf8,
    /// "Failed to load PCI IDs"
    NoPciIds,
    /// "Unable to match ID to driver"
    NoDriverForId,
    /// "Unable to load extensions from driver."
    NoExtensions,
}

/// A further test that a table entry asks of the device.
#[derive(Debug, Copy, Clone, PartialEq, Eq, Structural)]
pub enum PciPredicate {
    /// No test.
    Always,
    /// The kernel calls the driver "i915".
    KernelIsI915,
    /// The device is an old NVIDIA chip.
    NouveauVieux,
}

/// One entry of the PCI table: a vendor, the driver, the chips it serves (none listed: all
/// of the vendor's), and a further test.
#[derive(Debug, Clone)]
pub struct PciTableEntry {
    pub id: i32,
    pub driver: &'static str,
    pub pci_ids: Vec<i32>,
    pub pred: PciPredicate,
}

/// The chip lists of the drivers that list theirs.
#[derive(Debug, Clone)]
pub struct PciIds {
    pub i915: Vec<i32>,
    pub i965: Vec<i32>,
    pub radeon: Vec<i32>,
    pub r200: Vec<i32>,
    pub r300: Vec<i32>,
    pub r600: Vec<i32>,
    pub virtio_gpu: Vec<i32>,
    pub vmwgfx: Vec<i32>,
}

/// What the predicates read of the device: the kernel's name for its driver (the bytes of
/// the DRM version's name, when the version could be read), the chipset value of the NVIDIA
/// parameter query (when the query succeeded), and whether `NOUVEAU_VIEUX` is set.
#[derive(Debug, Clone)]
pub struct DrmFacts {
    pub kernel_name: Option<Vec<u8>>,
    pub nouveau_chipset_value: Option<u64>,
    pub nouveau_vieux_env: bool,
}

pub open spec fn entry_is(e: PciTableEntry, id: i32, driver: &str, pci_ids: Seq<i32>, pred: PciPredicate) -> bool {
    &&& e.id == id
    &&& e.driver@ == driver@
    &&& e.pci_ids@ == pci_ids
    &&& e.pred == pred
}

/// The PCI table, in the order it is searched.
pub fn pci_table(ids: PciIds) -> (r: Vec<PciTableEntry>)
    ensures
        r@.len() == 12,
        entry_is(r@[0], 0x8086, "i915", ids.i915@, PciPredicate::Always),
        entry_is(r@[1], 0x8086, "i965", ids.i965@, PciPredicate::Always),
        entry_is(r@[2], 0x8086, "iris", Seq::empty(), PciPredicate::KernelIsI915),
        entry_is(r@[3], 0x1002, "radeon", ids.radeon@, PciPredicate::Always),
        entry_is(r@[4], 0x1002, "r200", ids.r200@, PciPredicate::Always),
        entry_is(r@[5], 0x1002, "r300", ids.r300@, PciPredicate::Always),
        entry_is(r@[6], 0x1002, "r600", ids.r600@, PciPredicate::Always),
        entry_is(r@[7], 0x1002, "radeonsi", Seq::empty(), PciPredicate::Always),
        entry_is(r@[8], 0x10de, "nouveau_vieux", Seq::empty(), PciPredicate::NouveauVieux),
        entry_is(r@[9], 0x10de, "nouveau", Seq::empty(), PciPredicate::Always),
        entry_is(r@[10], 0x1af4, "virtio_gpu", ids.virtio_gpu@, PciPredicate::Always),
        entry_is(r@[11], 0x15ad, "vmwgfx", ids.vmwgfx@, PciPredicate::Always),
{
    let PciIds { i915, i965, radeon, r200, r300, r600, virtio_gpu, vmwgfx } = ids;
    let mut t: Vec<PciTableEntry> = Vec::new();
    t.push(PciTableEntry { id: 0x8086, driver: "i915", pci_ids: i915, pred: PciPredicate::Always });
    t.push(PciTableEntry { id: 0x8086, driver: "i965", pci_ids: i965, pred: PciPredicate::Always });
    t.push(PciTableEntry { id: 0x8086, driver: "iris", pci_ids: Vec::new(), pred: PciPredicate::KernelIsI915 });
    t.push(PciTableEntry { id: 0x1002, driver: "radeon", pci_ids: radeon, pred: PciPredicate::Always });
    t.push(PciTableEntry { id: 0x1002, driver: "r200", pci_ids: r200, pred: PciPredicate::Always });
    t.push(PciTableEntry { id: 0x1002, driver: "r300", pci_ids: r300, pred: PciPredicate::Always });
    t.push(PciTableEntry { id: 0x1002, driver: "r600", pci_ids: r600, pred: PciPredicate::Always });
    t.push(PciTableEntry { id: 0x1002, driver: "radeonsi", pci_ids: Vec::new(), pred: PciPredicate::Always });
    t.push(PciTableEntry { id: 0x10de, driver: "nouveau_vieux", pci_ids: Vec::new(), pred: PciPredicate::NouveauVieux });
    t.push(PciTableEntry { id: 0x10de, driver: "nouveau", pci_ids: Vec::new(), pred: PciPredicate::Always });
    t.push(PciTableEntry { id: 0x1af4, driver: "virtio_gpu", pci_ids: virtio_gpu, pred: PciPredicate::Always });
    t.push(PciTableEntry { id: 0x15ad, driver: "vmwgfx", pci_ids: vmwgfx, pred: PciPredicate::Always });
    t
}

/// The chipset of an NVIDIA device from its parameter query: the value, cut to a C int,
/// when the query returned 0.
pub open spec fn chipset_of(ret: i32, value: u64) -> Option<i32> {
    if ret != 0 {
        None
    } else {
        Some(value as i32)
    }
}

pub fn nouveau_chipset(ret: i32, value: u64) -> (r: Option<i32>)
    ensures
        r == chipset_of(ret, value),
{
    if ret != 0 {
        None
    } else {
        Some(value as i32)
    }
}

/// An old NVIDIA chip: chipset below 0x30, or below 0x40 when `NOUVEAU_VIEUX` is set.
pub open spec fn vieux(chipset: Option<i32>, env_set: bool) -> bool {
    match chipset {
        None => false,
        Some(c) => (c > 0 && c < 0x30) || (c < 0x40 && env_set),
    }
}

pub fn is_nouveau_vieux(chipset: Option<i32>, env_set: bool) -> (r: bool)
    ensures
        r == vieux(chipset, env_set),
{
    match chipset {
        None => false,
        Some(c) => (c > 0 && c < 0x30) || (c < 0x40 && env_set),
    }
}

/// The kernel's name for the driver, read from the bytes of the DRM version's name.
pub open spec fn kernel_name_of(name: Option<Seq<u8>>) -> Result<Seq<char>, LoadError> {
    match name {
        None => Err(LoadError::NoKernelName),
        Some(b) => if valid_utf8(b) {
            Ok(decode_utf8(b))
        } else {
            Err(LoadError::NameNotUtf8)
        },
    }
}

pub fn driver_name_from_kernel_name(name: Option<Vec<u8>>) -> (r: Result<String, LoadError>)
    ensures
        match name {
            None => r == Err::<String, LoadError>(LoadError::NoKernelName),
            Some(b) => match kernel_name_of(Some(b@)) {
                Ok(s) => r is Ok && r->Ok_0@ == s,
                Err(e) => r == Err::<String, LoadError>(e),
            },
        },
{
    match name {
        None => Err(LoadError::NoKernelName),
        Some(b) => match string_from_utf8(b) {
            Some(s) => Ok(s),
            None => Err(LoadError::NameNotUtf8),
        },
    }
}

/// Whether the kernel calls the driver "i915" (false when its name cannot be read).
pub open spec fn kernel_is_i915(name: Option<Seq<u8>>) -> bool {
    match kernel_name_of(name) {
        Ok(s) => s == "i915"@,
        Err(_) => false,
    }
}

pub fn is_kernel_i915(name: Option<Vec<u8>>) -> (r: bool)
    ensures
        r == kernel_is_i915(match name {
            Some(b) => Some(b@),
            None => None::<Seq<u8>>,
        }),
{
    match driver_name_from_kernel_name(name) {
        Ok(s) => str_equals(s.as_str(), "i915"),
        Err(_) => false,
    }
}

pub open spec fn facts_name(facts: DrmFacts) -> Option<Seq<u8>> {
    match facts.kernel_name {
        Some(b) => Some(b@),
        None => None,
    }
}

pub open spec fn pred_holds(p: PciPredicate, facts: DrmFacts) -> bool {
    match p {
        PciPredicate::Always => true,
        PciPredicate::KernelIsI915 => kernel_is_i915(facts_name(facts)),
        PciPredicate::NouveauVieux => vieux(
            match facts.nouveau_chipset_value {
                Some(v) => Some(v as i32),
                None => None,
            },
            facts.nouveau_vieux_env,
        ),
    }
}

/// An entry serves a device: same vendor, its test holds, and its chips (if it lists any)
/// include the device's.
pub open spec fn entry_matches(e: PciTableEntry, vendor: i32, chip: i32, facts: DrmFacts) -> bool {
    &&& e.id == vendor
    &&& pred_holds(e.pred, facts)
    &&& (e.pci_ids@.len() == 0 || e.pci_ids@.contains(chip))
}

/// The first entry from `i` on that serves the device.
pub open spec fn first_entry(t: Seq<PciTableEntry>, i: int, vendor: i32, chip: i32, facts: DrmFacts) -> Option<int>
    decreases t.len() - i,
{
    if i >= t.len() || i < 0 {
        None
    } else if entry_matches(t[i], vendor, chip, facts) {
        Some(i)
    } else {
        first_entry(t, i + 1, vendor, chip, facts)
    }
}

fn contains_id(ids: &Vec<i32>, chip: i32) -> (r: bool)
    ensures
        r == ids@.contains(chip),
{
    let mut i: usize = 0;
    while i < ids.len()
        invariant
            i <= ids@.len(),
            forall|j: int| 0 <= j < i ==> ids@[j] != chip,
        decreases ids@.len() - i,
    {
        if ids[i] == chip {
            assert(ids@[i as int] == chip);
            return true;
        }
        i = i + 1;
    }
    false
}

fn predicate_holds(p: PciPredicate, facts: &DrmFacts) -> (r: bool)
    ensures
        r == pred_holds(p, *facts),
{
    match p {
        PciPredicate::Always => true,
        PciPredicate::KernelIsI915 => is_kernel_i915(facts.kernel_name.clone()),
        PciPredicate::NouveauVieux => {
            let chipset = match facts.nouveau_chipset_value {
                Some(v) => nouveau_chipset(0, v),
                None => None,
            };
            is_nouveau_vieux(chipset, facts.nouveau_vieux_env)
        },
    }
}

/// The driver the PCI table gives a device, from its (vendor, chip) ids.
pub fn driver_name_from_pci(table: &[PciTableEntry], ids: Option<(i32, i32)>, facts: &DrmFacts) -> (r: Result<&'static str, LoadError>)
    ensures
        match ids {
            None => r == Err::<&'static str, LoadError>(LoadError::NoPciIds),
            Some(p) => match first_entry(table@, 0, p.0, p.1, *facts) {
                Some(i) => r == Ok::<&'static str, LoadError>(table@[i].driver),
                None => r == Err::<&'static str, LoadError>(LoadError::NoDriverForId),
            },
        },
{
    if ids.is_none() {
        return Err(LoadError::NoPciIds);
    }
    let vendor = ids.unwrap().0;
    let chip = ids.unwrap().1;
    let mut i: usize = 0;
    while i < table.len()
        invariant
            i <= table@.len(),
            ids == Some((vendor, chip)),
            first_entry(table@, 0, vendor, chip, *facts) == first_entry(table@, i as int, vendor, chip, *facts),
        decreases table@.len() - i,
    {
        let e = &table[i];
        if e.id == vendor && predicate_holds(e.pred, facts) {
            if e.pci_ids.len() == 0 || contains_id(&e.pci_ids, chip) {
                assert(entry_matches(table@[i as int], vendor, chip, *facts));
                assert(first_entry(table@, i as int, vendor, chip, *facts) == Some(i as int));
                return Ok(e.driver);
            }
        }
        i = i + 1;
    }
    Err(LoadError::NoDriverForId)
}

/// The ids of a DRM device: its PCI vendor and device ids, when it sits on the PCI bus (bus
/// type 0).
pub fn ids_from_pci_device(bus_type: i32, vendor_id: u16, device_id: u16) -> (r: Option<(i32, i32)>)
    ensures
        r == if bus_type == 0 {
            Some((vendor_id as i32, device_id as i32))
        } else {
            None
        },
{
    if bus_type == 0 {
        Some((vendor_id as i32, device_id as i32))
    } else {
        None
    }
}

/// The files the driver's library may be found in, in the order they are tried.
pub fn dri_lib_name(name: &str) -> (r: [String; 2])
    ensures
        r[0]@ == "dri/"@ + name@ + "-dri.so"@,
        r[1]@ == name@ + "-dri.so"@,
{
    let mut first = String::from_str("dri/");
    first.append(name);
    first.append("-dri.so");
    let mut second = String::from_str(name);
    second.append("-dri.so");
    [first, second]
}

/// The name of the driver's function that lists its extensions, without its trailing nul.
pub open spec fn get_extensions_prefix() -> Seq<u8> {
    // "__driDriverGetExtensions"
    seq![95u8, 95, 100, 114, 105, 68, 114, 105, 118, 101, 114, 71, 101, 116, 69, 120, 116, 101,
        110, 115, 105, 111, 110, 115]
}

/// A byte of a symbol name: '-' becomes '_'.
pub open spec fn symbol_byte(b: u8) -> u8 {
    if b == 45 {
        95
    } else {
        b
    }
}

/// The name of the driver's own extension function: the common name, '_' and the driver's
/// name, with every '-' turned into '_'.
pub open spec fn getter_name_of(driver_name: Seq<u8>) -> Seq<u8> {
    (get_extensions_prefix().push(95u8) + driver_name).map_values(|b: u8| symbol_byte(b))
}

pub fn extension_getter_name(driver_name: &str) -> (r: Vec<u8>)
    ensures
        r@ == getter_name_of(driver_name.spec_bytes()),
{
    let mut v: Vec<u8> = vec![95u8, 95, 100, 114, 105, 68, 114, 105, 118, 101, 114, 71, 101, 116, 69,
        120, 116, 101, 110, 115, 105, 111, 110, 115];
    v.push(95u8);
    let bytes = driver_name.as_bytes();
    let mut i: usize = 0;
    while i < bytes.len()
        invariant
            i <= bytes@.len(),
            v@ == get_extensions_prefix().push(95u8) + bytes@.subrange(0, i as int),
        decreases bytes@.len() - i,
    {
        v.push(bytes[i]);
        i = i + 1;
        assert(v@ =~= get_extensions_prefix().push(95u8) + bytes@.subrange(0, i as int));
    }
    assert(bytes@.subrange(0, bytes@.len() as int) =~= bytes@);
    let ghost whole = v@;
    let mut j: usize = 0;
    while j < v.len()
        invariant
            j <= v@.len(),
            v@.len() == whole.len(),
            forall|k: int| 0 <= k < j ==> #[trigger] v@[k] == symbol_byte(whole[k]),
            forall|k: int| j <= k < whole.len() ==> #[trigger] v@[k] == whole[k],
        decreases v@.len() - j,
    {
        if v[j] == 45 {
            v.set(j, 95);
        }
        j = j + 1;
    }
    assert(v@ =~= whole.map_values(|b: u8| symbol_byte(b)));
    v
}

/// Where the driver's extension list is taken from.
#[derive(Debug, Copy, Clone, PartialEq, Eq, Structural)]
pub enum ExtensionSource {
    /// The driver's own function gave a list.
    Getter,
    /// The list the driver exports under the common name.
    Exported,
}

/// The driver's own function is used when it exists and gives a list; otherwise the list
/// the driver exports, if it exports one.
pub fn extension_source(getter_gave_list: bool, exported_present: bool) -> (r: Result<ExtensionSource, LoadError>)
    ensures
        r == if getter_gave_list {
            Ok::<ExtensionSource, LoadError>(ExtensionSource::Getter)
        } else if exported_present {
            Ok(ExtensionSource::Exported)
        } else {
            Err(LoadError::NoExtensions)
        },
{
    if getter_gave_list {
        Ok(ExtensionSource::Getter)
    } else if exported_present {
        Ok(ExtensionSource::Exported)
    } else {
        Err(LoadError::NoExtensions)
    }
}

/// The entry the table search finds serves the device, and no entry before it does.
pub proof fn lemma_first_entry_serves(t: Seq<PciTableEntry>, i: int, vendor: i32, chip: i32, facts: DrmFacts)
    requires
        0 <= i,
        first_entry(t, i, vendor, chip, facts) is Some,
    ensures
        ({
            let k = first_entry(t, i, vendor, chip, facts)->Some_0;
            &&& i <= k < t.len()
            &&& entry_matches(t[k], vendor, chip, facts)
            &&& forall|j: int| i <= j < k ==> !entry_matches(#[trigger] t[j], vendor, chip, facts)
        }),
    decreases t.len() - i,
{
    if i < t.len() && !entry_matches(t[i], vendor, chip, facts) {
        lemma_first_entry_serves(t, i + 1, vendor, chip, facts);
    }
}

/// The name of a driver's extension function holds no '-'.
pub proof fn lemma_getter_name_has_no_dash(driver_name: Seq<u8>)
    ensures
        forall|i: int| 0 <= i < getter_name_of(driver_name).len() ==> #[trigger] getter_name_of(driver_name)[i] != 45,
        getter_name_of(driver_name).len() == 25 + driver_name.len(),
{
}


/// Which nouveau chips take the old driver: chipsets below 0x30 always (above zero), those
/// from 0x30 up to 0x3f only when the environment asks for it, later ones and unknown ones
/// never.
pub proof fn lemma_nouveau_vieux(c: i32, env_set: bool)
    ensures
        0 < c < 0x30 ==> vieux(Some(c), env_set),
        0x30 <= c < 0x40 ==> (vieux(Some(c), env_set) <==> env_set),
        c >= 0x40 ==> !vieux(Some(c), env_set),
        !env_set && c <= 0 ==> !vieux(Some(c), env_set),
        !vieux(None, env_set),
{
}

/// The driver's extension function is named by the common name, an underscore and the
/// driver's name, in that order, each '-' of the driver's name turned into '_' and every
/// other byte kept.
pub proof fn lemma_getter_name_bytes(driver_name: Seq<u8>)
    ensures
        getter_name_of(driver_name).subrange(0, 24) == get_extensions_prefix(),
        getter_name_of(driver_name)[24] == 95u8,
        forall|i: int|
            0 <= i < driver_name.len() ==> #[trigger] getter_name_of(driver_name)[25 + i] == if driver_name[i]
                == 45 {
                95u8
            } else {
                driver_name[i]
            },
{
    let full = get_extensions_prefix().push(95u8) + driver_name;
    assert(getter_name_of(driver_name).subrange(0, 24) =~= get_extensions_prefix());
    assert forall|i: int| 0 <= i < driver_name.len() implies #[trigger] getter_name_of(driver_name)[25 + i] == if driver_name[i]
        == 45 {
        95u8
    } else {
        driver_name[i]
    } by {
        assert(full[25 + i] == driver_name[i]);
    }
}

} // verus!
