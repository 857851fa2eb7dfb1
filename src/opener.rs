//! Finding, opening and describing a DFU interface.

use vstd::prelude::*;
use vstd::string::StringSliceAdditionalSpecFns;
use crate::adapter::DfuNusb;
use crate::error::DfuNusbError;
use crate::usb::{alt_settings, list_devices, parse_functional, protocol_from, string_descriptor, string_languages};
use dfu_core::memory_layout::MemoryLayout;
use dfu_core::DfuProtocol;
use dfu_core::functional_descriptor::FunctionalDescriptor;

verus! {

/// One alternate setting of an interface, as plain values: its number, the index
/// of its name string (never `Some(0)`), and its descriptors, the interface
/// descriptor first, each as its raw bytes.
#[derive(Debug)]
pub struct AltSetting {
    pub number: u8,
    pub string_index: Option<u8>,
    pub descriptors: Vec<Vec<u8>>,
}

/// Whether `bytes` is a DFU functional descriptor: its type byte is `0x21`.
pub open spec fn is_functional_descriptor(bytes: Seq<u8>) -> bool {
    bytes.len() >= 2 && bytes[1] == 0x21
}

/// The value of the run of decimal digits that ends just before position `j` of
/// `s`, capped at 4194304.
pub open spec fn digit_run(s: Seq<u8>, j: int) -> nat
    decreases j,
{
    if j <= 0 || j > s.len() || !(0x30 <= s[j - 1] <= 0x39) {
        0
    } else {
        let v = digit_run(s, j - 1) * 10 + (s[j - 1] - 0x30) as nat;
        if v > 4194304 { 4194304 } else { v }
    }
}

/// Whether every page size in `s` fits in 32 bits once multiplied by its prefix:
/// a number before `K` (1024) is at most 4194303, one before `M` (1024 * 1024) at
/// most 4095.
pub open spec fn page_sizes_fit(s: Seq<u8>) -> bool {
    forall|i: int| 0 <= i < s.len() ==> (#[trigger] s[i] == 0x4b ==> digit_run(s, i) <= 4194303)
        && (s[i] == 0x4d ==> digit_run(s, i) <= 4095)
}

/// Whether the memory layout in a DfuSe interface name can be read safely: the
/// name is ASCII and its page sizes fit.
pub open spec fn layout_name_ok(name: &str) -> bool {
    name.is_ascii() && page_sizes_fit(name.spec_bytes())
}

/// Tests `layout_name_ok`.
pub fn layout_name_readable(name: &str) -> (r: bool)
    ensures
        r == layout_name_ok(name),
{
    if !name.is_ascii() {
        return false;
    }
    let b = name.as_bytes();
    let mut run: u64 = 0;
    let mut i: usize = 0;
    while i < b.len()
        invariant
            i <= b@.len(),
            b@ == name.spec_bytes(),
            run == digit_run(b@, i as int),
            run <= 4194304,
            forall|k: int| 0 <= k < i ==> (#[trigger] b@[k] == 0x4b ==> digit_run(b@, k) <= 4194303)
                && (b@[k] == 0x4d ==> digit_run(b@, k) <= 4095),
        decreases b@.len() - i,
    {
        let c = b[i];
        if c == 0x4b && run > 4194303 {
            return false;
        }
        if c == 0x4d && run > 4095 {
            return false;
        }
        if 0x30 <= c && c <= 0x39 {
            let v = run * 10 + (c - 0x30) as u64;
            run = if v > 4194304 { 4194304 } else { v };
        } else {
            run = 0;
        }
        i = i + 1;
    }
    true
}

/// The protocol dialect for an interface named `name` with DFU version `version`:
/// 1.1 is plain DFU; 1.1a is DfuSe, whose name must hold a readable memory
/// layout; any other version is refused by the engine.
pub fn protocol_for(name: &str, version: (u8, u8)) -> (r: Result<DfuProtocol<MemoryLayout>, DfuNusbError>)
    ensures
        version == (1u8, 0x10u8) ==> r is Ok,
        version != (1u8, 0x10u8) && version != (1u8, 0x1au8) ==> (r matches Err(e) && e is Dfu),
        version == (1u8, 0x1au8) && !layout_name_ok(name) ==> (r matches Err(e) && e is InvalidInterfaceName),
        r matches Err(e) ==> (e is Dfu || e is InvalidInterfaceName),
{
    if version.0 == 1 && version.1 == 0x1a && !layout_name_readable(name) {
        return Err(DfuNusbError::InvalidInterfaceName);
    }
    match protocol_from(name, version) {
        Ok(p) => Ok(p),
        Err(e) => Err(DfuNusbError::Dfu(e)),
    }
}

/// The language to ask a name string in, from the device's answer on its
/// languages: none when that query failed.
pub fn language_for(languages: &Result<Vec<u16>, std::io::Error>) -> (r: Option<u16>)
    ensures
        languages is Err ==> r is None,
        languages matches Ok(l) ==> r == Some(if l@.len() > 0 { l@[0] } else { 0u16 }),
{
    match languages {
        Ok(l) => Some(first_language(l)),
        Err(_) => None,
    }
}

/// The name a string query gave, or the empty name when it failed.
pub fn name_or_empty(answer: Result<String, std::io::Error>) -> (r: String)
    ensures
        answer matches Ok(s) ==> r@ == s@,
        answer is Err ==> r@.len() == 0,
{
    match answer {
        Ok(s) => s,
        Err(_) => String::new(),
    }
}

/// Whether an enumerated device with identifiers `ids[i]` matches.
pub open spec fn device_matches(ids: Seq<(u16, u16)>, i: int, vid: u16, pid: u16) -> bool {
    ids[i].0 == vid && ids[i].1 == pid
}

/// Whether `i` is the first alternate setting of `alts` numbered `alt`.
pub open spec fn is_first_alt(alts: Seq<AltSetting>, alt: u8, i: int) -> bool {
    0 <= i < alts.len() && alts[i].number == alt && forall|j: int| 0 <= j < i ==> alts[j].number != alt
}

/// Whether `alts` holds an alternate setting numbered `alt`.
pub open spec fn has_alt(alts: Seq<AltSetting>, alt: u8) -> bool {
    exists|i: int| 0 <= i < alts.len() && alts[i].number == alt
}

/// Whether `k` is the first DFU functional descriptor of `descriptors`.
pub open spec fn is_first_functional(descriptors: Seq<Vec<u8>>, k: int) -> bool {
    0 <= k < descriptors.len() && is_functional_descriptor(descriptors[k]@)
        && forall|j: int| 0 <= j < k ==> !is_functional_descriptor(descriptors[j]@)
}

/// Whether `descriptors` holds a DFU functional descriptor.
pub open spec fn has_functional(descriptors: Seq<Vec<u8>>) -> bool {
    exists|k: int| 0 <= k < descriptors.len() && is_functional_descriptor(descriptors[k]@)
}

/// The position of the first device whose identifiers are `(vid, pid)`, or
/// `DeviceNotFound` when none has them.
pub fn select_device(ids: &Vec<(u16, u16)>, vid: u16, pid: u16) -> (r: Result<usize, DfuNusbError>)
    ensures
        r matches Err(e) ==> e is DeviceNotFound,
        r is Err <==> forall|i: int| 0 <= i < ids@.len() ==> !device_matches(ids@, i, vid, pid),
        r matches Ok(i) ==> i < ids@.len() && device_matches(ids@, i as int, vid, pid)
            && forall|j: int| 0 <= j < i ==> !device_matches(ids@, j, vid, pid),
{
    let mut i: usize = 0;
    while i < ids.len()
        invariant
            i <= ids@.len(),
            forall|j: int| 0 <= j < i ==> !device_matches(ids@, j, vid, pid),
        decreases ids@.len() - i,
    {
        if ids[i].0 == vid && ids[i].1 == pid {
            assert(device_matches(ids@, i as int, vid, pid));
            return Ok(i);
        }
        i = i + 1;
    }
    Err(DfuNusbError::DeviceNotFound)
}

/// The position of the first alternate setting numbered `alt`, if any.
pub fn find_alt(alts: &Vec<AltSetting>, alt: u8) -> (r: Option<usize>)
    ensures
        r is None <==> !has_alt(alts@, alt),
        r matches Some(i) ==> is_first_alt(alts@, alt, i as int),
{
    let mut i: usize = 0;
    while i < alts.len()
        invariant
            i <= alts@.len(),
            forall|j: int| 0 <= j < i ==> alts@[j].number != alt,
        decreases alts@.len() - i,
    {
        if alts[i].number == alt {
            return Some(i);
        }
        i = i + 1;
    }
    None
}

/// Parses the first DFU functional descriptor of the first alternate setting
/// numbered `alt`, and of no other, with its DFU version (major, minor).
/// `FunctionalDescriptorNotFound` when that setting is missing or carries none; a
/// descriptor error when it is too short.
pub fn locate_descriptor(alts: &Vec<AltSetting>, alt: u8) -> (r: Result<(FunctionalDescriptor, (u8, u8)), DfuNusbError>)
    ensures
        (r matches Err(e) && e is FunctionalDescriptorNotFound) <==> (!has_alt(alts@, alt) || exists|i: int|
            is_first_alt(alts@, alt, i) && !has_functional(alts@[i].descriptors@)),
        r is Ok <==> exists|i: int, k: int|
            is_first_alt(alts@, alt, i) && is_first_functional(alts@[i].descriptors@, k)
                && alts@[i].descriptors@[k]@.len() >= 9,
        r matches Err(e) ==> (e is FunctionalDescriptorNotFound || e is FunctionalDescriptor),
        r matches Ok((_, version)) ==> exists|i: int, k: int|
            is_first_alt(alts@, alt, i) && is_first_functional(alts@[i].descriptors@, k)
                && version == (alts@[i].descriptors@[k]@[8], alts@[i].descriptors@[k]@[7]),
{
    let i = match find_alt(alts, alt) {
        Some(i) => i,
        None => { return Err(DfuNusbError::FunctionalDescriptorNotFound); },
    };
    let descriptors = &alts[i].descriptors;
    let mut k: usize = 0;
    while k < descriptors.len()
        invariant
            is_first_alt(alts@, alt, i as int),
            descriptors == &alts@[i as int].descriptors,
            k <= descriptors@.len(),
            forall|j: int| 0 <= j < k ==> !is_functional_descriptor(descriptors@[j]@),
        decreases descriptors@.len() - k,
    {
        match parse_functional(descriptors[k].as_slice()) {
            Some(Ok(d)) => {
                assert(is_first_functional(descriptors@, k as int));
                return Ok(d);
            },
            Some(Err(e)) => {
                assert(is_first_functional(descriptors@, k as int));
                return Err(DfuNusbError::FunctionalDescriptor(e));
            },
            None => {},
        }
        k = k + 1;
    }
    assert(!has_functional(descriptors@));
    Err(DfuNusbError::FunctionalDescriptorNotFound)
}

/// The index of the name string of the first alternate setting numbered `alt`,
/// looked up anew; `AltSettingNotFound` when there is none.
pub fn alt_string_index(alts: &Vec<AltSetting>, alt: u8) -> (r: Result<Option<u8>, DfuNusbError>)
    ensures
        r is Err <==> !has_alt(alts@, alt),
        r matches Err(e) ==> e is AltSettingNotFound,
        r matches Ok(s) ==> exists|i: int| is_first_alt(alts@, alt, i) && s == alts@[i].string_index,
{
    match find_alt(alts, alt) {
        Some(i) => Ok(alts[i].string_index),
        None => Err(DfuNusbError::AltSettingNotFound),
    }
}

/// The language a string descriptor is asked for in: the first the device
/// supports, or language 0 when it lists none.
pub fn first_language(languages: &Vec<u16>) -> (r: u16)
    ensures
        r == if languages@.len() > 0 { languages@[0] } else { 0 },
{
    if languages.len() > 0 {
        languages[0]
    } else {
        0
    }
}

/// The name of an alternate setting whose name string has index `index`, in the
/// device's first supported language (language 0 when it lists none). Best
/// effort: empty when there is no name string or either query fails.
pub fn interface_name(device: &nusb::Device, index: Option<u8>) -> (r: String)
    ensures
        index is None ==> r@.len() == 0,
{
    match index {
        None => String::new(),
        Some(index) => match language_for(&string_languages(device)) {
            None => String::new(),
            Some(language) => name_or_empty(string_descriptor(device, index, language)),
        },
    }
}

impl DfuNusb {
    /// Opens the DFU interface `interface` of `device` in alternate setting `alt`:
    /// selects the setting, parses its DFU functional descriptor, reads its name
    /// and from it and the DFU version derives the protocol dialect.
    pub fn open(device: nusb::Device, interface: nusb::Interface, alt: u8) -> (r: Result<Self, DfuNusbError>)
        ensures
            r matches Err(e) ==> !(e is DeviceNotFound || e is Transfer),
    {
        if let Err(e) = interface.set_alt_setting(alt) {
            return Err(DfuNusbError::Nusb(e));
        }
        let alts = alt_settings(&interface);
        let (descriptor, version) = match locate_descriptor(&alts, alt) {
            Ok(found) => found,
            Err(e) => { return Err(e); },
        };
        let index = match alt_string_index(&alts, alt) {
            Ok(index) => index,
            Err(e) => { return Err(e); },
        };
        let name = interface_name(&device, index);
        let protocol = protocol_for(name.as_str(), version);
        let number = interface.interface_number();
        DfuNusb::from_parts(device, interface, number, descriptor, protocol)
    }
}

/// Enumerates the attached devices, opens the first with identifiers `(vid, pid)`,
/// claims its interface `interface` and opens that in alternate setting `alt`.
pub fn try_open(vid: u16, pid: u16, interface: u8, alt: u8) -> (r: Result<DfuNusb, DfuNusbError>)
    ensures
        r matches Err(e) ==> !(e is Transfer),
{
    let devices = match list_devices() {
        Ok(devices) => devices,
        Err(e) => { return Err(DfuNusbError::Nusb(e)); },
    };
    let mut ids: Vec<(u16, u16)> = Vec::new();
    let mut i: usize = 0;
    while i < devices.len()
        invariant
            i <= devices@.len(),
            ids@.len() == i,
        decreases devices@.len() - i,
    {
        ids.push((devices[i].vendor_id(), devices[i].product_id()));
        i = i + 1;
    }
    let chosen = match select_device(&ids, vid, pid) {
        Ok(chosen) => chosen,
        Err(e) => { return Err(e); },
    };
    let device = match devices[chosen].open() {
        Ok(device) => device,
        Err(e) => { return Err(DfuNusbError::Nusb(e)); },
    };
    let claimed = match device.claim_interface(interface) {
        Ok(claimed) => claimed,
        Err(e) => { return Err(DfuNusbError::Nusb(e)); },
    };
    DfuNusb::open(device, claimed, alt)
}

} // verus!
