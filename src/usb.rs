//! The USB host stack and the DFU engine as this library sees them: their
//! types, and the calls the library makes into them, with what it relies on.

use vstd::prelude::*;
use crate::adapter::ControlRequest;
use crate::classify::{ControlType, Recipient};
use crate::opener::AltSetting;
use dfu_core::functional_descriptor::{Error as DescriptorError, FunctionalDescriptor};
use nusb::transfer::{Control, ControlType as UsbControlType, Recipient as UsbRecipient};

verus! {

#[verifier::external_type_specification]
#[verifier::external_body]
pub struct ExDevice(nusb::Device);

#[verifier::external_type_specification]
#[verifier::external_body]
pub struct ExInterface(nusb::Interface);

#[verifier::external_type_specification]
#[verifier::external_body]
pub struct ExDeviceInfo(nusb::DeviceInfo);

#[verifier::external_type_specification]
#[verifier::external_body]
pub struct ExIoError(std::io::Error);

#[verifier::external_type_specification]
#[verifier::external_body]
pub struct ExTransferError(nusb::transfer::TransferError);

#[verifier::external_type_specification]
#[verifier::external_body]
pub struct ExFunctionalDescriptor(dfu_core::functional_descriptor::FunctionalDescriptor);

#[verifier::external_type_specification]
#[verifier::external_body]
pub struct ExDescriptorError(DescriptorError);

#[verifier::external_type_specification]
#[verifier::external_body]
pub struct ExDfuError(dfu_core::Error);

#[verifier::external_type_specification]
#[verifier::external_body]
pub struct ExMemoryLayout(dfu_core::memory_layout::MemoryLayout);

#[verifier::external_type_specification]
#[verifier::external_body]
#[verifier::reject_recursive_types(M)]
pub struct ExDfuProtocol<M>(dfu_core::DfuProtocol<M>);

/// Relies on `nusb::DeviceInfo::vendor_id`: the `idVendor` of an enumerated device.
pub assume_specification[ nusb::DeviceInfo::vendor_id ](info: &nusb::DeviceInfo) -> u16;

/// Relies on `nusb::DeviceInfo::product_id`: the `idProduct` of an enumerated device.
pub assume_specification[ nusb::DeviceInfo::product_id ](info: &nusb::DeviceInfo) -> u16;

/// Relies on `nusb::DeviceInfo::open`: opens an enumerated device.
pub assume_specification[ nusb::DeviceInfo::open ](info: &nusb::DeviceInfo) -> Result<
    nusb::Device,
    std::io::Error,
>;

/// Relies on `nusb::Device::claim_interface`: claims an interface of an open device.
pub assume_specification[ nusb::Device::claim_interface ](
    device: &nusb::Device,
    interface: u8,
) -> Result<nusb::Interface, std::io::Error>;

/// Relies on `nusb::Device::reset`: a bus reset of the device.
pub assume_specification[ nusb::Device::reset ](device: &nusb::Device) -> Result<(), std::io::Error>;

/// Relies on `nusb::Interface::set_alt_setting`: selects an alternate setting.
pub assume_specification[ nusb::Interface::set_alt_setting ](
    interface: &nusb::Interface,
    alt_setting: u8,
) -> Result<(), std::io::Error>;

/// Relies on `nusb::Interface::interface_number`: the number the interface was claimed by.
pub assume_specification[ nusb::Interface::interface_number ](interface: &nusb::Interface) -> u8;

/// Relies on `FunctionalDescriptor::from_bytes`: a descriptor whose second byte is not
/// `0x21` (or that has fewer than two bytes) is no DFU functional descriptor; one that
/// is, but holds fewer than nine bytes, is too short. Beside a parsed descriptor stands
/// its `dfu_version` field, read from bytes 8 (major) and 7 (minor).
#[verifier::external_body]
pub(crate) fn parse_functional(bytes: &[u8]) -> (r: Option<Result<(FunctionalDescriptor, (u8, u8)), DescriptorError>>)
    ensures
        r is None <==> !crate::opener::is_functional_descriptor(bytes@),
        r is Some ==> (r->Some_0 is Err <==> bytes@.len() < 9),
        r matches Some(Ok((_, version))) ==> version == (bytes@[8], bytes@[7]),
{
    FunctionalDescriptor::from_bytes(bytes).map(|p| p.map(|d| (d, d.dfu_version)))
}

/// Relies on `nusb::list_devices`: the devices attached now.
#[verifier::external_body]
pub(crate) fn list_devices() -> (r: Result<Vec<nusb::DeviceInfo>, std::io::Error>) {
    nusb::list_devices().map(|devices| devices.collect())
}

/// Relies on `nusb::Interface::control_in_blocking`, with a timeout of three seconds:
/// sends the SETUP packet `req` (field for field) and reads into `data`, whose length
/// it cannot change. `wLength` is 16 bits: a longer buffer makes it panic.
#[verifier::external_body]
pub(crate) fn control_in_blocking(
    interface: &nusb::Interface,
    req: &ControlRequest,
    data: &mut [u8],
) -> (r: Result<usize, nusb::transfer::TransferError>)
    requires
        old(data)@.len() <= u16::MAX,
    ensures
        final(data)@.len() == old(data)@.len(),
{
    let control_type = match req.control_type {
        ControlType::Standard => UsbControlType::Standard, ControlType::Class => UsbControlType::Class,
        ControlType::Vendor => UsbControlType::Vendor,
    };
    let recipient = match req.recipient {
        Recipient::Device => UsbRecipient::Device, Recipient::Interface => UsbRecipient::Interface,
        Recipient::Endpoint => UsbRecipient::Endpoint, Recipient::Other => UsbRecipient::Other,
    };
    let control = Control { control_type, recipient, request: req.request, value: req.value, index: req.index };
    interface.control_in_blocking(control, data, std::time::Duration::from_secs(3))
}

/// Relies on `nusb::Interface::control_out_blocking`, with a timeout of three seconds:
/// sends the SETUP packet `req` (field for field) and then `data`. `wLength` is 16
/// bits: a longer buffer makes it panic.
#[verifier::external_body]
pub(crate) fn control_out_blocking(
    interface: &nusb::Interface,
    req: &ControlRequest,
    data: &[u8],
) -> (r: Result<usize, nusb::transfer::TransferError>)
    requires
        data@.len() <= u16::MAX,
{
    let control_type = match req.control_type {
        ControlType::Standard => UsbControlType::Standard, ControlType::Class => UsbControlType::Class,
        ControlType::Vendor => UsbControlType::Vendor,
    };
    let recipient = match req.recipient {
        Recipient::Device => UsbRecipient::Device, Recipient::Interface => UsbRecipient::Interface,
        Recipient::Endpoint => UsbRecipient::Endpoint, Recipient::Other => UsbRecipient::Other,
    };
    let control = Control { control_type, recipient, request: req.request, value: req.value, index: req.index };
    interface.control_out_blocking(control, data, std::time::Duration::from_secs(3))
}

/// Relies on `nusb::Interface::descriptors`, `InterfaceAltSetting::alternate_setting`,
/// `string_index` (never `Some(0)`) and `descriptors`: the alternate settings of the
/// claimed interface in the active configuration, copied out as plain values.
#[verifier::external_body]
pub(crate) fn alt_settings(interface: &nusb::Interface) -> (r: Vec<AltSetting>)
    ensures
        forall|i: int| 0 <= i < r@.len() ==> r@[i].string_index != Some(0u8),
{
    interface.descriptors().map(|a| AltSetting {
        number: a.alternate_setting(),
        string_index: a.string_index(),
        descriptors: a.descriptors().map(|d| d.to_vec()).collect(),
    }).collect()
}

/// Relies on `nusb::Device::get_string_descriptor_supported_languages`, with a
/// timeout of three seconds: the language identifiers the device lists.
#[verifier::external_body]
pub(crate) fn string_languages(device: &nusb::Device) -> (r: Result<Vec<u16>, std::io::Error>) {
    device.get_string_descriptor_supported_languages(std::time::Duration::from_secs(3)).map(|l| l.collect())
}

/// Relies on `nusb::Device::get_string_descriptor`, with a timeout of three
/// seconds: index 0 is the language table and is refused.
#[verifier::external_body]
pub(crate) fn string_descriptor(device: &nusb::Device, index: u8, language: u16) -> (r: Result<String, std::io::Error>)
    ensures
        index == 0 ==> r is Err,
{
    device.get_string_descriptor(index, language, std::time::Duration::from_secs(3))
}

/// Relies on `DfuProtocol::new`: version 1.1 is plain DFU and always accepted;
/// versions other than 1.1 and 1.1a are unknown and refused. For 1.1a it reads a
/// memory layout out of `name`, slicing it by bytes and multiplying each page size
/// by its prefix: it panics on a name that is not ASCII or whose page sizes overflow.
#[verifier::external_body]
pub(crate) fn protocol_from(name: &str, version: (u8, u8)) -> (r: Result<
    dfu_core::DfuProtocol<dfu_core::memory_layout::MemoryLayout>,
    dfu_core::Error,
>)
    requires
        version == (1u8, 0x1au8) ==> crate::opener::layout_name_ok(name),
    ensures
        version == (1u8, 0x10u8) ==> r is Ok,
        version != (1u8, 0x10u8) && version != (1u8, 0x1au8) ==> r is Err,
{
    dfu_core::DfuProtocol::new(name, version)
}

} // verus!
