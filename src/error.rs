//! The failures of opening a DFU interface and of talking to it.

use vstd::prelude::*;

verus! {

/// Why opening or driving a DFU interface failed.
#[derive(Debug)]
pub enum DfuNusbError {
    /// No attached device has the requested vendor and product identifiers.
    DeviceNotFound,
    /// The alternate setting carries no DFU functional descriptor.
    FunctionalDescriptorNotFound,
    /// The alternate setting could not be found among the interface's descriptors.
    AltSettingNotFound,
    /// The interface name of a DfuSe device holds a memory layout that cannot be
    /// read: it is not ASCII, or a page size overflows 32 bits.
    InvalidInterfaceName,
    /// The DFU functional descriptor is malformed.
    FunctionalDescriptor(dfu_core::functional_descriptor::Error),
    /// The protocol engine rejected the device or the operation.
    Dfu(dfu_core::Error),
    /// The USB host stack failed (enumeration, claim, reset, descriptor query).
    Nusb(std::io::Error),
    /// A control transfer failed.
    Transfer(nusb::transfer::TransferError),
}

impl DfuNusbError {
    /// Whether this is the one recoverable failure: the device is not attached yet.
    pub fn is_device_not_found(&self) -> (r: bool)
        ensures
            r == (*self is DeviceNotFound),
    {
        match self {
            DfuNusbError::DeviceNotFound => true,
            _ => false,
        }
    }

    /// Whether the transport failed: a control transfer or the USB host stack.
    pub fn is_transport_error(&self) -> (r: bool)
        ensures
            r == (*self is Nusb || *self is Transfer),
    {
        match self {
            DfuNusbError::Nusb(_) | DfuNusbError::Transfer(_) => true,
            _ => false,
        }
    }
}

} // verus!
