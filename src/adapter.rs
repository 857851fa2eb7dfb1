//! The transport adapter: the operations a DFU protocol engine asks of a
//! device, carried out as control transfers on a claimed USB interface.

use vstd::prelude::*;
use crate::classify::{ControlType, Recipient, split_request_type, spec_control_type, spec_recipient};
use crate::error::DfuNusbError;
use crate::usb::{control_in_blocking, control_out_blocking};
use dfu_core::functional_descriptor::FunctionalDescriptor;
use dfu_core::memory_layout::MemoryLayout;
use dfu_core::DfuProtocol;

verus! {

/// The SETUP packet of a control transfer, without its direction.
#[derive(Clone, Copy, Debug, PartialEq, Eq, Structural)]
pub struct ControlRequest {
    pub control_type: ControlType,
    pub recipient: Recipient,
    pub request: u8,
    pub value: u16,
    pub index: u16,
    pub length: u16,
}

/// An open DFU interface: the device, the claimed interface, its functional
/// descriptor and the protocol dialect it speaks. Dropping it releases both handles.
pub struct DfuNusb {
    device: nusb::Device,
    interface: nusb::Interface,
    interface_number: u8,
    descriptor: FunctionalDescriptor,
    protocol: DfuProtocol<MemoryLayout>,
}

/// The request sent for `request_type`, `request` and `value` on interface `number`.
pub open spec fn spec_request(number: u8, request_type: u8, request: u8, value: u16, length: u16) -> ControlRequest {
    ControlRequest {
        control_type: spec_control_type(request_type),
        recipient: spec_recipient(request_type),
        request,
        value,
        index: number as u16,
        length,
    }
}

/// The bytes held in `buffer` after at most its length of `response` was copied in.
pub open spec fn spec_filled(buffer: Seq<u8>, response: Seq<u8>) -> Seq<u8> {
    let n = if response.len() < buffer.len() { response.len() } else { buffer.len() };
    response.subrange(0, n as int) + buffer.subrange(n as int, buffer.len() as int)
}

/// Copies the front of a transfer's `response` into `buffer`, as much as fits, and
/// returns how many bytes were copied; what does not fit is dropped.
pub fn copy_response(buffer: &mut [u8], response: &[u8]) -> (r: usize)
    ensures
        r as int == if response@.len() < old(buffer)@.len() { response@.len() } else { old(buffer)@.len() },
        final(buffer)@ == spec_filled(old(buffer)@, response@),
{
    let n: usize = if response.len() < buffer.len() { response.len() } else { buffer.len() };
    let mut i: usize = 0;
    while i < n
        invariant
            n <= buffer@.len(),
            n <= response@.len(),
            n == if response@.len() < old(buffer)@.len() { response@.len() } else { old(buffer)@.len() },
            i <= n,
            buffer@.len() == old(buffer)@.len(),
            forall|k: int| 0 <= k < i ==> buffer@[k] == response@[k],
            forall|k: int| i <= k < buffer@.len() ==> buffer@[k] == old(buffer)@[k],
        decreases n - i,
    {
        buffer[i] = response[i];
        i = i + 1;
    }
    assert(buffer@ =~= spec_filled(old(buffer)@, response@));
    n
}

/// The `wLength` of a transfer of `len` bytes: a SETUP packet states at most `u16::MAX`.
pub fn wire_length(len: usize) -> (r: u16)
    ensures
        r as int == if len <= u16::MAX { len as int } else { u16::MAX as int },
{
    if len <= 0xffff { len as u16 } else { 0xffff }
}

impl DfuNusb {
    /// Holds the parts of an opened interface together once its protocol dialect
    /// is known; a failure to derive the dialect is handed back.
    pub fn from_parts(
        device: nusb::Device,
        interface: nusb::Interface,
        interface_number: u8,
        descriptor: FunctionalDescriptor,
        protocol: Result<DfuProtocol<MemoryLayout>, DfuNusbError>,
    ) -> (r: Result<Self, DfuNusbError>)
        ensures
            r is Ok <==> protocol is Ok,
            r matches Ok(a) ==> a.interface_number() == interface_number && a.spec_descriptor() == descriptor
                && a.spec_protocol() == protocol->Ok_0,
            r matches Err(e) ==> protocol == Err::<DfuProtocol<MemoryLayout>, DfuNusbError>(e),
    {
        match protocol {
            Ok(protocol) => Ok(DfuNusb { device, interface, interface_number, descriptor, protocol }),
            Err(e) => Err(e),
        }
    }

    /// The number of the claimed interface, sent as the index of every request.
    pub closed spec fn interface_number(&self) -> u8 {
        self.interface_number
    }

    /// The protocol dialect fixed when the interface was opened.
    pub closed spec fn spec_protocol(&self) -> DfuProtocol<MemoryLayout> {
        self.protocol
    }

    /// The DFU functional descriptor fixed when the interface was opened.
    pub closed spec fn spec_descriptor(&self) -> FunctionalDescriptor {
        self.descriptor
    }

    /// The number of the claimed interface.
    pub fn number(&self) -> (r: u8)
        ensures
            r == self.interface_number(),
    {
        self.interface_number
    }

    /// The request for a transfer of `length` bytes, addressed to this interface.
    pub fn control_request(&self, request_type: u8, request: u8, value: u16, length: u16) -> (r: ControlRequest)
        ensures
            r == spec_request(self.interface_number(), request_type, request, value, length),
    {
        let (control_type, recipient) = split_request_type(request_type);
        ControlRequest {
            control_type,
            recipient,
            request,
            value,
            index: self.interface_number as u16,
            length,
        }
    }

    /// Device-to-host control transfer into `buffer`, blocking for at most three
    /// seconds; returns the number of bytes the transport read. A control
    /// transfer carries at most `u16::MAX` bytes.
    pub fn read_control(&self, request_type: u8, request: u8, value: u16, buffer: &mut [u8]) -> (r: Result<usize, DfuNusbError>)
        requires
            old(buffer)@.len() <= u16::MAX,
        ensures
            final(buffer)@.len() == old(buffer)@.len(),
            r matches Err(e) ==> e is Transfer,
    {
        let req = self.control_request(request_type, request, value, wire_length(buffer.len()));
        match control_in_blocking(&self.interface, &req, buffer) {
            Ok(n) => Ok(n),
            Err(e) => Err(DfuNusbError::Transfer(e)),
        }
    }

    /// Host-to-device control transfer of `buffer`, blocking for at most three
    /// seconds; returns the number of bytes the transport wrote. A control
    /// transfer carries at most `u16::MAX` bytes.
    pub fn write_control(&self, request_type: u8, request: u8, value: u16, buffer: &[u8]) -> (r: Result<usize, DfuNusbError>)
        requires
            buffer@.len() <= u16::MAX,
        ensures
            r matches Err(e) ==> e is Transfer,
    {
        let req = self.control_request(request_type, request, value, wire_length(buffer.len()));
        match control_out_blocking(&self.interface, &req, buffer) {
            Ok(n) => Ok(n),
            Err(e) => Err(DfuNusbError::Transfer(e)),
        }
    }

    /// Bus reset of the device.
    pub fn usb_reset(&self) -> (r: Result<(), DfuNusbError>)
        ensures
            r matches Err(e) ==> e is Nusb,
    {
        match self.device.reset() {
            Ok(()) => Ok(()),
            Err(e) => Err(DfuNusbError::Nusb(e)),
        }
    }

    /// The protocol dialect the device speaks, with its memory layout.
    pub fn protocol(&self) -> (r: &DfuProtocol<MemoryLayout>)
        ensures
            *r == self.spec_protocol(),
    {
        &self.protocol
    }

    /// The DFU functional descriptor read when the device was opened.
    pub fn functional_descriptor(&self) -> (r: &FunctionalDescriptor)
        ensures
            *r == self.spec_descriptor(),
    {
        &self.descriptor
    }

    /// The open device.
    pub fn device(&self) -> &nusb::Device {
        &self.device
    }

    /// The claimed interface, for transfers that the caller awaits itself.
    pub fn interface(&self) -> &nusb::Interface {
        &self.interface
    }
}

} // verus!
