//! Decoding of the `bmRequestType` byte of a USB control request.

use vstd::prelude::*;

verus! {

/// The class of a control request, bits 5 and 6 of `bmRequestType`.
#[derive(Clone, Copy, Debug, PartialEq, Eq, Structural)]
pub enum ControlType {
    Standard,
    Class,
    Vendor,
}

/// The entity a control request is addressed to, bits 0 to 4 of `bmRequestType`.
#[derive(Clone, Copy, Debug, PartialEq, Eq, Structural)]
pub enum Recipient {
    Device,
    Interface,
    Endpoint,
    Other,
}

/// The request class encoded by `request_type`; the reserved encoding reads as standard.
pub open spec fn spec_control_type(request_type: u8) -> ControlType {
    let bits = (request_type / 32) % 4;
    if bits == 1 {
        ControlType::Class
    } else if bits == 2 {
        ControlType::Vendor
    } else {
        ControlType::Standard
    }
}

/// The recipient encoded by `request_type`; reserved encodings read as the device.
pub open spec fn spec_recipient(request_type: u8) -> Recipient {
    let bits = request_type % 32;
    if bits == 1 {
        Recipient::Interface
    } else if bits == 2 {
        Recipient::Endpoint
    } else if bits == 3 {
        Recipient::Other
    } else {
        Recipient::Device
    }
}

/// Splits a `bmRequestType` byte into its request class and recipient.
/// The direction bit is ignored: the transfer primitive sets it.
pub fn split_request_type(request_type: u8) -> (r: (ControlType, Recipient))
    ensures
        r.0 == spec_control_type(request_type),
        r.1 == spec_recipient(request_type),
{
    let class_bits: u8 = request_type >> 5u8 & 0x03u8;
    let recipient_bits: u8 = request_type & 0x1fu8;
    assert(class_bits == (request_type / 32) % 4) by (bit_vector)
        requires
            class_bits == request_type >> 5u8 & 0x03u8,
    ;
    assert(recipient_bits == request_type % 32) by (bit_vector)
        requires
            recipient_bits == request_type & 0x1fu8,
    ;
    let control_type = match class_bits {
        1 => ControlType::Class,
        2 => ControlType::Vendor,
        _ => ControlType::Standard,
    };
    let recipient = match recipient_bits {
        1 => Recipient::Interface,
        2 => Recipient::Endpoint,
        3 => Recipient::Other,
        _ => Recipient::Device,
    };
    (control_type, recipient)
}

/// Every one of the 256 request-type bytes decodes, and only its own bits count:
/// bits 5 and 6 decide the class, bits 0 to 4 the recipient. The reserved class
/// encoding reads as standard, the reserved recipient encodings as the device.
pub proof fn lemma_request_type_decoding(a: u8, b: u8)
    ensures
        (a / 32) % 4 == (b / 32) % 4 ==> spec_control_type(a) == spec_control_type(b),
        a % 32 == b % 32 ==> spec_recipient(a) == spec_recipient(b),
        (a / 32) % 4 == 3 ==> spec_control_type(a) == ControlType::Standard,
        a % 32 >= 4 ==> spec_recipient(a) == Recipient::Device,
{
}

} // verus!
