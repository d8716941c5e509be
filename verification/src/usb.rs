//! The one computation the USB transport library does for this crate:
//! packing a control transfer's setup byte.

use vstd::prelude::*;

verus! {

/// Relies on rusb::request_type: it ORs the direction, request-type and
/// recipient bit patterns of a bmRequestType setup byte.  For a class
/// request addressed to an interface that is 0x21 host-to-device and,
/// with the direction bit 0x80 set, 0xa1 device-to-host.
#[verifier::external_body]
pub(crate) fn class_interface_request_type(dir_in: bool) -> (r: u8)
    ensures
        r == if dir_in {
            0xa1u8
        } else {
            0x21u8
        },
{
    let dir = if dir_in { rusb::Direction::In } else { rusb::Direction::Out };
    rusb::request_type(dir, rusb::RequestType::Class, rusb::Recipient::Interface)
}

} // verus!
