//! The GATT identifiers of the controller.
//!
//! A service and a characteristic are told apart by their UUIDs. The
//! library holds a UUID as the 128-bit number whose bytes, most significant
//! first, are the bytes of the UUID.

use core::str::FromStr;
use vstd::prelude::*;

use crate::commands::{GATT_CHARACTERISTIC_UUID, GATT_SERVICE_UUID};

verus! {

/// What `bluer` reads a text as: the number of the UUID that the text
/// denotes, or nothing where `bluer` refuses the text.
pub uninterp spec fn uuid_parsed(text: Seq<char>) -> Option<u128>;

/// Calls `bluer::Uuid::from_str`, which is `uuid::Uuid::from_str`, and
/// turns the UUID it gives into a number with `as_u128`.
///
/// Trusted, not proved: that the outcome depends on the characters of the
/// text alone, so that it is the value `uuid_parsed` names for them. Which
/// texts are accepted, and as which number, is not stated.
#[verifier::external_body]
fn parse_uuid(text: &str) -> (id: Option<u128>)
    ensures
        id == uuid_parsed(text@),
{
    match bluer::Uuid::from_str(text) {
        Ok(id) => Some(id.as_u128()),
        Err(_) => None,
    }
}

/// The UUIDs by which the service and the characteristic of a controller
/// are found on a device.
#[derive(PartialEq, Eq, Clone, Copy, Debug, Structural)]
pub struct GattIds {
    /// The UUID of the service.
    pub service: u128,
    /// The UUID of the characteristic within the service.
    pub characteristic: u128,
}

impl GattIds {
    /// The identifiers made of two UUIDs that were read from text, if both
    /// were read.
    pub open spec fn of_parsed(service: Option<u128>, characteristic: Option<u128>) -> Option<
        GattIds,
    > {
        match (service, characteristic) {
            (Some(service), Some(characteristic)) => Some(GattIds { service, characteristic }),
            _ => None,
        }
    }

    /// The identifiers made of two UUIDs that were read from text, if both
    /// were read.
    pub fn from_parsed(service: Option<u128>, characteristic: Option<u128>) -> (ids: Option<
        GattIds,
    >)
        ensures
            ids == GattIds::of_parsed(service, characteristic),
    {
        match (service, characteristic) {
            (Some(service), Some(characteristic)) => Some(GattIds { service, characteristic }),
            _ => None,
        }
    }

    /// Reads the two UUIDs from text, in any form `bluer` reads.
    /// Gives nothing if either text is refused.
    pub fn parse(service: &str, characteristic: &str) -> (ids: Option<GattIds>)
        ensures
            ids == GattIds::of_parsed(uuid_parsed(service@), uuid_parsed(characteristic@)),
    {
        GattIds::from_parsed(parse_uuid(service), parse_uuid(characteristic))
    }

    /// The identifiers of the SP105E, read from `GATT_SERVICE_UUID` and
    /// `GATT_CHARACTERISTIC_UUID`.
    pub fn sp105e() -> (ids: Option<GattIds>)
        ensures
            ids == GattIds::of_parsed(
                uuid_parsed(GATT_SERVICE_UUID@),
                uuid_parsed(GATT_CHARACTERISTIC_UUID@),
            ),
    {
        GattIds::parse(GATT_SERVICE_UUID, GATT_CHARACTERISTIC_UUID)
    }
}

} // verus!
