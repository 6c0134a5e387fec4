//! The Bluetooth address of a device.

use core::str::FromStr;
use vstd::prelude::*;

verus! {

/// What `bluer` reads a text as: the six bytes of the Bluetooth address
/// that the text denotes, or nothing where `bluer` refuses the text.
pub uninterp spec fn address_parsed(text: Seq<char>) -> Option<[u8; 6]>;

/// Calls `bluer::Address::from_str` and takes the six bytes out of the
/// address it gives.
///
/// Trusted, not proved: that the outcome depends on the characters of the
/// text alone, so that it is the value `address_parsed` names for them.
/// Which texts are accepted, and as which bytes, is not stated.
#[verifier::external_body]
fn parse_address(text: &str) -> (address: Option<[u8; 6]>)
    ensures
        address == address_parsed(text@),
{
    match bluer::Address::from_str(text) {
        Ok(address) => Some(address.0),
        Err(_) => None,
    }
}

/// The Bluetooth address of a device: six bytes, written in text as six
/// hexadecimal numbers with colons between them, the first byte first.
#[derive(PartialEq, Eq, Clone, Copy, Debug)]
pub struct MacAddress(pub [u8; 6]);

impl MacAddress {
    /// The address made of bytes that were read from text, if they were
    /// read.
    pub open spec fn of_parsed(bytes: Option<[u8; 6]>) -> Option<MacAddress> {
        match bytes {
            Some(bytes) => Some(MacAddress(bytes)),
            None => None,
        }
    }

    /// Reads an address from text, in the form `bluer` reads. Gives
    /// nothing if the text is refused.
    pub fn parse(text: &str) -> (address: Option<MacAddress>)
        ensures
            address == MacAddress::of_parsed(address_parsed(text@)),
    {
        match parse_address(text) {
            Some(bytes) => Some(MacAddress(bytes)),
            None => None,
        }
    }

    /// The six bytes of the address, the first byte first.
    pub fn bytes(&self) -> (bytes: [u8; 6])
        ensures
            bytes == self.0,
    {
        self.0
    }
}

} // verus!
