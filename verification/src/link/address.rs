use vstd::prelude::*;

verus! {

/// How a broadcast asks to be confirmed, as its link address tells.
#[derive(Copy, Clone, Debug, PartialEq, Eq, Structural)]
pub enum BroadcastConfirmMode {
    /// confirmation is optional (addresses 0xFFFD and 0xFFFE)
    Optional,
    /// the next solicited response must ask for a confirmation (address 0xFFFF)
    Mandatory,
}

/// The address is reserved and cannot name an endpoint.
#[derive(Copy, Clone, Debug, PartialEq, Eq, Structural)]
pub struct SpecialAddressError {
    /// the address that was refused
    pub address: u16,
}

/// Link address of a master or an outstation: any but the reserved ones
/// above 65519.
#[derive(Copy, Clone, Debug, PartialEq, Eq, Structural)]
pub struct EndpointAddress {
    address: u16,
}

impl EndpointAddress {
    /// Largest address that can name an endpoint.
    pub const MAX: u16 = 65519;

    /// The address held.
    pub closed spec fn view(&self) -> u16 {
        self.address
    }

    /// Takes `address` as the address of an endpoint, unless it is reserved.
    pub fn from(address: u16) -> (r: Result<EndpointAddress, SpecialAddressError>)
        ensures
            address <= Self::MAX ==> r is Ok && r->Ok_0@ == address,
            address > Self::MAX ==> r == Err::<EndpointAddress, SpecialAddressError>(
                SpecialAddressError { address },
            ),
    {
        if address <= Self::MAX {
            Ok(EndpointAddress { address })
        } else {
            Err(SpecialAddressError { address })
        }
    }

    /// The address held.
    pub fn raw_value(&self) -> (a: u16)
        ensures
            a == self@,
    {
        self.address
    }
}

/// What a link address says about broadcast.
pub open spec fn spec_broadcast_mode(address: u16) -> Option<BroadcastConfirmMode> {
    if address == 0xFFFF {
        Some(BroadcastConfirmMode::Mandatory)
    } else if address == 0xFFFE || address == 0xFFFD {
        Some(BroadcastConfirmMode::Optional)
    } else {
        None
    }
}

/// What a link address says about broadcast: the three highest addresses
/// reach every outstation, and the highest asks for a confirmation.
pub fn broadcast_mode(address: u16) -> (r: Option<BroadcastConfirmMode>)
    ensures
        r == spec_broadcast_mode(address),
{
    if address == 0xFFFF {
        Some(BroadcastConfirmMode::Mandatory)
    } else if address == 0xFFFE || address == 0xFFFD {
        Some(BroadcastConfirmMode::Optional)
    } else {
        None
    }
}

} // verus!
