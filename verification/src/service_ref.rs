//! The requests that the pipeline registers with the daemon.
//!
//! A request is a registration: it names what the daemon is to look for,
//! and the daemon answers later, through the callback of that stage.

use vstd::prelude::*;

verus! {

/// The flag that makes the daemon use multicast DNS even for a name that
/// looks like a unicast one.
pub const FLAGS_FORCE_MULTICAST: u32 = 0x400;

/// Asks the daemon to report the services of one type.
#[derive(Clone, Debug, PartialEq, Eq)]
pub struct BrowseServicesParams {
    pub flags: u32,
    pub interface_index: u32,
    pub regtype: String,
    pub domain: Option<String>,
}

pub struct BrowseServicesParamsView {
    pub flags: u32,
    pub interface_index: u32,
    pub regtype: Seq<char>,
    pub domain: Option<Seq<char>>,
}

impl View for BrowseServicesParams {
    type V = BrowseServicesParamsView;

    open spec fn view(&self) -> BrowseServicesParamsView {
        BrowseServicesParamsView {
            flags: self.flags,
            interface_index: self.interface_index,
            regtype: self.regtype@,
            domain: match self.domain {
                Some(d) => Some(d@),
                None => None,
            },
        }
    }
}

/// Asks the daemon for the host and port of a service that was seen.
#[derive(Clone, Debug, PartialEq, Eq)]
pub struct ServiceResolveParams {
    pub flags: u32,
    pub interface_index: u32,
    pub name: String,
    pub regtype: String,
    pub domain: String,
}

pub struct ServiceResolveParamsView {
    pub flags: u32,
    pub interface_index: u32,
    pub name: Seq<char>,
    pub regtype: Seq<char>,
    pub domain: Seq<char>,
}

impl View for ServiceResolveParams {
    type V = ServiceResolveParamsView;

    open spec fn view(&self) -> ServiceResolveParamsView {
        ServiceResolveParamsView {
            flags: self.flags,
            interface_index: self.interface_index,
            name: self.name@,
            regtype: self.regtype@,
            domain: self.domain@,
        }
    }
}

/// Asks the daemon for the address of a host.
#[derive(Clone, Debug, PartialEq, Eq)]
pub struct GetAddressInfoParams {
    pub flags: u32,
    pub interface_index: u32,
    pub protocol: u32,
    pub hostname: String,
}

pub struct GetAddressInfoParamsView {
    pub flags: u32,
    pub interface_index: u32,
    pub protocol: u32,
    pub hostname: Seq<char>,
}

impl View for GetAddressInfoParams {
    type V = GetAddressInfoParamsView;

    open spec fn view(&self) -> GetAddressInfoParamsView {
        GetAddressInfoParamsView {
            flags: self.flags,
            interface_index: self.interface_index,
            protocol: self.protocol,
            hostname: self.hostname@,
        }
    }
}

} // verus!
