//! Service discovery over a native, callback-driven DNS-SD daemon: the
//! resolution pipeline of a browser and the context it shares with the
//! daemon's callbacks.
//!
//! The daemon does the protocol work and reports through callbacks. This
//! library holds what happens between those reports: which request follows
//! which event, what is kept from one event to the next, and what the
//! caller's discovery callback is handed. [`pipeline`] states this as a
//! state machine over plain values; [`browser`] implements it.

pub mod address;
pub mod bonjour_util;
pub mod browser;
pub mod decimal;
pub mod error;
pub mod pipeline;
pub mod service_discovery;
pub mod service_ref;
pub mod txt_record;

pub use bonjour_util::NetworkInterface;
pub use browser::{
    browse_callback, get_address_info_callback, handle_browse, handle_get_address_info,
    handle_resolve, resolve_callback, BonjourBrowserContext, BonjourMdnsBrowser, Step,
};
pub use error::{Error, Field, SetupError, Stage};
pub use service_discovery::{ServiceDiscovery, ServiceDiscoveryBuilder};
pub use service_ref::{BrowseServicesParams, GetAddressInfoParams, ServiceResolveParams};
pub use txt_record::TxtRecord;
