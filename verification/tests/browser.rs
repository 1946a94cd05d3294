use std::sync::Arc;
use zeroconf::bonjour_util::{interface_index, BONJOUR_IF_UNSPEC};
use zeroconf::error::registration_result;
use zeroconf::{
    BonjourMdnsBrowser, BrowseServicesParams, Error, NetworkInterface, ServiceDiscovery,
    SetupError, Stage,
};

type Callback = fn(Result<ServiceDiscovery, Error>, Option<Arc<()>>);

fn browser(kind: &str) -> BonjourMdnsBrowser<(), Callback> {
    BonjourMdnsBrowser::new(kind)
}

fn request(interface_index: u32, regtype: &str) -> BrowseServicesParams {
    BrowseServicesParams { flags: 0, interface_index, regtype: regtype.to_string(), domain: None }
}

#[test]
fn new_browser_browses_on_any_interface() {
    let mut b = browser("_http._tcp");
    assert_eq!(b.browse_services(), Ok(request(0, "_http._tcp")));
    assert!(!b.context_mut().has_pending_discovery());
}

#[test]
fn browse_services_can_be_asked_again() {
    let mut b = browser("_http._tcp");
    assert_eq!(b.browse_services(), Ok(request(0, "_http._tcp")));
    assert_eq!(b.browse_services(), Ok(request(0, "_http._tcp")));
}

#[test]
fn network_interface_sets_the_index() {
    let mut b = browser("_ipp._tcp");
    b.set_network_interface(NetworkInterface::AtIndex(7));
    assert_eq!(b.browse_services(), Ok(request(7, "_ipp._tcp")));
    b.set_network_interface(NetworkInterface::Unspec);
    assert_eq!(b.browse_services(), Ok(request(0, "_ipp._tcp")));
    b.set_network_interface(NetworkInterface::AtIndex(u32::MAX));
    assert_eq!(b.browse_services(), Ok(request(u32::MAX, "_ipp._tcp")));
}

#[test]
fn interface_index_of_each_interface() {
    assert_eq!(BONJOUR_IF_UNSPEC, 0);
    assert_eq!(interface_index(NetworkInterface::Unspec), 0);
    assert_eq!(interface_index(NetworkInterface::AtIndex(0)), 0);
    assert_eq!(interface_index(NetworkInterface::AtIndex(12)), 12);
}

#[test]
fn service_type_with_nul_is_a_setup_error() {
    for kind in ["\0", "_http\0._tcp", "_http._tcp\0", "\0_http._tcp", "é\0"] {
        let mut b = browser(kind);
        let r = b.browse_services();
        assert_eq!(r, Err(Error::Setup(SetupError::InteriorNul)));
        assert!(r.unwrap_err().is_setup());
    }
}

#[test]
fn any_service_type_gives_a_request_or_a_setup_error() {
    for kind in ["", "_http._tcp", "no underscore", "_ünïcödé._tcp", "a\0b", "0"] {
        let mut b = browser(kind);
        match b.browse_services() {
            Ok(params) => {
                assert!(!kind.contains('\0'));
                assert_eq!(params, request(0, kind));
            }
            Err(e) => {
                assert!(kind.contains('\0'));
                assert!(e.is_setup());
            }
        }
    }
}

#[test]
fn registration_code_zero_is_acceptance() {
    assert_eq!(registration_result(Stage::Browse, 0), Ok(()));
    assert_eq!(registration_result(Stage::Resolve, 0), Ok(()));
    assert_eq!(registration_result(Stage::GetAddressInfo, 0), Ok(()));
}

#[test]
fn registration_code_other_than_zero_is_a_setup_error() {
    for code in [1, -1, -65537, i32::MAX, i32::MIN] {
        let r = registration_result(Stage::Browse, code);
        assert_eq!(r, Err(Error::Setup(SetupError::Refused { stage: Stage::Browse, code })));
        assert!(r.unwrap_err().is_setup());
    }
}

#[test]
fn native_and_build_errors_are_no_setup_errors() {
    assert!(!Error::Native { stage: Stage::Resolve, code: 1 }.is_setup());
    assert!(!Error::Build(zeroconf::Field::Name).is_setup());
}

#[test]
fn stage_names() {
    assert_eq!(Stage::Browse.name(), "browse");
    assert_eq!(Stage::Resolve.name(), "resolve");
    assert_eq!(Stage::GetAddressInfo.name(), "getAddressInfo");
}
