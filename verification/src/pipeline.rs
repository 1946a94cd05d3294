//! The resolution pipeline as a state machine over plain values.
//!
//! The daemon drives the pipeline: it reports a service (browse), then the
//! host and port of that service (resolve), then the address of that host
//! (address). Each report is an event. An event takes the state to the next
//! one and leads to one step: a request to register, a record handed to the
//! discovery callback, an error handed to it, or nothing. A failure ends one
//! discovery only: the browse registration stays, and later events are
//! handled as before.

use crate::address::dotted_quad;
use crate::bonjour_util::normalized_domain;
use crate::error::{registration_outcome, Error, Stage};
use crate::service_discovery::ServiceDiscoveryView;
use crate::service_ref::{
    GetAddressInfoParamsView, ServiceResolveParamsView, FLAGS_FORCE_MULTICAST,
};
use crate::txt_record::txt_of_payload;
use vstd::prelude::*;

verus! {

/// What the discovery callback is handed: a record or an error.
pub type Delivery = Result<ServiceDiscoveryView, Error>;

/// A service that was browsed and is not delivered yet.
pub struct PendingView {
    pub name: Seq<char>,
    pub kind: Seq<char>,
    pub domain: Seq<char>,
}

/// What the pipeline has learned and done so far.
pub struct PipelineState {
    /// The service in flight, from its browse event to its delivery.
    pub pending: Option<PendingView>,
    /// The port of the last resolve event.
    pub port: u16,
    /// The TXT data of the last resolve event.
    pub txt: Option<Seq<u8>>,
    /// Whether a discovery callback is set.
    pub subscribed: bool,
    /// Everything that the discovery callback has been handed, first to last.
    pub deliveries: Seq<Delivery>,
}

/// What an event led to.
pub enum StepView {
    /// A service was seen. The resolve request for it is to be registered.
    Resolve(ServiceResolveParamsView),
    /// A service was resolved. The address request for its host is to be
    /// registered.
    GetAddressInfo(GetAddressInfoParamsView),
    /// A discovery was completed, and the record went to the callback, if
    /// one is set.
    Delivered,
    /// The event failed, and the error went to the callback, if one is set.
    Failed(Error),
    /// The event was a repeat. Nothing was done.
    Ignored,
}

impl PipelineState {
    /// The state before any event, with no callback set.
    pub open spec fn initial() -> PipelineState {
        PipelineState {
            pending: None,
            port: 0,
            txt: None,
            subscribed: false,
            deliveries: Seq::empty(),
        }
    }

    /// Whether a browsed service waits for its delivery.
    pub open spec fn has_pending_discovery(self) -> bool {
        self.pending is Some
    }

    /// The state after `delivery` was handed over: the callback, if one is
    /// set, has been handed it; without a callback it is dropped.
    pub open spec fn deliver(self, delivery: Delivery) -> PipelineState {
        if self.subscribed {
            PipelineState { deliveries: self.deliveries.push(delivery), ..self }
        } else {
            self
        }
    }

    /// The browse event, up to the delivery of a failure. A nonzero `error`
    /// fails it and leaves the state as it is. Otherwise the service becomes
    /// the pending one, and a resolve request for it is to be registered on
    /// the interface on which it was seen, over multicast.
    pub open spec fn handle_browse(
        self,
        error: i32,
        name: Seq<char>,
        regtype: Seq<char>,
        domain: Seq<char>,
        interface_index: u32,
    ) -> (PipelineState, Result<ServiceResolveParamsView, Error>) {
        if error != 0 {
            (self, Err(Error::Native { stage: Stage::Browse, code: error }))
        } else {
            (
                PipelineState {
                    pending: Some(PendingView { name, kind: regtype, domain }),
                    ..self
                },
                Ok(
                    ServiceResolveParamsView {
                        flags: FLAGS_FORCE_MULTICAST,
                        interface_index,
                        name,
                        regtype,
                        domain,
                    },
                ),
            )
        }
    }

    /// The resolve event, up to the delivery of a failure. A nonzero `error`
    /// fails it and leaves the state as it is. Otherwise the port and the
    /// TXT data are kept, and an address request for the host is to be
    /// registered.
    pub open spec fn handle_resolve(
        self,
        error: i32,
        port: u16,
        interface_index: u32,
        host_target: Seq<char>,
        txt_record: Seq<u8>,
    ) -> (PipelineState, Result<GetAddressInfoParamsView, Error>) {
        if error != 0 {
            (self, Err(Error::Native { stage: Stage::Resolve, code: error }))
        } else {
            (
                PipelineState { port, txt: txt_of_payload(txt_record), ..self },
                Ok(
                    GetAddressInfoParamsView {
                        flags: FLAGS_FORCE_MULTICAST,
                        interface_index,
                        protocol: 0,
                        hostname: host_target,
                    },
                ),
            )
        }
    }

    /// The record that an address event completes the pending service to.
    pub open spec fn discovery(
        self,
        address: Seq<u8>,
        hostname: Seq<char>,
    ) -> ServiceDiscoveryView
        recommends
            self.has_pending_discovery(),
    {
        ServiceDiscoveryView {
            name: self.pending->0.name,
            kind: self.pending->0.kind,
            domain: normalized_domain(self.pending->0.domain),
            host_name: hostname,
            address: dotted_quad(address),
            port: self.port,
            txt: self.txt,
        }
    }

    /// The address event, up to the delivery of a failure. Without a pending
    /// service it is a repeat of an event that was handled before, and does
    /// nothing, whatever `error` is: the result is `Ok(false)`. Otherwise a
    /// nonzero `error` fails it and leaves the state as it is. Without an
    /// error the pending service is completed to a record, the state gives
    /// up the service and its TXT data, and the record is delivered: the
    /// result is `Ok(true)`.
    pub open spec fn handle_get_address_info(
        self,
        error: i32,
        address: Seq<u8>,
        hostname: Seq<char>,
    ) -> (PipelineState, Result<bool, Error>) {
        if !self.has_pending_discovery() {
            (self, Ok(false))
        } else if error != 0 {
            (self, Err(Error::Native { stage: Stage::GetAddressInfo, code: error }))
        } else {
            (
                PipelineState { pending: None, txt: None, ..self }.deliver(
                    Ok(self.discovery(address, hostname)),
                ),
                Ok(true),
            )
        }
    }

    /// The browse event in full: it is handled, and a failure is delivered.
    pub open spec fn browse_callback(
        self,
        interface_index: u32,
        error: i32,
        name: Seq<char>,
        regtype: Seq<char>,
        domain: Seq<char>,
    ) -> (PipelineState, StepView) {
        let (next, outcome) = self.handle_browse(error, name, regtype, domain, interface_index);
        match outcome {
            Ok(request) => (next, StepView::Resolve(request)),
            Err(e) => (next.deliver(Err(e)), StepView::Failed(e)),
        }
    }

    /// The resolve event in full: it is handled, and a failure is delivered.
    pub open spec fn resolve_callback(
        self,
        interface_index: u32,
        error: i32,
        host_target: Seq<char>,
        port: u16,
        txt_record: Seq<u8>,
    ) -> (PipelineState, StepView) {
        let (next, outcome) = self.handle_resolve(
            error,
            port,
            interface_index,
            host_target,
            txt_record,
        );
        match outcome {
            Ok(request) => (next, StepView::GetAddressInfo(request)),
            Err(e) => (next.deliver(Err(e)), StepView::Failed(e)),
        }
    }

    /// The address event in full: it is handled, which delivers the record
    /// of a completed discovery, and a failure is delivered. A repeat
    /// delivers nothing.
    pub open spec fn get_address_info_callback(
        self,
        error: i32,
        hostname: Seq<char>,
        address: Seq<u8>,
    ) -> (PipelineState, StepView) {
        let (next, outcome) = self.handle_get_address_info(error, address, hostname);
        match outcome {
            Ok(true) => (next, StepView::Delivered),
            Ok(false) => (next, StepView::Ignored),
            Err(e) => (next.deliver(Err(e)), StepView::Failed(e)),
        }
    }

    /// The daemon's answer to the registration of a request of `stage`: a
    /// refusal is delivered as a setup error.
    pub open spec fn report_registration(self, stage: Stage, code: i32) -> (
        PipelineState,
        Result<(), Error>,
    ) {
        match registration_outcome(stage, code) {
            Ok(_) => (self, Ok(())),
            Err(e) => (self.deliver(Err(e)), Err(e)),
        }
    }
}

/// A browse event that reports an error yields exactly one delivery, the
/// error with the code that was reported, and no request. Nothing else
/// changes.
pub proof fn lemma_browse_error_is_delivered_once(
    s: PipelineState,
    interface_index: u32,
    error: i32,
    name: Seq<char>,
    regtype: Seq<char>,
    domain: Seq<char>,
)
    requires
        error != 0,
    ensures
        ({
            let failure = Error::Native { stage: Stage::Browse, code: error };
            let (next, step) = s.browse_callback(interface_index, error, name, regtype, domain);
            &&& step == StepView::Failed(failure)
            &&& next == s.deliver(Err(failure))
            &&& s.subscribed ==> next.deliveries == s.deliveries.push(Err(failure))
            &&& next.pending == s.pending
        }),
{
}

/// A run without errors, from any state: the browse event asks for a resolve
/// request, the resolve event for an address request, and the address event
/// delivers the service that was browsed, with the port and TXT data that
/// were resolved and the address that was found. That is the one delivery of
/// the run, and nothing is pending after it.
pub proof fn lemma_run_delivers_the_browsed_service_once(
    s: PipelineState,
    name: Seq<char>,
    regtype: Seq<char>,
    domain: Seq<char>,
    interface_index: u32,
    port: u16,
    host_target: Seq<char>,
    txt_record: Seq<u8>,
    address: Seq<u8>,
    hostname: Seq<char>,
)
    ensures
        ({
            let record = ServiceDiscoveryView {
                name,
                kind: regtype,
                domain: normalized_domain(domain),
                host_name: hostname,
                address: dotted_quad(address),
                port,
                txt: txt_of_payload(txt_record),
            };
            let (browsed, first) = s.browse_callback(interface_index, 0, name, regtype, domain);
            let (resolved, second) = browsed.resolve_callback(
                interface_index,
                0,
                host_target,
                port,
                txt_record,
            );
            let (done, third) = resolved.get_address_info_callback(0, hostname, address);
            &&& first is Resolve
            &&& second is GetAddressInfo
            &&& third == StepView::Delivered
            &&& resolved.deliveries == s.deliveries
            &&& done.deliveries == s.deliver(Ok(record)).deliveries
            &&& s.subscribed ==> done.deliveries == s.deliveries.push(Ok(record))
            &&& !done.has_pending_discovery()
        }),
{
}

/// Once an address event has completed a discovery, every further address
/// event is a repeat: it delivers nothing and leaves the state as it is,
/// whatever it carries.
pub proof fn lemma_repeated_address_event_is_ignored(
    s: PipelineState,
    error: i32,
    hostname: Seq<char>,
    address: Seq<u8>,
    repeated_error: i32,
    repeated_hostname: Seq<char>,
    repeated_address: Seq<u8>,
)
    requires
        s.get_address_info_callback(error, hostname, address).1 == StepView::Delivered,
    ensures
        ({
            let done = s.get_address_info_callback(error, hostname, address).0;
            done.get_address_info_callback(repeated_error, repeated_hostname, repeated_address)
                == (done, StepView::Ignored)
        }),
{
}

/// A TXT payload of at most one byte is no TXT data: the resolve event keeps
/// none, and the record that the address event then delivers for a pending
/// service has none.
pub proof fn lemma_short_txt_payload_is_no_txt(
    s: PipelineState,
    interface_index: u32,
    host_target: Seq<char>,
    port: u16,
    txt_record: Seq<u8>,
    hostname: Seq<char>,
    address: Seq<u8>,
)
    requires
        txt_record.len() <= 1,
    ensures
        ({
            let resolved = s.resolve_callback(interface_index, 0, host_target, port, txt_record).0;
            let record = resolved.discovery(address, hostname);
            let (done, outcome) = resolved.handle_get_address_info(0, address, hostname);
            &&& resolved.txt is None
            &&& record.txt is None
            &&& s.has_pending_discovery() ==> outcome == Ok::<bool, Error>(true)
                && done.deliveries == s.deliver(Ok(record)).deliveries
            &&& !s.has_pending_discovery() ==> outcome == Ok::<bool, Error>(false)
                && done.deliveries == s.deliveries
        }),
{
}

/// A failure ends one discovery only. After a service was browsed and its
/// resolve event reported an error, a run without errors for another service
/// delivers that other service, and nothing in the record comes from the
/// first one. The failure and the record are the two deliveries, in this
/// order.
pub proof fn lemma_failure_leaves_later_discoveries_alone(
    s: PipelineState,
    failed_name: Seq<char>,
    failed_regtype: Seq<char>,
    failed_domain: Seq<char>,
    failed_interface_index: u32,
    failed_error: i32,
    failed_port: u16,
    failed_host_target: Seq<char>,
    failed_txt_record: Seq<u8>,
    name: Seq<char>,
    regtype: Seq<char>,
    domain: Seq<char>,
    interface_index: u32,
    port: u16,
    host_target: Seq<char>,
    txt_record: Seq<u8>,
    address: Seq<u8>,
    hostname: Seq<char>,
)
    requires
        failed_error != 0,
    ensures
        ({
            let failure = Error::Native { stage: Stage::Resolve, code: failed_error };
            let record = ServiceDiscoveryView {
                name,
                kind: regtype,
                domain: normalized_domain(domain),
                host_name: hostname,
                address: dotted_quad(address),
                port,
                txt: txt_of_payload(txt_record),
            };
            let browsed = s.browse_callback(
                failed_interface_index,
                0,
                failed_name,
                failed_regtype,
                failed_domain,
            ).0;
            let (failed, second) = browsed.resolve_callback(
                failed_interface_index,
                failed_error,
                failed_host_target,
                failed_port,
                failed_txt_record,
            );
            let browsed_again = failed.browse_callback(interface_index, 0, name, regtype, domain).0;
            let resolved = browsed_again.resolve_callback(
                interface_index,
                0,
                host_target,
                port,
                txt_record,
            ).0;
            let (done, last) = resolved.get_address_info_callback(0, hostname, address);
            &&& second == StepView::Failed(failure)
            &&& last == StepView::Delivered
            &&& done.deliveries == s.deliver(Err(failure)).deliver(Ok(record)).deliveries
            &&& s.subscribed ==> done.deliveries == s.deliveries.push(Err(failure)).push(
                Ok(record),
            )
        }),
{
}

/// Without a callback every result is dropped: no event, and no answer to
/// a registration, adds a delivery.
pub proof fn lemma_nothing_is_delivered_without_callback(
    s: PipelineState,
    delivery: Delivery,
    interface_index: u32,
    error: i32,
    name: Seq<char>,
    regtype: Seq<char>,
    domain: Seq<char>,
    host_target: Seq<char>,
    port: u16,
    txt_record: Seq<u8>,
    hostname: Seq<char>,
    address: Seq<u8>,
    stage: Stage,
    code: i32,
)
    requires
        !s.subscribed,
    ensures
        s.deliver(delivery) == s,
        s.browse_callback(interface_index, error, name, regtype, domain).0.deliveries
            == s.deliveries,
        s.resolve_callback(interface_index, error, host_target, port, txt_record).0.deliveries
            == s.deliveries,
        s.handle_get_address_info(error, address, hostname).0.deliveries == s.deliveries,
        s.get_address_info_callback(error, hostname, address).0.deliveries == s.deliveries,
        s.report_registration(stage, code).0 == s,
{
}

/// An event hands the callback at most one result: a request or a repeat
/// comes with none, a completed discovery or a failure with exactly one.
pub proof fn lemma_each_event_delivers_at_most_once(
    s: PipelineState,
    interface_index: u32,
    error: i32,
    name: Seq<char>,
    regtype: Seq<char>,
    domain: Seq<char>,
    host_target: Seq<char>,
    port: u16,
    txt_record: Seq<u8>,
    hostname: Seq<char>,
    address: Seq<u8>,
)
    ensures
        ({
            let (next, step) = s.browse_callback(interface_index, error, name, regtype, domain);
            next.deliveries.len() == s.deliveries.len() + (if s.subscribed && step is Failed {
                1nat
            } else {
                0nat
            })
        }),
        ({
            let (next, step) = s.resolve_callback(
                interface_index,
                error,
                host_target,
                port,
                txt_record,
            );
            next.deliveries.len() == s.deliveries.len() + (if s.subscribed && step is Failed {
                1nat
            } else {
                0nat
            })
        }),
        ({
            let (next, step) = s.get_address_info_callback(error, hostname, address);
            next.deliveries.len() == s.deliveries.len() + (if s.subscribed && (step is Failed
                || step is Delivered) {
                1nat
            } else {
                0nat
            })
        }),
{
}

/// The pending service is given up by its delivery and by nothing else: a
/// browse event, a resolve event and a failed address event leave a
/// service pending.
pub proof fn lemma_only_a_delivery_ends_the_pending_service(
    s: PipelineState,
    interface_index: u32,
    error: i32,
    name: Seq<char>,
    regtype: Seq<char>,
    domain: Seq<char>,
    host_target: Seq<char>,
    port: u16,
    txt_record: Seq<u8>,
    hostname: Seq<char>,
    address: Seq<u8>,
)
    requires
        s.has_pending_discovery(),
    ensures
        s.browse_callback(interface_index, error, name, regtype, domain).0.has_pending_discovery(),
        s.resolve_callback(
            interface_index,
            error,
            host_target,
            port,
            txt_record,
        ).0.has_pending_discovery(),
        ({
            let (next, step) = s.get_address_info_callback(error, hostname, address);
            !next.has_pending_discovery() <==> step == StepView::Delivered
        }),
{
}

} // verus!
