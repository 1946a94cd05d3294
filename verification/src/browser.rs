//! The browser and the context that it shares with the daemon's callbacks.
//!
//! The browser only decides. The caller of this module talks to the daemon:
//! it registers the requests that the functions here return, and it calls
//! the callback functions here with what the daemon reports.

use crate::address::get_ip;
use crate::decimal::{decimal, push_decimal};
use crate::bonjour_util::{
    contains_nul, interface_index, normalize_domain, spec_interface_index, NetworkInterface,
    BONJOUR_IF_UNSPEC,
};
use crate::error::{registration_result, Error, SetupError, Stage};
use crate::pipeline::{Delivery, PendingView, PipelineState, StepView};
use crate::service_discovery::{ServiceDiscovery, ServiceDiscoveryView};
use crate::service_ref::{
    BrowseServicesParams, BrowseServicesParamsView, GetAddressInfoParams, ServiceResolveParams,
    FLAGS_FORCE_MULTICAST,
};
use crate::txt_record::{txt_view, TxtRecord};
use std::sync::Arc;
use vstd::prelude::*;

verus! {

/// `Arc::clone`: the new handle points to the value that `handle` points to.
#[verifier::external_body]
fn share<C: ?Sized>(handle: &Arc<C>) -> (r: Arc<C>)
    ensures
        r == *handle,
{
    Arc::clone(handle)
}

/// The text that `Debug` writes for a string: the string between double
/// quotes, with the escapes of `char::escape_debug`.
pub uninterp spec fn str_debug(s: Seq<char>) -> Seq<char>;

/// `<str as Debug>::fmt`, through `format!`: the text depends on the
/// characters of the string alone.
#[verifier::external_body]
fn debug_str(s: &str) -> (r: String)
    ensures
        r@ == str_debug(s@),
{
    format!("{:?}", s)
}

/// The text that `Debug` writes for an optional string.
pub open spec fn option_debug(s: Option<Seq<char>>) -> Seq<char> {
    match s {
        Some(s) => "Some("@ + str_debug(s) + ")"@,
        None => "None"@,
    }
}

/// The debug text of a context: the name, the port, and the three strings
/// of the pending service. The callback, the TXT data and the user's
/// context are not in it.
pub open spec fn context_debug(s: PipelineState) -> Seq<char> {
    "BonjourResolverContext { resolved_name: "@ + option_debug(
        match s.pending {
            Some(p) => Some(p.name),
            None => None,
        },
    ) + ", resolved_kind: "@ + option_debug(
        match s.pending {
            Some(p) => Some(p.kind),
            None => None,
        },
    ) + ", resolved_domain: "@ + option_debug(
        match s.pending {
            Some(p) => Some(p.domain),
            None => None,
        },
    ) + ", resolved_port: "@ + decimal(s.port as nat) + " }"@
}

/// Appends the text that `Debug` writes for an optional string.
fn push_option_debug(out: &mut String, s: Option<&str>)
    ensures
        final(out)@ == old(out)@ + option_debug(
            match s {
                Some(s) => Some(s@),
                None => None,
            },
        ),
{
    match s {
        Some(s) => {
            out.append("Some(");
            let quoted = debug_str(s);
            out.append(quoted.as_str());
            out.append(")");
            assert(out@ =~= old(out)@ + option_debug(Some(s@)));
        },
        None => {
            out.append("None");
        },
    }
}

/// Whether `f` may be called with every result and every context.
pub open spec fn accepts_every_result<
    C: ?Sized,
    F: Fn(Result<ServiceDiscovery, Error>, Option<Arc<C>>),
>(f: F) -> bool {
    forall|result: Result<ServiceDiscovery, Error>, context: Option<Arc<C>>|
        call_requires(f, (result, context))
}

/// The delivery that a result is.
pub open spec fn delivery_of(result: Result<ServiceDiscovery, Error>) -> Delivery {
    match result {
        Ok(discovery) => Ok(discovery@),
        Err(e) => Err(e),
    }
}

/// The receiving end of the pipeline: the discovery callback, the context
/// that it is called with, and what it has been handed so far.
struct Subscriber<C: ?Sized, F: Fn(Result<ServiceDiscovery, Error>, Option<Arc<C>>)> {
    service_discovered_callback: Option<F>,
    user_context: Option<Arc<C>>,
    deliveries: Ghost<Seq<Delivery>>,
}

impl<C: ?Sized, F: Fn(Result<ServiceDiscovery, Error>, Option<Arc<C>>)> Subscriber<C, F> {
    #[verifier::type_invariant]
    spec fn callback_is_total(self) -> bool {
        self.service_discovered_callback matches Some(f) ==> accepts_every_result(f)
    }

    fn set_callback(&mut self, f: F)
        requires
            accepts_every_result(f),
        ensures
            final(self).service_discovered_callback == Some(f),
            final(self).user_context == old(self).user_context,
            final(self).deliveries == old(self).deliveries,
    {
        self.service_discovered_callback = Some(f);
    }

    fn set_context(&mut self, context: Arc<C>)
        ensures
            final(self).service_discovered_callback == old(self).service_discovered_callback,
            final(self).user_context == Some(context),
            final(self).deliveries == old(self).deliveries,
    {
        proof {
            use_type_invariant(&*self);
        }
        self.user_context = Some(context);
    }

    fn invoke(&mut self, result: Result<ServiceDiscovery, Error>) -> (invoked: bool)
        ensures
            invoked == old(self).service_discovered_callback.is_some(),
            final(self).service_discovered_callback == old(self).service_discovered_callback,
            final(self).user_context == old(self).user_context,
            match old(self).service_discovered_callback {
                Some(f) => {
                    &&& call_ensures(f, (result, old(self).user_context), ())
                    &&& final(self).deliveries@ == old(self).deliveries@.push(delivery_of(result))
                },
                None => final(self).deliveries@ == old(self).deliveries@,
            },
    {
        proof {
            use_type_invariant(&*self);
        }
        let ghost delivery = delivery_of(result);
        if let Some(f) = &self.service_discovered_callback {
            let context = match &self.user_context {
                Some(handle) => Some(share(handle)),
                None => None,
            };
            f(result, context);
            self.deliveries = Ghost(self.deliveries@.push(delivery));
            true
        } else {
            false
        }
    }
}

/// A service that was browsed and is not delivered yet.
struct PendingService {
    name: String,
    kind: String,
    domain: String,
}

/// The state that the callbacks of one browser work on: what the pipeline
/// has learned so far, the discovery callback, and the user's context.
///
/// `F` is the type of the discovery callback, which takes each result
/// together with the user's context. `C` is the type of that context.
pub struct BonjourBrowserContext<C: ?Sized, F: Fn(Result<ServiceDiscovery, Error>, Option<Arc<C>>)> {
    subscriber: Subscriber<C, F>,
    pending: Option<PendingService>,
    resolved_port: u16,
    resolved_txt: Option<TxtRecord>,
}

impl<C: ?Sized, F: Fn(Result<ServiceDiscovery, Error>, Option<Arc<C>>)> View for BonjourBrowserContext<
    C,
    F,
> {
    type V = PipelineState;

    closed spec fn view(&self) -> PipelineState {
        PipelineState {
            pending: match self.pending {
                Some(p) => Some(PendingView { name: p.name@, kind: p.kind@, domain: p.domain@ }),
                None => None,
            },
            port: self.resolved_port,
            txt: txt_view(self.resolved_txt),
            subscribed: self.subscriber.service_discovered_callback is Some,
            deliveries: self.subscriber.deliveries@,
        }
    }
}

impl<C: ?Sized, F: Fn(Result<ServiceDiscovery, Error>, Option<Arc<C>>)> Default for BonjourBrowserContext<
    C,
    F,
> {
    /// A context with nothing learned and nothing set.
    fn default() -> (ctx: Self)
        ensures
            ctx@ == PipelineState::initial(),
            ctx.callback() is None,
            ctx.user_context() is None,
    {
        BonjourBrowserContext {
            subscriber: Subscriber {
                service_discovered_callback: None,
                user_context: None,
                deliveries: Ghost(Seq::empty()),
            },
            pending: None,
            resolved_port: 0,
            resolved_txt: None,
        }
    }
}

impl<C: ?Sized, F: Fn(Result<ServiceDiscovery, Error>, Option<Arc<C>>)> BonjourBrowserContext<C, F> {
    /// The discovery callback, if one is set.
    pub closed spec fn callback(&self) -> Option<F> {
        self.subscriber.service_discovered_callback
    }

    /// The user's context, if one is set.
    pub closed spec fn user_context(&self) -> Option<Arc<C>> {
        self.subscriber.user_context
    }

    /// Whether `other` has the callback and the user's context of `self`.
    pub open spec fn same_subscriber(&self, other: &Self) -> bool {
        &&& other.callback() == self.callback()
        &&& other.user_context() == self.user_context()
    }

    /// Whether `result` has gone to the discovery callback, together with
    /// the user's context. Where no callback is set, nothing is asked.
    pub open spec fn delivered(&self, result: Result<ServiceDiscovery, Error>) -> bool {
        self.callback() matches Some(f) ==> call_ensures(f, (result, self.user_context()), ())
    }

    /// Whether a record with the view `discovery` has gone to the discovery
    /// callback, together with the user's context.
    pub open spec fn delivered_discovery(&self, discovery: ServiceDiscoveryView) -> bool {
        self.callback() matches Some(f) ==> exists|record: ServiceDiscovery|
            record@ == discovery && #[trigger] call_ensures(
                f,
                (Ok::<ServiceDiscovery, Error>(record), self.user_context()),
                (),
            )
    }

    /// The state is subscribed exactly where a callback is set.
    pub proof fn lemma_subscribed_with_callback(&self)
        ensures
            self@.subscribed == self.callback().is_some(),
    {
    }

    /// The context as text, for logs: what a `Debug` impl would write.
    pub fn debug_string(&self) -> (r: String)
        ensures
            r@ == context_debug(self@),
    {
        let mut out = "BonjourResolverContext { resolved_name: ".to_owned();
        match &self.pending {
            Some(p) => {
                push_option_debug(&mut out, Some(p.name.as_str()));
                out.append(", resolved_kind: ");
                push_option_debug(&mut out, Some(p.kind.as_str()));
                out.append(", resolved_domain: ");
                push_option_debug(&mut out, Some(p.domain.as_str()));
            },
            None => {
                push_option_debug(&mut out, None);
                out.append(", resolved_kind: ");
                push_option_debug(&mut out, None);
                out.append(", resolved_domain: ");
                push_option_debug(&mut out, None);
            },
        }
        out.append(", resolved_port: ");
        push_decimal(&mut out, self.resolved_port as u32);
        out.append(" }");
        assert(out@ =~= context_debug(self@));
        out
    }

    /// Tells whether a discovery callback is set.
    pub fn has_callback(&self) -> (r: bool)
        ensures
            r == self.callback().is_some(),
            r == self@.subscribed,
    {
        self.subscriber.service_discovered_callback.is_some()
    }

    /// Tells whether a browsed service waits for its delivery.
    pub fn has_pending_discovery(&self) -> (r: bool)
        ensures
            r == self@.has_pending_discovery(),
    {
        self.pending.is_some()
    }

    /// Hands `result` to the discovery callback, together with the user's
    /// context. Without a callback the result is dropped. Returns whether
    /// there was a callback.
    pub fn invoke_callback(&mut self, result: Result<ServiceDiscovery, Error>) -> (invoked: bool)
        ensures
            invoked == old(self).callback().is_some(),
            final(self)@ == old(self)@.deliver(delivery_of(result)),
            old(self).delivered(result),
            old(self).same_subscriber(final(self)),
    {
        self.subscriber.invoke(result)
    }

    /// Takes note of how the registration of a request of `stage` ended,
    /// given the code that the daemon returned for it. A refusal goes to the
    /// discovery callback as a setup error.
    pub fn report_registration(&mut self, stage: Stage, code: i32) -> (r: Result<(), Error>)
        ensures
            (final(self)@, r) == old(self)@.report_registration(stage, code),
            r matches Err(e) ==> old(self).delivered(Err(e)),
            old(self).same_subscriber(final(self)),
    {
        let r = registration_result(stage, code);
        if let Err(e) = r {
            self.invoke_callback(Err(e));
        }
        r
    }
}

/// Handles a browse event: the daemon has seen the service `name` of type
/// `regtype` in `domain`, on the interface `interface_index`, or reports the
/// nonzero `error`. Returns the resolve request to register for the service.
pub fn handle_browse<C: ?Sized, F: Fn(Result<ServiceDiscovery, Error>, Option<Arc<C>>)>(
    ctx: &mut BonjourBrowserContext<C, F>,
    error: i32,
    name: &str,
    regtype: &str,
    domain: &str,
    interface_index: u32,
) -> (r: Result<ServiceResolveParams, Error>)
    ensures
        final(ctx)@ == old(ctx)@.handle_browse(error, name@, regtype@, domain@, interface_index).0,
        match (r, old(ctx)@.handle_browse(error, name@, regtype@, domain@, interface_index).1) {
            (Ok(params), Ok(expected)) => params@ == expected,
            (Err(e), Err(expected)) => e == expected,
            _ => false,
        },
        old(ctx).same_subscriber(final(ctx)),
{
    if error != 0 {
        return Err(Error::Native { stage: Stage::Browse, code: error });
    }
    ctx.pending = Some(
        PendingService { name: name.to_owned(), kind: regtype.to_owned(), domain: domain.to_owned() },
    );
    Ok(
        ServiceResolveParams {
            flags: FLAGS_FORCE_MULTICAST,
            interface_index,
            name: name.to_owned(),
            regtype: regtype.to_owned(),
            domain: domain.to_owned(),
        },
    )
}

/// Handles a resolve event: the daemon has resolved a service to the host
/// `host_target` and to `port`, with the TXT payload `txt_record`, or
/// reports the nonzero `error`. Returns the address request to register for
/// the host.
pub fn handle_resolve<C: ?Sized, F: Fn(Result<ServiceDiscovery, Error>, Option<Arc<C>>)>(
    ctx: &mut BonjourBrowserContext<C, F>,
    error: i32,
    port: u16,
    interface_index: u32,
    host_target: &str,
    txt_record: &[u8],
) -> (r: Result<GetAddressInfoParams, Error>)
    ensures
        final(ctx)@ == old(ctx)@.handle_resolve(
            error,
            port,
            interface_index,
            host_target@,
            txt_record@,
        ).0,
        match (
            r,
            old(ctx)@.handle_resolve(error, port, interface_index, host_target@, txt_record@).1,
        ) {
            (Ok(params), Ok(expected)) => params@ == expected,
            (Err(e), Err(expected)) => e == expected,
            _ => false,
        },
        old(ctx).same_subscriber(final(ctx)),
{
    if error != 0 {
        return Err(Error::Native { stage: Stage::Resolve, code: error });
    }
    ctx.resolved_port = port;
    ctx.resolved_txt = TxtRecord::from_payload(txt_record);
    Ok(
        GetAddressInfoParams {
            flags: FLAGS_FORCE_MULTICAST,
            interface_index,
            protocol: 0,
            hostname: host_target.to_owned(),
        },
    )
}

/// Handles an address event: the daemon has resolved the host `hostname` to
/// the IPv4 address `address`, or reports the nonzero `error`. Completes the
/// pending service to a record and hands the record to the discovery
/// callback. Returns whether it did: `Ok(false)` where no service is
/// pending, which is the case when the daemon repeats an event.
pub fn handle_get_address_info<C: ?Sized, F: Fn(Result<ServiceDiscovery, Error>, Option<Arc<C>>)>(
    ctx: &mut BonjourBrowserContext<C, F>,
    error: i32,
    address: [u8; 4],
    hostname: &str,
) -> (r: Result<bool, Error>)
    ensures
        (final(ctx)@, r) == old(ctx)@.handle_get_address_info(error, address@, hostname@),
        r == Ok::<bool, Error>(true) <==> old(ctx)@.has_pending_discovery() && error == 0,
        r == Ok::<bool, Error>(true) ==> {
            &&& old(ctx).delivered_discovery(old(ctx)@.discovery(address@, hostname@))
            &&& !final(ctx)@.has_pending_discovery()
            &&& final(ctx)@.txt is None
            &&& final(ctx)@.deliveries == old(ctx)@.deliver(
                Ok(old(ctx)@.discovery(address@, hostname@)),
            ).deliveries
        },
        r != Ok::<bool, Error>(true) ==> final(ctx)@ == old(ctx)@,
        old(ctx).same_subscriber(final(ctx)),
{
    // the daemon may repeat this event
    if ctx.pending.is_none() {
        return Ok(false);
    }
    if error != 0 {
        return Err(Error::Native { stage: Stage::GetAddressInfo, code: error });
    }
    let ip = get_ip(address);
    let pending = ctx.pending.take().unwrap();
    let domain = normalize_domain(pending.domain.as_str());
    let discovery = ServiceDiscovery::builder()
        .name(pending.name)
        .kind(pending.kind)
        .domain(domain)
        .host_name(hostname.to_owned())
        .address(ip)
        .port(ctx.resolved_port)
        .txt(ctx.resolved_txt.take())
        .build()
        .unwrap();
    ctx.invoke_callback(Ok(discovery));
    Ok(true)
}

/// What a native callback led to.
#[derive(Clone, Debug, PartialEq, Eq)]
pub enum Step {
    /// A service was seen. The resolve request for it is to be registered.
    Resolve(ServiceResolveParams),
    /// A service was resolved. The address request for its host is to be
    /// registered.
    GetAddressInfo(GetAddressInfoParams),
    /// A discovery was completed, and the record went to the discovery
    /// callback, if one is set.
    Delivered,
    /// The event failed, and the error went to the discovery callback, if
    /// one is set. The discovery that the event belongs to ends here;
    /// browsing goes on.
    Failed(Error),
    /// The event was a repeat. Nothing was done.
    Ignored,
}

impl View for Step {
    type V = StepView;

    open spec fn view(&self) -> StepView {
        match self {
            Step::Resolve(params) => StepView::Resolve(params@),
            Step::GetAddressInfo(params) => StepView::GetAddressInfo(params@),
            Step::Delivered => StepView::Delivered,
            Step::Failed(e) => StepView::Failed(*e),
            Step::Ignored => StepView::Ignored,
        }
    }
}

/// The entry point for the daemon's browse callback: handles the event and
/// passes a failure on to the discovery callback.
pub fn browse_callback<C: ?Sized, F: Fn(Result<ServiceDiscovery, Error>, Option<Arc<C>>)>(
    interface_index: u32,
    error: i32,
    name: &str,
    regtype: &str,
    domain: &str,
    context: &mut BonjourBrowserContext<C, F>,
) -> (step: Step)
    ensures
        (final(context)@, step@) == old(context)@.browse_callback(
            interface_index,
            error,
            name@,
            regtype@,
            domain@,
        ),
        error != 0 ==> {
            let failure = Error::Native { stage: Stage::Browse, code: error };
            &&& step == Step::Failed(failure)
            &&& final(context)@ == old(context)@.deliver(Err(failure))
        },
        step matches Step::Failed(e) ==> old(context).delivered(Err(e)),
        old(context).same_subscriber(final(context)),
{
    match handle_browse(context, error, name, regtype, domain, interface_index) {
        Ok(params) => Step::Resolve(params),
        Err(e) => {
            context.invoke_callback(Err(e));
            Step::Failed(e)
        },
    }
}

/// The entry point for the daemon's resolve callback: handles the event and
/// passes a failure on to the discovery callback.
pub fn resolve_callback<C: ?Sized, F: Fn(Result<ServiceDiscovery, Error>, Option<Arc<C>>)>(
    interface_index: u32,
    error: i32,
    host_target: &str,
    port: u16,
    txt_record: &[u8],
    context: &mut BonjourBrowserContext<C, F>,
) -> (step: Step)
    ensures
        (final(context)@, step@) == old(context)@.resolve_callback(
            interface_index,
            error,
            host_target@,
            port,
            txt_record@,
        ),
        error != 0 ==> {
            let failure = Error::Native { stage: Stage::Resolve, code: error };
            &&& step == Step::Failed(failure)
            &&& final(context)@ == old(context)@.deliver(Err(failure))
        },
        error == 0 && txt_record@.len() <= 1 ==> final(context)@.txt is None,
        step matches Step::Failed(e) ==> old(context).delivered(Err(e)),
        old(context).same_subscriber(final(context)),
{
    match handle_resolve(context, error, port, interface_index, host_target, txt_record) {
        Ok(params) => Step::GetAddressInfo(params),
        Err(e) => {
            context.invoke_callback(Err(e));
            Step::Failed(e)
        },
    }
}

/// The entry point for the daemon's address callback: handles the event,
/// which hands a completed discovery to the discovery callback, and passes
/// a failure on to that callback. A repeated event is passed over in
/// silence.
pub fn get_address_info_callback<
    C: ?Sized,
    F: Fn(Result<ServiceDiscovery, Error>, Option<Arc<C>>),
>(error: i32, hostname: &str, address: [u8; 4], context: &mut BonjourBrowserContext<C, F>) -> (step:
    Step)
    ensures
        (final(context)@, step@) == old(context)@.get_address_info_callback(
            error,
            hostname@,
            address@,
        ),
        !old(context)@.has_pending_discovery() ==> {
            &&& step == Step::Ignored
            &&& final(context)@ == old(context)@
        },
        step == Step::Delivered ==> old(context).delivered_discovery(
            old(context)@.discovery(address@, hostname@),
        ),
        step matches Step::Failed(e) ==> old(context).delivered(Err(e)),
        old(context).same_subscriber(final(context)),
{
    match handle_get_address_info(context, error, address, hostname) {
        Ok(true) => Step::Delivered,
        Ok(false) => Step::Ignored,
        Err(e) => {
            context.invoke_callback(Err(e));
            Step::Failed(e)
        },
    }
}

/// Browses the services of one type.
///
/// Configure the browser, then start it with `browse_services`. From then
/// on the daemon's callbacks work on the context of the browser, which
/// stays where it is for as long as the browser lives.
pub struct BonjourMdnsBrowser<C: ?Sized, F: Fn(Result<ServiceDiscovery, Error>, Option<Arc<C>>)> {
    kind: String,
    interface_index: u32,
    context: Box<BonjourBrowserContext<C, F>>,
}

impl<C: ?Sized, F: Fn(Result<ServiceDiscovery, Error>, Option<Arc<C>>)> BonjourMdnsBrowser<C, F> {
    /// The service type to browse for.
    pub closed spec fn kind(&self) -> Seq<char> {
        self.kind@
    }

    /// The index of the interface to browse on.
    pub closed spec fn interface_index(&self) -> u32 {
        self.interface_index
    }

    /// The context that the callbacks work on.
    pub closed spec fn context(&self) -> BonjourBrowserContext<C, F> {
        *self.context
    }

    /// The request that starts browsing.
    pub open spec fn browse_request(&self) -> BrowseServicesParamsView {
        BrowseServicesParamsView {
            flags: 0,
            interface_index: self.interface_index(),
            regtype: self.kind(),
            domain: None,
        }
    }

    /// A browser for the services of type `kind`, on any interface, with no
    /// callback and no context.
    pub fn new(kind: &str) -> (browser: Self)
        ensures
            browser.kind() == kind@,
            browser.interface_index() == BONJOUR_IF_UNSPEC,
            browser.context()@ == PipelineState::initial(),
            browser.context().callback() is None,
            browser.context().user_context() is None,
    {
        BonjourMdnsBrowser {
            kind: kind.to_owned(),
            interface_index: BONJOUR_IF_UNSPEC,
            context: Box::new(BonjourBrowserContext::default()),
        }
    }

    /// Sets the interface to browse on.
    pub fn set_network_interface(&mut self, interface: NetworkInterface)
        ensures
            final(self).interface_index() == spec_interface_index(interface),
            final(self).kind() == old(self).kind(),
            final(self).context() == old(self).context(),
    {
        self.interface_index = interface_index(interface);
    }

    /// Sets the callback that every result goes to. The callback must take
    /// every result.
    pub fn set_service_discovered_callback(&mut self, service_discovered_callback: F)
        requires
            accepts_every_result(service_discovered_callback),
        ensures
            final(self).context().callback() == Some(service_discovered_callback),
            final(self).context().user_context() == old(self).context().user_context(),
            final(self).context()@ == (PipelineState { subscribed: true, ..old(self).context()@ }),
            final(self).kind() == old(self).kind(),
            final(self).interface_index() == old(self).interface_index(),
    {
        self.context.subscriber.set_callback(service_discovered_callback);
    }

    /// Sets the context that the callback is called with.
    pub fn set_context(&mut self, context: Arc<C>)
        ensures
            final(self).context().user_context() == Some(context),
            final(self).context().callback() == old(self).context().callback(),
            final(self).context()@ == old(self).context()@,
            final(self).kind() == old(self).kind(),
            final(self).interface_index() == old(self).interface_index(),
    {
        self.context.subscriber.set_context(context);
    }

    /// Starts browsing: returns the browse request to register with the
    /// daemon. Fails, with a setup error, exactly where the service type
    /// holds a NUL character; no request is made then.
    pub fn browse_services(&mut self) -> (r: Result<BrowseServicesParams, Error>)
        ensures
            *final(self) == *old(self),
            match r {
                Ok(params) => !old(self).kind().contains('\0') && params@ == old(
                    self,
                ).browse_request(),
                Err(e) => old(self).kind().contains('\0') && e == Error::Setup(
                    SetupError::InteriorNul,
                ),
            },
    {
        if contains_nul(self.kind.as_str()) {
            return Err(Error::Setup(SetupError::InteriorNul));
        }
        Ok(
            BrowseServicesParams {
                flags: 0,
                interface_index: self.interface_index,
                regtype: self.kind.clone(),
                domain: None,
            },
        )
    }

    /// The context that the callbacks work on.
    pub fn context_mut(&mut self) -> (context: &mut BonjourBrowserContext<C, F>)
        ensures
            *context == old(self).context(),
            final(self).context() == *final(context),
            final(self).kind() == old(self).kind(),
            final(self).interface_index() == old(self).interface_index(),
    {
        &mut *self.context
    }
}

} // verus!
