//! The record that a completed discovery is delivered as.

use crate::error::{Error, Field};
use crate::txt_record::{txt_view, TxtRecord};
use vstd::prelude::*;

verus! {

/// A service that was browsed, resolved to a host and a port, and whose
/// host was resolved to an address.
#[derive(Clone, Debug, PartialEq, Eq)]
pub struct ServiceDiscovery {
    name: String,
    kind: String,
    domain: String,
    host_name: String,
    address: String,
    port: u16,
    txt: Option<TxtRecord>,
}

pub struct ServiceDiscoveryView {
    pub name: Seq<char>,
    pub kind: Seq<char>,
    pub domain: Seq<char>,
    pub host_name: Seq<char>,
    pub address: Seq<char>,
    pub port: u16,
    pub txt: Option<Seq<u8>>,
}

impl View for ServiceDiscovery {
    type V = ServiceDiscoveryView;

    closed spec fn view(&self) -> ServiceDiscoveryView {
        ServiceDiscoveryView {
            name: self.name@,
            kind: self.kind@,
            domain: self.domain@,
            host_name: self.host_name@,
            address: self.address@,
            port: self.port,
            txt: txt_view(self.txt),
        }
    }
}

impl ServiceDiscovery {
    /// A builder with no field set.
    pub fn builder() -> (b: ServiceDiscoveryBuilder)
        ensures
            b@ == ServiceDiscoveryBuilderView::empty(),
    {
        ServiceDiscoveryBuilder {
            name: None,
            kind: None,
            domain: None,
            host_name: None,
            address: None,
            port: None,
            txt: None,
        }
    }

    /// The name of the service.
    pub fn name(&self) -> (r: &String)
        ensures
            r@ == self@.name,
    {
        &self.name
    }

    /// The type of the service, such as `_http._tcp`.
    pub fn kind(&self) -> (r: &String)
        ensures
            r@ == self@.kind,
    {
        &self.kind
    }

    /// The domain of the service, normalized.
    pub fn domain(&self) -> (r: &String)
        ensures
            r@ == self@.domain,
    {
        &self.domain
    }

    /// The name of the host that offers the service.
    pub fn host_name(&self) -> (r: &String)
        ensures
            r@ == self@.host_name,
    {
        &self.host_name
    }

    /// The address of the host, in dotted-decimal form.
    pub fn address(&self) -> (r: &String)
        ensures
            r@ == self@.address,
    {
        &self.address
    }

    /// The port of the service.
    pub fn port(&self) -> (r: &u16)
        ensures
            *r == self@.port,
    {
        &self.port
    }

    /// The TXT data of the service, if it has any.
    pub fn txt(&self) -> (r: &Option<TxtRecord>)
        ensures
            txt_view(*r) == self@.txt,
    {
        &self.txt
    }
}

/// Collects the fields of a [`ServiceDiscovery`]. All but `txt` are required.
#[derive(Clone, Debug, PartialEq, Eq)]
pub struct ServiceDiscoveryBuilder {
    name: Option<String>,
    kind: Option<String>,
    domain: Option<String>,
    host_name: Option<String>,
    address: Option<String>,
    port: Option<u16>,
    txt: Option<TxtRecord>,
}

pub struct ServiceDiscoveryBuilderView {
    pub name: Option<Seq<char>>,
    pub kind: Option<Seq<char>>,
    pub domain: Option<Seq<char>>,
    pub host_name: Option<Seq<char>>,
    pub address: Option<Seq<char>>,
    pub port: Option<u16>,
    pub txt: Option<Seq<u8>>,
}

/// The view of an optional string.
pub open spec fn string_view(s: Option<String>) -> Option<Seq<char>> {
    match s {
        Some(s) => Some(s@),
        None => None,
    }
}

impl ServiceDiscoveryBuilderView {
    /// The builder in which no field is set.
    pub open spec fn empty() -> ServiceDiscoveryBuilderView {
        ServiceDiscoveryBuilderView {
            name: None,
            kind: None,
            domain: None,
            host_name: None,
            address: None,
            port: None,
            txt: None,
        }
    }

    /// The first required field that is not set, in the order in which the
    /// record declares its fields.
    pub open spec fn missing(self) -> Option<Field> {
        if self.name is None {
            Some(Field::Name)
        } else if self.kind is None {
            Some(Field::Kind)
        } else if self.domain is None {
            Some(Field::Domain)
        } else if self.host_name is None {
            Some(Field::HostName)
        } else if self.address is None {
            Some(Field::Address)
        } else if self.port is None {
            Some(Field::Port)
        } else {
            None
        }
    }

    /// The record that a complete builder stands for.
    pub open spec fn record(self) -> ServiceDiscoveryView
        recommends
            self.missing() is None,
    {
        ServiceDiscoveryView {
            name: self.name->0,
            kind: self.kind->0,
            domain: self.domain->0,
            host_name: self.host_name->0,
            address: self.address->0,
            port: self.port->0,
            txt: self.txt,
        }
    }

    /// What building gives: the record, or the first missing field.
    pub open spec fn build(self) -> Result<ServiceDiscoveryView, Error> {
        match self.missing() {
            Some(field) => Err(Error::Build(field)),
            None => Ok(self.record()),
        }
    }
}

impl View for ServiceDiscoveryBuilder {
    type V = ServiceDiscoveryBuilderView;

    closed spec fn view(&self) -> ServiceDiscoveryBuilderView {
        ServiceDiscoveryBuilderView {
            name: string_view(self.name),
            kind: string_view(self.kind),
            domain: string_view(self.domain),
            host_name: string_view(self.host_name),
            address: string_view(self.address),
            port: self.port,
            txt: txt_view(self.txt),
        }
    }
}

impl ServiceDiscoveryBuilder {
    /// Sets the name of the service.
    pub fn name(self, name: String) -> (b: ServiceDiscoveryBuilder)
        ensures
            b@ == (ServiceDiscoveryBuilderView { name: Some(name@), ..self@ }),
    {
        ServiceDiscoveryBuilder { name: Some(name), ..self }
    }

    /// Sets the type of the service.
    pub fn kind(self, kind: String) -> (b: ServiceDiscoveryBuilder)
        ensures
            b@ == (ServiceDiscoveryBuilderView { kind: Some(kind@), ..self@ }),
    {
        ServiceDiscoveryBuilder { kind: Some(kind), ..self }
    }

    /// Sets the domain of the service.
    pub fn domain(self, domain: String) -> (b: ServiceDiscoveryBuilder)
        ensures
            b@ == (ServiceDiscoveryBuilderView { domain: Some(domain@), ..self@ }),
    {
        ServiceDiscoveryBuilder { domain: Some(domain), ..self }
    }

    /// Sets the name of the host.
    pub fn host_name(self, host_name: String) -> (b: ServiceDiscoveryBuilder)
        ensures
            b@ == (ServiceDiscoveryBuilderView { host_name: Some(host_name@), ..self@ }),
    {
        ServiceDiscoveryBuilder { host_name: Some(host_name), ..self }
    }

    /// Sets the address of the host.
    pub fn address(self, address: String) -> (b: ServiceDiscoveryBuilder)
        ensures
            b@ == (ServiceDiscoveryBuilderView { address: Some(address@), ..self@ }),
    {
        ServiceDiscoveryBuilder { address: Some(address), ..self }
    }

    /// Sets the port of the service.
    pub fn port(self, port: u16) -> (b: ServiceDiscoveryBuilder)
        ensures
            b@ == (ServiceDiscoveryBuilderView { port: Some(port), ..self@ }),
    {
        ServiceDiscoveryBuilder { port: Some(port), ..self }
    }

    /// Sets the TXT data of the service, or says that it has none.
    pub fn txt(self, txt: Option<TxtRecord>) -> (b: ServiceDiscoveryBuilder)
        ensures
            b@ == (ServiceDiscoveryBuilderView { txt: txt_view(txt), ..self@ }),
    {
        ServiceDiscoveryBuilder { txt, ..self }
    }

    /// Builds the record. Fails with the first required field that was not
    /// set, and only then.
    pub fn build(self) -> (r: Result<ServiceDiscovery, Error>)
        ensures
            match (r, self@.build()) {
                (Ok(d), Ok(v)) => d@ == v,
                (Err(e), Err(f)) => e == f,
                _ => false,
            },
    {
        let name = match self.name {
            Some(v) => v,
            None => { return Err(Error::Build(Field::Name)); },
        };
        let kind = match self.kind {
            Some(v) => v,
            None => { return Err(Error::Build(Field::Kind)); },
        };
        let domain = match self.domain {
            Some(v) => v,
            None => { return Err(Error::Build(Field::Domain)); },
        };
        let host_name = match self.host_name {
            Some(v) => v,
            None => { return Err(Error::Build(Field::HostName)); },
        };
        let address = match self.address {
            Some(v) => v,
            None => { return Err(Error::Build(Field::Address)); },
        };
        let port: u16 = match self.port {
            Some(v) => v,
            None => { return Err(Error::Build(Field::Port)); },
        };
        Ok(ServiceDiscovery { name, kind, domain, host_name, address, port, txt: self.txt })
    }
}

} // verus!
