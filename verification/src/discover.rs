//! Service discovery: the address of each remote service, by name.
use vstd::prelude::*;
use crate::text::str_eq;

verus! {

pub const AUTHORIZOR_SERVICE: &'static str = "AUTHORIZOR";

pub const SMS_SERVICE: &'static str = "SMS";

pub const PAY_SERVICE: &'static str = "PAY";

/// Where a service can be reached.
pub struct ServiceInfo {
    /// ip:port
    addr: String,
}

impl View for ServiceInfo {
    type V = Seq<char>;

    open spec fn view(&self) -> Seq<char> {
        self.addr_view()
    }
}

impl ServiceInfo {
    pub closed spec fn addr_view(&self) -> Seq<char> {
        self.addr@
    }

    pub fn new(addr: String) -> (res: ServiceInfo)
        ensures
            res@ == addr@,
    {
        ServiceInfo { addr }
    }

    /// The address to use.
    pub fn select_better(&self) -> (res: &str)
        ensures
            res@ == self@,
    {
        self.addr.as_str()
    }

    /// A service information with the same address.
    pub fn copy(&self) -> (res: ServiceInfo)
        ensures
            res@ == self@,
    {
        ServiceInfo { addr: self.addr.clone() }
    }
}

/// The services named in the configuration. A name listed twice stands for
/// its last entry, as when the entries are inserted into a map one by one.
pub struct ServiceDiscoverConfig {
    pub services: Vec<(String, ServiceInfo)>,
}

/// The views of named entries.
pub open spec fn entries_view(v: Seq<(String, ServiceInfo)>) -> Seq<(Seq<char>, Seq<char>)> {
    v.map_values(|e: (String, ServiceInfo)| (e.0@, e.1@))
}

/// The address registered last under `name`, if any.
pub open spec fn lookup_addr(entries: Seq<(Seq<char>, Seq<char>)>, name: Seq<char>) -> Option<
    Seq<char>,
>
    decreases entries.len(),
{
    if entries.len() == 0 {
        None
    } else if entries.last().0 == name {
        Some(entries.last().1)
    } else {
        lookup_addr(entries.drop_last(), name)
    }
}

/// The registry of services.
pub struct ServiceDiscover {
    services: Vec<(String, ServiceInfo)>,
}

impl View for ServiceDiscover {
    type V = Seq<(Seq<char>, Seq<char>)>;

    closed spec fn view(&self) -> Seq<(Seq<char>, Seq<char>)> {
        entries_view(self.services@)
    }
}

impl ServiceDiscover {
    /// The registry of the services of `cfg`.
    pub fn new(cfg: &ServiceDiscoverConfig) -> (res: ServiceDiscover)
        ensures
            res@ == entries_view(cfg.services@),
    {
        let mut services: Vec<(String, ServiceInfo)> = Vec::new();
        let mut i: usize = 0;
        while i < cfg.services.len()
            invariant
                i <= cfg.services@.len(),
                entries_view(services@) == entries_view(cfg.services@.take(i as int)),
            decreases cfg.services@.len() - i,
        {
            let e = &cfg.services[i];
            let ghost before = entries_view(services@);
            let item = (e.0.clone(), e.1.copy());
            let ghost iv = (item.0@, item.1@);
            services.push(item);
            proof {
                assert(iv == (cfg.services@[i as int].0@, cfg.services@[i as int].1@));
                assert(entries_view(services@) =~= before.push(iv));
                assert(entries_view(cfg.services@.take(i + 1)) =~= entries_view(
                    cfg.services@.take(i as int),
                ).push(iv));
            }
            i = i + 1;
        }
        proof {
            assert(cfg.services@.take(cfg.services@.len() as int) =~= cfg.services@);
        }
        ServiceDiscover { services }
    }

    /// The service registered under `name`, if any.
    pub fn find(&self, name: &str) -> (res: Option<ServiceInfo>)
        ensures
            match res {
                Some(info) => lookup_addr(self@, name@) == Some(info@),
                None => lookup_addr(self@, name@) is None,
            },
    {
        let mut i: usize = self.services.len();
        proof {
            assert(self.services@.take(i as int) =~= self.services@);
        }
        while i > 0
            invariant
                i <= self.services@.len(),
                lookup_addr(self@, name@) == lookup_addr(
                    entries_view(self.services@.take(i as int)),
                    name@,
                ),
            decreases i,
        {
            let ghost t = entries_view(self.services@.take(i as int));
            assert(t.drop_last() =~= entries_view(self.services@.take(i - 1)));
            if str_eq(self.services[i - 1].0.as_str(), name) {
                return Some(self.services[i - 1].1.copy());
            }
            i = i - 1;
        }
        None
    }
}

} // verus!
