//! The virtual hosts of a server, keyed by hostname and port.

use vstd::prelude::*;

use crate::errors::{VetisError, VirtualHostError};
use crate::server::virtual_host::VirtualHost;

verus! {

/// The key a virtual host is registered under: its hostname and port.
pub open spec fn host_key<H>(host: VirtualHost<H>) -> (Seq<char>, u16) {
    (host.settings().hostname, host.settings().port)
}

/// The virtual hosts of a server; at most one per hostname and port.
pub struct VirtualHosts<H> {
    hosts: Vec<VirtualHost<H>>,
}

impl<H> VirtualHosts<H> {
    /// No two hosts share a key.
    #[verifier::type_invariant]
    closed spec fn unique_keys(self) -> bool {
        forall|i: int, j: int|
            0 <= i < self.hosts@.len() && 0 <= j < self.hosts@.len() && i != j ==> host_key(
                #[trigger] self.hosts@[i],
            ) != host_key(#[trigger] self.hosts@[j])
    }

    /// The hosts by key.
    pub closed spec fn hosts_by_key(self) -> Map<(Seq<char>, u16), VirtualHost<H>> {
        Map::new(
            |key: (Seq<char>, u16)|
                exists|i: int| 0 <= i < self.hosts@.len() && host_key(self.hosts@[i]) == key,
            |key: (Seq<char>, u16)|
                self.hosts@[choose|i: int|
                    0 <= i < self.hosts@.len() && host_key(self.hosts@[i]) == key],
        )
    }

    /// Creates an empty registry.
    pub fn new() -> (res: Self)
        ensures
            res.hosts_by_key() == Map::<(Seq<char>, u16), VirtualHost<H>>::empty(),
    {
        let res = VirtualHosts { hosts: Vec::new() };
        proof {
            assert(res.hosts_by_key() =~= Map::<(Seq<char>, u16), VirtualHost<H>>::empty());
        }
        res
    }

    /// The slot of the host registered under `hostname` and `port`.
    fn find(&self, hostname: &str, port: u16) -> (res: Option<usize>)
        ensures
            match res {
                Some(i) => i < self.hosts@.len() && host_key(self.hosts@[i as int]) == (
                hostname@,
                port,
            ),
                None => forall|i: int|
                    0 <= i < self.hosts@.len() ==> host_key(#[trigger] self.hosts@[i]) != (
                    hostname@,
                    port,
                ),
            },
    {
        let wanted = hostname.to_owned();
        let mut i: usize = 0;
        while i < self.hosts.len()
            invariant
                i <= self.hosts@.len(),
                wanted@ == hostname@,
                forall|j: int|
                    0 <= j < i ==> host_key(#[trigger] self.hosts@[j]) != (hostname@, port),
            decreases self.hosts@.len() - i,
        {
            let host = &self.hosts[i];
            if host.port() == port && host.hostname().to_owned() == wanted {
                return Some(i);
            }
            i = i + 1;
        }
        None
    }

    /// Adds a virtual host under its hostname and port, replacing a host added earlier
    /// under the same hostname and port.
    pub fn add(&mut self, host: VirtualHost<H>)
        ensures
            final(self).hosts_by_key() == old(self).hosts_by_key().insert(host_key(host), host),
    {
        proof {
            use_type_invariant(&*self);
        }
        let ghost key = host_key(host);
        let ghost before = self.hosts@;
        let found = self.find(host.hostname(), host.port());
        let mut hosts = Vec::new();
        std::mem::swap(&mut hosts, &mut self.hosts);
        match found {
            Some(i) => {
                hosts.set(i, host);
            },
            None => {
                hosts.push(host);
            },
        }
        proof {
            assert forall|a: int, b: int|
                0 <= a < hosts@.len() && 0 <= b < hosts@.len() && a != b implies host_key(
                #[trigger] hosts@[a],
            ) != host_key(#[trigger] hosts@[b]) by {
                match found {
                    Some(i) => {
                        if a != i && b != i {
                            assert(host_key(before[a]) != host_key(before[b]));
                        }
                    },
                    None => {
                        if a < before.len() && b < before.len() {
                            assert(host_key(before[a]) != host_key(before[b]));
                        }
                    },
                }
            }
        }
        std::mem::swap(&mut hosts, &mut self.hosts);
        proof {
            use_type_invariant(&*self);
            let m = self.hosts_by_key();
            let m0 = old(self).hosts_by_key();
            assert forall|k: (Seq<char>, u16)| #[trigger] m.contains_key(k) == m0.insert(
                key,
                host,
            ).contains_key(k) by {
                if k != key {
                    if m.contains_key(k) {
                        let j = choose|j: int|
                            0 <= j < self.hosts@.len() && host_key(self.hosts@[j]) == k;
                        assert(before[j] == self.hosts@[j]);
                    }
                    if m0.contains_key(k) {
                        let j = choose|j: int| 0 <= j < before.len() && host_key(before[j]) == k;
                        assert(self.hosts@[j] == before[j]);
                    }
                } else {
                    let j = match found {
                        Some(i) => i as int,
                        None => before.len() as int,
                    };
                    assert(host_key(self.hosts@[j]) == k);
                }
            }
            assert forall|k: (Seq<char>, u16)| #[trigger] m.contains_key(k) implies m[k] == m0.insert(
                key,
                host,
            )[k] by {
                let j = choose|j: int| 0 <= j < self.hosts@.len() && host_key(self.hosts@[j]) == k;
                if k == key {
                    let s = match found {
                        Some(i) => i as int,
                        None => before.len() as int,
                    };
                    assert(host_key(self.hosts@[s]) == k);
                    assert(j == s);
                } else {
                    let j0 = choose|j0: int| 0 <= j0 < before.len() && host_key(before[j0]) == k;
                    assert(self.hosts@[j0] == before[j0]);
                    assert(j == j0);
                }
            }
            assert(m =~= m0.insert(key, host));
        }
    }

    /// Returns the host registered under `hostname` and `port`.
    pub fn get(&self, hostname: &str, port: u16) -> (res: Option<&VirtualHost<H>>)
        ensures
            match res {
                Some(h) => self.hosts_by_key().contains_key((hostname@, port))
                    && self.hosts_by_key()[(hostname@, port)] == *h,
                None => !self.hosts_by_key().contains_key((hostname@, port)),
            },
    {
        proof {
            use_type_invariant(self);
        }
        match self.find(hostname, port) {
            Some(i) => {
                proof {
                    let j = choose|j: int|
                        0 <= j < self.hosts@.len() && host_key(self.hosts@[j]) == (hostname@, port);
                    assert(j == i);
                }
                Some(&self.hosts[i])
            },
            None => None,
        }
    }

    /// Returns whether no host has been added.
    pub fn is_empty(&self) -> (res: bool)
        ensures
            res == (self.hosts_by_key().dom() == Set::<(Seq<char>, u16)>::empty()),
    {
        let res = self.hosts.len() == 0;
        proof {
            if !res {
                assert(self.hosts_by_key().contains_key(host_key(self.hosts@[0])));
            } else {
                assert(self.hosts_by_key().dom() =~= Set::<(Seq<char>, u16)>::empty());
            }
        }
        res
    }

    /// Checks that the server can start: at least one virtual host must be added.
    pub fn check_startable(&self) -> (res: Result<(), VetisError>)
        ensures
            self.hosts_by_key().dom() == Set::<(Seq<char>, u16)>::empty() ==> (res matches Err(
                VetisError::VirtualHost(VirtualHostError::NoVirtualHosts),
            )),
            self.hosts_by_key().dom() != Set::<(Seq<char>, u16)>::empty() ==> res is Ok,
    {
        if self.is_empty() {
            Err(VetisError::VirtualHost(VirtualHostError::NoVirtualHosts))
        } else {
            Ok(())
        }
    }

    /// The hosts in the order they were first added under their key.
    pub closed spec fn host_list(self) -> Seq<VirtualHost<H>> {
        self.hosts@
    }

    /// Returns the hosts, each once, in the order they were first added under their key.
    pub fn hosts(&self) -> (res: &Vec<VirtualHost<H>>)
        ensures
            res@ == self.host_list(),
            forall|i: int|
                0 <= i < res@.len() ==> self.hosts_by_key().contains_key(host_key(#[trigger] res@[i]))
                    && self.hosts_by_key()[host_key(res@[i])] == res@[i],
            forall|k: (Seq<char>, u16)|
                #[trigger] self.hosts_by_key().contains_key(k) ==> exists|i: int|
                    0 <= i < res@.len() && host_key(res@[i]) == k,
    {
        proof {
            use_type_invariant(self);
            assert forall|i: int| 0 <= i < self.hosts@.len() implies self.hosts_by_key().contains_key(
                host_key(#[trigger] self.hosts@[i]),
            ) && self.hosts_by_key()[host_key(self.hosts@[i])] == self.hosts@[i] by {
                let k = host_key(self.hosts@[i]);
                let j = choose|j: int| 0 <= j < self.hosts@.len() && host_key(self.hosts@[j]) == k;
                assert(j == i);
            }
        }
        &self.hosts
    }
}


/// After a virtual host is added, looking up its hostname and port finds it, and
/// every other hostname and port finds what it found before.
pub proof fn law_get_after_add<H>(
    before: Map<(Seq<char>, u16), VirtualHost<H>>,
    after: Map<(Seq<char>, u16), VirtualHost<H>>,
    host: VirtualHost<H>,
    key: (Seq<char>, u16),
)
    requires
        after == before.insert(host_key(host), host),
    ensures
        key == host_key(host) ==> after.contains_key(key) && after[key] == host,
        key != host_key(host) ==> (after.contains_key(key) == before.contains_key(key) && (
        before.contains_key(key) ==> after[key] == before[key])),
{
}

} // verus!
