//! Virtual hosts: one configuration and the paths it serves, routed by longest prefix.

use std::collections::HashMap;

use radix_trie::Trie;
use vstd::prelude::*;
use vstd::string::StrSliceExecFns;

use crate::config::server::virtual_host::path::proxy::ProxyPathConfig;
use crate::config::server::virtual_host::path::static_files::StaticPathConfig;
use crate::config::server::virtual_host::{VirtualHostConfig, VirtualHostSettings};
use crate::server::virtual_host::path::proxy::ProxyPath;
use crate::server::virtual_host::path::static_files::StaticPath;
use crate::server::virtual_host::path::{HostPath, PathView};

pub mod directory;
pub mod path;
pub mod registry;

verus! {

#[verifier::external_type_specification]
#[verifier::external_body]
#[verifier::reject_recursive_types(K)]
#[verifier::reject_recursive_types(V)]
pub struct ExTrie<K, V>(radix_trie::Trie<K, V>);

/// A radix trie from path prefixes to slots.
pub type PathIndex = Trie<String, usize>;

/// The entries of a radix trie that maps path prefixes to slots.
pub uninterp spec fn trie_entries(trie: Trie<String, usize>) -> Map<Seq<char>, usize>;

/// `p` is a prefix of `s`.
pub open spec fn is_prefix(p: Seq<char>, s: Seq<char>) -> bool {
    p.len() <= s.len() && s.take(p.len() as int) == p
}

/// `k` is the longest key of `keys` that is a prefix of `s`.
pub open spec fn is_longest_prefix(keys: Set<Seq<char>>, k: Seq<char>, s: Seq<char>) -> bool {
    &&& keys.contains(k)
    &&& is_prefix(k, s)
    &&& forall|k2: Seq<char>| keys.contains(k2) && is_prefix(k2, s) ==> k2.len() <= k.len()
}

/// The entries of an empty index.
pub open spec fn empty_index() -> Map<Seq<char>, usize> {
    Map::empty()
}

/// Creates an empty trie.
///
/// Calls `radix_trie::Trie::new`, which holds no entries.
#[verifier::external_body]
fn trie_new() -> (res: PathIndex)
    ensures
        trie_entries(res) == empty_index(),
{
    Trie::new()
}

/// Maps `key` to `value`.
///
/// Calls `radix_trie::Trie::insert`, which replaces the value of an existing key and
/// returns the value it held.
#[verifier::external_body]
fn trie_insert(trie: &mut PathIndex, key: String, value: usize) -> (res: Option<usize>)
    ensures
        trie_entries(*final(trie)) == trie_entries(*old(trie)).insert(key@, value),
        res == (if trie_entries(*old(trie)).contains_key(key@) {
            Some(trie_entries(*old(trie))[key@])
        } else {
            None::<usize>
        }),
{
    trie.insert(key, value)
}

/// The value of the longest key that is a prefix of `key`.
///
/// Calls `radix_trie::Trie::get_ancestor_value`. Its documentation gives the value of
/// the node whose key bytes are the longest prefix of the bytes of `key`; for UTF-8
/// text a byte prefix is the same as a character prefix.
#[verifier::external_body]
fn trie_ancestor(trie: &PathIndex, key: &str) -> (res: Option<usize>)
    ensures
        match res {
            Some(v) => exists|k: Seq<char>|
                is_longest_prefix(trie_entries(*trie).dom(), k, key@) && #[trigger] trie_entries(
                    *trie,
                )[k] == v,
            None => forall|k: Seq<char>|
                #[trigger] trie_entries(*trie).contains_key(k) ==> !is_prefix(k, key@),
        },
{
    trie.get_ancestor_value(key).copied()
}

/// The paths that entries make when added in order: a later path under a URI replaces
/// an earlier one.
pub open spec fn fold_routes(entries: Seq<PathView>) -> Map<Seq<char>, PathView>
    decreases entries.len(),
{
    if entries.len() == 0 {
        Map::empty()
    } else {
        fold_routes(entries.drop_last()).insert(entries.last().uri(), entries.last())
    }
}

/// The paths a virtual host configuration asks for: its static paths, then its proxy
/// paths, in the order given.
pub open spec fn configured_paths(settings: VirtualHostSettings) -> Seq<PathView> {
    let statics = match settings.static_paths {
        Some(v) => v@.map_values(|c: StaticPathConfig| PathView::Static(c@)),
        None => Seq::empty(),
    };
    let proxies = match settings.proxy_paths {
        Some(v) => v@.map_values(|c: ProxyPathConfig| PathView::Proxy(c@)),
        None => Seq::empty(),
    };
    statics + proxies
}


/// Two keys that are both the longest prefix of a request path are the same key: the
/// route of a request is never ambiguous.
pub proof fn law_longest_prefix_unique(keys: Set<Seq<char>>, k1: Seq<char>, k2: Seq<char>, s: Seq<char>)
    requires
        is_longest_prefix(keys, k1, s),
        is_longest_prefix(keys, k2, s),
    ensures
        k1 == k2,
{
    assert(k1.len() == k2.len());
    assert(k1 =~= s.take(k1.len() as int));
    assert(k2 =~= s.take(k2.len() as int));
}

/// A request for exactly the URI a path is registered under is routed to that path,
/// with nothing left of the request path.
pub proof fn law_registered_uri_routes_to_itself(keys: Set<Seq<char>>, uri: Seq<char>)
    requires
        keys.contains(uri),
    ensures
        is_longest_prefix(keys, uri, uri),
        uri.skip(uri.len() as int) == Seq::<char>::empty(),
{
    assert(uri.take(uri.len() as int) =~= uri);
    assert(uri.skip(uri.len() as int) =~= Seq::<char>::empty());
}

/// After a path is added under a URI, it is the path that URI routes to, and every
/// other URI keeps its path.
pub proof fn law_route_after_add<H>(
    before: Map<Seq<char>, HostPath<H>>,
    after: Map<Seq<char>, HostPath<H>>,
    path: HostPath<H>,
    other: Seq<char>,
)
    requires
        after == before.insert(path@.uri(), path),
    ensures
        after.contains_key(path@.uri()) && after[path@.uri()] == path,
        is_longest_prefix(after.dom(), path@.uri(), path@.uri()),
        other != path@.uri() ==> (after.contains_key(other) == before.contains_key(other)
            && (before.contains_key(other) ==> after[other] == before[other])),
{
    law_registered_uri_routes_to_itself(after.dom(), path@.uri());
}

/// Every path a configuration asks for is served under its URI, and under a URI that
/// only one configured path has, it is that path; a URI is served only when some
/// configured path has it.
pub proof fn law_configured_paths_are_served(entries: Seq<PathView>, i: int, uri: Seq<char>)
    requires
        0 <= i < entries.len(),
    ensures
        fold_routes(entries).contains_key(entries[i].uri()),
        (forall|j: int| i < j < entries.len() ==> #[trigger] entries[j].uri() != entries[i].uri())
            ==> fold_routes(entries)[entries[i].uri()] == entries[i],
        fold_routes(entries).contains_key(uri) ==> exists|j: int|
            0 <= j < entries.len() && #[trigger] entries[j].uri() == uri,
    decreases entries.len(),
{
    let last = entries.len() - 1;
    let rest = entries.drop_last();
    if i < last {
        law_configured_paths_are_served(rest, i, uri);
        assert(rest[i] == entries[i]);
        if forall|j: int| i < j < entries.len() ==> #[trigger] entries[j].uri() != entries[i].uri() {
            assert(entries[last].uri() != entries[i].uri());
            assert forall|j: int| i < j < rest.len() implies #[trigger] rest[j].uri() != rest[i].uri() by {
                assert(rest[j] == entries[j]);
            }
        }
    } else if last > 0 {
        law_configured_paths_are_served(rest, 0, uri);
    }
    if fold_routes(entries).contains_key(uri) && uri != entries[last].uri() {
        if last > 0 {
            law_configured_paths_are_served(rest, 0, uri);
            let j = choose|j: int| 0 <= j < rest.len() && #[trigger] rest[j].uri() == uri;
            assert(entries[j] == rest[j]);
        } else {
            assert(rest.len() == 0);
            assert(fold_routes(rest) == Map::<Seq<char>, PathView>::empty());
        }
    }
}

/// A virtual host: its configuration and the paths it serves, each under a URI prefix.
///
/// A request path is routed to the path whose URI is its longest prefix.
pub struct VirtualHost<H> {
    config: VirtualHostConfig,
    paths: Vec<(String, HostPath<H>)>,
    index: Trie<String, usize>,
}

impl<H> VirtualHost<H> {
    /// Every URI of the index names the slot of a path stored under that URI.
    #[verifier::type_invariant]
    closed spec fn well_formed(self) -> bool {
        forall|k: Seq<char>|
            #[trigger] trie_entries(self.index).contains_key(k) ==> {
                let i = trie_entries(self.index)[k] as int;
                &&& 0 <= i < self.paths@.len()
                &&& self.paths@[i].0@ == k
            }
    }

    /// The paths of this virtual host, by URI.
    pub closed spec fn routes(self) -> Map<Seq<char>, HostPath<H>> {
        Map::new(
            |k: Seq<char>| trie_entries(self.index).contains_key(k),
            |k: Seq<char>| self.paths@[trie_entries(self.index)[k] as int].1,
        )
    }

    /// The paths of this virtual host, by URI, without their handlers.
    pub open spec fn path_views(self) -> Map<Seq<char>, PathView> {
        self.routes().map_values(|p: HostPath<H>| p@)
    }

    /// The configuration of this virtual host.
    pub closed spec fn settings(self) -> VirtualHostSettings {
        self.config@
    }

    /// Creates a virtual host with the paths its configuration asks for: a static path
    /// for each static path configuration and then a proxy path for each proxy path
    /// configuration.
    pub fn new(config: VirtualHostConfig) -> (res: Self)
        ensures
            res.settings() == config@,
            res.path_views() == fold_routes(configured_paths(config@)),
    {
        let mut pending: Vec<HostPath<H>> = Vec::new();
        let ghost settings = config@;
        match config.static_paths() {
            Some(statics) => {
                let mut i: usize = 0;
                while i < statics.len()
                    invariant
                        i <= statics@.len(),
                        pending@.map_values(|p: HostPath<H>| p@) == statics@.take(
                            i as int,
                        ).map_values(|c: StaticPathConfig| PathView::Static(c@)),
                    decreases statics@.len() - i,
                {
                    let path = HostPath::Static(StaticPath::new(statics[i].duplicate()));
                    let ghost before = pending@;
                    pending.push(path);
                    proof {
                        assert(statics@.take(i + 1) =~= statics@.take(i as int).push(statics@[i as int]));
                        assert(pending@.map_values(|p: HostPath<H>| p@) =~= before.map_values(
                            |p: HostPath<H>| p@,
                        ).push(path@));
                        assert(statics@.take(i + 1).map_values(
                            |c: StaticPathConfig| PathView::Static(c@),
                        ) =~= statics@.take(i as int).map_values(
                            |c: StaticPathConfig| PathView::Static(c@),
                        ).push(PathView::Static(statics@[i as int]@)));
                    }
                    i = i + 1;
                }
                proof {
                    assert(statics@.take(i as int) =~= statics@);
                }
            },
            None => {},
        }
        let ghost static_views = pending@.map_values(|p: HostPath<H>| p@);
        match config.proxy_paths() {
            Some(proxies) => {
                let mut i: usize = 0;
                while i < proxies.len()
                    invariant
                        i <= proxies@.len(),
                        pending@.map_values(|p: HostPath<H>| p@) == static_views + proxies@.take(
                            i as int,
                        ).map_values(|c: ProxyPathConfig| PathView::Proxy(c@)),
                    decreases proxies@.len() - i,
                {
                    let path = HostPath::Proxy(ProxyPath::new(proxies[i].duplicate()));
                    let ghost before = pending@;
                    pending.push(path);
                    proof {
                        assert(proxies@.take(i + 1) =~= proxies@.take(i as int).push(proxies@[i as int]));
                        assert(pending@.map_values(|p: HostPath<H>| p@) =~= before.map_values(
                            |p: HostPath<H>| p@,
                        ).push(path@));
                        assert(proxies@.take(i + 1).map_values(
                            |c: ProxyPathConfig| PathView::Proxy(c@),
                        ) =~= proxies@.take(i as int).map_values(
                            |c: ProxyPathConfig| PathView::Proxy(c@),
                        ).push(PathView::Proxy(proxies@[i as int]@)));
                        assert(static_views + proxies@.take(i + 1).map_values(
                            |c: ProxyPathConfig| PathView::Proxy(c@),
                        ) =~= (static_views + proxies@.take(i as int).map_values(
                            |c: ProxyPathConfig| PathView::Proxy(c@),
                        )).push(PathView::Proxy(proxies@[i as int]@)));
                    }
                    i = i + 1;
                }
                proof {
                    assert(proxies@.take(i as int) =~= proxies@);
                }
            },
            None => {
                proof {
                    assert(pending@.map_values(|p: HostPath<H>| p@) =~= static_views + Seq::<
                        PathView,
                    >::empty());
                }
            },
        }
        let ghost views = pending@.map_values(|p: HostPath<H>| p@);
        proof {
            assert(views == configured_paths(settings));
        }
        let mut host = VirtualHost { config, paths: Vec::new(), index: trie_new() };
        proof {
            assert(host.routes() =~= Map::<Seq<char>, HostPath<H>>::empty());
            assert(host.path_views() =~= fold_routes(views.take(0)));
        }
        let n = pending.len();
        let mut k: usize = 0;
        while k < n
            invariant
                k <= n,
                n == views.len(),
                pending@.len() == n - k,
                forall|j: int| 0 <= j < pending@.len() ==> #[trigger] pending@[j]@ == views[k + j],
                host.settings() == settings,
                host.path_views() == fold_routes(views.take(k as int)),
            decreases n - k,
        {
            let ghost before = host.routes();
            let ghost rest = pending@;
            let path = pending.remove(0);
            proof {
                assert(path@ == views[k as int]);
                assert forall|j: int| 0 <= j < pending@.len() implies #[trigger] pending@[j]@ == views[k + 1 + j] by {
                    assert(pending@[j] == rest[j + 1]);
                    assert(rest[j + 1]@ == views[k + (j + 1)]);
                }
            }
            host.add_path(path);
            proof {
                assert(views.take(k + 1).drop_last() =~= views.take(k as int));
                assert(host.path_views() =~= before.map_values(|p: HostPath<H>| p@).insert(
                    views[k as int].uri(),
                    views[k as int],
                ));
            }
            k = k + 1;
        }
        proof {
            assert(views.take(n as int) =~= views);
        }
        host
    }

    /// Adds a path under its URI; a path added earlier under the same URI is replaced.
    pub fn add_path(&mut self, path: HostPath<H>)
        ensures
            final(self).settings() == old(self).settings(),
            final(self).routes() == old(self).routes().insert(path@.uri(), path),
    {
        proof {
            use_type_invariant(&*self);
        }
        let uri = path.uri().to_owned();
        let slot = self.paths.len();
        let ghost old_paths = self.paths@;
        let ghost old_index = self.index;
        let ghost key = uri@;
        let mut index = trie_new();
        std::mem::swap(&mut index, &mut self.index);
        let mut paths = Vec::new();
        std::mem::swap(&mut paths, &mut self.paths);
        let key_text = uri.clone();
        paths.push((uri, path));
        let _ = trie_insert(&mut index, key_text, slot);
        std::mem::swap(&mut paths, &mut self.paths);
        proof {
            assert forall|k: Seq<char>| #[trigger]
                trie_entries(index).contains_key(k) implies {
                let i = trie_entries(index)[k] as int;
                &&& 0 <= i < self.paths@.len()
                &&& self.paths@[i].0@ == k
            } by {
                if k != key {
                    assert(trie_entries(old_index).contains_key(k));
                    let i = trie_entries(old_index)[k] as int;
                    assert(0 <= i < old_paths.len() && old_paths[i].0@ == k);
                    assert(self.paths@[i] == old_paths[i]);
                }
            }
        }
        std::mem::swap(&mut index, &mut self.index);
        proof {
            assert(self.routes() =~= old(self).routes().insert(key, path));
        }
    }

    /// Returns the configuration.
    pub fn config(&self) -> (res: &VirtualHostConfig)
        ensures
            res@ == self.settings(),
    {
        &self.config
    }

    /// Returns the hostname.
    pub fn hostname(&self) -> (res: &str)
        ensures
            res@ == self.settings().hostname,
    {
        self.config.hostname()
    }

    /// Returns the port.
    pub fn port(&self) -> (res: u16)
        ensures
            res == self.settings().port,
    {
        self.config.port()
    }

    /// Returns whether this virtual host uses TLS.
    pub fn is_secure(&self) -> (res: bool)
        ensures
            res == self.settings().security.is_some(),
    {
        self.config.security().is_some()
    }

    /// Returns the file configured for a status code, if any.
    pub fn status_page(&self, status: u16) -> (res: Option<&String>)
        ensures
            match res {
                Some(page) => self.settings().status_pages matches Some(pages) && pages@.contains_key(
                    status,
                ) && pages@[status] == *page,
                None => !(self.settings().status_pages matches Some(pages) && pages@.contains_key(
                    status,
                )),
            },
    {
        broadcast use vstd::std_specs::hash::group_hash_axioms;

        match self.config.status_pages() {
            Some(pages) => pages.get(&status),
            None => None,
        }
    }

    /// Routes a request path: the path registered under the longest URI that is a
    /// prefix of it, and the rest of the request path after that URI.
    pub fn route(&self, request_path: &str) -> (res: Option<(&HostPath<H>, String)>)
        ensures
            match res {
                Some((p, target)) => exists|k: Seq<char>|
                    is_longest_prefix(self.routes().dom(), k, request_path@) && #[trigger] self.routes()[k]
                        == *p && target@ == request_path@.skip(k.len() as int),
                None => forall|k: Seq<char>|
                    #[trigger] self.routes().contains_key(k) ==> !is_prefix(k, request_path@),
            },
    {
        proof {
            use_type_invariant(self);
            assert(self.routes().dom() =~= trie_entries(self.index).dom());
        }
        match trie_ancestor(&self.index, request_path) {
            Some(slot) => {
                let ghost k = choose|k: Seq<char>|
                    is_longest_prefix(trie_entries(self.index).dom(), k, request_path@)
                        && trie_entries(self.index)[k] == slot;
                let entry = &self.paths[slot];
                let uri_len = entry.0.as_str().unicode_len();
                let n = request_path.unicode_len();
                let target = request_path.substring_char(uri_len, n).to_owned();
                proof {
                    assert(self.routes()[k] == entry.1);
                }
                Some((&entry.1, target))
            },
            None => None,
        }
    }
}

} // verus!
