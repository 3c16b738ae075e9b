//! The endpoint resolver's per-window cache: a mapping from address to
//! display name, populated lazily, cleared on every window flush.
//!
//! The cache itself decides nothing about how a name is obtained: it reports
//! whether an underlying lookup is still needed ([`ResolverCache::resolve_local`]
//! returns `None`), and the lookup's outcome is handed back through
//! [`ResolverCache::complete`], which falls back to the literal address form
//! when the lookup failed.

use vstd::prelude::*;
use crate::frame::Addr;
use crate::text::spec_addr_str;
use crate::text::addr_to_string;

verus! {

/// Compare two addresses byte for byte.
pub fn addr_eq_exec(a: &Addr, b: &Addr) -> (r: bool)
    ensures
        r == (*a == *b),
{
    match (a, b) {
        (Addr::V4(x), Addr::V4(y)) => {
            let mut i: usize = 0;
            let mut eq = true;
            while i < 4
                invariant
                    0 <= i <= 4,
                    eq == (forall|j: int| 0 <= j < i ==> x[j] == y[j]),
                decreases 4 - i,
            {
                if x[i] != y[i] {
                    eq = false;
                }
                i += 1;
            }
            proof {
                if eq {
                    broadcast use vstd::array::group_array_axioms;
                    assert(*x =~= *y);
                }
            }
            eq
        },
        (Addr::V6(x), Addr::V6(y)) => {
            let mut i: usize = 0;
            let mut eq = true;
            while i < 16
                invariant
                    0 <= i <= 16,
                    eq == (forall|j: int| 0 <= j < i ==> x[j] == y[j]),
                decreases 16 - i,
            {
                if x[i] != y[i] {
                    eq = false;
                }
                i += 1;
            }
            proof {
                if eq {
                    broadcast use vstd::array::group_array_axioms;
                    assert(*x =~= *y);
                }
            }
            eq
        },
        _ => false,
    }
}

/// The name cached for `a` in `entries`, if any.
pub open spec fn spec_find_name(entries: Seq<(Addr, Seq<char>)>, a: Addr) -> Option<Seq<char>>
    decreases entries.len(),
{
    if entries.len() == 0 {
        None
    } else if entries[0].0 == a {
        Some(entries[0].1)
    } else {
        spec_find_name(entries.drop_first(), a)
    }
}

/// A per-window cache from address to display name.
pub struct ResolverCache {
    entries: Vec<(Addr, String)>,
    resolve_names: bool,
}

impl ResolverCache {
    /// The cache contents as a sequence of `(address, name)` pairs.
    pub closed spec fn entries_view(self) -> Seq<(Addr, Seq<char>)> {
        self.entries@.map_values(|e: (Addr, String)| (e.0, e.1@))
    }

    /// Whether reverse resolution is enabled by configuration.
    pub closed spec fn spec_resolve_names(self) -> bool {
        self.resolve_names
    }

    /// The cached name for an address, if one is stored.
    pub open spec fn spec_find(self, a: Addr) -> Option<Seq<char>> {
        spec_find_name(self.entries_view(), a)
    }

    /// Whether resolving `a` still requires an underlying lookup.
    pub open spec fn spec_lookup_needed(self, a: Addr) -> bool {
        self.spec_resolve_names() && self.spec_find(a) is None
    }

    /// A fresh, empty cache.
    pub fn new(resolve_names: bool) -> (c: ResolverCache)
        ensures
            c.spec_resolve_names() == resolve_names,
            forall|a: Addr| c.spec_find(a) is None,
    {
        let c = ResolverCache { entries: Vec::new(), resolve_names };
        proof {
            assert(c.entries_view() =~= Seq::<(Addr, Seq<char>)>::empty());
        }
        c
    }

    /// Whether an underlying lookup is needed to resolve `a`.
    pub fn lookup_needed(&self, a: &Addr) -> (r: bool)
        ensures
            r == self.spec_lookup_needed(*a),
    {
        self.resolve_names && self.find(a).is_none()
    }

    /// The cached name for `a`, as an owned string.
    fn find(&self, a: &Addr) -> (r: Option<String>)
        ensures
            match r {
                Some(n) => self.spec_find(*a) == Some(n@),
                None => self.spec_find(*a) is None,
            },
    {
        let ghost ev = self.entries_view();
        proof {
            assert(ev.skip(0) =~= ev);
        }
        let n = self.entries.len();
        let mut i: usize = 0;
        while i < n
            invariant
                ev == self.entries_view(),
                n == self.entries@.len(),
                0 <= i <= n,
                forall|j: int| 0 <= j < i ==> (#[trigger] ev[j]).0 != *a,
                spec_find_name(ev, *a) == spec_find_name(ev.skip(i as int), *a),
            decreases n - i,
        {
            proof {
                assert(ev.skip(i as int)[0] == ev[i as int]);
            }
            if addr_eq_exec(&self.entries[i].0, a) {
                let name = self.entries[i].1.clone();
                return Some(name);
            }
            proof {
                assert(ev.skip(i as int).drop_first() =~= ev.skip(i as int + 1));
            }
            i += 1;
        }
        proof {
            assert(ev.skip(n as int) =~= Seq::<(Addr, Seq<char>)>::empty());
        }
        None
    }

    /// Resolve `a` without any underlying lookup, where that is possible:
    /// returns the cached name on a hit, the literal address form when
    /// resolution is disabled, and `None` exactly when a lookup is needed.
    /// The cache is not changed.
    pub fn resolve_local(&self, a: &Addr) -> (r: Option<String>)
        ensures
            r is None <==> self.spec_lookup_needed(*a),
            r matches Some(n) ==> n@ == if self.spec_resolve_names() {
                self.spec_find(*a).unwrap()
            } else {
                spec_addr_str(*a)
            },
    {
        if !self.resolve_names {
            Some(addr_to_string(a))
        } else {
            self.find(a)
        }
    }

    /// Store the outcome of an underlying lookup for `a` and return the
    /// display name: the resolved name on success, the literal address form
    /// on failure. If `a` is already cached, its entry is kept and returned
    /// and the outcome is discarded.
    pub fn complete(&mut self, a: &Addr, looked_up: Option<String>) -> (r: String)
        ensures
            final(self).spec_resolve_names() == old(self).spec_resolve_names(),
            match old(self).spec_find(*a) {
                Some(n) => r@ == n && *final(self) == *old(self),
                None => {
                    &&& r@ == match looked_up {
                        Some(n) => n@,
                        None => spec_addr_str(*a),
                    }
                    &&& final(self).spec_find(*a) == Some(r@)
                    &&& forall|b: Addr|
                        b != *a ==> #[trigger] final(self).spec_find(b) == old(self).spec_find(b)
                },
            },
    {
        match self.find(a) {
            Some(n) => n,
            None => {
                let name = match looked_up {
                    Some(n) => n,
                    None => addr_to_string(a),
                };
                let ghost ev0 = self.entries_view();
                self.entries.push((*a, name.clone()));
                proof {
                    let ev1 = self.entries_view();
                    assert(ev1 =~= ev0.push((*a, name@)));
                    assert forall|b: Addr| true implies #[trigger] spec_find_name(ev1, b) == (
                    if spec_find_name(ev0, b) is Some {
                        spec_find_name(ev0, b)
                    } else if b == *a {
                        Some(name@)
                    } else {
                        None
                    }) by {
                        lemma_find_push(ev0, (*a, name@), b);
                    }
                }
                name
            },
        }
    }

    /// Drop every cached entry; the configuration is kept. Performed once
    /// per window flush, in lock-step with the aggregation window reset.
    pub fn clear(&mut self)
        ensures
            final(self).spec_resolve_names() == old(self).spec_resolve_names(),
            forall|a: Addr| final(self).spec_find(a) is None,
    {
        self.entries = Vec::new();
        proof {
            assert(self.entries_view() =~= Seq::<(Addr, Seq<char>)>::empty());
        }
    }
}

/// Appending an entry leaves every earlier binding in place and binds its
/// own address only where it was unbound.
pub proof fn lemma_find_push(ev: Seq<(Addr, Seq<char>)>, p: (Addr, Seq<char>), b: Addr)
    ensures
        spec_find_name(ev.push(p), b) == if spec_find_name(ev, b) is Some {
            spec_find_name(ev, b)
        } else if b == p.0 {
            Some(p.1)
        } else {
            None
        },
    decreases ev.len(),
{
    if ev.len() == 0 {
        assert(ev.push(p)[0] == p);
        assert(ev.push(p).drop_first() =~= Seq::<(Addr, Seq<char>)>::empty());
        assert(spec_find_name(ev.push(p).drop_first(), b) is None);
        if p.0 == b {
            assert(spec_find_name(ev.push(p), b) == Some(p.1));
        } else {
            assert(spec_find_name(ev.push(p), b) is None);
        }
    } else {
        assert(ev.push(p)[0] == ev[0]);
        assert(ev.push(p).drop_first() =~= ev.drop_first().push(p));
        lemma_find_push(ev.drop_first(), p, b);
        if ev[0].0 == b {
            assert(spec_find_name(ev.push(p), b) == Some(ev[0].1));
            assert(spec_find_name(ev, b) == Some(ev[0].1));
        } else {
            assert(spec_find_name(ev.push(p), b) == spec_find_name(ev.drop_first().push(p), b));
            assert(spec_find_name(ev, b) == spec_find_name(ev.drop_first(), b));
        }
    }
}

/// Resolution-cache idempotence: once an address is cached — in particular,
/// right after the first lookup for it completes — resolving it again within
/// the same window needs no further underlying lookup. Only a flush's clear
/// empties the cache and lets a later window look the address up anew.
pub proof fn lemma_resolution_idempotent(c: ResolverCache, a: Addr, n: Seq<char>)
    ensures
        c.spec_find(a) == Some(n) ==> !c.spec_lookup_needed(a),
        !c.spec_resolve_names() ==> !c.spec_lookup_needed(a),
{
}

} // verus!
