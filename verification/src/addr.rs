//! Network addresses and the localnet filter of the address-exchange
//! protocol.
//!
//! An [`Addr`] carries only what dialing needs: a host and a port. A host may
//! be empty, which models an address without a usable host part; such entries
//! are never stored outside local-network mode.

use vstd::prelude::*;

verus! {

/// A peer's network address: host and port.
#[derive(Debug)]
pub struct Addr {
    pub host: String,
    pub port: u16,
}

impl View for Addr {
    type V = (Seq<char>, u16);

    open spec fn view(&self) -> (Seq<char>, u16) {
        (self.host@, self.port)
    }
}

impl Addr {
    pub fn new(host: String, port: u16) -> (r: Addr)
        ensures
            r@ == (host@, port),
    {
        Addr { host, port }
    }

    /// A field-for-field copy.
    pub fn duplicate(&self) -> (r: Addr)
        ensures
            r@ == self@,
    {
        Addr { host: self.host.clone(), port: self.port }
    }
}

impl PartialEq for Addr {
    fn eq(&self, other: &Addr) -> (r: bool) {
        self.host == other.host && self.port == other.port
    }
}

impl vstd::std_specs::cmp::PartialEqSpecImpl for Addr {
    open spec fn obeys_eq_spec() -> bool {
        true
    }

    open spec fn eq_spec(&self, other: &Addr) -> bool {
        self@ == other@
    }
}

/// The loopback / any-interface host literals that local-network filtering
/// removes.
pub open spec fn is_localnet_host(h: Seq<char>) -> bool {
    ||| h == "localhost"@
    ||| h == "0.0.0.0"@
    ||| h == "[::]"@
    ||| h == "127.0.0.1"@
    ||| h == "[::1]"@
}

/// An address survives localnet filtering when its host is neither empty nor
/// one of the localnet literals.
pub open spec fn keeps_addr(a: (Seq<char>, u16)) -> bool {
    a.0.len() > 0 && !is_localnet_host(a.0)
}

/// The view of a list of addresses.
pub open spec fn addrs_view(v: Seq<Addr>) -> Seq<(Seq<char>, u16)> {
    v.map_values(|a: Addr| a@)
}

fn addr_survives(a: &Addr) -> (r: bool)
    ensures
        r == keeps_addr(a@),
{
    !(a.host.as_str().is_empty() || a.host == "localhost".to_owned() || a.host == "0.0.0.0".to_owned()
        || a.host == "[::]".to_owned() || a.host == "127.0.0.1".to_owned()
        || a.host == "[::1]".to_owned())
}

/// Copies a list of addresses value for value.
pub fn duplicate_addrs(v: &Vec<Addr>) -> (r: Vec<Addr>)
    ensures
        addrs_view(r@) == addrs_view(v@),
{
    let mut out: Vec<Addr> = Vec::new();
    let mut i: usize = 0;
    while i < v.len()
        invariant
            i <= v.len(),
            out@.len() == i,
            forall|k: int| 0 <= k < i ==> out@[k]@ == v@[k]@,
        decreases v.len() - i,
    {
        out.push(v[i].duplicate());
        i = i + 1;
    }
    proof {
        assert(addrs_view(out@) =~= addrs_view(v@));
    }
    out
}

/// Removes every entry with an empty host or a localnet host, preserving the
/// relative order of all the others.
pub fn filter_localnet(addrs: &Vec<Addr>) -> (r: Vec<Addr>)
    ensures
        addrs_view(r@) == addrs_view(addrs@).filter(|a: (Seq<char>, u16)| keeps_addr(a)),
{
    let mut out: Vec<Addr> = Vec::new();
    let mut i: usize = 0;
    while i < addrs.len()
        invariant
            i <= addrs.len(),
            addrs_view(out@) == addrs_view(addrs@.take(i as int)).filter(|a: (Seq<char>, u16)| keeps_addr(a)),
        decreases addrs.len() - i,
    {
        let ghost prefix = addrs_view(addrs@.take(i as int));
        let a = &addrs[i];
        if addr_survives(a) {
            out.push(a.duplicate());
        }
        i = i + 1;
        proof {
            let next = addrs_view(addrs@.take(i as int));
            assert(next.drop_last() =~= prefix);
            assert(next.last() == addrs@[i - 1]@);
            reveal(Seq::filter);
            assert(addrs_view(out@) =~= next.filter(|a: (Seq<char>, u16)| keeps_addr(a)));
        }
    }
    proof {
        assert(addrs@.take(addrs@.len() as int) =~= addrs@);
    }
    out
}

} // verus!
