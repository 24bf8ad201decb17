//! Addresses, subnet prefixes and probe targets.
//!
//! A sweep starts from the machine's local IPv4 addresses. Each address
//! yields its /24 subnet prefix (the first three octets), and a prefix yields
//! exactly 254 probe targets, one per host suffix 1..=254 — the network
//! address (suffix 0) and the broadcast address (suffix 255) are excluded by
//! construction.

use vstd::prelude::*;
use vstd::string::StringExecFns;

use crate::text::dec_of;
use crate::text::append_decimal;

verus! {

/// An IPv4 address bound to a local interface, as its four octets.
#[derive(Clone, Copy, PartialEq, Eq, Structural, Debug)]
pub struct LocalAddress {
    pub o0: u8,
    pub o1: u8,
    pub o2: u8,
    pub o3: u8,
}

/// The first three octets of an address: one /24 subnet.
#[derive(Clone, Copy, PartialEq, Eq, Structural, Debug)]
pub struct SubnetPrefix {
    pub a: u8,
    pub b: u8,
    pub c: u8,
}

/// One concrete address to probe: a prefix plus a host suffix in 1..=254.
#[derive(Clone, Copy, PartialEq, Eq, Structural, Debug)]
pub struct ProbeTarget {
    pub prefix: SubnetPrefix,
    pub suffix: u8,
}

impl ProbeTarget {
    /// A target's suffix stays inside the host range of a /24.
    pub open spec fn wf(self) -> bool {
        1 <= self.suffix <= 254
    }
}

/// The /24 prefix of an address.
pub open spec fn prefix_of(addr: LocalAddress) -> SubnetPrefix {
    SubnetPrefix { a: addr.o0, b: addr.o1, c: addr.o2 }
}

/// The dotted-decimal text of a full IPv4 address.
pub open spec fn ip_text(a: u8, b: u8, c: u8, d: u8) -> Seq<char> {
    dec_of(a as nat) + seq!['.'] + dec_of(b as nat) + seq!['.'] + dec_of(c as nat) + seq!['.']
        + dec_of(d as nat)
}

/// The textual IP address of a probe target.
pub open spec fn target_text(t: ProbeTarget) -> Seq<char> {
    ip_text(t.prefix.a, t.prefix.b, t.prefix.c, t.suffix)
}

/// Whether an address is the IPv4 loopback address 127.0.0.1, which local
/// discovery skips.
pub fn is_loopback(addr: &LocalAddress) -> (b: bool)
    ensures
        b == (addr.o0 == 127 && addr.o1 == 0 && addr.o2 == 0 && addr.o3 == 1),
{
    addr.o0 == 127 && addr.o1 == 0 && addr.o2 == 0 && addr.o3 == 1
}

/// The /24 prefix of an address.
pub fn subnet_prefix(addr: &LocalAddress) -> (p: SubnetPrefix)
    ensures
        p == prefix_of(*addr),
{
    SubnetPrefix { a: addr.o0, b: addr.o1, c: addr.o2 }
}

/// The dotted-decimal string of four octets.
pub fn address_string(a: u8, b: u8, c: u8, d: u8) -> (r: String)
    ensures
        r@ == ip_text(a, b, c, d),
{
    let mut s = String::new();
    append_decimal(&mut s, a as u64);
    append_dot(&mut s);
    append_decimal(&mut s, b as u64);
    append_dot(&mut s);
    append_decimal(&mut s, c as u64);
    append_dot(&mut s);
    append_decimal(&mut s, d as u64);
    assert(s@ =~= ip_text(a, b, c, d));
    s
}

/// The textual IP address of a probe target.
pub fn target_string(t: &ProbeTarget) -> (r: String)
    ensures
        r@ == target_text(*t),
{
    address_string(t.prefix.a, t.prefix.b, t.prefix.c, t.suffix)
}

/// Append the octet separator.
fn append_dot(s: &mut String)
    ensures
        final(s)@ == old(s)@ + seq!['.'],
{
    proof {
        reveal_strlit(".");
        assert("."@ =~= seq!['.']);
    }
    s.append(".");
}

/// The 254 probe targets of a prefix, with suffixes 1 through 254 inclusive,
/// in ascending order. Suffixes 0 and 255 never occur.
pub fn targets_of(prefix: SubnetPrefix) -> (r: Vec<ProbeTarget>)
    ensures
        r@.len() == 254,
        forall|i: int| 0 <= i < 254 ==> r@[i].prefix == prefix && r@[i].suffix == i + 1,
        forall|i: int| 0 <= i < 254 ==> (#[trigger] r@[i]).wf(),
{
    let mut r: Vec<ProbeTarget> = Vec::new();
    let mut i: usize = 0;
    while i < 254
        invariant
            i <= 254,
            r@.len() == i,
            forall|j: int| 0 <= j < i ==> r@[j].prefix == prefix && r@[j].suffix == j + 1,
        decreases 254 - i,
    {
        let suffix: u8 = (i as u8) + 1;
        r.push(ProbeTarget { prefix, suffix });
        i = i + 1;
    }
    r
}

} // verus!
