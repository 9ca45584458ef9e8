use vstd::prelude::*;
use vstd::utf8::encode_utf8;

verus! {

/// A local network interface, with each bound address rendered as text.
#[derive(Clone, Debug)]
pub struct NetInterface {
    pub name: String,
    pub addresses: Vec<String>,
}

/// Whether the UTF-8 encoding of `s` begins with that of `prefix`.
pub open spec fn text_starts_with(s: Seq<char>, prefix: Seq<char>) -> bool {
    let b = encode_utf8(s);
    let q = encode_utf8(prefix);
    q.len() <= b.len() && b.subrange(0, q.len() as int) == q
}

/// Whether some address of the interface begins with the prefix.
pub open spec fn has_matching_address(iface: NetInterface, prefix: Seq<char>) -> bool {
    exists|j: int|
        0 <= j < iface.addresses@.len() && #[trigger] text_starts_with(
            iface.addresses@[j]@,
            prefix,
        )
}

/// The interface chosen for a prefix: the first one with a matching address, if any.
pub open spec fn first_matching(ifaces: Seq<NetInterface>, prefix: Seq<char>, r: Option<usize>) -> bool {
    match r {
        Some(i) => {
            &&& i < ifaces.len()
            &&& has_matching_address(ifaces[i as int], prefix)
            &&& forall|k: int| 0 <= k < i ==> !#[trigger] has_matching_address(ifaces[k], prefix)
        },
        None => forall|k: int| 0 <= k < ifaces.len() ==> !#[trigger] has_matching_address(ifaces[k], prefix),
    }
}

fn bytes_start_with(s: &[u8], prefix: &[u8]) -> (r: bool)
    ensures
        r == (prefix@.len() <= s@.len() && s@.subrange(0, prefix@.len() as int) == prefix@),
{
    if prefix.len() > s.len() {
        return false;
    }
    let mut i: usize = 0;
    while i < prefix.len()
        invariant
            prefix.len() <= s.len(),
            i <= prefix.len(),
            forall|k: int| 0 <= k < i ==> s@[k] == prefix@[k],
        decreases prefix.len() - i,
    {
        if s[i] != prefix[i] {
            assert(s@.subrange(0, prefix@.len() as int)[i as int] != prefix@[i as int]);
            return false;
        }
        i = i + 1;
    }
    assert(s@.subrange(0, prefix@.len() as int) =~= prefix@);
    true
}

/// Whether the text of `addr` begins with `prefix`.
pub fn address_matches(addr: &str, prefix: &str) -> (r: bool)
    ensures
        r == text_starts_with(addr@, prefix@),
{
    bytes_start_with(addr.as_bytes(), prefix.as_bytes())
}

/// Whether some address of `iface` begins with `prefix`.
pub fn interface_matches(iface: &NetInterface, prefix: &str) -> (r: bool)
    ensures
        r == has_matching_address(*iface, prefix@),
{
    let mut j: usize = 0;
    while j < iface.addresses.len()
        invariant
            j <= iface.addresses@.len(),
            forall|k: int| 0 <= k < j ==> !#[trigger] text_starts_with(iface.addresses@[k]@, prefix@),
        decreases iface.addresses.len() - j,
    {
        if address_matches(iface.addresses[j].as_str(), prefix) {
            return true;
        }
        j = j + 1;
    }
    false
}

/// Returns the position of the first interface that has an address beginning with `prefix`,
/// or `None` when no interface has one.
pub fn select_interface(interfaces: &Vec<NetInterface>, prefix: &str) -> (r: Option<usize>)
    ensures
        first_matching(interfaces@, prefix@, r),
{
    let mut i: usize = 0;
    while i < interfaces.len()
        invariant
            i <= interfaces@.len(),
            forall|k: int| 0 <= k < i ==> !#[trigger] has_matching_address(interfaces@[k], prefix@),
        decreases interfaces.len() - i,
    {
        if interface_matches(&interfaces[i], prefix) {
            return Some(i);
        }
        i = i + 1;
    }
    None
}

} // verus!
