//! Small conversions between this crate's conventions and the daemon's.

use vstd::prelude::*;

verus! {

/// The interface index that stands for "any interface".
pub const BONJOUR_IF_UNSPEC: u32 = 0;

/// The network interface on which to browse.
#[derive(Clone, Copy, Debug, PartialEq, Eq, Structural)]
pub enum NetworkInterface {
    /// No interface in particular: browse on all of them.
    Unspec,
    /// The interface with this index.
    AtIndex(u32),
}

/// The interface index that the daemon is given for `interface`.
pub open spec fn spec_interface_index(interface: NetworkInterface) -> u32 {
    match interface {
        NetworkInterface::Unspec => BONJOUR_IF_UNSPEC,
        NetworkInterface::AtIndex(i) => i,
    }
}

/// Returns the interface index that the daemon is given for `interface`.
pub fn interface_index(interface: NetworkInterface) -> (r: u32)
    ensures
        r == spec_interface_index(interface),
{
    match interface {
        NetworkInterface::Unspec => BONJOUR_IF_UNSPEC,
        NetworkInterface::AtIndex(i) => i,
    }
}

/// A domain without the final `'.'` that the daemon appends in some
/// contexts: `"local."` and `"local"` both normalize to `"local"`.
pub open spec fn normalized_domain(domain: Seq<char>) -> Seq<char> {
    if domain.len() > 0 && domain.last() == '.' {
        domain.drop_last()
    } else {
        domain
    }
}

/// Normalizes `domain` by removing one final `'.'`, if there is one.
pub fn normalize_domain(domain: &str) -> (r: String)
    ensures
        r@ == normalized_domain(domain@),
{
    let n: usize = domain.unicode_len();
    if n > 0 && domain.get_char(n - 1) == '.' {
        domain.substring_char(0, n - 1).to_owned()
    } else {
        domain.to_owned()
    }
}

/// Tells whether `s` holds a NUL character. Such a string cannot be handed
/// to the daemon, which takes NUL-terminated strings.
pub fn contains_nul(s: &str) -> (r: bool)
    ensures
        r == s@.contains('\0'),
{
    let n: usize = s.unicode_len();
    let mut i: usize = 0;
    while i < n
        invariant
            n == s@.len(),
            i <= n,
            forall|j: int| 0 <= j < i ==> s@[j] != '\0',
        decreases n - i,
    {
        if s.get_char(i) == '\0' {
            return true;
        }
        i += 1;
    }
    false
}

} // verus!
