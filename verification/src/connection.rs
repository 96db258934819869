use vstd::prelude::*;
use vstd::assert_by_contradiction;

verus! {

/// Process-local transport context shared by every service of one node.
#[derive(Clone, Copy)]
pub struct ZmqContext {}

impl ZmqContext {
    pub fn new() -> ZmqContext {
        ZmqContext {}
    }
}

/// Relies on rand::random: draws a machine random value; nothing is promised of it.
#[verifier::external_body]
pub(crate) fn random_u64() -> u64 {
    rand::random::<u64>()
}

/// An opaque process-local endpoint identifier used to connect two in-process
/// components. Two addresses with equal tokens denote the same channel
/// endpoint. The zero token is the reserved default and never denotes a live
/// channel.
#[derive(Clone, Copy, PartialEq, Eq, Structural, Debug)]
pub struct InprocAddress {
    pub token: u64,
}

impl InprocAddress {
    /// Whether this address still holds the reserved default token.
    pub open spec fn spec_is_default(self) -> bool {
        self.token == 0
    }

    /// Whether this address still holds the reserved default token.
    pub fn is_default(&self) -> (r: bool)
        ensures
            r == self.spec_is_default(),
    {
        self.token == 0
    }

    /// A fresh non-default address.
    pub fn random() -> (r: InprocAddress)
        ensures
            !r.spec_is_default(),
    {
        let t = random_u64();
        if t != 0 {
            InprocAddress { token: t }
        } else {
            InprocAddress { token: 1 }
        }
    }

    /// A fresh non-default address distinct from every address in `excluded`,
    /// so that the new channel cannot silently merge with an existing one.
    /// Normally the address is random; if the random token is already taken, a
    /// deterministic scan finds a free one, which must exist because there are
    /// more candidate tokens than excluded addresses.
    pub fn random_excluding(excluded: &Vec<InprocAddress>) -> (r: InprocAddress)
        requires
            excluded@.len() < usize::MAX,
        ensures
            !r.spec_is_default(),
            forall|i: int| 0 <= i < excluded@.len() ==> r != excluded@[i],
    {
        let t = random_u64();
        if t != 0 {
            let candidate = InprocAddress { token: t };
            if !contains_address(excluded, candidate) {
                return candidate;
            }
        }
        proof {
            lemma_free_token_exists(excluded@);
        }
        let ghost b0 = choose|b: int|
            1 <= b <= excluded@.len() + 1 && #[trigger] token_unused(excluded@, b);
        let n = excluded.len();
        let mut c: usize = 1;
        loop
            invariant
                n == excluded@.len() < usize::MAX,
                1 <= c <= b0,
                1 <= b0 <= n + 1,
                token_unused(excluded@, b0),
            decreases n + 1 - c,
        {
            let candidate = InprocAddress { token: c as u64 };
            if !contains_address(excluded, candidate) {
                return candidate;
            }
            proof {
                let j = choose|j: int| 0 <= j < excluded@.len() && excluded@[j] == candidate;
                assert(excluded@[j].token == c);
            }
            c += 1;
        }
    }
}

/// No address in `excluded` carries the token `b`.
spec fn token_unused(excluded: Seq<InprocAddress>, b: int) -> bool {
    forall|j: int| 0 <= j < excluded.len() ==> (#[trigger] excluded[j]).token != b
}

/// There are more candidate tokens `1 ..= len + 1` than excluded addresses, so
/// they cannot all be taken.
proof fn lemma_free_token_exists(excluded: Seq<InprocAddress>)
    ensures
        exists|b: int| 1 <= b <= excluded.len() + 1 && #[trigger] token_unused(excluded, b),
{
    let n = excluded.len() as int;
    assert_by_contradiction!(
        exists|b: int| 1 <= b <= excluded.len() + 1 && #[trigger] token_unused(excluded, b),
        {
            assert forall|b: int| 1 <= b <= n + 1 implies !(#[trigger] token_unused(
                excluded,
                b,
            )) by {
            }
            let candidates = vstd::set_lib::set_int_range(1, n + 2);
            vstd::set_lib::lemma_int_range(1, n + 2);
            let f = |b: int| choose|j: int| 0 <= j < n && (#[trigger] excluded[j]).token == b;
            assert forall|b: int| candidates.contains(b) implies 0 <= f(b) < n
                && excluded[f(b)].token == b by {
                assert(!token_unused(excluded, b));
                assert(exists|j: int| 0 <= j < n && (#[trigger] excluded[j]).token == b);
            }
            assert(vstd::relations::injective_on(f, candidates)) by {
                assert forall|b1: int, b2: int|
                    #![trigger f(b1), f(b2)]
                    candidates.contains(b1) && candidates.contains(b2) && f(b1) == f(b2)
                    implies b1 == b2 by {
                    assert(excluded[f(b1)].token == b1);
                    assert(excluded[f(b2)].token == b2);
                }
            }
            let image = candidates.map(f);
            vstd::set_lib::lemma_map_size(candidates, image, f);
            assert(image.subset_of(vstd::set_lib::set_int_range(0, n))) by {
                assert forall|y: int| image.contains(y) implies 0 <= y < n by {
                    let b = choose|b: int| candidates.contains(b) && f(b) == y;
                    assert(0 <= f(b) < n);
                }
            }
            vstd::set_lib::lemma_int_range(0, n);
            vstd::set_lib::lemma_len_subset(image, vstd::set_lib::set_int_range(0, n));
            assert(image.len() == n + 1);
            assert(image.len() <= n);
        }
    );
}

impl Default for InprocAddress {
    /// The reserved default address.
    fn default() -> (r: Self)
        ensures
            r.spec_is_default(),
    {
        InprocAddress { token: 0 }
    }
}

fn contains_address(addresses: &Vec<InprocAddress>, a: InprocAddress) -> (r: bool)
    ensures
        r == exists|i: int| 0 <= i < addresses@.len() && addresses@[i] == a,
{
    let mut i: usize = 0;
    while i < addresses.len()
        invariant
            i <= addresses@.len(),
            forall|j: int| 0 <= j < i ==> addresses@[j] != a,
        decreases addresses@.len() - i,
    {
        if addresses[i] == a {
            return true;
        }
        i += 1;
    }
    false
}

/// Failure inside a peer connection, reported by the connection manager.
#[derive(Clone, Copy, PartialEq, Eq, Structural, Debug)]
pub struct ConnectionError {}

/// Failure of a dealer proxy between two internal endpoints.
#[derive(Clone, Copy, PartialEq, Eq, Structural, Debug)]
pub struct DealerProxyError {}

/// Failure while binding a domain connector to an internal address.
#[derive(Clone, Copy, PartialEq, Eq, Structural, Debug)]
pub struct ConnectorError {}

/// A consumer endpoint bound to one internal address; messages routed to that
/// address are read through this connector.
pub struct DomainConnector {
    pub address: InprocAddress,
}

impl DomainConnector {
    /// Binds a new consumer endpoint to the given internal address.
    pub fn listen(_context: &ZmqContext, address: &InprocAddress) -> (r: Result<
        DomainConnector,
        ConnectorError,
    >)
        ensures
            r matches Ok(c) && c.address == *address,
    {
        Ok(DomainConnector { address: *address })
    }
}

} // verus!
