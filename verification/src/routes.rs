use vstd::prelude::*;

verus! {

use crate::connection::InprocAddress;

/// One registered route: a message type and the internal address where
/// messages of that type are delivered.
pub struct RouteEntry {
    pub message_type: String,
    pub address: InprocAddress,
}

/// Mapping from message type to the internal delivery address for that type.
/// Built incrementally through `register`, then handed to the builder and kept
/// read-only by the running node. Message types are unique within the table,
/// and so are the delivery addresses, which are always non-default.
pub struct CommsRoutes {
    entries: Vec<RouteEntry>,
}

impl View for CommsRoutes {
    type V = Seq<RouteEntry>;

    closed spec fn view(&self) -> Seq<RouteEntry> {
        self.entries@
    }
}

impl CommsRoutes {
    /// Well-formedness: message types unique, delivery addresses unique and
    /// never the reserved default.
    pub open spec fn wf(self) -> bool {
        &&& forall|i: int, j: int|
            0 <= i < j < self@.len() ==> #[trigger] self@[i].message_type@
                != #[trigger] self@[j].message_type@
        &&& forall|i: int, j: int|
            0 <= i < j < self@.len() ==> #[trigger] self@[i].address != #[trigger] self@[j].address
        &&& forall|i: int| 0 <= i < self@.len() ==> !(#[trigger] self@[i].address).spec_is_default()
    }

    /// Whether a route is registered for the given message type.
    pub open spec fn contains_key(self, k: Seq<char>) -> bool {
        exists|i: int| 0 <= i < self@.len() && #[trigger] self@[i].message_type@ == k
    }

    /// The position of the route registered for `k`.
    pub open spec fn index_of(self, k: Seq<char>) -> int {
        choose|i: int| 0 <= i < self@.len() && #[trigger] self@[i].message_type@ == k
    }

    /// The delivery address registered for `k`.
    pub open spec fn address_of(self, k: Seq<char>) -> InprocAddress {
        self@[self.index_of(k)].address
    }

    /// In a well-formed table the position of a registered message type is the
    /// only one carrying it.
    pub proof fn lemma_index_of(self, k: Seq<char>, i: int)
        requires
            self.wf(),
            0 <= i < self@.len(),
            self@[i].message_type@ == k,
        ensures
            self.contains_key(k),
            self.index_of(k) == i,
    {
        assert(self.contains_key(k));
        let j = self.index_of(k);
        assert(0 <= j < self@.len() && self@[j].message_type@ == k);
        if j < i {
            assert(self@[j].message_type@ != self@[i].message_type@);
        } else if i < j {
            assert(self@[i].message_type@ != self@[j].message_type@);
        }
    }

    /// Law: in a well-formed table, distinct registered message types always
    /// resolve to distinct internal addresses.
    pub proof fn lemma_distinct_keys_distinct_addresses(self, a: Seq<char>, b: Seq<char>)
        requires
            self.wf(),
            self.contains_key(a),
            self.contains_key(b),
            a != b,
        ensures
            self.address_of(a) != self.address_of(b),
    {
        let i = self.index_of(a);
        let j = self.index_of(b);
        assert(0 <= i < self@.len() && self@[i].message_type@ == a);
        assert(0 <= j < self@.len() && self@[j].message_type@ == b);
        if i < j {
            assert(self@[i].address != self@[j].address);
        } else if j < i {
            assert(self@[j].address != self@[i].address);
        }
    }

    /// An empty route table.
    pub fn new() -> (r: CommsRoutes)
        ensures
            r@.len() == 0,
            r.wf(),
    {
        CommsRoutes { entries: Vec::new() }
    }

    /// Registers a route for `message_type` at a freshly generated internal
    /// address, distinct from every address already in the table. Registering
    /// a message type again replaces its address with a fresh one.
    pub fn register(self, message_type: String) -> (r: CommsRoutes)
        requires
            self.wf(),
            self@.len() < usize::MAX,
        ensures
            r.wf(),
            r.contains_key(message_type@),
            self.contains_key(message_type@) ==> r@.len() == self@.len(),
            !self.contains_key(message_type@) ==> r@.len() == self@.len() + 1,
            forall|k: Seq<char>|
                #![trigger r.contains_key(k)]
                #![trigger self.contains_key(k)]
                r.contains_key(k) <==> (self.contains_key(k) || k == message_type@),
            forall|k: Seq<char>|
                self.contains_key(k) && k != message_type@ ==> r.address_of(k) == self.address_of(
                    k,
                ),
            forall|k: Seq<char>|
                self.contains_key(k) && k != message_type@ ==> r.address_of(message_type@)
                    != self.address_of(k),
    {
        let ghost old_routes = self;
        let mut entries = self.entries;
        let ghost pre = entries@;
        let used = collect_addresses(&entries);
        let address = InprocAddress::random_excluding(&used);
        proof {
            assert forall|j: int| 0 <= j < pre.len() implies address != pre[j].address by {
                assert(used@[j] == pre[j].address);
                assert(address != used@[j]);
            }
        }
        let position = find_key(&entries, &message_type);
        match position {
            Some(i) => {
                entries.set(i, RouteEntry { message_type, address });
                let r = CommsRoutes { entries };
                proof {
                    register_replace_properties(old_routes, r, pre, i as int, address);
                }
                r
            },
            None => {
                entries.push(RouteEntry { message_type, address });
                let r = CommsRoutes { entries };
                proof {
                    register_push_properties(old_routes, r, pre, address);
                }
                r
            },
        }
    }

    /// The delivery address for `message_type`, or `None` if no route is
    /// registered for it.
    pub fn get_address(&self, message_type: &String) -> (r: Option<InprocAddress>)
        requires
            self.wf(),
        ensures
            match r {
                Some(a) => self.contains_key(message_type@) && a == self.address_of(
                    message_type@,
                ),
                None => !self.contains_key(message_type@),
            },
    {
        match find_key(&self.entries, message_type) {
            Some(i) => {
                proof {
                    self.lemma_index_of(message_type@, i as int);
                }
                Some(self.entries[i].address)
            },
            None => None,
        }
    }

    /// The registered routes, in registration order.
    pub fn inner(&self) -> (r: &Vec<RouteEntry>)
        ensures
            r@ == self@,
    {
        &self.entries
    }

    /// The registered delivery addresses, in registration order.
    pub fn addresses(&self) -> (r: Vec<InprocAddress>)
        ensures
            r@.len() == self@.len(),
            forall|i: int| 0 <= i < self@.len() ==> r@[i] == self@[i].address,
    {
        collect_addresses(&self.entries)
    }
}

fn find_key(entries: &Vec<RouteEntry>, key: &String) -> (r: Option<usize>)
    ensures
        match r {
            Some(i) => i < entries@.len() && entries@[i as int].message_type@ == key@,
            None => forall|i: int| 0 <= i < entries@.len() ==> entries@[i].message_type@ != key@,
        },
{
    let mut i: usize = 0;
    while i < entries.len()
        invariant
            i <= entries@.len(),
            forall|j: int| 0 <= j < i ==> entries@[j].message_type@ != key@,
        decreases entries@.len() - i,
    {
        if entries[i].message_type == *key {
            return Some(i);
        }
        i += 1;
    }
    None
}

fn collect_addresses(entries: &Vec<RouteEntry>) -> (r: Vec<InprocAddress>)
    ensures
        r@.len() == entries@.len(),
        forall|i: int| 0 <= i < entries@.len() ==> r@[i] == entries@[i].address,
{
    let mut addresses: Vec<InprocAddress> = Vec::new();
    let mut i: usize = 0;
    while i < entries.len()
        invariant
            i <= entries@.len(),
            addresses@.len() == i,
            forall|j: int| 0 <= j < i ==> addresses@[j] == entries@[j].address,
        decreases entries@.len() - i,
    {
        addresses.push(entries[i].address);
        i += 1;
    }
    addresses
}

proof fn register_replace_properties(
    old_routes: CommsRoutes,
    r: CommsRoutes,
    pre: Seq<RouteEntry>,
    i: int,
    address: InprocAddress,
)
    requires
        old_routes.wf(),
        old_routes@ == pre,
        0 <= i < pre.len(),
        r@.len() == pre.len(),
        forall|j: int| 0 <= j < pre.len() && j != i ==> r@[j] == pre[j],
        r@[i].message_type@ == pre[i].message_type@,
        r@[i].address == address,
        !address.spec_is_default(),
        forall|j: int| 0 <= j < pre.len() ==> address != pre[j].address,
    ensures
        r.wf(),
        r.contains_key(pre[i].message_type@),
        forall|k: Seq<char>|
            #![trigger r.contains_key(k)]
            #![trigger old_routes.contains_key(k)]
            r.contains_key(k) <==> (old_routes.contains_key(k) || k == pre[i].message_type@),
        forall|k: Seq<char>|
            old_routes.contains_key(k) && k != pre[i].message_type@ ==> r.address_of(k)
                == old_routes.address_of(k),
        forall|k: Seq<char>|
            old_routes.contains_key(k) && k != pre[i].message_type@ ==> r.address_of(
                pre[i].message_type@,
            ) != old_routes.address_of(k),
{
    let key = pre[i].message_type@;
    assert(r@.len() == pre.len());
    assert(forall|j: int| 0 <= j < r@.len() ==> r@[j].message_type@ == pre[j].message_type@);
    assert forall|i2: int, j2: int|
        0 <= i2 < j2 < r@.len() implies r@[i2].message_type@ != r@[j2].message_type@ by {
        assert(pre[i2].message_type@ != pre[j2].message_type@);
    }
    assert forall|i2: int, j2: int| 0 <= i2 < j2 < r@.len() implies r@[i2].address
        != r@[j2].address by {
        if i2 == i {
            assert(r@[j2] == pre[j2]);
            assert(address != pre[j2].address);
        } else if j2 == i {
            assert(r@[i2] == pre[i2]);
            assert(address != pre[i2].address);
        } else {
            assert(r@[i2] == pre[i2]);
            assert(r@[j2] == pre[j2]);
            assert(pre[i2].address != pre[j2].address);
        }
    }
    assert forall|j: int| 0 <= j < r@.len() implies !(#[trigger] r@[j].address).spec_is_default() by {
        if j != i {
            assert(r@[j] == pre[j]);
            assert(!pre[j].address.spec_is_default());
        }
    }
    assert(r.wf());
    assert(r.contains_key(key)) by {
        assert(r@[i].message_type@ == key);
    }
    assert forall|k: Seq<char>| r.contains_key(k) implies (old_routes.contains_key(k) || k
        == key) by {
        let j = choose|j: int| 0 <= j < r@.len() && #[trigger] r@[j].message_type@ == k;
        assert(pre[j].message_type@ == k);
        assert(old_routes.contains_key(k));
    }
    assert forall|k: Seq<char>| old_routes.contains_key(k) implies r.contains_key(k) by {
        let j = choose|j: int| 0 <= j < pre.len() && #[trigger] pre[j].message_type@ == k;
        assert(r@[j].message_type@ == k);
    }
    assert forall|k: Seq<char>|
        old_routes.contains_key(k) && k != key implies r.address_of(k) == old_routes.address_of(
        k,
    ) by {
        let j = choose|j: int| 0 <= j < pre.len() && #[trigger] pre[j].message_type@ == k;
        old_routes.lemma_index_of(k, j);
        assert(r@[j].message_type@ == k);
        r.lemma_index_of(k, j);
        assert(j != i);
        assert(r@[j] == pre[j]);
    }
    assert forall|k: Seq<char>|
        old_routes.contains_key(k) && k != key implies r.address_of(key)
        != old_routes.address_of(k) by {
        let j = choose|j: int| 0 <= j < pre.len() && #[trigger] pre[j].message_type@ == k;
        old_routes.lemma_index_of(k, j);
        r.lemma_index_of(key, i);
        assert(r.address_of(key) == address);
        assert(address != pre[j].address);
    }
}

proof fn register_push_properties(
    old_routes: CommsRoutes,
    r: CommsRoutes,
    pre: Seq<RouteEntry>,
    address: InprocAddress,
)
    requires
        old_routes.wf(),
        old_routes@ == pre,
        r@.len() == pre.len() + 1,
        forall|j: int| 0 <= j < pre.len() ==> r@[j] == pre[j],
        forall|j: int| 0 <= j < pre.len() ==> pre[j].message_type@ != r@[pre.len() as int].message_type@,
        r@[pre.len() as int].address == address,
        !address.spec_is_default(),
        forall|j: int| 0 <= j < pre.len() ==> address != pre[j].address,
    ensures
        r.wf(),
        r.contains_key(r@[pre.len() as int].message_type@),
        forall|k: Seq<char>|
            #![trigger r.contains_key(k)]
            #![trigger old_routes.contains_key(k)]
            r.contains_key(k) <==> (old_routes.contains_key(k) || k == r@[
                pre.len() as int
            ].message_type@),
        forall|k: Seq<char>|
            old_routes.contains_key(k) && k != r@[pre.len() as int].message_type@
                ==> r.address_of(k) == old_routes.address_of(k),
        forall|k: Seq<char>|
            old_routes.contains_key(k) && k != r@[pre.len() as int].message_type@
                ==> r.address_of(r@[pre.len() as int].message_type@) != old_routes.address_of(k),
{
    let n = pre.len() as int;
    let key = r@[n].message_type@;
    assert(forall|j: int| 0 <= j < n ==> r@[j].message_type@ == pre[j].message_type@);
    assert forall|i2: int, j2: int|
        0 <= i2 < j2 < r@.len() implies r@[i2].message_type@ != r@[j2].message_type@ by {
        if j2 == n {
            assert(pre[i2].message_type@ != r@[n].message_type@);
        } else {
            assert(pre[i2].message_type@ != pre[j2].message_type@);
        }
    }
    assert forall|i2: int, j2: int| 0 <= i2 < j2 < r@.len() implies r@[i2].address
        != r@[j2].address by {
        if j2 == n {
            assert(r@[i2] == pre[i2]);
            assert(address != pre[i2].address);
        } else {
            assert(r@[i2] == pre[i2]);
            assert(r@[j2] == pre[j2]);
            assert(pre[i2].address != pre[j2].address);
        }
    }
    assert forall|j: int| 0 <= j < r@.len() implies !(#[trigger] r@[j].address).spec_is_default() by {
        if j != n {
            assert(r@[j] == pre[j]);
            assert(!pre[j].address.spec_is_default());
        }
    }
    assert(r.wf());
    assert(r.contains_key(key)) by {
        assert(r@[n].message_type@ == key);
    }
    assert forall|k: Seq<char>| r.contains_key(k) implies (old_routes.contains_key(k) || k
        == key) by {
        let j = choose|j: int| 0 <= j < r@.len() && #[trigger] r@[j].message_type@ == k;
        if j < n {
            assert(pre[j].message_type@ == k);
            assert(old_routes.contains_key(k));
        }
    }
    assert forall|k: Seq<char>| old_routes.contains_key(k) implies r.contains_key(k) by {
        let j = choose|j: int| 0 <= j < pre.len() && #[trigger] pre[j].message_type@ == k;
        assert(r@[j].message_type@ == k);
    }
    assert forall|k: Seq<char>|
        old_routes.contains_key(k) && k != key implies r.address_of(k) == old_routes.address_of(
        k,
    ) by {
        let j = choose|j: int| 0 <= j < pre.len() && #[trigger] pre[j].message_type@ == k;
        old_routes.lemma_index_of(k, j);
        assert(r@[j].message_type@ == k);
        r.lemma_index_of(k, j);
        assert(r@[j] == pre[j]);
    }
    assert forall|k: Seq<char>|
        old_routes.contains_key(k) && k != key implies r.address_of(key)
        != old_routes.address_of(k) by {
        let j = choose|j: int| 0 <= j < pre.len() && #[trigger] pre[j].message_type@ == k;
        old_routes.lemma_index_of(k, j);
        r.lemma_index_of(key, n);
        assert(r.address_of(key) == address);
        assert(address != pre[j].address);
    }
}

} // verus!
