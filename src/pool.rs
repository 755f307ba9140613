use vstd::prelude::*;

verus! {

/// The cursor value that follows `c` in a pool of `n` clients.
pub open spec fn successor(c: int, n: int) -> int {
    (c + 1) % n
}

/// The cursor after `k` single-threaded rotations from `c`.
pub open spec fn advanced(c: int, n: int, k: nat) -> int
    decreases k,
{
    if k == 0 {
        c
    } else {
        successor(advanced(c, n, (k - 1) as nat), n)
    }
}

/// The cursor value that follows `c` in a pool of `n` clients.
pub fn next_cursor(c: u32, n: u32) -> (r: u32)
    requires
        n > 0,
    ensures
        r == successor(c as int, n as int),
        r < n,
{
    ((c as u64 + 1) % (n as u64)) as u32
}

/// Without interference, `k` rotations from cursor `c0` visit
/// `(c0 + 1) mod n, (c0 + 2) mod n, ...`: the `k`-th is `(c0 + k) mod n`,
/// always a valid index.
pub proof fn lemma_rotation_sequence(c0: int, n: int, k: nat)
    requires
        n > 0,
        0 <= c0 < n,
    ensures
        advanced(c0, n, k) == (c0 + k) % n,
        0 <= advanced(c0, n, k) < n,
    decreases k,
{
    if k == 0 {
        vstd::arithmetic::div_mod::lemma_small_mod(c0 as nat, n as nat);
    } else {
        lemma_rotation_sequence(c0, n, (k - 1) as nat);
        vstd::arithmetic::div_mod::lemma_add_mod_noop(c0 + k - 1, 1, n);
        vstd::arithmetic::div_mod::lemma_mod_twice(c0 + k - 1, n);
        if n == 1 {
            assert((c0 + k) % n == 0);
            assert(advanced(c0, n, k) == 0);
        } else {
            vstd::arithmetic::div_mod::lemma_small_mod(1nat, n as nat);
        }
    }
}

/// A fixed, non-empty set of outbound clients handed out in turn by a
/// rotation cursor. Callers that share a pool between threads hold it behind
/// a lock taken only for `next`, never across the outbound call.
pub struct ClientPool<C> {
    cursor: u32,
    clients: Vec<C>,
}

impl<C> ClientPool<C> {
    /// The clients, in rotation order.
    pub closed spec fn members(&self) -> Seq<C> {
        self.clients@
    }

    /// The rotation cursor: the index of the client handed out last.
    pub closed spec fn cursor(&self) -> int {
        self.cursor as int
    }

    /// Whether the pool is usable: one client at least, an index range that
    /// the cursor can hold, and the cursor inside it.
    pub open spec fn wf(&self) -> bool {
        &&& 1 <= self.members().len() <= u32::MAX
        &&& 0 <= self.cursor() < self.members().len()
    }

    /// A pool over `clients`, with the cursor at 0; `None` for an empty list
    /// or one longer than the cursor can count.
    pub fn from_clients(clients: Vec<C>) -> (r: Option<ClientPool<C>>)
        ensures
            r is Some <==> 1 <= clients@.len() <= u32::MAX,
            r is Some ==> r->Some_0.members() == clients@ && r->Some_0.cursor() == 0
                && r->Some_0.wf(),
    {
        if clients.len() == 0 || clients.len() > u32::MAX as usize {
            None
        } else {
            Some(ClientPool { cursor: 0, clients })
        }
    }

    /// Number of clients in the pool.
    pub fn len(&self) -> (r: usize)
        ensures
            r == self.members().len(),
    {
        self.clients.len()
    }

    /// Advances the cursor to its successor modulo the pool size and returns
    /// it; a pool of one client answers 0 and leaves the cursor alone.
    pub fn next_index(&mut self) -> (r: usize)
        requires
            old(self).wf(),
        ensures
            final(self).wf(),
            final(self).members() == old(self).members(),
            final(self).cursor() == successor(old(self).cursor(), old(self).members().len() as int),
            r == final(self).cursor(),
            old(self).members().len() == 1 ==> final(self).cursor() == old(self).cursor(),
    {
        let n = self.clients.len();
        if n == 1 {
            0
        } else {
            self.cursor = next_cursor(self.cursor, n as u32);
            self.cursor as usize
        }
    }

    /// The client for the next request: the one at the cursor's successor.
    pub fn next(&mut self) -> (r: &C)
        requires
            old(self).wf(),
        ensures
            final(self).wf(),
            final(self).members() == old(self).members(),
            final(self).cursor() == successor(old(self).cursor(), old(self).members().len() as int),
            *r == old(self).members()[final(self).cursor()],
            old(self).members().len() == 1 ==> final(self).cursor() == old(self).cursor(),
    {
        let i = self.next_index();
        &self.clients[i]
    }
}

/// Whether one of the calls after the `s`-th, up to the `(s + n)`-th, hands
/// out index `i`.
pub open spec fn visits(cursors: Seq<int>, s: int, n: int, i: int) -> bool {
    exists|j: int| s < j <= s + n && #[trigger] cursors[j] == i
}

/// Successive calls of `next` without interference, from cursor `c0 < n`: if
/// `cursors[j]` is the cursor after `j` calls, each moving it to its
/// successor, then the `j`-th call hands out index `(c0 + j) mod n`, and any
/// `n` consecutive calls hand out every index once.
pub proof fn lemma_calls_rotate(cursors: Seq<int>, n: int)
    requires
        n > 0,
        cursors.len() >= 1,
        0 <= cursors[0] < n,
        forall|j: int| 0 <= j < cursors.len() - 1 ==> #[trigger] cursors[j + 1] == successor(cursors[j], n),
    ensures
        forall|j: int| 0 <= j < cursors.len() ==> #[trigger] cursors[j] == (cursors[0] + j) % n,
        forall|s: int, i: int|
            0 <= s && s + n < cursors.len() && 0 <= i < n ==> #[trigger] visits(cursors, s, n, i),
{
    assert forall|j: int| 0 <= j < cursors.len() implies #[trigger] cursors[j] == (cursors[0] + j) % n by {
        lemma_prefix_rotates(cursors, n, j);
    }
    assert forall|s: int, i: int|
        0 <= s && s + n < cursors.len() && 0 <= i < n implies #[trigger] visits(cursors, s, n, i) by {
        let c0 = cursors[0];
        let d = (i - c0 - s) % n;
        let j = if d == 0 { s + n } else { s + d };
        assert(0 <= d < n);
        assert(cursors[j] == (c0 + j) % n);
        assert((c0 + j) % n == i) by {
            vstd::arithmetic::div_mod::lemma_fundamental_div_mod(i - c0 - s, n);
            let q = (i - c0 - s) / n;
            assert(c0 + s + d == i - n * q);
            if d == 0 {
                assert(c0 + j == i + n * (1 - q)) by (nonlinear_arith)
                    requires c0 + s == i - n * q, j == s + n;
                vstd::arithmetic::div_mod::lemma_mod_multiples_vanish(1 - q, i, n);
            } else {
                assert(c0 + j == i + n * (-q)) by (nonlinear_arith)
                    requires c0 + s + d == i - n * q, j == s + d;
                vstd::arithmetic::div_mod::lemma_mod_multiples_vanish(-q, i, n);
            }
            vstd::arithmetic::div_mod::lemma_small_mod(i as nat, n as nat);
        }
        assert(s < j <= s + n && cursors[j] == i);
    }
}

/// The cursor after `j` rotations is `(c0 + j) mod n`.
proof fn lemma_prefix_rotates(cursors: Seq<int>, n: int, j: int)
    requires
        n > 0,
        0 <= j < cursors.len(),
        0 <= cursors[0] < n,
        forall|k: int| 0 <= k < cursors.len() - 1 ==> #[trigger] cursors[k + 1] == successor(cursors[k], n),
    ensures
        cursors[j] == (cursors[0] + j) % n,
{
    lemma_rotation_sequence(cursors[0], n, j as nat);
    lemma_advanced_matches(cursors, n, j);
}

/// The cursors follow `advanced` from the first.
proof fn lemma_advanced_matches(cursors: Seq<int>, n: int, j: int)
    requires
        n > 0,
        0 <= j < cursors.len(),
        forall|k: int| 0 <= k < cursors.len() - 1 ==> #[trigger] cursors[k + 1] == successor(cursors[k], n),
    ensures
        cursors[j] == advanced(cursors[0], n, j as nat),
    decreases j,
{
    if j > 0 {
        lemma_advanced_matches(cursors, n, j - 1);
        assert(cursors[(j - 1) + 1] == successor(cursors[j - 1], n));
    }
}

/// The proxy each client is built with: one client per proxy address, or a
/// single client without proxy when no address is given.
pub fn proxy_plan(proxies: Option<Vec<String>>) -> (r: Vec<Option<String>>)
    ensures
        match proxies {
            Some(ps) if ps@.len() > 0 => r@.len() == ps@.len() && forall|i: int|
                0 <= i < ps@.len() ==> (#[trigger] r@[i]) is Some && r@[i]->Some_0@ == ps@[i]@,
            _ => r@.len() == 1 && r@[0] is None,
        },
{
    let mut plan: Vec<Option<String>> = Vec::new();
    match proxies {
        Some(ps) => {
            let mut k: usize = 0;
            while k < ps.len()
                invariant
                    k <= ps@.len(),
                    plan@.len() == k,
                    forall|i: int| 0 <= i < k ==> (#[trigger] plan@[i]) is Some && plan@[i]->Some_0@ == ps@[i]@,
                decreases ps@.len() - k,
            {
                plan.push(Some(ps[k].clone()));
                k = k + 1;
            }
        },
        None => {},
    }
    if plan.len() == 0 {
        plan.push(None);
    }
    plan
}

} // verus!
