//! The pool of candidate base endpoints for a cluster, and the round-robin
//! rotation that spreads consecutive calls across them.

use vstd::prelude::*;
use vstd::arithmetic::div_mod::{lemma_mod_self_0, lemma_small_mod};

verus! {

/// Failure to resolve call parameters because the client was built with an
/// empty address pool. Fatal to the call; never retried here.
#[derive(Debug, Clone, Copy, PartialEq, Eq, Structural)]
pub struct ConfigurationError;

/// An ordered set of base endpoint addresses, fixed at construction, plus the
/// rotation cursor. The cursor is the only mutable state of the pipeline.
pub struct AddressPool {
    addresses: Vec<String>,
    cursor: usize,
}

impl AddressPool {
    /// The base endpoints, in rotation order.
    pub closed spec fn addrs(self) -> Seq<String> {
        self.addresses@
    }

    /// The current position of the rotation cursor.
    pub closed spec fn cursor(self) -> int {
        self.cursor as int
    }

    pub open spec fn spec_len(self) -> int {
        self.addrs().len() as int
    }

    /// The cursor stays strictly below the pool's length (and at zero for an
    /// empty pool), so it is always a valid index.
    pub closed spec fn wf(self) -> bool {
        if self.addresses@.len() == 0 {
            self.cursor == 0
        } else {
            (self.cursor as int) < self.addresses@.len()
        }
    }

    /// The index of the address handed out by the k-th `next` call made from
    /// this state (counting from zero), assuming no other calls intervene.
    pub open spec fn selection(self, k: int) -> int
        recommends
            self.spec_len() > 0,
    {
        (self.cursor() + k) % self.spec_len()
    }

    pub fn new(addresses: Vec<String>) -> (p: Self)
        ensures
            p.wf(),
            p.addrs() == addresses@,
            p.cursor() == 0,
    {
        AddressPool { addresses, cursor: 0 }
    }

    pub fn len(&self) -> (n: usize)
        ensures
            n == self.spec_len(),
    {
        self.addresses.len()
    }

    /// The cursor, observable so that a caller can check that an operation
    /// left the pool untouched.
    pub fn cursor_value(&self) -> (c: usize)
        ensures
            c == self.cursor(),
    {
        self.cursor
    }

    /// Returns the entry at the cursor, then advances the cursor by one,
    /// modulo the pool's length. Fails if and only if the pool is empty,
    /// and an empty pool is left exactly as it was.
    pub fn next(&mut self) -> (r: Result<String, ConfigurationError>)
        requires
            old(self).wf(),
        ensures
            final(self).wf(),
            final(self).addrs() == old(self).addrs(),
            old(self).spec_len() == 0 ==> r is Err && *final(self) == *old(self),
            old(self).spec_len() > 0 ==> {
                &&& r matches Ok(a) && a@ == old(self).addrs()[old(self).cursor()]@
                &&& final(self).cursor() == old(self).selection(1)
            },
    {
        let n = self.addresses.len();
        if n == 0 {
            Err(ConfigurationError)
        } else {
            let a = self.addresses[self.cursor].clone();
            proof {
                if self.cursor + 1 == n {
                    lemma_mod_self_0(n as int);
                } else {
                    lemma_small_mod((self.cursor + 1) as nat, n as nat);
                }
            }
            if self.cursor + 1 == n {
                self.cursor = 0;
            } else {
                self.cursor = self.cursor + 1;
            }
            Ok(a)
        }
    }
}

/// With the cursor in range, the first selection is the cursor itself.
pub proof fn lemma_selection_here(p: AddressPool)
    requires
        p.wf(),
        p.spec_len() > 0,
    ensures
        p.selection(0) == p.cursor(),
{
    lemma_small_mod(p.cursor() as nat, p.spec_len() as nat);
}

/// After one advance of the cursor, the k-th upcoming selection is what the
/// (k+1)-th selection was before: consecutive calls walk one single rotation.
pub proof fn lemma_selection_advance(p0: AddressPool, p1: AddressPool, k: int)
    requires
        p0.wf(),
        p1.wf(),
        p0.spec_len() > 0,
        p1.addrs() == p0.addrs(),
        p1.cursor() == p0.selection(1),
        0 <= k,
    ensures
        p1.selection(k) == p0.selection(k + 1),
{
    let n = p0.spec_len();
    let c = p0.cursor();
    assert(p1.selection(k) == ((c + 1) % n + k) % n);
    vstd::arithmetic::div_mod::lemma_add_mod_noop((c + 1) % n, k, n);
    vstd::arithmetic::div_mod::lemma_mod_twice(c + 1, n);
    vstd::arithmetic::div_mod::lemma_add_mod_noop(c + 1, k, n);
    assert(((c + 1) % n + k) % n == ((c + 1) + k) % n);
}

/// Round-robin fairness, first half: within one full rotation, no two calls
/// select the same address index.
pub proof fn lemma_rotation_distinct(p: AddressPool, i: int, j: int)
    requires
        p.wf(),
        p.spec_len() > 0,
        0 <= i < j < p.spec_len(),
    ensures
        p.selection(i) != p.selection(j),
{
    let n = p.spec_len();
    let c = p.cursor();
    lemma_mod_split(c + i, n);
    lemma_mod_split(c + j, n);
}

/// Round-robin fairness, second half: within one full rotation, every address
/// index is selected at least once (so, with the first half, exactly once).
pub proof fn lemma_rotation_covers(p: AddressPool, t: int)
    requires
        p.wf(),
        p.spec_len() > 0,
        0 <= t < p.spec_len(),
    ensures
        exists|k: int| 0 <= k < p.spec_len() && p.selection(k) == t,
{
    let n = p.spec_len();
    let c = p.cursor();
    let k = if t >= c { t - c } else { t - c + n };
    lemma_mod_split(c + k, n);
    assert(0 <= k < n && p.selection(k) == t);
}

/// One full rotation comes back to the same selection: together with the
/// two halves of fairness, each address is selected exactly once in every
/// run of `len` consecutive calls.
pub proof fn lemma_rotation_period(p: AddressPool, k: int)
    requires
        p.wf(),
        p.spec_len() > 0,
        0 <= k,
    ensures
        p.selection(k + p.spec_len()) == p.selection(k),
{
    let n = p.spec_len();
    let c = p.cursor();
    vstd::arithmetic::div_mod::lemma_mod_multiples_vanish(1, c + k, n);
    assert(n * 1 + (c + k) == c + (k + n));
}

/// For 0 <= x < 2n, the remainder of x by n is x itself below n, else x - n.
proof fn lemma_mod_split(x: int, n: int)
    requires
        0 < n,
        0 <= x < 2 * n,
    ensures
        x < n ==> x % n == x,
        n <= x ==> x % n == x - n,
{
    if x < n {
        lemma_small_mod(x as nat, n as nat);
    } else {
        vstd::arithmetic::div_mod::lemma_mod_sub_multiples_vanish(x, n);
        lemma_small_mod((x - n) as nat, n as nat);
    }
}

} // verus!
