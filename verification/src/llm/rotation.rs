//! Round-robin credential rotation for one provider.

use vstd::prelude::*;

verus! {

/// The index of the key handed out by the `k`-th call to [`Rotator::next`]
/// when the cursor started at `start` over `len` keys.
pub open spec fn rotation_index(start: int, k: int, len: int) -> int
    recommends
        len > 0,
{
    (start + k) % len
}

/// Which of `len` consecutive calls starting at cursor `start` returns
/// the key at index `x`.
pub open spec fn inverse_rotation(start: int, x: int, len: int) -> int {
    if x >= start {
        x - start
    } else {
        x - start + len
    }
}

/// Round-robin law: over a set of `len` credentials, `len` consecutive
/// calls starting from any cursor return each index exactly once — no
/// duplicates and no omissions — and the call after those repeats the
/// first.
pub proof fn lemma_round_robin(start: int, len: int)
    requires
        0 <= start < len,
    ensures
        forall|k: int|
            0 <= k < len ==> 0 <= #[trigger] rotation_index(start, k, len) < len,
        forall|i: int, j: int|
            0 <= i < j < len ==> #[trigger] rotation_index(start, i, len) != #[trigger] rotation_index(
                start,
                j,
                len,
            ),
        forall|x: int|
            0 <= x < len ==> 0 <= inverse_rotation(start, x, len) < len && #[trigger] rotation_index(
                start,
                inverse_rotation(start, x, len),
                len,
            ) == x,
        rotation_index(start, len, len) == rotation_index(start, 0, len),
{
    assert forall|k: int| 0 <= k < len implies #[trigger] rotation_index(start, k, len) == (
    if start + k < len {
        start + k
    } else {
        start + k - len
    }) by {
        if start + k < len {
            vstd::arithmetic::div_mod::lemma_small_mod((start + k) as nat, len as nat);
        } else {
            vstd::arithmetic::div_mod::lemma_mod_multiples_vanish(1, start + k - len, len);
            vstd::arithmetic::div_mod::lemma_small_mod((start + k - len) as nat, len as nat);
        }
    };
    assert forall|x: int| 0 <= x < len implies 0 <= inverse_rotation(start, x, len) < len
        && #[trigger] rotation_index(start, inverse_rotation(start, x, len), len) == x by {
        if x >= start {
            assert(inverse_rotation(start, x, len) == x - start);
            assert(rotation_index(start, x - start, len) == x);
        } else {
            assert(inverse_rotation(start, x, len) == x - start + len);
            assert(rotation_index(start, x - start + len, len) == x);
        }
    };
    vstd::arithmetic::div_mod::lemma_mod_multiples_vanish(1, start, len);
    vstd::arithmetic::div_mod::lemma_small_mod(start as nat, len as nat);
}

/// Holds an ordered set of credentials and a cursor; `next` hands the
/// credentials out in round-robin order, advancing the cursor exactly
/// once per call.
pub struct Rotator {
    keys: Vec<String>,
    cursor: usize,
}

impl Rotator {
    /// The credentials, in the order they were given.
    pub closed spec fn spec_keys(self) -> Seq<String> {
        self.keys@
    }

    /// The current cursor: the index of the key the next call returns.
    pub closed spec fn spec_cursor(self) -> int {
        self.cursor as int
    }

    /// The cursor always stays inside the key list (it is zero when the
    /// list is empty).
    pub closed spec fn well_formed(self) -> bool {
        if self.keys@.len() == 0 {
            self.cursor == 0
        } else {
            self.cursor < self.keys@.len()
        }
    }

    pub fn new(keys: Vec<String>) -> (r: Rotator)
        ensures
            r.well_formed(),
            r.spec_keys() == keys@,
            r.spec_cursor() == 0,
    {
        Rotator { keys, cursor: 0 }
    }

    /// Returns the key under the cursor and advances the cursor by one,
    /// wrapping around at the end of the list; returns nothing when no
    /// credentials are configured.
    pub fn next(&mut self) -> (r: Option<String>)
        requires
            old(self).well_formed(),
        ensures
            final(self).well_formed(),
            final(self).spec_keys() == old(self).spec_keys(),
            old(self).spec_keys().len() == 0 ==> {
                &&& r is None
                &&& final(self).spec_cursor() == old(self).spec_cursor()
            },
            old(self).spec_keys().len() > 0 ==> {
                &&& r == Some(old(self).spec_keys()[old(self).spec_cursor()])
                &&& final(self).spec_cursor() == rotation_index(
                    old(self).spec_cursor(),
                    1,
                    old(self).spec_keys().len() as int,
                )
            },
    {
        if self.keys.len() == 0 {
            return None;
        }
        let key = self.keys[self.cursor].clone();
        self.cursor = self.cursor + 1;
        if self.cursor == self.keys.len() {
            self.cursor = 0;
        }
        assert(self.cursor as int == (old(self).spec_cursor() + 1) % self.keys@.len() as int)
        by {
            let c = old(self).spec_cursor();
            let n = self.keys@.len() as int;
            if c + 1 == n {
                assert(n % n == 0) by {
                    vstd::arithmetic::div_mod::lemma_mod_self_0(n);
                };
            } else {
                assert((c + 1) % n == c + 1) by {
                    vstd::arithmetic::div_mod::lemma_small_mod((c + 1) as nat, n as nat);
                };
            }
        };
        Some(key)
    }
}

} // verus!
