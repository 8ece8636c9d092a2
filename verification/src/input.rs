//! Keyboard input as plain values: a key code and the set of keys held
//! during a tick.

use vstd::prelude::*;

verus! {

/// A key the game reads. Movement and rotation listen to the letter and
/// arrow keys, firing to the space bar; the remaining letters stand for
/// keys the game ignores.
#[derive(Clone, Copy, PartialEq, Eq, Structural, Debug)]
pub enum Key {
    W,
    A,
    S,
    D,
    Up,
    Down,
    Left,
    Right,
    Space,
    K,
    V,
    Z,
}

/// The set of keys held during one tick.
#[derive(Debug)]
pub struct KeySet {
    pub keys: Vec<Key>,
}

impl KeySet {
    /// The key is held.
    pub open spec fn spec_has(self, k: Key) -> bool {
        self.keys@.contains(k)
    }

    /// An empty set: no key held.
    pub fn new() -> (s: KeySet)
        ensures
            s.keys@ == Seq::<Key>::empty(),
            forall|k: Key| !s.spec_has(k),
    {
        KeySet { keys: Vec::new() }
    }

    /// The set of exactly the given keys.
    pub fn of(keys: Vec<Key>) -> (s: KeySet)
        ensures
            s.keys@ == keys@,
    {
        KeySet { keys }
    }

    /// Add a held key.
    pub fn press(&mut self, k: Key)
        ensures
            final(self).keys@ == old(self).keys@.push(k),
            final(self).spec_has(k),
    {
        self.keys.push(k);
        proof {
            assert(self.keys@[self.keys@.len() - 1] == k);
        }
    }

    /// Whether the key is held.
    pub fn contains(&self, k: Key) -> (r: bool)
        ensures
            r == self.spec_has(k),
    {
        let mut i: usize = 0;
        while i < self.keys.len()
            invariant
                i <= self.keys.len(),
                forall|j: int| 0 <= j < i ==> self.keys@[j] != k,
            decreases self.keys.len() - i,
        {
            if self.keys[i] == k {
                proof {
                    assert(self.keys@.contains(k)) by {
                        assert(self.keys@[i as int] == k);
                    }
                }
                return true;
            }
            i = i + 1;
        }
        proof {
            assert(!self.keys@.contains(k));
        }
        false
    }
}

} // verus!
