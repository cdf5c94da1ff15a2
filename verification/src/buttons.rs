//! Tracking of physical button activity. While a real button is held, no
//! synthetic click may fire. Releases take effect one evaluation late, so
//! that a press and its release inside one cycle are still seen as a held
//! button for that cycle.

use vstd::prelude::*;

verus! {

/// One raw notification from the input backend.
#[derive(Clone, Copy, Debug, PartialEq, Eq, Structural)]
pub struct RawButtonEvent {
    /// The physical button's code.
    pub button: i32,
    /// `true` for a press, `false` for a release.
    pub pressed: bool,
}

/// A set of button codes of any size. Each code is stored once.
#[derive(Debug)]
pub struct ButtonSet {
    codes: Vec<i32>,
}

impl View for ButtonSet {
    type V = Set<i32>;

    closed spec fn view(&self) -> Set<i32> {
        self.codes@.to_set()
    }
}

impl ButtonSet {
    #[verifier::type_invariant]
    spec fn stored_once(&self) -> bool {
        self.codes@.no_duplicates()
    }

    /// The empty set.
    pub fn new() -> (set: ButtonSet)
        ensures
            set@ == Set::<i32>::empty(),
    {
        let set = ButtonSet { codes: Vec::new() };
        assert(set@ =~= Set::<i32>::empty());
        set
    }

    /// Tells whether `code` is in the set.
    pub fn contains(&self, code: i32) -> (found: bool)
        ensures
            found == self@.contains(code),
    {
        let mut i: usize = 0;
        while i < self.codes.len()
            invariant
                i <= self.codes.len(),
                forall|k: int| 0 <= k < i ==> self.codes@[k] != code,
            decreases self.codes.len() - i,
        {
            if self.codes[i] == code {
                return true;
            }
            i += 1;
        }
        false
    }

    /// Tells whether the set holds no code.
    pub fn is_empty(&self) -> (empty: bool)
        ensures
            empty == self@.is_empty(),
    {
        let empty = self.codes.len() == 0;
        proof {
            if !empty {
                assert(self.codes@.contains(self.codes@[0]));
                assert(self@.contains(self.codes@[0]));
            }
        }
        empty
    }

    /// Number of codes in the set.
    pub fn len(&self) -> (n: usize)
        ensures
            self@.finite(),
            n == self@.len(),
    {
        proof {
            use_type_invariant(self);
            self.codes@.unique_seq_to_set();
        }
        self.codes.len()
    }

    /// Adds `code` to the set.
    pub fn insert(&mut self, code: i32)
        ensures
            final(self)@ == old(self)@.insert(code),
    {
        proof {
            use_type_invariant(&*self);
        }
        if !self.contains(code) {
            let mut grown: Vec<i32> = self.codes.clone();
            assert(grown@ =~= self.codes@);
            grown.push(code);
            self.codes = grown;
            proof {
                let before = old(self).codes@;
                let after = self.codes@;
                assert forall|c: i32| after.contains(c) <==> (before.contains(c) || c == code) by {
                    if before.contains(c) {
                        let k = choose|k: int| 0 <= k < before.len() && before[k] == c;
                        assert(after[k] == c);
                    }
                    if c == code {
                        assert(after[before.len() as int] == c);
                    }
                }
            }
        }
        assert(self@ =~= old(self)@.insert(code));
    }

    /// Removes from the set every code that `other` holds.
    pub fn remove_all(&mut self, other: &ButtonSet)
        ensures
            final(self)@ == old(self)@.difference(other@),
    {
        proof {
            use_type_invariant(&*self);
        }
        let mut kept: Vec<i32> = Vec::new();
        let mut i: usize = 0;
        while i < self.codes.len()
            invariant
                i <= self.codes.len(),
                self.codes@ == old(self).codes@,
                self.codes@.no_duplicates(),
                kept@.no_duplicates(),
                forall|c: i32| #[trigger]
                    kept@.contains(c) <==> (self.codes@.take(i as int).contains(c)
                        && !other@.contains(c)),
            decreases self.codes.len() - i,
        {
            let code = self.codes[i];
            let ghost seen = self.codes@.take(i as int);
            let ghost next = self.codes@.take(i + 1);
            let ghost before = kept@;
            let dropped = other.contains(code);
            if !dropped {
                kept.push(code);
            }
            proof {
                assert(next =~= seen.push(code));
                if seen.contains(code) {
                    let k = choose|k: int| 0 <= k < seen.len() && seen[k] == code;
                    assert(self.codes@[k] == self.codes@[i as int]);
                }
                assert(!seen.contains(code));
                assert(!before.contains(code));
                assert forall|a: int, b: int|
                    0 <= a < kept@.len() && 0 <= b < kept@.len() && a != b implies kept@[a]
                    != kept@[b] by {
                    if a < before.len() {
                        assert(before.contains(before[a]));
                    }
                    if b < before.len() {
                        assert(before.contains(before[b]));
                    }
                }
                assert forall|c: i32| #[trigger]
                    kept@.contains(c) <==> (next.contains(c) && !other@.contains(c)) by {
                    if before.contains(c) {
                        let k = choose|k: int| 0 <= k < before.len() && before[k] == c;
                        assert(kept@[k] == c);
                        let j = choose|j: int| 0 <= j < seen.len() && seen[j] == c;
                        assert(next[j] == c);
                    }
                    if c == code {
                        assert(next[i as int] == c);
                        if !dropped {
                            assert(kept@[before.len() as int] == c);
                        }
                    }
                    if kept@.contains(c) && !before.contains(c) {
                        let k = choose|k: int| 0 <= k < kept@.len() && kept@[k] == c;
                        if k < before.len() {
                            assert(before[k] == c);
                        }
                    }
                    if next.contains(c) && c != code {
                        let j = choose|j: int| 0 <= j < next.len() && next[j] == c;
                        assert(seen[j] == c);
                    }
                }
            }
            i += 1;
        }
        proof {
            assert(self.codes@.take(i as int) =~= self.codes@);
        }
        self.codes = kept;
        assert(self@ =~= old(self)@.difference(other@));
    }

    /// Empties the set.
    pub fn clear(&mut self)
        ensures
            final(self)@ == Set::<i32>::empty(),
    {
        self.codes = Vec::new();
        assert(self@ =~= Set::<i32>::empty());
    }
}

} // verus!
