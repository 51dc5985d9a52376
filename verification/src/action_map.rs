//! The compiled lookup from chord to action, merged across contexts at
//! registry-build time. Later insertions override earlier ones.

use vstd::prelude::*;

use crate::action::Action;
use crate::keys::{KeyCode, KeyModifier};

verus! {

/// The map an association list denotes when read left to right, each
/// insertion overriding what an earlier one bound.
pub open spec fn assoc_map(
    s: Seq<((KeyCode, KeyModifier), Action)>,
) -> Map<(KeyCode, KeyModifier), Action>
    decreases s.len(),
{
    if s.len() == 0 {
        Map::empty()
    } else {
        assoc_map(s.drop_last()).insert(s.last().0, s.last().1)
    }
}

/// Chord-to-action lookup table. Its abstract value is a `Map` from
/// `(KeyCode, KeyModifier)` to `Action`.
pub struct CompiledActionMap {
    entries: Vec<((KeyCode, KeyModifier), Action)>,
}

impl View for CompiledActionMap {
    type V = Map<(KeyCode, KeyModifier), Action>;

    closed spec fn view(&self) -> Map<(KeyCode, KeyModifier), Action> {
        assoc_map(self.entries@)
    }
}

impl CompiledActionMap {
    pub fn new() -> (r: Self)
        ensures
            r@ == Map::<(KeyCode, KeyModifier), Action>::empty(),
    {
        CompiledActionMap { entries: Vec::new() }
    }

    /// Binds a chord, overriding any earlier binding of the same chord.
    pub fn insert(&mut self, code: KeyCode, modifier: KeyModifier, action: Action)
        ensures
            final(self)@ == old(self)@.insert((code, modifier), action),
    {
        self.entries.push(((code, modifier), action));
        proof {
            assert(self.entries@.drop_last() =~= old(self).entries@);
        }
    }

    /// Looks a chord up; the most recently inserted binding wins.
    pub fn get(&self, code: KeyCode, modifier: KeyModifier) -> (r: Option<Action>)
        ensures
            r == if self@.contains_key((code, modifier)) {
                Some(self@[(code, modifier)])
            } else {
                None::<Action>
            },
    {
        let ghost k = (code, modifier);
        let ghost s = self.entries@;
        let mut i: usize = self.entries.len();
        proof {
            assert(s.take(i as int) =~= s);
        }
        while i > 0
            invariant
                i <= s.len(),
                s == self.entries@,
                k == (code, modifier),
                assoc_map(s).contains_key(k) == assoc_map(s.take(i as int)).contains_key(k),
                assoc_map(s).contains_key(k) ==> assoc_map(s)[k] == assoc_map(
                    s.take(i as int),
                )[k],
            decreases i,
        {
            i = i - 1;
            let entry = &self.entries[i];
            proof {
                assert(s.take(i + 1).drop_last() =~= s.take(i as int));
                assert(s.take(i + 1).last() == s[i as int]);
            }
            if entry.0.0 == code && entry.0.1 == modifier {
                return Some(entry.1);
            }
        }
        proof {
            assert(s.take(0) =~= Seq::<((KeyCode, KeyModifier), Action)>::empty());
        }
        None
    }
}

} // verus!
