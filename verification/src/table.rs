//! The shared table of remote entities: an ordered sequence, a selection
//! cursor over the filtered view, and a filter that never mutates the
//! underlying rows. Background polls replace the sequence wholesale; the
//! event loop reads it and moves the cursor.

use vstd::prelude::*;

use crate::text::str_eq;

verus! {

/// The remote states an entity can report.
#[derive(Clone, Copy, Debug, PartialEq, Eq, Structural)]
pub enum EntityStatus {
    Stopped,
    QueuedToVerify,
    Verifying,
    QueuedToDownload,
    Downloading,
    QueuedToSeed,
    Seeding,
}

/// One remotely-sourced record as the table holds it.
#[derive(Clone, Debug, PartialEq)]
pub struct Entity {
    pub id: i64,
    pub name: String,
    pub status: EntityStatus,
}

/// The listing filter: everything, an exact name, or a status.
#[derive(Clone, Debug)]
pub enum EntityFilter {
    All,
    ByName(String),
    ByStatus(EntityStatus),
}

/// Whether an entity passes the filter.
pub open spec fn matches_spec(f: EntityFilter, e: Entity) -> bool {
    match f {
        EntityFilter::All => true,
        EntityFilter::ByName(n) => e.name@ == n@,
        EntityFilter::ByStatus(s) => e.status == s,
    }
}

/// The filter as a predicate on entities.
pub open spec fn filter_pred(f: EntityFilter) -> spec_fn(Entity) -> bool {
    |e: Entity| matches_spec(f, e)
}

pub fn entity_matches(f: &EntityFilter, e: &Entity) -> (r: bool)
    ensures
        r == matches_spec(*f, *e),
{
    match f {
        EntityFilter::All => true,
        EntityFilter::ByName(n) => str_eq(e.name.as_str(), n.as_str()),
        EntityFilter::ByStatus(s) => e.status == *s,
    }
}

fn clone_entity(e: &Entity) -> (r: Entity)
    ensures
        r == *e,
{
    Entity { id: e.id, name: e.name.clone(), status: e.status }
}

/// The cursor after a downward step: one row further, saturating at the
/// last row of a view of length `len`.
pub open spec fn next_cursor_spec(c: Option<usize>, len: nat) -> Option<usize> {
    match c {
        None => None,
        Some(i) => if i + 1 < len {
            Some((i + 1) as usize)
        } else {
            Some(i)
        },
    }
}

/// The cursor after an upward step: one row back, saturating at the
/// first row.
pub open spec fn prev_cursor_spec(c: Option<usize>) -> Option<usize> {
    match c {
        None => None,
        Some(i) => if i > 0 {
            Some((i - 1) as usize)
        } else {
            Some(i)
        },
    }
}

/// The entity the cursor rests on in the filtered view.
pub open spec fn current_entity(t: SharedEntityTable) -> Option<Entity> {
    match t.cursor {
        None => None,
        Some(i) => Some(t.filtered()[i as int]),
    }
}

/// Where the cursor lands when the filtered view's length becomes `len`:
/// gone when nothing is listed, otherwise kept but clamped into range.
pub open spec fn clamp_cursor_spec(c: Option<usize>, len: nat) -> Option<usize> {
    if len == 0 {
        None
    } else {
        match c {
            None => Some(0usize),
            Some(i) => if i < len {
                Some(i)
            } else {
                Some((len - 1) as usize)
            },
        }
    }
}

/// The entity table shared between the render loop and background polls.
/// The owner serializes access; each operation below is one critical
/// section's worth of work.
pub struct SharedEntityTable {
    pub entities: Vec<Entity>,
    pub cursor: Option<usize>,
    pub filter: EntityFilter,
}

/// The state a wholesale replacement leaves the table in: the new rows,
/// the old filter, and the cursor clamped to the new filtered view.
pub open spec fn replace_spec(t: SharedEntityTable, v: Vec<Entity>) -> SharedEntityTable {
    let swapped = SharedEntityTable { entities: v, cursor: t.cursor, filter: t.filter };
    SharedEntityTable {
        entities: v,
        cursor: clamp_cursor_spec(t.cursor, swapped.filtered().len()),
        filter: t.filter,
    }
}

proof fn lemma_filter_take_step(s: Seq<Entity>, p: spec_fn(Entity) -> bool, i: int)
    requires
        0 <= i < s.len(),
    ensures
        s.take(i + 1).filter(p) == if p(s[i]) {
            s.take(i).filter(p).push(s[i])
        } else {
            s.take(i).filter(p)
        },
{
    reveal(Seq::filter);
    assert(s.take(i + 1).drop_last() =~= s.take(i));
    assert(s.take(i + 1).last() == s[i]);
}

impl SharedEntityTable {
    /// The rows the listing shows: the sequence under the filter.
    pub open spec fn filtered(self) -> Seq<Entity> {
        self.entities@.filter(filter_pred(self.filter))
    }

    /// The cursor is absent exactly when the filtered view is empty, and
    /// in range otherwise.
    pub open spec fn wf(self) -> bool {
        match self.cursor {
            None => self.filtered().len() == 0,
            Some(i) => i < self.filtered().len(),
        }
    }

    pub fn new() -> (r: Self)
        ensures
            r.entities@ == Seq::<Entity>::empty(),
            r.cursor is None,
            r.filter == EntityFilter::All,
            r.wf(),
    {
        let r = SharedEntityTable {
            entities: Vec::new(),
            cursor: None,
            filter: EntityFilter::All,
        };
        proof {
            assert(r.filtered() =~= Seq::<Entity>::empty());
        }
        r
    }

    /// How many rows the filtered view holds.
    pub fn filtered_len(&self) -> (r: usize)
        ensures
            r == self.filtered().len(),
    {
        let ghost s = self.entities@;
        let ghost p = filter_pred(self.filter);
        let n = self.entities.len();
        let mut count: usize = 0;
        let mut i: usize = 0;
        proof {
            assert(s.take(0).filter(p) =~= Seq::<Entity>::empty());
        }
        while i < n
            invariant
                i <= n,
                n == s.len(),
                s == self.entities@,
                p == filter_pred(self.filter),
                count == s.take(i as int).filter(p).len(),
            decreases n - i,
        {
            proof {
                lemma_filter_take_step(s, p, i as int);
                s.take(i + 1).lemma_filter_len(p);
            }
            if entity_matches(&self.filter, &self.entities[i]) {
                count += 1;
            }
            i += 1;
        }
        proof {
            assert(s.take(n as int) =~= s);
        }
        count
    }

    /// Swaps the whole sequence for a fresh snapshot; the filter stays,
    /// the cursor is clamped to the new filtered view. Nothing of the old
    /// sequence survives.
    pub fn replace(&mut self, entities: Vec<Entity>)
        requires
            old(self).wf(),
        ensures
            *final(self) == replace_spec(*old(self), entities),
            final(self).wf(),
    {
        self.entities = entities;
        let len = self.filtered_len();
        if len == 0 {
            self.cursor = None;
        } else {
            match self.cursor {
                None => {
                    self.cursor = Some(0);
                },
                Some(i) => {
                    if i >= len {
                        self.cursor = Some(len - 1);
                    }
                },
            }
        }
    }

    /// Replaces the filter; the underlying sequence is untouched and the
    /// cursor is clamped to the newly filtered view.
    pub fn set_filter(&mut self, filter: EntityFilter)
        requires
            old(self).wf(),
        ensures
            final(self).entities == old(self).entities,
            final(self).filter == filter,
            final(self).cursor == clamp_cursor_spec(old(self).cursor, final(self).filtered().len()),
            final(self).wf(),
    {
        self.filter = filter;
        let len = self.filtered_len();
        if len == 0 {
            self.cursor = None;
        } else {
            match self.cursor {
                None => {
                    self.cursor = Some(0);
                },
                Some(i) => {
                    if i >= len {
                        self.cursor = Some(len - 1);
                    }
                },
            }
        }
    }

    /// Moves the cursor down by one, saturating at the last row; on an
    /// empty view the cursor stays absent and nothing fails.
    pub fn select_next(&mut self)
        requires
            old(self).wf(),
        ensures
            final(self).entities == old(self).entities,
            final(self).filter == old(self).filter,
            final(self).wf(),
            final(self).cursor == next_cursor_spec(
                old(self).cursor,
                old(self).filtered().len(),
            ),
    {
        let len = self.filtered_len();
        match self.cursor {
            None => {},
            Some(i) => {
                if i + 1 < len {
                    self.cursor = Some(i + 1);
                }
            },
        }
    }

    /// Moves the cursor up by one, saturating at the first row; on an
    /// empty view the cursor stays absent and nothing fails.
    pub fn select_previous(&mut self)
        requires
            old(self).wf(),
        ensures
            final(self).entities == old(self).entities,
            final(self).filter == old(self).filter,
            final(self).wf(),
            final(self).cursor == prev_cursor_spec(old(self).cursor),
    {
        match self.cursor {
            None => {},
            Some(i) => {
                if i > 0 {
                    self.cursor = Some(i - 1);
                }
            },
        }
    }

    /// The entity under the cursor in the filtered view, if any.
    pub fn current(&self) -> (r: Option<&Entity>)
        requires
            self.wf(),
        ensures
            r is Some <==> self.cursor is Some,
            r is Some ==> *r->0 == self.filtered()[self.cursor->0 as int],
    {
        let target: usize = match self.cursor {
            None => {
                return None;
            },
            Some(i) => i,
        };
        let ghost s = self.entities@;
        let ghost p = filter_pred(self.filter);
        let n = self.entities.len();
        let mut count: usize = 0;
        let mut j: usize = 0;
        proof {
            assert(s.take(0).filter(p) =~= Seq::<Entity>::empty());
        }
        while j < n
            invariant
                j <= n,
                n == s.len(),
                s == self.entities@,
                p == filter_pred(self.filter),
                count == s.take(j as int).filter(p).len(),
                count <= target,
                target < self.filtered().len(),
                self.cursor == Some(target),
                self.wf(),
            decreases n - j,
        {
            proof {
                lemma_filter_take_step(s, p, j as int);
                s.take(j + 1).lemma_filter_len(p);
            }
            let is_match = entity_matches(&self.filter, &self.entities[j]);
            if is_match && count == target {
                proof {
                    Seq::filter_distributes_over_add(s.take(j + 1), s.skip(j + 1), p);
                    assert(s.take(j + 1) + s.skip(j + 1) =~= s);
                    assert(s.filter(p)[target as int] == s[j as int]);
                }
                return Some(&self.entities[j]);
            }
            if is_match {
                count += 1;
            }
            j += 1;
        }
        proof {
            assert(s.take(n as int) =~= s);
            assert(false);
        }
        None
    }

    /// A copy of the filtered rows, in order, for the render collaborator.
    pub fn visible(&self) -> (r: Vec<Entity>)
        ensures
            r@ == self.filtered(),
    {
        let ghost s = self.entities@;
        let ghost p = filter_pred(self.filter);
        let n = self.entities.len();
        let mut out: Vec<Entity> = Vec::new();
        let mut i: usize = 0;
        proof {
            assert(s.take(0).filter(p) =~= Seq::<Entity>::empty());
        }
        while i < n
            invariant
                i <= n,
                n == s.len(),
                s == self.entities@,
                p == filter_pred(self.filter),
                out@ == s.take(i as int).filter(p),
            decreases n - i,
        {
            proof {
                lemma_filter_take_step(s, p, i as int);
            }
            if entity_matches(&self.filter, &self.entities[i]) {
                out.push(clone_entity(&self.entities[i]));
            }
            i += 1;
        }
        proof {
            assert(s.take(n as int) =~= s);
        }
        out
    }
}

/// Law: when two wholesale replacements race, the one that completes
/// last alone determines the rows; no part of the earlier sequence, and
/// nothing but the later sequence, is ever observable afterwards. The
/// filter survives both.
pub proof fn lemma_replace_last_wins(t: SharedEntityTable, a: Vec<Entity>, b: Vec<Entity>)
    ensures
        replace_spec(replace_spec(t, a), b).entities@ == b@,
        replace_spec(replace_spec(t, a), b).filter == t.filter,
{
}

} // verus!
