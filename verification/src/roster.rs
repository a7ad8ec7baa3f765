//! The guest roster: who has claimed an invite, and which guests are in the
//! session right now.

use crate::text::{decimal, push_decimal};
use std::collections::HashMap;
use vstd::prelude::*;

verus! {

broadcast use vstd::std_specs::hash::group_hash_axioms;

/// The roster as contracts see it.
pub struct RosterView {
    /// The display name recorded for each guest id that has an entry.
    pub claims: Map<u64, Seq<char>>,
    /// The ids of the guests that are active, in ascending order.
    pub active: Seq<u64>,
}

/// Whether each id of a sequence is below the one that follows it.
pub open spec fn ascending(ids: Seq<u64>) -> bool {
    forall|i: int, j: int| 0 <= i < j < ids.len() ==> ids[i] < ids[j]
}

/// The number of ids of a sequence that are below `id`.
pub open spec fn rank(ids: Seq<u64>, id: u64) -> nat
    decreases ids.len(),
{
    if ids.len() == 0 {
        0
    } else {
        rank(ids.drop_last(), id) + if ids.last() < id {
            1nat
        } else {
            0nat
        }
    }
}

/// An ascending sequence with `id` put in its place, unless it is there.
pub open spec fn with_id(ids: Seq<u64>, id: u64) -> Seq<u64> {
    if ids.contains(id) {
        ids
    } else {
        ids.insert(rank(ids, id) as int, id)
    }
}

/// A sequence without `id`, if it holds it.
pub open spec fn without_id(ids: Seq<u64>, id: u64) -> Seq<u64> {
    if ids.contains(id) {
        ids.remove(ids.index_of(id))
    } else {
        ids
    }
}

/// The name shown for a guest: the recorded one, `?` where none is recorded.
pub open spec fn shown_name(claims: Map<u64, Seq<char>>, id: u64) -> Seq<char> {
    if claims.contains_key(id) {
        claims[id]
    } else {
        "?"@
    }
}

/// One guest of a summary: the id in square brackets, then the name.
pub open spec fn entry_text(claims: Map<u64, Seq<char>>, id: u64) -> Seq<char> {
    "["@ + decimal(id as nat) + "]"@ + shown_name(claims, id)
}

/// The guests of `ids` in that order, separated by a comma and a space.
pub open spec fn summary_of(claims: Map<u64, Seq<char>>, ids: Seq<u64>) -> Seq<char>
    decreases ids.len(),
{
    if ids.len() == 0 {
        Seq::empty()
    } else if ids.len() == 1 {
        entry_text(claims, ids[0])
    } else {
        summary_of(claims, ids.drop_last()) + ", "@ + entry_text(claims, ids.last())
    }
}

/// The status line: the number of active guests, then their summary.
pub open spec fn status_of(roster: RosterView) -> Seq<char> {
    "\u{2605} Players("@ + decimal(roster.active.len()) + "): "@ + summary_of(
        roster.claims,
        roster.active,
    )
}

impl RosterView {
    /// Every active guest has an entry, and the active ids ascend.
    pub open spec fn wf(self) -> bool {
        &&& ascending(self.active)
        &&& forall|i: int| 0 <= i < self.active.len() ==> self.claims.contains_key(self.active[i])
    }

    /// The roster after a claim: the name is recorded, over any earlier one.
    pub open spec fn claim(self, id: u64, name: Seq<char>) -> RosterView {
        RosterView { claims: self.claims.insert(id, name), active: self.active }
    }

    /// The roster after a guest has started: the guest is active, and has an
    /// entry, with `?` for a name where there was none.
    pub open spec fn mark_active(self, id: u64) -> RosterView {
        RosterView {
            claims: if self.claims.contains_key(id) {
                self.claims
            } else {
                self.claims.insert(id, "?"@)
            },
            active: with_id(self.active, id),
        }
    }

    /// The roster after a guest has stopped: the guest is not active and has
    /// no entry.
    pub open spec fn mark_inactive(self, id: u64) -> RosterView {
        RosterView { claims: self.claims.remove(id), active: without_id(self.active, id) }
    }
}

/// The names of a map of claims, as texts.
pub open spec fn claims_of(names: Map<u64, String>) -> Map<u64, Seq<char>> {
    Map::new(|id: u64| names.contains_key(id), |id: u64| names[id]@)
}

/// Guests of the session: the display name of whoever claimed each guest id,
/// and the set of guest ids that are active.
pub struct GuestData {
    guest_map: HashMap<u64, String>,
    user_set: Vec<u64>,
}

impl View for GuestData {
    type V = RosterView;

    closed spec fn view(&self) -> RosterView {
        RosterView { claims: claims_of(self.guest_map@), active: self.user_set@ }
    }
}

proof fn lemma_rank_at(ids: Seq<u64>, id: u64, k: int)
    requires
        0 <= k <= ids.len(),
        forall|i: int| 0 <= i < k ==> ids[i] < id,
        forall|i: int| k <= i < ids.len() ==> ids[i] >= id,
    ensures
        rank(ids, id) == k,
    decreases ids.len(),
{
    if ids.len() > 0 {
        let front = ids.drop_last();
        if k == ids.len() {
            lemma_rank_at(front, id, k - 1);
        } else {
            lemma_rank_at(front, id, k);
        }
    }
}

proof fn lemma_rank_ascending(ids: Seq<u64>, id: u64)
    requires
        ascending(ids),
    ensures
        rank(ids, id) <= ids.len(),
        forall|i: int| 0 <= i < rank(ids, id) ==> ids[i] < id,
        forall|i: int| rank(ids, id) <= i < ids.len() ==> ids[i] >= id,
    decreases ids.len(),
{
    if ids.len() > 0 {
        let front = ids.drop_last();
        let r = rank(front, id) as int;
        lemma_rank_ascending(front, id);
        if ids.last() < id {
            assert forall|i: int| 0 <= i < ids.len() implies ids[i] < id by {
                if i < ids.len() - 1 {
                    assert(ids[i] < ids[ids.len() - 1]);
                }
            }
            if r < front.len() {
                assert(front[r] == ids[r]);
            }
        } else {
            assert forall|i: int| 0 <= i < r implies ids[i] < id by {
                assert(front[i] == ids[i]);
            }
            assert forall|i: int| r <= i < ids.len() implies ids[i] >= id by {
                if i < ids.len() - 1 {
                    assert(front[i] == ids[i]);
                }
            }
        }
    }
}

/// A claim keeps the roster well formed and touches one entry only: the
/// guest's name is the claimed one, and every other guest's is as before. A
/// second claim of the same guest overwrites the first.
pub proof fn lemma_claim(roster: RosterView, id: u64, name: Seq<char>, later: Seq<char>)
    requires
        roster.wf(),
    ensures
        roster.claim(id, name).wf(),
        shown_name(roster.claim(id, name).claims, id) == name,
        forall|other: u64|
            other != id ==> shown_name(roster.claim(id, name).claims, other) == shown_name(
                roster.claims,
                other,
            ),
        roster.claim(id, name).claim(id, later) == roster.claim(id, later),
        roster.claim(id, name).claim(id, name) == roster.claim(id, name),
{
    assert(roster.claims.insert(id, name).insert(id, later) =~= roster.claims.insert(id, later));
    assert(roster.claims.insert(id, name).insert(id, name) =~= roster.claims.insert(id, name));
}

/// A guest that starts is active afterwards, and nobody else's standing
/// changes; the roster stays well formed, and a name claimed for the guest
/// stays.
pub proof fn lemma_mark_active(roster: RosterView, id: u64)
    requires
        roster.wf(),
    ensures
        roster.mark_active(id).wf(),
        roster.mark_active(id).active.contains(id),
        forall|other: u64|
            other != id ==> roster.mark_active(id).active.contains(other)
                == roster.active.contains(other),
        shown_name(roster.mark_active(id).claims, id) == shown_name(roster.claims, id),
        roster.mark_active(id).mark_active(id) == roster.mark_active(id),
{
    let ids = roster.active;
    let after = roster.mark_active(id);
    lemma_rank_ascending(ids, id);
    if ids.contains(id) {
        assert(after.active == ids);
    } else {
        let k = rank(ids, id) as int;
        assert(after.active == ids.insert(k, id));
        assert(after.active[k] == id);
        assert forall|i: int, j: int| 0 <= i < j < after.active.len() implies after.active[i]
            < after.active[j] by {
            if i < k && j > k {
                assert(ids[i] < id && ids[j - 1] >= id);
            }
        }
        assert forall|other: u64| other != id implies after.active.contains(other)
            == ids.contains(other) by {
            if ids.contains(other) {
                let j = choose|j: int| 0 <= j < ids.len() && ids[j] == other;
                if j < k {
                    assert(after.active[j] == other);
                } else {
                    assert(after.active[j + 1] == other);
                }
            }
            if after.active.contains(other) {
                let j = choose|j: int| 0 <= j < after.active.len() && after.active[j] == other;
                if j < k {
                    assert(ids[j] == other);
                } else {
                    assert(ids[j - 1] == other);
                }
            }
        }
        assert forall|i: int| 0 <= i < after.active.len() implies after.claims.contains_key(
            after.active[i],
        ) by {
            if i < k {
                assert(after.active[i] == ids[i]);
            } else if i > k {
                assert(after.active[i] == ids[i - 1]);
            }
        }
    }
    assert(after.active.contains(id));
    assert(after.mark_active(id).claims =~= after.claims);
}

/// A guest that stops is not active afterwards and has no entry, and nobody
/// else's standing changes; the roster stays well formed.
pub proof fn lemma_mark_inactive(roster: RosterView, id: u64)
    requires
        roster.wf(),
    ensures
        roster.mark_inactive(id).wf(),
        !roster.mark_inactive(id).active.contains(id),
        !roster.mark_inactive(id).claims.contains_key(id),
        shown_name(roster.mark_inactive(id).claims, id) == "?"@,
        forall|other: u64|
            other != id ==> roster.mark_inactive(id).active.contains(other)
                == roster.active.contains(other),
        forall|other: u64|
            other != id ==> shown_name(roster.mark_inactive(id).claims, other) == shown_name(
                roster.claims,
                other,
            ),
{
    let ids = roster.active;
    let after = roster.mark_inactive(id);
    if ids.contains(id) {
        let k = ids.index_of(id);
        assert(0 <= k < ids.len() && ids[k] == id);
        assert(after.active == ids.remove(k));
        assert forall|i: int, j: int| 0 <= i < j < after.active.len() implies after.active[i]
            < after.active[j] by {
            let a = if i < k {
                i
            } else {
                i + 1
            };
            let b = if j < k {
                j
            } else {
                j + 1
            };
            assert(after.active[i] == ids[a] && after.active[j] == ids[b]);
        }
        assert forall|i: int| 0 <= i < after.active.len() implies after.active[i] != id
            && after.claims.contains_key(after.active[i]) by {
            let a = if i < k {
                i
            } else {
                i + 1
            };
            assert(after.active[i] == ids[a]);
            if a < k {
                assert(ids[a] < ids[k]);
            } else {
                assert(ids[k] < ids[a]);
            }
        }
        assert forall|other: u64| other != id implies after.active.contains(other)
            == ids.contains(other) by {
            if ids.contains(other) {
                let j = choose|j: int| 0 <= j < ids.len() && ids[j] == other;
                if j < k {
                    assert(after.active[j] == other);
                } else {
                    assert(after.active[j - 1] == other);
                }
            }
            if after.active.contains(other) {
                let j = choose|j: int| 0 <= j < after.active.len() && after.active[j] == other;
                if j < k {
                    assert(ids[j] == other);
                } else {
                    assert(ids[j + 1] == other);
                }
            }
        }
    } else {
        assert(after.active == ids);
        assert forall|i: int| 0 <= i < ids.len() implies ids[i] != id by {
            assert(ids.contains(ids[i]));
        }
    }
}

impl GuestData {
    /// What holds of every roster: the active ids ascend, and each of them
    /// has an entry.
    #[verifier::type_invariant]
    pub closed spec fn inv(self) -> bool {
        &&& ascending(self.user_set@)
        &&& forall|i: int|
            0 <= i < self.user_set@.len() ==> self.guest_map@.contains_key(self.user_set@[i])
    }

    /// What holds of every roster makes its view well formed.
    pub proof fn lemma_inv_wf(self)
        requires
            self.inv(),
        ensures
            self@.wf(),
    {
    }

    /// An empty roster.
    pub fn new() -> (roster: Self)
        ensures
            roster@.claims == Map::<u64, Seq<char>>::empty(),
            roster@.active == Seq::<u64>::empty(),
            roster@.wf(),
    {
        let roster = GuestData { guest_map: HashMap::new(), user_set: Vec::new() };
        proof {
            assert(claims_of(roster.guest_map@) =~= Map::<u64, Seq<char>>::empty());
        }
        roster
    }

    /// Moves the two collections out and leaves the roster empty.
    fn take_parts(&mut self) -> (parts: (HashMap<u64, String>, Vec<u64>))
        ensures
            parts.0 == old(self).guest_map,
            parts.1 == old(self).user_set,
            final(self).guest_map@ == Map::<u64, String>::empty(),
            final(self).user_set@ == Seq::<u64>::empty(),
            ascending(parts.1@),
            forall|i: int| 0 <= i < parts.1@.len() ==> parts.0@.contains_key(parts.1@[i]),
    {
        proof {
            use_type_invariant(&*self);
        }
        let mut ids: Vec<u64> = Vec::new();
        core::mem::swap(&mut self.user_set, &mut ids);
        let mut names: HashMap<u64, String> = HashMap::new();
        core::mem::swap(&mut self.guest_map, &mut names);
        (names, ids)
    }

    /// Moves two collections into a roster that holds none.
    fn put_parts(&mut self, names: HashMap<u64, String>, ids: Vec<u64>)
        requires
            old(self).user_set@ == Seq::<u64>::empty(),
            ascending(ids@),
            forall|i: int| 0 <= i < ids@.len() ==> names@.contains_key(ids@[i]),
        ensures
            final(self).guest_map == names,
            final(self).user_set == ids,
    {
        self.guest_map = names;
        self.user_set = ids;
    }

    /// Records the display name of whoever claimed a guest id. A later claim
    /// of the same id replaces the name.
    pub fn claim(&mut self, guest_id: u64, name: String)
        ensures
            final(self)@ == old(self)@.claim(guest_id, name@),
            final(self)@.wf(),
    {
        let (mut names, ids) = self.take_parts();
        names.insert(guest_id, name);
        proof {
            assert(claims_of(names@) =~= claims_of(old(self).guest_map@).insert(guest_id, name@));
        }
        self.put_parts(names, ids);
    }

    /// The display name of a guest: the claimed one, `?` for a guest that
    /// nobody has claimed.
    pub fn display_name(&self, guest_id: u64) -> (name: String)
        ensures
            name@ == shown_name(self@.claims, guest_id),
            self@.wf(),
    {
        proof {
            use_type_invariant(self);
        }
        match self.guest_map.get(&guest_id) {
            Some(name) => name.clone(),
            None => String::from_str("?"),
        }
    }

    /// Whether a guest is active.
    pub fn is_active(&self, guest_id: u64) -> (active: bool)
        ensures
            active == self@.active.contains(guest_id),
            self@.wf(),
    {
        proof {
            use_type_invariant(self);
        }
        let at = self.position(guest_id);
        at < self.user_set.len() && self.user_set[at] == guest_id
    }

    /// The number of active guests.
    pub fn active_count(&self) -> (count: usize)
        ensures
            count == self@.active.len(),
            self@.wf(),
    {
        proof {
            use_type_invariant(self);
        }
        self.user_set.len()
    }

    /// The first position whose id is not below `guest_id`.
    fn position(&self, guest_id: u64) -> (at: usize)
        ensures
            at <= self.user_set@.len(),
            at == rank(self.user_set@, guest_id),
            forall|i: int| 0 <= i < at ==> self.user_set@[i] < guest_id,
            forall|i: int| at <= i < self.user_set@.len() ==> self.user_set@[i] >= guest_id,
            self.user_set@.contains(guest_id) <==> (at < self.user_set@.len()
                && self.user_set@[at as int] == guest_id),
    {
        proof {
            use_type_invariant(self);
        }
        let mut at: usize = 0;
        while at < self.user_set.len() && self.user_set[at] < guest_id
            invariant
                at <= self.user_set@.len(),
                forall|i: int| 0 <= i < at ==> self.user_set@[i] < guest_id,
            decreases self.user_set@.len() - at,
        {
            at = at + 1;
        }
        proof {
            let ids = self.user_set@;
            assert forall|i: int| at <= i < ids.len() implies ids[i] >= guest_id by {
                if i > at {
                    assert(ids[at as int] < ids[i]);
                }
            }
            lemma_rank_at(ids, guest_id, at as int);
            if ids.contains(guest_id) {
                let j = choose|j: int| 0 <= j < ids.len() && ids[j] == guest_id;
                assert(j >= at);
                if j > at {
                    assert(ids[at as int] < ids[j]);
                }
            }
        }
        at
    }

    /// The summary of the active guests: `[id]name` for each, in ascending
    /// order of the ids, separated by a comma and a space.
    pub fn active_summary(&self) -> (summary: String)
        ensures
            summary@ == summary_of(self@.claims, self@.active),
            self@.wf(),
    {
        proof {
            use_type_invariant(self);
        }
        let mut summary = String::new();
        let mut i: usize = 0;
        while i < self.user_set.len()
            invariant
                i <= self.user_set@.len(),
                summary@ == summary_of(self@.claims, self.user_set@.take(i as int)),
            decreases self.user_set@.len() - i,
        {
            let id = self.user_set[i];
            if i > 0 {
                summary.append(", ");
            }
            summary.append("[");
            push_decimal(&mut summary, id);
            summary.append("]");
            let name = self.display_name(id);
            summary.append(name.as_str());
            proof {
                let before = self.user_set@.take(i as int);
                let now = self.user_set@.take(i + 1);
                assert(now.drop_last() == before);
                assert(now.last() == id);
                if i == 0 {
                    assert(summary@ == entry_text(self@.claims, id));
                } else {
                    assert(summary@ == summary_of(self@.claims, before) + ", "@ + entry_text(
                        self@.claims,
                        id,
                    ));
                }
            }
            i = i + 1;
        }
        proof {
            assert(self.user_set@.take(i as int) == self.user_set@);
        }
        summary
    }

    /// The status line: the number of active guests and their summary.
    pub fn status_line(&self) -> (line: String)
        ensures
            line@ == status_of(self@),
            self@.wf(),
    {
        let mut line = String::from_str("\u{2605} Players(");
        push_decimal(&mut line, self.user_set.len() as u64);
        line.append("): ");
        let summary = self.active_summary();
        line.append(summary.as_str());
        line
    }

    /// Notes that a guest has started: the guest becomes active and gets an
    /// entry if it had none. Returns the summary of the active guests.
    pub fn mark_active(&mut self, guest_id: u64) -> (summary: String)
        ensures
            final(self)@ == old(self)@.mark_active(guest_id),
            final(self)@.wf(),
            summary@ == summary_of(final(self)@.claims, final(self)@.active),
    {
        let at = self.position(guest_id);
        let (mut names, mut ids) = self.take_parts();
        if !names.contains_key(&guest_id) {
            names.insert(guest_id, String::from_str("?"));
            proof {
                assert(claims_of(names@) =~= claims_of(old(self).guest_map@).insert(
                    guest_id,
                    "?"@,
                ));
            }
        }
        if !(at < ids.len() && ids[at] == guest_id) {
            ids.insert(at, guest_id);
        }
        self.put_parts(names, ids);
        self.active_summary()
    }

    /// Notes that a guest has stopped: the guest is no longer active and its
    /// entry is dropped. Returns the summary of the guests that stay active.
    pub fn mark_inactive(&mut self, guest_id: u64) -> (summary: String)
        ensures
            final(self)@ == old(self)@.mark_inactive(guest_id),
            final(self)@.wf(),
            summary@ == summary_of(final(self)@.claims, final(self)@.active),
    {
        let at = self.position(guest_id);
        let (mut names, mut ids) = self.take_parts();
        if at < ids.len() && ids[at] == guest_id {
            proof {
                let j = ids@.index_of(guest_id);
                assert(ids@[at as int] == guest_id);
                assert(0 <= j < ids@.len() && ids@[j] == guest_id);
                if j < at {
                    assert(ids@[j] < ids@[at as int]);
                }
                if j > at {
                    assert(ids@[at as int] < ids@[j]);
                }
            }
            ids.remove(at);
        }
        names.remove(&guest_id);
        proof {
            assert(claims_of(names@) =~= claims_of(old(self).guest_map@).remove(guest_id));
            assert(!ids@.contains(guest_id));
        }
        self.put_parts(names, ids);
        self.active_summary()
    }
}

} // verus!
