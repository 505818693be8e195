//! The refresh tokens that are out, each with whom it is for and when it expires.
use vstd::prelude::*;

verus! {

/// What a refresh token stands for.
#[derive(Debug, Clone)]
pub struct RefreshEntry {
    /// The subject that the token was issued to.
    pub sub: String,
    /// The second from which on the token is expired.
    pub exp: i64,
}

/// A [`RefreshEntry`] as a mathematical value.
pub struct RefreshEntryView {
    pub sub: Seq<char>,
    pub exp: i64,
}

impl View for RefreshEntry {
    type V = RefreshEntryView;

    open spec fn view(&self) -> RefreshEntryView {
        RefreshEntryView { sub: self.sub@, exp: self.exp }
    }
}

/// Refresh tokens with their entries. They are kept in a vector: neither `retain` of a
/// `std::collections::HashMap` nor a `String` as its key has a specification in `vstd`, whose own
/// map with strings as keys cannot be walked. Every request that changes the tokens looks at each
/// of them anyway, to remove those that have expired.
#[derive(Debug)]
pub struct RefreshStore {
    slots: Vec<(String, RefreshEntry)>,
}

spec fn distinct(slots: Seq<(String, RefreshEntry)>) -> bool {
    forall|i: int, j: int|
        0 <= i < j < slots.len() ==> (#[trigger] slots[i]).0@ != (#[trigger] slots[j]).0@
}

spec fn holds(slots: Seq<(String, RefreshEntry)>, token: Seq<char>, i: int) -> bool {
    0 <= i < slots.len() && slots[i].0@ == token
}

spec fn contents(slots: Seq<(String, RefreshEntry)>) -> Map<Seq<char>, RefreshEntryView> {
    Map::new(
        |token: Seq<char>| exists|i: int| holds(slots, token, i),
        |token: Seq<char>| slots[choose|i: int| holds(slots, token, i)].1@,
    )
}

/// The entries of `tokens` that have not expired at `now`.
pub open spec fn live(tokens: Map<Seq<char>, RefreshEntryView>, now: i64) -> Map<
    Seq<char>,
    RefreshEntryView,
> {
    Map::new(
        |token: Seq<char>| tokens.contains_key(token) && tokens[token].exp > now,
        |token: Seq<char>| tokens[token],
    )
}

proof fn slot_is_in_contents(slots: Seq<(String, RefreshEntry)>, i: int)
    requires
        distinct(slots),
        0 <= i < slots.len(),
    ensures
        contents(slots).contains_key(slots[i].0@),
        contents(slots)[slots[i].0@] == slots[i].1@,
{
    let token = slots[i].0@;
    assert(holds(slots, token, i));
    let j = choose|j: int| holds(slots, token, j);
    assert(holds(slots, token, j));
    assert(i == j);
}

proof fn contents_after_push(slots: Seq<(String, RefreshEntry)>, slot: (String, RefreshEntry))
    requires
        distinct(slots),
        !contents(slots).contains_key(slot.0@),
    ensures
        distinct(slots.push(slot)),
        contents(slots.push(slot)) == contents(slots).insert(slot.0@, slot.1@),
{
    let after = slots.push(slot);
    assert(distinct(after)) by {
        assert forall|i: int, j: int| 0 <= i < j < after.len() implies (#[trigger] after[i]).0@ != (
        #[trigger] after[j]).0@ by {
            if j == slots.len() {
                slot_is_in_contents(slots, i);
            }
        }
    }
    assert forall|token: Seq<char>| #[trigger]
        contents(after).contains_key(token) <==> contents(slots).insert(
            slot.0@,
            slot.1@,
        ).contains_key(token) by {
        if contents(after).contains_key(token) {
            let i = choose|i: int| holds(after, token, i);
            assert(holds(after, token, i));
            if i < slots.len() {
                assert(holds(slots, token, i));
            }
        }
        if contents(slots).contains_key(token) {
            let i = choose|i: int| holds(slots, token, i);
            assert(holds(after, token, i));
        }
        if token == slot.0@ {
            assert(holds(after, token, slots.len() as int));
        }
    }
    assert forall|token: Seq<char>| contents(after).contains_key(token) implies #[trigger] contents(
        after,
    )[token] == contents(slots).insert(slot.0@, slot.1@)[token] by {
        let i = choose|i: int| holds(after, token, i);
        assert(holds(after, token, i));
        slot_is_in_contents(after, i);
        if i < slots.len() {
            slot_is_in_contents(slots, i);
        }
    }
    assert(contents(after) =~= contents(slots).insert(slot.0@, slot.1@));
}

proof fn contents_after_swap_remove(slots: Seq<(String, RefreshEntry)>, k: int)
    requires
        distinct(slots),
        0 <= k < slots.len(),
    ensures
        distinct(slots.update(k, slots.last()).drop_last()),
        contents(slots.update(k, slots.last()).drop_last()) == contents(slots).remove(slots[k].0@),
{
    let after = slots.update(k, slots.last()).drop_last();
    let gone = slots[k].0@;
    let last = slots.len() - 1;
    // Where each slot that is left stood before.
    assert forall|i: int| 0 <= i < after.len() implies #[trigger] after[i] == slots[if i == k {
        last
    } else {
        i
    }] by {}
    assert(distinct(after));
    assert forall|token: Seq<char>| #[trigger]
        contents(after).contains_key(token) <==> contents(slots).remove(gone).contains_key(
            token,
        ) by {
        if contents(after).contains_key(token) {
            let i = choose|i: int| holds(after, token, i);
            assert(holds(after, token, i));
            let j = if i == k {
                last
            } else {
                i
            };
            assert(holds(slots, token, j));
            assert(slots[j].0@ != gone);
        }
        if contents(slots).remove(gone).contains_key(token) {
            let i = choose|i: int| holds(slots, token, i);
            assert(holds(slots, token, i));
            let j = if i == last {
                k
            } else {
                i
            };
            assert(holds(after, token, j));
        }
    }
    assert forall|token: Seq<char>| contents(after).contains_key(token) implies #[trigger] contents(
        after,
    )[token] == contents(slots).remove(gone)[token] by {
        let i = choose|i: int| holds(after, token, i);
        assert(holds(after, token, i));
        slot_is_in_contents(after, i);
        slot_is_in_contents(slots, if i == k { last } else { i });
    }
    assert(contents(after) =~= contents(slots).remove(gone));
}

proof fn contents_has_one_entry_per_slot(slots: Seq<(String, RefreshEntry)>)
    requires
        distinct(slots),
    ensures
        contents(slots).dom().finite(),
        contents(slots).len() == slots.len(),
    decreases slots.len(),
{
    if slots.len() == 0 {
        assert(contents(slots) =~= Map::empty());
    } else {
        let front = slots.drop_last();
        contents_has_one_entry_per_slot(front);
        assert(!contents(front).contains_key(slots.last().0@)) by {
            if contents(front).contains_key(slots.last().0@) {
                let i = choose|i: int| holds(front, slots.last().0@, i);
                assert(holds(front, slots.last().0@, i));
                assert(slots[i].0@ == slots[slots.len() - 1].0@);
            }
        }
        contents_after_push(front, slots.last());
        assert(front.push(slots.last()) =~= slots);
    }
}

impl View for RefreshStore {
    type V = Map<Seq<char>, RefreshEntryView>;

    closed spec fn view(&self) -> Map<Seq<char>, RefreshEntryView> {
        contents(self.slots@)
    }
}

impl RefreshStore {
    /// Whether no token stands in the store twice.
    pub closed spec fn wf(&self) -> bool {
        distinct(self.slots@)
    }

    /// A store holds finitely many tokens.
    pub proof fn has_finitely_many(&self)
        requires
            self.wf(),
        ensures
            self@.dom().finite(),
    {
        contents_has_one_entry_per_slot(self.slots@);
    }

    /// A store without tokens.
    pub fn new() -> (store: RefreshStore)
        ensures
            store.wf(),
            store@ == Map::<Seq<char>, RefreshEntryView>::empty(),
    {
        let store = RefreshStore { slots: Vec::new() };
        assert(store@ =~= Map::<Seq<char>, RefreshEntryView>::empty());
        store
    }

    /// How many tokens there are.
    pub fn len(&self) -> (n: usize)
        requires
            self.wf(),
        ensures
            self@.dom().finite(),
            n == self@.len(),
    {
        proof {
            contents_has_one_entry_per_slot(self.slots@);
        }
        self.slots.len()
    }

    /// Where `token` stands, if it does.
    fn position(&self, token: &str) -> (r: Option<usize>)
        requires
            self.wf(),
        ensures
            match r {
                Some(i) => i < self.slots@.len() && self.slots@[i as int].0@ == token@,
                None => !self@.contains_key(token@),
            },
    {
        let wanted: String = token.to_owned();
        let mut i: usize = 0;
        while i < self.slots.len()
            invariant
                i <= self.slots@.len(),
                wanted@ == token@,
                forall|j: int| 0 <= j < i ==> !holds(self.slots@, token@, j),
            decreases self.slots@.len() - i,
        {
            if self.slots[i].0 == wanted {
                return Some(i);
            }
            i = i + 1;
        }
        None
    }

    /// The entry of `token`, if there is one.
    pub fn get(&self, token: &str) -> (r: Option<&RefreshEntry>)
        requires
            self.wf(),
        ensures
            match r {
                Some(entry) => self@.contains_key(token@) && entry@ == self@[token@],
                None => !self@.contains_key(token@),
            },
    {
        match self.position(token) {
            Some(i) => {
                proof {
                    slot_is_in_contents(self.slots@, i as int);
                }
                Some(&self.slots[i].1)
            },
            None => None,
        }
    }

    /// Takes `token` out, and hands out its entry, if there is one.
    pub fn remove(&mut self, token: &str) -> (r: Option<RefreshEntry>)
        requires
            old(self).wf(),
        ensures
            final(self).wf(),
            final(self)@ == old(self)@.remove(token@),
            match r {
                Some(entry) => old(self)@.contains_key(token@) && entry@ == old(self)@[token@],
                None => !old(self)@.contains_key(token@),
            },
    {
        match self.position(token) {
            Some(i) => {
                proof {
                    slot_is_in_contents(self.slots@, i as int);
                    contents_after_swap_remove(self.slots@, i as int);
                }
                let slot = self.slots.swap_remove(i);
                Some(slot.1)
            },
            None => {
                assert(self@.remove(token@) =~= self@);
                None
            },
        }
    }

    /// Sets the entry of `token`, in place of the one that it had.
    pub fn insert(&mut self, token: String, entry: RefreshEntry)
        requires
            old(self).wf(),
        ensures
            final(self).wf(),
            final(self)@ == old(self)@.insert(token@, entry@),
    {
        let _ = self.remove(token.as_str());
        proof {
            contents_after_push(self.slots@, (token, entry));
            assert(old(self)@.remove(token@).insert(token@, entry@) =~= old(self)@.insert(
                token@,
                entry@,
            ));
        }
        self.slots.push((token, entry));
    }
}

/// Removes the tokens that have expired at `now`.
pub fn evict_expired_tokens(store: &mut RefreshStore, now: i64)
    requires
        old(store).wf(),
    ensures
        final(store).wf(),
        final(store)@ == live(old(store)@, now),
{
    let mut i: usize = 0;
    while i < store.slots.len()
        invariant
            i <= store.slots@.len(),
            store.wf(),
            live(store@, now) == live(old(store)@, now),
            forall|j: int| 0 <= j < i ==> (#[trigger] store.slots@[j]).1.exp > now,
        decreases store.slots@.len() - i,
    {
        if store.slots[i].1.exp > now {
            i = i + 1;
        } else {
            let ghost before = store@;
            proof {
                slot_is_in_contents(store.slots@, i as int);
                contents_after_swap_remove(store.slots@, i as int);
            }
            let _ = store.slots.swap_remove(i);
            assert(live(store@, now) =~= live(before, now));
        }
    }
    assert forall|token: Seq<char>| store@.contains_key(token) implies #[trigger] store@[token].exp
        > now by {
        let i = choose|i: int| holds(store.slots@, token, i);
        assert(holds(store.slots@, token, i));
        slot_is_in_contents(store.slots@, i);
    }
    assert(store@ =~= live(store@, now));
}

/// An entry is taken with all that it holds.
pub proof fn entries_are_taken_whole(entry: RefreshEntry)
    ensures
        entry@.sub == entry.sub@,
        entry@.exp == entry.exp,
{
}

} // verus!
