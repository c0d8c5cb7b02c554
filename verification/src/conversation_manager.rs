//! A bounded store of conversations that evicts the least recently used.

use crate::conversation::Conversation;
use vstd::prelude::*;
use vstd::string::StringExecFns;

verus! {

/// Position of the first entry of `entries` stored under `id`, or
/// `entries.len()`.
pub open spec fn slot_of(entries: Seq<(String, Conversation)>, id: Seq<char>) -> int
    decreases entries.len(),
{
    if entries.len() == 0 {
        0
    } else if entries[0].0@ == id {
        0
    } else {
        1 + slot_of(entries.drop_first(), id)
    }
}

proof fn lemma_slot_of(entries: Seq<(String, Conversation)>, id: Seq<char>, k: int)
    requires
        0 <= k <= entries.len(),
        forall|j: int| 0 <= j < k ==> (#[trigger] entries[j]).0@ != id,
        k < entries.len() ==> entries[k].0@ == id,
    ensures
        slot_of(entries, id) == k,
    decreases entries.len(),
{
    if k > 0 {
        lemma_slot_of(entries.drop_first(), id, k - 1);
    }
}

/// What `slot_of` finds: no entry before the slot is stored under `id`, and
/// the entry at the slot, if there is one, is.
pub proof fn lemma_slot_found(entries: Seq<(String, Conversation)>, id: Seq<char>)
    ensures
        0 <= slot_of(entries, id) <= entries.len(),
        slot_of(entries, id) < entries.len() ==> entries[slot_of(entries, id)].0@ == id,
        forall|j: int| 0 <= j < slot_of(entries, id) ==> (#[trigger] entries[j]).0@ != id,
    decreases entries.len(),
{
    if entries.len() > 0 && entries[0].0@ != id {
        let rest = entries.drop_first();
        lemma_slot_found(rest, id);
        assert forall|j: int| 0 <= j < slot_of(entries, id) implies (#[trigger] entries[j]).0@
            != id by {
            if j > 0 {
                assert(rest[j - 1] == entries[j]);
            }
        }
        if slot_of(rest, id) < rest.len() {
            assert(rest[slot_of(rest, id)] == entries[slot_of(rest, id) + 1]);
        }
    }
}

/// No two entries are stored under the same id.
pub open spec fn distinct_ids(entries: Seq<(String, Conversation)>) -> bool {
    forall|i: int, j: int|
        0 <= i < j < entries.len() ==> (#[trigger] entries[i]).0@ != (#[trigger] entries[j]).0@
}

/// No entry of `entries` is stored under `id`.
pub open spec fn absent(entries: Seq<(String, Conversation)>, id: Seq<char>) -> bool {
    forall|j: int| 0 <= j < entries.len() ==> (#[trigger] entries[j]).0@ != id
}

/// Where ids are distinct, taking the entry of `id` out leaves no entry of
/// `id`, and the ids stay distinct.
pub proof fn lemma_without(entries: Seq<(String, Conversation)>, id: Seq<char>)
    requires
        distinct_ids(entries),
    ensures
        distinct_ids(without(entries, id)),
        absent(without(entries, id), id),
        slot_of(without(entries, id), id) == without(entries, id).len(),
        slot_of(entries, id) < entries.len() ==> without(entries, id).len() == entries.len() - 1,
        slot_of(entries, id) >= entries.len() ==> without(entries, id) == entries,
{
    lemma_slot_found(entries, id);
    let k = slot_of(entries, id);
    let left = without(entries, id);
    if k < entries.len() {
        assert forall|j: int| 0 <= j < left.len() implies (#[trigger] left[j]).0@ != id by {
            if j < k {
                assert(left[j] == entries[j]);
            } else {
                assert(left[j] == entries[j + 1]);
                assert(entries[k].0@ != entries[j + 1].0@);
            }
        }
        assert forall|i: int, j: int| 0 <= i < j < left.len() implies (#[trigger] left[i]).0@ != (
        #[trigger] left[j]).0@ by {
            let a = if i < k {
                i
            } else {
                i + 1
            };
            let b = if j < k {
                j
            } else {
                j + 1
            };
            assert(left[i] == entries[a] && left[j] == entries[b]);
            assert(entries[a].0@ != entries[b].0@);
        }
    }
    lemma_slot_of(left, id, left.len() as int);
}

/// `entries` after room is made for an insertion under a capacity of `max`:
/// the least recently used entry leaves when the store is full.
pub open spec fn after_eviction(entries: Seq<(String, Conversation)>, max: usize) -> Seq<
    (String, Conversation),
> {
    if entries.len() >= max && entries.len() > 0 {
        entries.drop_first()
    } else {
        entries
    }
}

/// `entries` without the entry stored under `id`, if there is one.
pub open spec fn without(entries: Seq<(String, Conversation)>, id: Seq<char>) -> Seq<
    (String, Conversation),
> {
    let k = slot_of(entries, id);
    if 0 <= k < entries.len() {
        entries.remove(k)
    } else {
        entries
    }
}

/// Holds conversations under string keys, least recently used first, and
/// evicts the first when full.
#[derive(Debug)]
pub struct ConversationManager {
    entries: Vec<(String, Conversation)>,
    max_conversations: usize,
}

impl ConversationManager {
    /// The stored conversations with their keys, least recently used first.
    pub closed spec fn entries(&self) -> Seq<(String, Conversation)> {
        self.entries@
    }

    /// The capacity.
    pub closed spec fn limit(&self) -> usize {
        self.max_conversations
    }

    /// No two conversations are stored under the same id.
    pub open spec fn wf(&self) -> bool {
        distinct_ids(self.entries())
    }

    /// An empty store that holds at most `max_conversations` conversations.
    pub fn new(max_conversations: usize) -> (m: ConversationManager)
        ensures
            m.wf(),
            m.entries().len() == 0,
            m.limit() == max_conversations,
    {
        ConversationManager { entries: Vec::new(), max_conversations }
    }

    fn slot(&self, id: &str) -> (k: usize)
        ensures
            k == slot_of(self.entries(), id@),
            k <= self.entries().len(),
            k < self.entries().len() ==> self.entries()[k as int].0@ == id@,
            forall|j: int| 0 <= j < k ==> (#[trigger] self.entries()[j]).0@ != id@,
    {
        let wanted = String::from_str(id);
        let mut i: usize = 0;
        while i < self.entries.len()
            invariant
                i <= self.entries@.len(),
                wanted@ == id@,
                forall|j: int| 0 <= j < i ==> (#[trigger] self.entries@[j]).0@ != id@,
            decreases self.entries@.len() - i,
        {
            if self.entries[i].0 == wanted {
                proof {
                    lemma_slot_of(self.entries@, id@, i as int);
                }
                return i;
            }
            i += 1;
        }
        proof {
            lemma_slot_of(self.entries@, id@, i as int);
        }
        i
    }

    /// Stores `conversation` under `id` as the most recently used entry and
    /// gives it `id` as its identifier. A full store first evicts its least
    /// recently used entry; an entry already stored under `id` is replaced.
    pub fn insert(&mut self, id: String, conversation: Conversation)
        requires
            old(self).wf(),
        ensures
            final(self).wf(),
            final(self).limit() == old(self).limit(),
            ({
                let kept = without(after_eviction(old(self).entries(), old(self).limit()), id@);
                &&& final(self).entries().len() == kept.len() + 1
                &&& final(self).entries().drop_last() == kept
                &&& final(self).entries().last().0 == id
                &&& final(self).entries().last().1.id@ == id@
                &&& final(self).entries().last().1.model == conversation.model
                &&& final(self).entries().last().1.messages == conversation.messages
            }),
    {
        if self.entries.len() >= self.max_conversations && self.entries.len() > 0 {
            self.entries.remove(0);
        }
        let ghost roomy = self.entries@;
        proof {
            assert(roomy =~= after_eviction(old(self).entries@, self.max_conversations));
            assert forall|i: int, j: int| 0 <= i < j < roomy.len() implies (#[trigger] roomy[i]).0@
                != (#[trigger] roomy[j]).0@ by {
                if roomy.len() < old(self).entries@.len() {
                    assert(roomy[i] == old(self).entries@[i + 1]);
                    assert(roomy[j] == old(self).entries@[j + 1]);
                }
            }
            lemma_without(roomy, id@);
        }
        let k = self.slot(id.as_str());
        if k < self.entries.len() {
            self.entries.remove(k);
        }
        let ghost kept = self.entries@;
        proof {
            assert(kept =~= without(roomy, id@));
        }
        let stored = Conversation {
            id: id.clone(),
            model: conversation.model,
            messages: conversation.messages,
        };
        self.entries.push((id, stored));
        proof {
            assert(self.entries@.drop_last() =~= kept);
            assert forall|i: int, j: int| 0 <= i < j < self.entries@.len() implies (
            #[trigger] self.entries@[i]).0@ != (#[trigger] self.entries@[j]).0@ by {
                assert(self.entries@[i] == kept[i]);
                if j < kept.len() {
                    assert(self.entries@[j] == kept[j]);
                }
            }
        }
    }

    /// The conversation stored under `id`.
    pub fn get(&self, id: &str) -> (c: Option<&Conversation>)
        ensures
            ({
                let k = slot_of(self.entries(), id@);
                &&& c is Some <==> k < self.entries().len()
                &&& c is Some ==> *c->0 == self.entries()[k].1
            }),
    {
        let k = self.slot(id);
        if k < self.entries.len() {
            Some(&self.entries[k].1)
        } else {
            None
        }
    }

    /// Marks the conversation stored under `id` as the most recently used
    /// and gives access to it.
    pub fn get_mut(&mut self, id: &str) -> (c: Option<&mut Conversation>)
        requires
            old(self).wf(),
        ensures
            final(self).wf(),
            final(self).limit() == old(self).limit(),
            ({
                let k = slot_of(old(self).entries(), id@);
                &&& c is Some <==> k < old(self).entries().len()
                &&& c is None ==> final(self).entries() == old(self).entries()
                &&& c is Some ==> {
                    &&& *c->0 == old(self).entries()[k].1
                    &&& final(self).entries().len() == old(self).entries().len()
                    &&& final(self).entries().drop_last() == old(self).entries().remove(k)
                    &&& final(self).entries().last().0 == old(self).entries()[k].0
                    &&& final(self).entries().last().1 == *final(c->0)
                }
            }),
    {
        let k = self.slot(id);
        if k < self.entries.len() {
            proof {
                lemma_without(self.entries@, id@);
            }
            let entry = self.entries.remove(k);
            let ghost kept = self.entries@;
            self.entries.push(entry);
            proof {
                assert(self.entries@.drop_last() =~= kept);
                assert(kept =~= without(old(self).entries@, id@));
                assert forall|i: int, j: int| 0 <= i < j < self.entries@.len() implies (
                #[trigger] self.entries@[i]).0@ != (#[trigger] self.entries@[j]).0@ by {
                    assert(self.entries@[i] == kept[i]);
                    if j < kept.len() {
                        assert(self.entries@[j] == kept[j]);
                    }
                }
            }
            let last = self.entries.len() - 1;
            Some(&mut self.entries[last].1)
        } else {
            None
        }
    }

    /// Takes the conversation stored under `id` out of the store.
    pub fn remove(&mut self, id: &str) -> (c: Option<Conversation>)
        requires
            old(self).wf(),
        ensures
            final(self).wf(),
            final(self).limit() == old(self).limit(),
            final(self).entries() == without(old(self).entries(), id@),
            absent(final(self).entries(), id@),
            slot_of(final(self).entries(), id@) == final(self).entries().len(),
            final(self).entries().len() == old(self).entries().len() - if c is Some {
                1int
            } else {
                0int
            },
            ({
                let k = slot_of(old(self).entries(), id@);
                &&& c is Some <==> k < old(self).entries().len()
                &&& c is Some ==> c->0 == old(self).entries()[k].1
            }),
    {
        proof {
            lemma_without(self.entries@, id@);
        }
        let k = self.slot(id);
        if k < self.entries.len() {
            let entry = self.entries.remove(k);
            Some(entry.1)
        } else {
            None
        }
    }

    /// The keys, least recently used first.
    pub fn list_ids(&self) -> (ids: Vec<String>)
        ensures
            ids@.len() == self.entries().len(),
            forall|i: int| 0 <= i < ids@.len() ==> (#[trigger] ids@[i])@ == self.entries()[i].0@,
    {
        let mut ids: Vec<String> = Vec::new();
        let mut i: usize = 0;
        while i < self.entries.len()
            invariant
                i <= self.entries@.len(),
                ids@.len() == i,
                forall|j: int| 0 <= j < i ==> (#[trigger] ids@[j])@ == self.entries@[j].0@,
            decreases self.entries@.len() - i,
        {
            ids.push(self.entries[i].0.clone());
            i += 1;
        }
        ids
    }

    /// The conversations, least recently used first.
    pub fn list_all(&self) -> (all: Vec<&Conversation>)
        ensures
            all@.len() == self.entries().len(),
            forall|i: int| 0 <= i < all@.len() ==> *(#[trigger] all@[i]) == self.entries()[i].1,
    {
        let mut all: Vec<&Conversation> = Vec::new();
        let mut i: usize = 0;
        while i < self.entries.len()
            invariant
                i <= self.entries@.len(),
                all@.len() == i,
                forall|j: int| 0 <= j < i ==> *(#[trigger] all@[j]) == self.entries@[j].1,
            decreases self.entries@.len() - i,
        {
            all.push(&self.entries[i].1);
            i += 1;
        }
        all
    }

    /// Whether a conversation is stored under `id`.
    pub fn contains(&self, id: &str) -> (b: bool)
        ensures
            b == (slot_of(self.entries(), id@) < self.entries().len()),
    {
        let k = self.slot(id);
        k < self.entries.len()
    }

    /// Number of stored conversations.
    pub fn len(&self) -> (n: usize)
        ensures
            n == self.entries().len(),
    {
        self.entries.len()
    }

    /// Whether the store is empty.
    pub fn is_empty(&self) -> (b: bool)
        ensures
            b == (self.entries().len() == 0),
    {
        self.entries.len() == 0
    }

    /// The capacity.
    pub fn capacity(&self) -> (n: usize)
        ensures
            n == self.limit(),
    {
        self.max_conversations
    }

    /// Empties the store.
    pub fn clear(&mut self)
        ensures
            final(self).wf(),
            final(self).limit() == old(self).limit(),
            final(self).entries().len() == 0,
    {
        self.entries.clear();
    }
}

} // verus!
