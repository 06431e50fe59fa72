//! The append-only registry of created tokens, in the order of creation.

use vstd::prelude::*;
use vstd::string::*;
use crate::error::FactoryError;
use crate::record::{TokenArgs, TokenArgsView};

verus! {

/// One registered token: its identifier and its record.
pub struct RegistryEntry {
    pub token_id: Seq<char>,
    pub record: TokenArgsView,
}

/// Whether some entry carries the identifier `token_id`.
pub open spec fn has_token(entries: Seq<RegistryEntry>, token_id: Seq<char>) -> bool {
    exists|i: int| 0 <= i < entries.len() && (#[trigger] entries[i]).token_id == token_id
}

/// The record registered under `token_id`, if there is one.
pub open spec fn record_of(entries: Seq<RegistryEntry>, token_id: Seq<char>) -> Option<
    TokenArgsView,
> {
    if has_token(entries, token_id) {
        let i = choose|i: int| 0 <= i < entries.len() && (#[trigger] entries[i]).token_id == token_id;
        Some(entries[i].record)
    } else {
        None
    }
}

/// No identifier is registered twice.
pub open spec fn distinct_ids(entries: Seq<RegistryEntry>) -> bool {
    forall|i: int, j: int|
        0 <= i < j < entries.len() ==> (#[trigger] entries[i]).token_id != (
        #[trigger] entries[j]).token_id
}

/// The first position of a page and the position after its last, among
/// `count` entries.
pub open spec fn page_bounds(from: nat, limit: nat, count: nat) -> (nat, nat) {
    (
        if from <= count {
            from
        } else {
            count
        },
        if from + limit <= count {
            from + limit
        } else {
            count
        },
    )
}

/// The records of at most `limit` entries, starting with entry `from`, in
/// the order of registration. Past the end there is nothing.
pub open spec fn page_of(entries: Seq<RegistryEntry>, from: nat, limit: nat) -> Seq<TokenArgsView> {
    let (start, end) = page_bounds(from, limit, entries.len());
    Seq::new((end - start) as nat, |k: int| entries[start + k].record)
}

/// Computes the bounds of the page of at most `limit` entries that starts
/// with entry `from_index`, among `count` entries.
pub fn page_range(from_index: u64, limit: u64, count: u64) -> (bounds: (u64, u64))
    ensures
        (bounds.0 as nat, bounds.1 as nat) == page_bounds(
            from_index as nat,
            limit as nat,
            count as nat,
        ),
        bounds.0 <= bounds.1 <= count,
{
    if from_index <= count {
        if limit <= count - from_index {
            (from_index, from_index + limit)
        } else {
            (from_index, count)
        }
    } else {
        (count, count)
    }
}

/// The views of a sequence of records.
pub open spec fn record_views(records: Seq<TokenArgs>) -> Seq<TokenArgsView> {
    Seq::new(records.len(), |k: int| records[k]@)
}

struct Slot {
    token_id: String,
    args: TokenArgs,
}

/// The entries that a sequence of slots stands for.
spec fn entries_of(slots: Seq<Slot>) -> Seq<RegistryEntry> {
    Seq::new(
        slots.len(),
        |i: int| RegistryEntry { token_id: slots[i].token_id@, record: slots[i].args@ },
    )
}

/// Token records by identifier. Entries are only ever added, each under an
/// identifier that is not yet taken, and keep the order in which they came.
pub struct Registry {
    slots: Vec<Slot>,
}

impl View for Registry {
    type V = Seq<RegistryEntry>;

    closed spec fn view(&self) -> Seq<RegistryEntry> {
        entries_of(self.slots@)
    }
}

impl Registry {
    #[verifier::type_invariant]
    pub open spec fn well_formed(self) -> bool {
        distinct_ids(self@)
    }

    /// A registry without entries.
    pub fn new() -> (registry: Registry)
        ensures
            registry@ == Seq::<RegistryEntry>::empty(),
    {
        let registry = Registry { slots: Vec::new() };
        assert(registry@ =~= Seq::<RegistryEntry>::empty());
        registry
    }

    /// The number of registered tokens.
    pub fn len(&self) -> (count: u64)
        ensures
            count == self@.len(),
    {
        self.slots.len() as u64
    }

    /// The position of `token_id` among the entries, if it is registered.
    fn find(&self, token_id: &str) -> (found: Option<usize>)
        ensures
            match found {
                Some(i) => i < self@.len() && self@[i as int].token_id == token_id@,
                None => !has_token(self@, token_id@),
            },
    {
        let key = String::from_str(token_id);
        let mut i: usize = 0;
        while i < self.slots.len()
            invariant
                i <= self.slots@.len(),
                key@ == token_id@,
                forall|j: int| 0 <= j < i ==> (#[trigger] self.slots@[j]).token_id@ != token_id@,
            decreases self.slots@.len() - i,
        {
            if self.slots[i].token_id == key {
                return Some(i);
            }
            i = i + 1;
        }
        assert forall|j: int| 0 <= j < self@.len() implies (#[trigger] self@[j]).token_id
            != token_id@ by {
            assert(self.slots@[j].token_id@ != token_id@);
        }
        None
    }

    /// Whether a token is registered under `token_id`.
    pub fn contains(&self, token_id: &str) -> (found: bool)
        ensures
            found == has_token(self@, token_id@),
    {
        self.find(token_id).is_some()
    }

    /// A copy of the record registered under `token_id`.
    pub fn get(&self, token_id: &str) -> (found: Option<TokenArgs>)
        ensures
            match found {
                Some(args) => record_of(self@, token_id@) == Some(args@),
                None => record_of(self@, token_id@) is None,
            },
    {
        proof {
            use_type_invariant(self);
        }
        match self.find(token_id) {
            Some(i) => Some(self.slots[i].args.clone()),
            None => None,
        }
    }

    /// Registers `args` under `token_id`, after every earlier entry. An
    /// identifier that is taken is refused, and the registry stays as it was.
    pub fn insert(&mut self, token_id: String, args: TokenArgs) -> (done: Result<(), FactoryError>)
        ensures
            has_token(old(self)@, token_id@) ==> done == Err::<(), FactoryError>(
                FactoryError::DuplicateTokenId,
            ) && final(self)@ == old(self)@,
            !has_token(old(self)@, token_id@) ==> done is Ok && final(self)@ == old(self)@.push(
                RegistryEntry { token_id: token_id@, record: args@ },
            ),
    {
        proof {
            use_type_invariant(&*self);
        }
        if self.contains(token_id.as_str()) {
            return Err(FactoryError::DuplicateTokenId);
        }
        let ghost before = self@;
        assert(!has_token(before, token_id@));
        let ghost entry = RegistryEntry { token_id: token_id@, record: args@ };
        let mut slots: Vec<Slot> = Vec::new();
        std::mem::swap(&mut slots, &mut self.slots);
        slots.push(Slot { token_id, args });
        assert(distinct_ids(before.push(entry))) by {
            assert forall|i: int, j: int| 0 <= i < j < before.len() + 1 implies (
            #[trigger] before.push(entry)[i]).token_id != (
            #[trigger] before.push(entry)[j]).token_id by {
                if j == before.len() {
                    assert(before[i].token_id != token_id@);
                } else {
                    assert(before[i].token_id != before[j].token_id);
                }
            }
        }
        assert(entries_of(slots@) =~= before.push(entry));
        self.slots = slots;
        Ok(())
    }

    /// Copies of the records of at most `limit` entries, starting with entry
    /// `from_index`, in the order of registration.
    pub fn page(&self, from_index: u64, limit: u64) -> (records: Vec<TokenArgs>)
        ensures
            record_views(records@) == page_of(self@, from_index as nat, limit as nat),
    {
        let count: usize = self.slots.len();
        let bounds = page_range(from_index, limit, count as u64);
        let start: usize = bounds.0 as usize;
        let end: usize = bounds.1 as usize;
        let mut records: Vec<TokenArgs> = Vec::new();
        let mut i: usize = start;
        while i < end
            invariant
                start <= i <= end <= count,
                count == self.slots@.len(),
                records@.len() == i - start,
                forall|k: int|
                    0 <= k < records@.len() ==> (#[trigger] records@[k])@ == self.slots@[start
                        + k].args@,
            decreases end - i,
        {
            records.push(self.slots[i].args.clone());
            i = i + 1;
        }
        assert(record_views(records@) =~= page_of(self@, from_index as nat, limit as nat));
        records
    }
}

} // verus!
