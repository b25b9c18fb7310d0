//! The record store: one table per kind of record, each keyed by address.

use vstd::prelude::*;
use crate::error::ErrorCode;
use crate::pubkey::Pubkey;

verus! {

/// A record together with the address at which it is stored.
pub struct Entry<T> {
    pub address: Pubkey,
    pub record: T,
}

/// The records of one kind, each at its own address. Records are created and
/// changed, never removed.
pub struct Table<T> {
    pub entries: Vec<Entry<T>>,
}

/// Whether some entry of the sequence is stored at the address.
pub open spec fn holds<T>(entries: Seq<Entry<T>>, address: Pubkey) -> bool {
    exists|i: int| 0 <= i < entries.len() && #[trigger] entries[i].address == address
}

/// The place in the sequence of an entry stored at the address.
pub open spec fn place<T>(entries: Seq<Entry<T>>, address: Pubkey) -> int {
    choose|i: int| 0 <= i < entries.len() && #[trigger] entries[i].address == address
}

/// Whether no two entries of the sequence share an address.
pub open spec fn distinct<T>(entries: Seq<Entry<T>>) -> bool {
    forall|i: int, j: int|
        0 <= i < j < entries.len() ==> #[trigger] entries[i].address != #[trigger] entries[j].address
}

/// The map from address to record that the entries stand for.
pub open spec fn as_map<T: View>(entries: Seq<Entry<T>>) -> Map<Pubkey, T::V> {
    Map::new(|address: Pubkey| holds(entries, address), |address: Pubkey| entries[place(entries, address)].record@)
}

/// A kind of record: what it holds has an invariant of its own, which can
/// be tested on a record.
pub trait Record: View {
    /// The invariant of what a record of this kind holds.
    spec fn valid(view: Self::V) -> bool;

    /// Whether the record meets the invariant of its kind.
    fn is_valid(&self) -> (ok: bool)
        ensures
            ok == Self::valid(self@),
    ;
}

/// Among entries at distinct addresses, each entry is what the map holds at
/// its address.
pub proof fn lemma_entry_in_map<T: View>(entries: Seq<Entry<T>>, i: int)
    requires
        distinct(entries),
        0 <= i < entries.len(),
    ensures
        as_map(entries).contains_key(entries[i].address),
        as_map(entries)[entries[i].address] == entries[i].record@,
        place(entries, entries[i].address) == i,
{
    let address = entries[i].address;
    assert(holds(entries, address));
    let k = place(entries, address);
    assert(entries[k].address == address);
    assert(k == i);
}

/// Adding an entry at a fresh address inserts it into the map.
pub proof fn lemma_push<T: View>(entries: Seq<Entry<T>>, entry: Entry<T>)
    requires
        distinct(entries),
        !holds(entries, entry.address),
    ensures
        distinct(entries.push(entry)),
        as_map(entries.push(entry)) == as_map(entries).insert(entry.address, entry.record@),
{
    let after = entries.push(entry);
    assert forall|address: Pubkey| holds(after, address) <==> (address == entry.address || holds(entries, address)) by {
        if holds(after, address) {
            let i = place(after, address);
            if i < entries.len() {
                assert(entries[i].address == address);
            }
        }
        if address == entry.address {
            assert(after[entries.len() as int].address == address);
        }
        if holds(entries, address) {
            let i = place(entries, address);
            assert(after[i].address == address);
        }
    }
    assert forall|address: Pubkey| holds(after, address) implies #[trigger] as_map(after)[address] == as_map(
        entries,
    ).insert(entry.address, entry.record@)[address] by {
        let i = place(after, address);
        if address == entry.address {
            assert(i == entries.len());
        } else {
            let j = place(entries, address);
            assert(after[j].address == address);
            assert(i == j);
        }
    }
    assert(as_map(after) =~= as_map(entries).insert(entry.address, entry.record@));
}

/// Replacing the record of an entry replaces it in the map.
pub proof fn lemma_update<T: View>(entries: Seq<Entry<T>>, i: int, record: T)
    requires
        distinct(entries),
        0 <= i < entries.len(),
    ensures
        distinct(entries.update(i, Entry { address: entries[i].address, record })),
        as_map(entries.update(i, Entry { address: entries[i].address, record })) == as_map(entries).insert(
            entries[i].address,
            record@,
        ),
{
    let target = entries[i].address;
    let after = entries.update(i, Entry { address: target, record });
    assert forall|address: Pubkey| holds(after, address) <==> holds(entries, address) by {
        if holds(after, address) {
            let k = place(after, address);
            assert(entries[k].address == address);
        }
        if holds(entries, address) {
            let k = place(entries, address);
            assert(after[k].address == address);
        }
    }
    assert(entries[i].address == target);
    assert forall|address: Pubkey| holds(after, address) implies #[trigger] as_map(after)[address] == as_map(
        entries,
    ).insert(target, record@)[address] by {
        let k = place(after, address);
        let j = place(entries, address);
        assert(after[j].address == address);
        assert(k == j);
        if address == target {
            assert(k == i);
        }
    }
    assert(as_map(after) =~= as_map(entries).insert(target, record@));
}

impl<T: View> View for Table<T> {
    type V = Map<Pubkey, T::V>;

    open spec fn view(&self) -> Map<Pubkey, T::V> {
        as_map(self.entries@)
    }
}

impl<T: View> Table<T> {
    /// No two records share an address.
    pub open spec fn wf(&self) -> bool {
        distinct(self.entries@)
    }

    /// A table without records.
    pub fn new() -> (table: Table<T>)
        ensures
            table.wf(),
            table.entries@ == Seq::<Entry<T>>::empty(),
            table@ == Map::<Pubkey, T::V>::empty(),
    {
        let table = Table { entries: Vec::new() };
        assert(table@ =~= Map::<Pubkey, T::V>::empty());
        table
    }

    /// Whether no two records share an address.
    pub fn is_wf(&self) -> (ok: bool)
        ensures
            ok == self.wf(),
    {
        let mut j: usize = 0;
        while j < self.entries.len()
            invariant
                j <= self.entries@.len(),
                forall|a: int, b: int| 0 <= a < b < j ==> self.entries@[a].address != self.entries@[b].address,
            decreases self.entries@.len() - j,
        {
            let mut i: usize = 0;
            while i < j
                invariant
                    i <= j < self.entries@.len(),
                    forall|a: int| 0 <= a < i ==> self.entries@[a].address != self.entries@[j as int].address,
                decreases j - i,
            {
                if self.entries[i].address == self.entries[j].address {
                    return false;
                }
                i = i + 1;
            }
            j = j + 1;
        }
        true
    }

    /// The place of the record stored at the address, if there is one.
    pub fn find(&self, address: &Pubkey) -> (found: Option<usize>)
        requires
            self.wf(),
        ensures
            match found {
                Some(i) => {
                    &&& i < self.entries@.len()
                    &&& i == place(self.entries@, *address)
                    &&& self.entries@[i as int].address == *address
                    &&& self@.contains_key(*address)
                    &&& self@[*address] == self.entries@[i as int].record@
                },
                None => !self@.contains_key(*address),
            },
    {
        let mut i: usize = 0;
        while i < self.entries.len()
            invariant
                self.wf(),
                i <= self.entries@.len(),
                forall|j: int| 0 <= j < i ==> (#[trigger] self.entries@[j]).address != *address,
            decreases self.entries@.len() - i,
        {
            if self.entries[i].address == *address {
                proof {
                    assert(self.entries@[i as int].address == *address);
                    let k = place(self.entries@, *address);
                    assert(self.entries@[k].address == *address);
                    assert(k == i);
                }
                return Some(i);
            }
            i = i + 1;
        }
        None
    }

    /// Whether a record is stored at the address.
    pub fn contains_key(&self, address: &Pubkey) -> (present: bool)
        requires
            self.wf(),
        ensures
            present == self@.contains_key(*address),
    {
        self.find(address).is_some()
    }

    /// The record stored at the address; `NotFound` where there is none.
    pub fn load(&self, address: &Pubkey) -> (loaded: Result<&T, ErrorCode>)
        requires
            self.wf(),
        ensures
            match loaded {
                Ok(record) => self@.contains_key(*address) && record@ == self@[*address],
                Err(e) => !self@.contains_key(*address) && e == ErrorCode::NotFound,
            },
    {
        match self.find(address) {
            Some(i) => Ok(&self.entries[i].record),
            None => Err(ErrorCode::NotFound),
        }
    }

    /// Stores a new record at the address; `AlreadyExists` where the address
    /// is taken, in which case nothing changes.
    pub fn create(&mut self, address: Pubkey, record: T) -> (created: Result<(), ErrorCode>)
        requires
            old(self).wf(),
        ensures
            final(self).wf(),
            match created {
                Ok(_) => {
                    &&& !old(self)@.contains_key(address)
                    &&& final(self).entries@ == old(self).entries@.push(Entry { address, record })
                    &&& final(self)@ == old(self)@.insert(address, record@)
                },
                Err(e) => {
                    &&& old(self)@.contains_key(address)
                    &&& e == ErrorCode::AlreadyExists
                    &&& *final(self) == *old(self)
                },
            },
    {
        if self.contains_key(&address) {
            return Err(ErrorCode::AlreadyExists);
        }
        proof {
            lemma_push(self.entries@, Entry { address, record });
        }
        self.entries.push(Entry { address, record });
        Ok(())
    }

    /// The record stored at the address, to be changed in place; `NotFound`
    /// where there is none. Whatever the caller writes becomes the record at
    /// that address, and no other record changes.
    pub fn mutate(&mut self, address: &Pubkey) -> (loaded: Result<&mut T, ErrorCode>)
        requires
            old(self).wf(),
        ensures
            match loaded {
                Ok(record) => {
                    &&& old(self)@.contains_key(*address)
                    &&& *record == old(self).entries@[place(old(self).entries@, *address)].record
                    &&& record@ == old(self)@[*address]
                    &&& final(self).wf()
                    &&& final(self)@ == old(self)@.insert(*address, final(record)@)
                    &&& final(self).entries@ == old(self).entries@.update(
                        place(old(self).entries@, *address),
                        Entry { address: *address, record: *final(record) },
                    )
                },
                Err(e) => {
                    &&& !old(self)@.contains_key(*address)
                    &&& e == ErrorCode::NotFound
                    &&& *final(self) == *old(self)
                },
            },
    {
        match self.find(address) {
            Some(i) => {
                let ghost before = self.entries@;
                let record = &mut self.entries[i].record;
                proof {
                    lemma_update(before, i as int, *final(record));
                }
                Ok(record)
            },
            None => Err(ErrorCode::NotFound),
        }
    }
}

impl<T: Record> Table<T> {
    /// Whether every record of the table meets the invariant of its kind.
    pub fn all_valid(&self) -> (ok: bool)
        requires
            self.wf(),
        ensures
            ok == forall|address: Pubkey| self@.contains_key(address) ==> T::valid(#[trigger] self@[address]),
    {
        let mut i: usize = 0;
        while i < self.entries.len()
            invariant
                self.wf(),
                i <= self.entries@.len(),
                forall|k: int| 0 <= k < i ==> T::valid((#[trigger] self.entries@[k]).record@),
            decreases self.entries@.len() - i,
        {
            if !self.entries[i].record.is_valid() {
                proof {
                    lemma_entry_in_map(self.entries@, i as int);
                    assert(!T::valid(self@[self.entries@[i as int].address]));
                }
                return false;
            }
            i = i + 1;
        }
        proof {
            assert forall|address: Pubkey| self@.contains_key(address) implies T::valid(
                #[trigger] self@[address],
            ) by {
                let k = place(self.entries@, address);
                assert(self.entries@[k].address == address);
            }
        }
        true
    }
}

} // verus!
