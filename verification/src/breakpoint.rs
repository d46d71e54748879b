//! The breakpoint table: target addresses mapped to the bytes their trap
//! instructions overwrote.
//!
//! Each entry pairs the virtual address of a planted trap with the original
//! byte that must be written back to restore the executable code exactly.  An
//! address occurs at most once; entries are kept in insertion order and are
//! consumed when the breakpoint they describe is hit and restored.

use vstd::prelude::*;

verus! {

/// One recorded breakpoint: the trapped address and the byte the trap
/// opcode overwrote there.
#[derive(Clone, Copy, Debug, PartialEq, Eq, Structural)]
pub struct BreakpointData {
    /// Target virtual address of the planted trap; unique within the table.
    pub address: u64,
    /// The byte overwritten by the trap opcode at that address.
    pub original_byte: u8,
}

/// The table of currently recorded breakpoints, in insertion order.
pub struct BreakpointTable {
    entries: Vec<BreakpointData>,
}

/// The original byte recorded for `address` in `entries`, if any.
pub open spec fn lookup_spec(entries: Seq<BreakpointData>, address: u64) -> Option<u8>
    decreases entries.len(),
{
    if entries.len() == 0 {
        None
    } else if entries[0].address == address {
        Some(entries[0].original_byte)
    } else {
        lookup_spec(entries.skip(1), address)
    }
}

/// `entries` with the first entry recorded for `address` removed.
pub open spec fn remove_spec(entries: Seq<BreakpointData>, address: u64) -> Seq<BreakpointData>
    decreases entries.len(),
{
    if entries.len() == 0 {
        entries
    } else if entries[0].address == address {
        entries.skip(1)
    } else {
        seq![entries[0]] + remove_spec(entries.skip(1), address)
    }
}

impl View for BreakpointTable {
    type V = Seq<BreakpointData>;

    closed spec fn view(&self) -> Seq<BreakpointData> {
        self.entries@
    }
}

impl BreakpointTable {
    /// No two entries record the same address.
    pub open spec fn wf(&self) -> bool {
        forall|i: int, j: int|
            0 <= i < j < self@.len() ==> self@[i].address != self@[j].address
    }

    /// Some entry records `address`.
    pub open spec fn contains_address(&self, address: u64) -> bool {
        exists|i: int| 0 <= i < self@.len() && self@[i].address == address
    }

    /// An empty table.
    pub fn new() -> (table: BreakpointTable)
        ensures
            table@ =~= Seq::<BreakpointData>::empty(),
            table.wf(),
    {
        BreakpointTable { entries: Vec::new() }
    }

    /// How many breakpoints are recorded.
    pub fn len(&self) -> (n: usize)
        ensures
            n == self@.len(),
    {
        self.entries.len()
    }

    /// The entry at position `index`, in insertion order.
    pub fn entry_at(&self, index: usize) -> (entry: BreakpointData)
        requires
            index < self@.len(),
        ensures
            entry == self@[index as int],
    {
        self.entries[index]
    }

    /// Record a breakpoint.  A duplicate address is rejected: the table is
    /// unchanged and `false` comes back.
    pub fn insert(&mut self, address: u64, original_byte: u8) -> (fresh: bool)
        requires
            old(self).wf(),
        ensures
            fresh == !old(self).contains_address(address),
            fresh ==> final(self)@ =~= old(self)@.push(
                BreakpointData { address, original_byte },
            ),
            !fresh ==> final(self)@ =~= old(self)@,
            final(self).wf(),
            final(self).contains_address(address),
    {
        if self.find_index(address).is_some() {
            assert(self.contains_address(address));
            false
        } else {
            self.entries.push(BreakpointData { address, original_byte });
            assert(self@[self@.len() - 1].address == address);
            true
        }
    }

    /// The position of the entry recorded for `address`, if any.
    fn find_index(&self, address: u64) -> (found: Option<usize>)
        ensures
            match found {
                Some(index) => index < self@.len() && self@[index as int].address == address,
                None => !self.contains_address(address),
            },
    {
        let mut i: usize = 0;
        while i < self.entries.len()
            invariant
                i <= self@.len(),
                forall|j: int| 0 <= j < i ==> self@[j].address != address,
            decreases self@.len() - i,
        {
            if self.entries[i].address == address {
                return Some(i);
            }
            i = i + 1;
        }
        None
    }

    /// The original byte recorded for `address`, if any; no side effects.
    pub fn lookup(&self, address: u64) -> (found: Option<u8>)
        requires
            self.wf(),
        ensures
            found == lookup_spec(self@, address),
            found is Some <==> self.contains_address(address),
    {
        proof {
            lemma_lookup_contains(self@, address);
        }
        match self.find_index(address) {
            Some(index) => {
                proof {
                    lemma_lookup_at(self@, address, index as int);
                }
                Some(self.entries[index].original_byte)
            },
            None => None,
        }
    }

    /// Consume the entry recorded for `address`: hand its original byte out
    /// and drop it from the table.  `None` when no entry records `address`.
    pub fn remove(&mut self, address: u64) -> (removed: Option<u8>)
        requires
            old(self).wf(),
        ensures
            removed == lookup_spec(old(self)@, address),
            final(self)@ =~= remove_spec(old(self)@, address),
            final(self).wf(),
            !final(self).contains_address(address),
    {
        proof {
            lemma_lookup_contains(self@, address);
            lemma_remove_spec(self@, address);
        }
        match self.find_index(address) {
            Some(index) => {
                proof {
                    lemma_lookup_at(self@, address, index as int);
                    lemma_remove_at(self@, address, index as int);
                }
                let entry = self.entries.remove(index);
                Some(entry.original_byte)
            },
            None => {
                proof {
                    lemma_remove_absent(self@, address);
                }
                None
            },
        }
    }

    /// The recorded breakpoints as `(index, address)` pairs, in insertion
    /// order; purely observational.
    pub fn enumerate(&self) -> (listing: Vec<(usize, u64)>)
        ensures
            listing@.len() == self@.len(),
            forall|i: int|
                0 <= i < self@.len() ==> listing@[i] == (i as usize, self@[i].address),
    {
        let mut listing: Vec<(usize, u64)> = Vec::new();
        let mut i: usize = 0;
        while i < self.entries.len()
            invariant
                i <= self@.len(),
                listing@.len() == i,
                forall|j: int| 0 <= j < i ==> listing@[j] == (j as usize, self@[j].address),
            decreases self@.len() - i,
        {
            listing.push((i, self.entries[i].address));
            i = i + 1;
        }
        listing
    }
}

/// `lookup_spec` finds an entry exactly when one records the address.
proof fn lemma_lookup_contains(entries: Seq<BreakpointData>, address: u64)
    ensures
        (lookup_spec(entries, address) is Some) <==> (exists|i: int|
            0 <= i < entries.len() && entries[i].address == address),
    decreases entries.len(),
{
    if entries.len() > 0 {
        lemma_lookup_contains(entries.skip(1), address);
        if entries[0].address != address {
            if lookup_spec(entries, address) is Some {
                let i = choose|i: int|
                    0 <= i < entries.skip(1).len() && entries.skip(1)[i].address == address;
                assert(entries[i + 1].address == address);
            }
            if exists|i: int| 0 <= i < entries.len() && entries[i].address == address {
                let i = choose|i: int| 0 <= i < entries.len() && entries[i].address == address;
                assert(entries.skip(1)[i - 1].address == address);
            }
        }
    }
}

/// In a table without duplicate addresses, `lookup_spec` yields the byte of
/// the entry found at any matching position.
proof fn lemma_lookup_at(entries: Seq<BreakpointData>, address: u64, index: int)
    requires
        0 <= index < entries.len(),
        entries[index].address == address,
        forall|i: int, j: int|
            0 <= i < j < entries.len() ==> entries[i].address != entries[j].address,
    ensures
        lookup_spec(entries, address) == Some(entries[index].original_byte),
    decreases entries.len(),
{
    if entries[0].address == address {
        assert(index == 0);
    } else {
        assert(entries.skip(1)[index - 1] == entries[index]);
        assert forall|i: int, j: int|
            0 <= i < j < entries.skip(1).len() implies entries.skip(1)[i].address != entries.skip(
            1,
        )[j].address by {
            assert(entries.skip(1)[i] == entries[i + 1]);
            assert(entries.skip(1)[j] == entries[j + 1]);
        }
        lemma_lookup_at(entries.skip(1), address, index - 1);
    }
}

/// `remove_spec` keeps well-formedness, drops the address it removes, and
/// invents no entry: what remains was in the table before.
proof fn lemma_remove_spec(entries: Seq<BreakpointData>, address: u64)
    requires
        forall|i: int, j: int|
            0 <= i < j < entries.len() ==> entries[i].address != entries[j].address,
    ensures
        forall|i: int, j: int|
            0 <= i < j < remove_spec(entries, address).len() ==> remove_spec(
                entries,
                address,
            )[i].address != remove_spec(entries, address)[j].address,
        forall|i: int|
            0 <= i < remove_spec(entries, address).len() ==> remove_spec(
                entries,
                address,
            )[i].address != address,
        forall|i: int|
            0 <= i < remove_spec(entries, address).len() ==> entries.contains(
                #[trigger] remove_spec(entries, address)[i],
            ),
    decreases entries.len(),
{
    let removed = remove_spec(entries, address);
    if entries.len() > 0 {
        let rest = entries.skip(1);
        assert forall|i: int, j: int|
            0 <= i < j < rest.len() implies rest[i].address != rest[j].address by {
            assert(rest[i] == entries[i + 1]);
            assert(rest[j] == entries[j + 1]);
        }
        lemma_remove_spec(rest, address);
        assert forall|i: int| 0 <= i < rest.len() implies entries.contains(#[trigger] rest[i]) by {
            assert(rest[i] == entries[i + 1]);
        }
        if entries[0].address == address {
            assert forall|i: int| 0 <= i < rest.len() implies rest[i].address != address by {
                assert(rest[i] == entries[i + 1]);
            }
        } else {
            let removed_rest = remove_spec(rest, address);
            assert(removed == seq![entries[0]] + removed_rest);
            assert(removed[0] == entries[0]);
            assert forall|i: int| 0 <= i < removed.len() implies entries.contains(
                #[trigger] removed[i],
            ) by {
                if i == 0 {
                    assert(entries[0] == removed[0]);
                } else {
                    assert(removed[i] == removed_rest[i - 1]);
                    let k = choose|k: int| 0 <= k < rest.len() && rest[k] == removed_rest[i - 1];
                    assert(entries[k + 1] == rest[k]);
                }
            }
            assert forall|i: int, j: int|
                0 <= i < j < removed.len() implies removed[i].address != removed[j].address by {
                if i == 0 {
                    assert(removed[j] == removed_rest[j - 1]);
                    let k = choose|k: int| 0 <= k < rest.len() && rest[k] == removed_rest[j - 1];
                    assert(entries[k + 1] == rest[k]);
                    assert(entries[0].address != entries[k + 1].address);
                } else {
                    assert(removed[i] == removed_rest[i - 1]);
                    assert(removed[j] == removed_rest[j - 1]);
                }
            }
            assert forall|i: int| 0 <= i < removed.len() implies removed[i].address != address by {
                if i > 0 {
                    assert(removed[i] == removed_rest[i - 1]);
                }
            }
        }
    }
}

/// Removing at the unique matching position agrees with `remove_spec`.
proof fn lemma_remove_at(entries: Seq<BreakpointData>, address: u64, index: int)
    requires
        0 <= index < entries.len(),
        entries[index].address == address,
        forall|i: int, j: int|
            0 <= i < j < entries.len() ==> entries[i].address != entries[j].address,
    ensures
        remove_spec(entries, address) =~= entries.remove(index),
    decreases entries.len(),
{
    if entries[0].address == address {
        assert(index == 0);
        assert(remove_spec(entries, address) =~= entries.remove(0));
    } else {
        assert(entries.skip(1)[index - 1] == entries[index]);
        assert forall|i: int, j: int|
            0 <= i < j < entries.skip(1).len() implies entries.skip(1)[i].address != entries.skip(
            1,
        )[j].address by {
            assert(entries.skip(1)[i] == entries[i + 1]);
            assert(entries.skip(1)[j] == entries[j + 1]);
        }
        lemma_remove_at(entries.skip(1), address, index - 1);
        assert(remove_spec(entries, address) =~= entries.remove(index));
    }
}

/// Removing an address no entry records changes nothing.
proof fn lemma_remove_absent(entries: Seq<BreakpointData>, address: u64)
    requires
        forall|i: int| 0 <= i < entries.len() ==> entries[i].address != address,
    ensures
        remove_spec(entries, address) =~= entries,
    decreases entries.len(),
{
    if entries.len() > 0 {
        assert forall|i: int|
            0 <= i < entries.skip(1).len() implies entries.skip(1)[i].address != address by {
            assert(entries.skip(1)[i] == entries[i + 1]);
        }
        lemma_remove_absent(entries.skip(1), address);
    }
}

} // verus!
