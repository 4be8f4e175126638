use vstd::prelude::*;
use crate::character::CharacterRecord;

verus! {

/// Maximum number of members of one team.
pub const ROSTER_CAPACITY: usize = 5;

/// Why an `add` or `remove` was rejected. The roster is unchanged whenever
/// one of these is returned.
#[derive(Clone, Copy, Debug, PartialEq, Eq, Structural)]
pub enum RosterError {
    /// `add` on a roster that already has `ROSTER_CAPACITY` members.
    RosterFull,
    /// `add` of a character whose name some member already carries.
    DuplicateMember,
    /// `remove` with an index at or past the current size.
    IndexOutOfRange,
}

/// Does some member of `members` carry the name `name`?
pub open spec fn has_member_named(members: Seq<CharacterRecord>, name: Seq<u8>) -> bool {
    exists|i: int| 0 <= i < members.len() && members[i].name@ == name
}

/// Byte-wise equality of two byte vectors.
fn bytes_eq(a: &Vec<u8>, b: &Vec<u8>) -> (r: bool)
    ensures
        r == (a@ == b@),
{
    if a.len() != b.len() {
        return false;
    }
    let mut i: usize = 0;
    while i < a.len()
        invariant
            a@.len() == b@.len(),
            i <= a@.len(),
            forall|j: int| 0 <= j < i ==> a@[j] == b@[j],
        decreases a@.len() - i,
    {
        if a[i] != b[i] {
            return false;
        }
        i += 1;
    }
    proof {
        assert(a@ =~= b@);
    }
    true
}

/// An ordered, deduplicated, size-bounded selection of characters for one
/// team. Created empty; mutated only through `add` and `remove`, each of
/// which either fully succeeds or leaves the roster untouched.
pub struct TeamRoster {
    members: Vec<CharacterRecord>,
}

impl View for TeamRoster {
    type V = Seq<CharacterRecord>;

    closed spec fn view(&self) -> Seq<CharacterRecord> {
        self.members@
    }
}

impl TeamRoster {
    /// Roster invariant: at most `ROSTER_CAPACITY` members, and no two
    /// members share a name.
    pub open spec fn wf(self) -> bool {
        &&& self@.len() <= ROSTER_CAPACITY
        &&& forall|i: int, j: int|
            0 <= i < j < self@.len() ==> self@[i].name@ != self@[j].name@
    }

    /// A fresh, empty roster.
    pub fn new() -> (r: TeamRoster)
        ensures
            r@ == Seq::<CharacterRecord>::empty(),
            r.wf(),
    {
        TeamRoster { members: Vec::new() }
    }

    /// Current number of members.
    pub fn len(&self) -> (n: usize)
        ensures
            n == self@.len(),
    {
        self.members.len()
    }

    /// Read-only access to the members, in insertion order.
    pub fn members(&self) -> (r: &Vec<CharacterRecord>)
        ensures
            r@ == self@,
    {
        &self.members
    }

    /// Appends `character` iff the roster is below capacity and no member
    /// already carries its name; otherwise leaves the roster unchanged and
    /// says which condition applied (capacity is checked first).
    pub fn add(&mut self, character: CharacterRecord) -> (r: Result<(), RosterError>)
        ensures
            old(self)@.len() >= ROSTER_CAPACITY ==> {
                &&& r == Err::<(), RosterError>(RosterError::RosterFull)
                &&& final(self)@ == old(self)@
            },
            old(self)@.len() < ROSTER_CAPACITY && has_member_named(old(self)@, character.name@)
                ==> {
                &&& r == Err::<(), RosterError>(RosterError::DuplicateMember)
                &&& final(self)@ == old(self)@
            },
            old(self)@.len() < ROSTER_CAPACITY && !has_member_named(old(self)@, character.name@)
                ==> {
                &&& r == Ok::<(), RosterError>(())
                &&& final(self)@ == old(self)@.push(character)
            },
            old(self).wf() ==> final(self).wf(),
    {
        if self.members.len() >= ROSTER_CAPACITY {
            return Err(RosterError::RosterFull);
        }
        let mut i: usize = 0;
        while i < self.members.len()
            invariant
                i <= self.members@.len(),
                self.members@ == old(self)@,
                old(self)@.len() < ROSTER_CAPACITY,
                forall|j: int| 0 <= j < i ==> self.members@[j].name@ != character.name@,
            decreases self.members@.len() - i,
        {
            if bytes_eq(&self.members[i].name, &character.name) {
                assert(has_member_named(self.members@, character.name@));
                return Err(RosterError::DuplicateMember);
            }
            i += 1;
        }
        assert(!has_member_named(self.members@, character.name@));
        self.members.push(character);
        proof {
            if old(self).wf() {
                assert forall|i: int, j: int|
                    0 <= i < j < self@.len() implies self@[i].name@ != self@[j].name@ by {
                    if j < old(self)@.len() {
                        assert(old(self)@[i].name@ != old(self)@[j].name@);
                    } else {
                        assert(self@[j] == character);
                        assert(old(self)@[i].name@ != character.name@);
                    }
                };
            }
        }
        Ok(())
    }

    /// Removes and returns the member at `index` iff `index` is in range;
    /// otherwise leaves the roster unchanged. The remaining members keep
    /// their relative order.
    pub fn remove(&mut self, index: usize) -> (r: Result<CharacterRecord, RosterError>)
        ensures
            index < old(self)@.len() ==> {
                &&& r == Ok::<CharacterRecord, RosterError>(old(self)@[index as int])
                &&& final(self)@ == old(self)@.remove(index as int)
            },
            index >= old(self)@.len() ==> {
                &&& r == Err::<CharacterRecord, RosterError>(RosterError::IndexOutOfRange)
                &&& final(self)@ == old(self)@
            },
            old(self).wf() ==> final(self).wf(),
    {
        if index >= self.members.len() {
            return Err(RosterError::IndexOutOfRange);
        }
        let removed = self.members.remove(index);
        proof {
            if old(self).wf() {
                assert forall|i: int, j: int|
                    0 <= i < j < self@.len() implies self@[i].name@ != self@[j].name@ by {
                    let i0: int = if i < index { i } else { i + 1 };
                    let j0: int = if j < index { j } else { j + 1 };
                    assert(self@[i] == old(self)@[i0]);
                    assert(self@[j] == old(self)@[j0]);
                    assert(old(self)@[i0].name@ != old(self)@[j0].name@);
                };
            }
        }
        Ok(removed)
    }
}

} // verus!
