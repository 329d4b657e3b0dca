//! The fleet status table: the last known state of every registered lift,
//! folded from the commands seen on the bus.
use crate::error::FleetError;
use crate::model::operation::{Command, LocationStatus};
use vstd::prelude::*;

verus! {

/// No two entries of `s` are about the same lift.
pub open spec fn ids_unique(s: Seq<LocationStatus>) -> bool {
    forall|i: int, j: int| 0 <= i < j < s.len() ==> s[i].id != s[j].id
}

/// The table that a list of reports describes: each lift's id mapped to
/// whether it is busy and its floor.
pub open spec fn table_of(s: Seq<LocationStatus>) -> Map<u8, (bool, i16)>
    decreases s.len(),
{
    if s.len() == 0 {
        Map::empty()
    } else {
        table_of(s.drop_last()).insert(s.last().id, (s.last().is_busy, s.last().floor))
    }
}

/// The table after `s` registers: a lift already present keeps its entry.
pub open spec fn registered(m: Map<u8, (bool, i16)>, s: LocationStatus) -> Map<u8, (bool, i16)> {
    if m.contains_key(s.id) {
        m
    } else {
        m.insert(s.id, (s.is_busy, s.floor))
    }
}

/// The table after the report `s`: it overwrites the entry of a registered
/// lift, and a report about any other lift is dropped.
pub open spec fn reported(m: Map<u8, (bool, i16)>, s: LocationStatus) -> Map<u8, (bool, i16)> {
    if m.contains_key(s.id) {
        m.insert(s.id, (s.is_busy, s.floor))
    } else {
        m
    }
}

/// The table after the command `cmd` passes on the bus.
pub open spec fn applied(m: Map<u8, (bool, i16)>, cmd: Command) -> Map<u8, (bool, i16)> {
    match cmd {
        Command::Register(s) => registered(m, s),
        Command::SendLocation(s) => reported(m, s),
        _ => m,
    }
}

/// Registering a lift again never changes what the table records of it: a
/// second registration about the same id, whatever it says, leaves the table
/// as the first one made it.
pub proof fn lemma_register_idempotent(m: Map<u8, (bool, i16)>, first: LocationStatus, again: LocationStatus)
    requires
        first.id == again.id,
    ensures
        registered(registered(m, first), again) == registered(m, first),
        registered(registered(m, first), again)[again.id] == registered(m, first)[first.id],
{
}

/// No command removes a lift from the table: once registered, a lift stays
/// registered whatever passes on the bus.
pub proof fn lemma_apply_keeps_lifts(m: Map<u8, (bool, i16)>, cmd: Command, id: u8)
    requires
        m.contains_key(id),
    ensures
        applied(m, cmd).contains_key(id),
{
}

/// Each entry of `s` is in its table with its own values, and the table holds
/// nothing else.
pub proof fn lemma_table_of(s: Seq<LocationStatus>)
    requires
        ids_unique(s),
    ensures
        forall|i: int|
            0 <= i < s.len() ==> #[trigger] table_of(s).contains_key(s[i].id) && table_of(s)[s[i].id]
                == (s[i].is_busy, s[i].floor),
        forall|id: u8| #[trigger]
            table_of(s).contains_key(id) ==> exists|i: int| 0 <= i < s.len() && s[i].id == id,
    decreases s.len(),
{
    if s.len() > 0 {
        let t = s.drop_last();
        lemma_table_of(t);
        assert forall|id: u8| #[trigger]
            table_of(s).contains_key(id) implies exists|i: int| 0 <= i < s.len() && s[i].id == id by {
            if id != s.last().id {
                assert(table_of(t).contains_key(id));
                let i = choose|i: int| 0 <= i < t.len() && t[i].id == id;
                assert(s[i].id == id);
            } else {
                assert(s[s.len() - 1].id == id);
            }
        }
        assert forall|i: int| 0 <= i < s.len() implies #[trigger] table_of(s).contains_key(s[i].id)
            && table_of(s)[s[i].id] == (s[i].is_busy, s[i].floor) by {
            if i < s.len() - 1 {
                assert(t[i] == s[i]);
                assert(table_of(t).contains_key(t[i].id));
                assert(s[i].id != s[s.len() - 1].id);
            }
        }
    }
}

/// Replacing an entry by a report about the same lift overwrites that lift's
/// entry in the table.
proof fn lemma_table_of_update(s: Seq<LocationStatus>, i: int, x: LocationStatus)
    requires
        ids_unique(s),
        0 <= i < s.len(),
        s[i].id == x.id,
    ensures
        ids_unique(s.update(i, x)),
        table_of(s.update(i, x)) == table_of(s).insert(x.id, (x.is_busy, x.floor)),
{
    let u = s.update(i, x);
    assert(ids_unique(u));
    lemma_table_of(s);
    lemma_table_of(u);
    let lhs = table_of(u);
    let rhs = table_of(s).insert(x.id, (x.is_busy, x.floor));
    assert forall|id: u8| lhs.contains_key(id) <==> rhs.contains_key(id) by {
        if lhs.contains_key(id) {
            let j = choose|j: int| 0 <= j < u.len() && u[j].id == id;
            if j != i {
                assert(u[j] == s[j]);
                assert(table_of(s).contains_key(s[j].id));
            }
        }
        if rhs.contains_key(id) && id != x.id {
            let j = choose|j: int| 0 <= j < s.len() && s[j].id == id;
            assert(u[j] == s[j]);
            assert(lhs.contains_key(u[j].id));
        }
        if id == x.id {
            assert(lhs.contains_key(u[i].id));
        }
    }
    assert forall|id: u8| lhs.contains_key(id) implies lhs[id] == rhs[id] by {
        let j = choose|j: int| 0 <= j < u.len() && u[j].id == id;
        assert(lhs.contains_key(u[j].id));
        if j != i {
            assert(u[j] == s[j]);
            assert(table_of(s).contains_key(s[j].id));
        }
    }
    assert(lhs =~= rhs);
}

/// The last known state of every registered lift.
pub struct FleetTable {
    entries: Vec<LocationStatus>,
}

impl FleetTable {
    #[verifier::type_invariant]
    spec fn inv(self) -> bool {
        ids_unique(self.entries@)
    }
}

impl View for FleetTable {
    type V = Map<u8, (bool, i16)>;

    closed spec fn view(&self) -> Map<u8, (bool, i16)> {
        table_of(self.entries@)
    }
}

impl FleetTable {
    /// A table with no lift in it.
    pub fn new() -> (r: Self)
        ensures
            r@ == Map::<u8, (bool, i16)>::empty(),
    {
        FleetTable { entries: Vec::new() }
    }

    /// Whether no lift has registered.
    pub fn is_empty(&self) -> (r: bool)
        ensures
            r == (self@ == Map::<u8, (bool, i16)>::empty()),
    {
        proof {
            use_type_invariant(self);
            lemma_table_of(self.entries@);
            if self.entries.len() > 0 {
                assert(self@.contains_key(self.entries@[0].id));
            }
        }
        self.entries.len() == 0
    }

    /// The position of the entry about lift `id`, if there is one.
    fn find(&self, id: u8) -> (r: Option<usize>)
        ensures
            match r {
                Some(i) => i < self.entries.len() && self.entries@[i as int].id == id,
                None => !self@.contains_key(id),
            },
    {
        proof {
            use_type_invariant(self);
            lemma_table_of(self.entries@);
        }
        let mut i: usize = 0;
        while i < self.entries.len()
            invariant
                i <= self.entries.len(),
                forall|j: int| 0 <= j < i ==> self.entries@[j].id != id,
            decreases self.entries.len() - i,
        {
            if self.entries[i].id == id {
                return Some(i);
            }
            i = i + 1;
        }
        None
    }

    /// Moves the entries out, leaving the table empty.
    fn take_entries(&mut self) -> (r: Vec<LocationStatus>)
        ensures
            r@ == old(self).entries@,
            ids_unique(r@),
    {
        proof {
            use_type_invariant(&*self);
        }
        let mut taken = FleetTable::new();
        std::mem::swap(self, &mut taken);
        proof {
            use_type_invariant(&taken);
        }
        let FleetTable { entries } = taken;
        entries
    }

    /// Records the registration `status`; the first registration of a lift
    /// wins and later ones change nothing.
    pub fn register(&mut self, status: LocationStatus)
        ensures
            final(self)@ == registered(old(self)@, status),
    {
        proof {
            use_type_invariant(&*self);
        }
        proof {
            lemma_table_of(self.entries@);
        }
        if let Some(i) = self.find(status.id) {
            proof {
                assert(self@.contains_key(self.entries@[i as int].id));
            }
        } else {
            let mut entries = self.take_entries();
            entries.push(status);
            proof {
                assert(entries@.drop_last() == old(self).entries@);
            }
            *self = FleetTable { entries };
        }
    }

    /// Records the report `status`, overwriting the lift's entry; a report
    /// about a lift that never registered is refused and changes nothing.
    pub fn report(&mut self, status: LocationStatus) -> (r: Result<(), FleetError>)
        ensures
            final(self)@ == reported(old(self)@, status),
            r == (if old(self)@.contains_key(status.id) {
                Ok(())
            } else {
                Err(FleetError::UnknownElevator)
            }),
    {
        proof {
            use_type_invariant(&*self);
        }
        match self.find(status.id) {
            Some(i) => {
                proof {
                    lemma_table_of(self.entries@);
                    lemma_table_of_update(self.entries@, i as int, status);
                }
                let mut entries = self.take_entries();
                entries.set(i, status);
                *self = FleetTable { entries };
                Ok(())
            },
            None => Err(FleetError::UnknownElevator),
        }
    }

    /// Folds one command from the bus into the table: registrations and
    /// reports are recorded, every other command is ignored.
    pub fn apply(&mut self, cmd: Command) -> (r: Result<(), FleetError>)
        ensures
            final(self)@ == applied(old(self)@, cmd),
            r == (match cmd {
                Command::SendLocation(s) => if old(self)@.contains_key(s.id) {
                    Ok(())
                } else {
                    Err(FleetError::UnknownElevator)
                },
                _ => Ok(()),
            }),
    {
        match cmd {
            Command::Register(s) => {
                self.register(s);
                Ok(())
            },
            Command::SendLocation(s) => self.report(s),
            _ => Ok(()),
        }
    }

    /// The last known state of lift `id`.
    pub fn status(&self, id: u8) -> (r: Result<LocationStatus, FleetError>)
        ensures
            r == (if self@.contains_key(id) {
                Ok(LocationStatus { id, is_busy: self@[id].0, floor: self@[id].1 })
            } else {
                Err(FleetError::UnknownElevator)
            }),
    {
        proof {
            use_type_invariant(self);
            lemma_table_of(self.entries@);
        }
        match self.find(id) {
            Some(i) => Ok(self.entries[i]),
            None => Err(FleetError::UnknownElevator),
        }
    }

    /// A copy of the whole table, one entry per registered lift.
    pub fn statuses(&self) -> (r: Vec<LocationStatus>)
        ensures
            ids_unique(r@),
            table_of(r@) == self@,
    {
        proof {
            use_type_invariant(self);
        }
        self.entries.clone()
    }
}

} // verus!
