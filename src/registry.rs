//! Registry of dispatchers: each live handle names one dispatcher, which maps
//! a fixed set of chip ids to one protocol manager per chip.
use vstd::prelude::*;

use crate::status::UwbError;

verus! {

/// Token that the host keeps to address one dispatcher.
///
/// A handle is live while the slot it names holds a dispatcher created with
/// the same generation. Generation 0 is never handed out, so the zero handle
/// is always invalid, and destroying a dispatcher retires its generation, so a
/// stale handle is detected rather than followed.
#[derive(Clone, Copy, Debug, PartialEq, Eq, Structural)]
pub struct Handle {
    pub slot: usize,
    pub generation: u64,
}

impl Handle {
    /// The handle that never resolves.
    pub fn invalid() -> (r: Handle)
        ensures
            r.generation == 0,
    {
        Handle { slot: 0, generation: 0 }
    }
}

/// Failures of creation, lookup and destruction.
#[derive(Clone, Copy, Debug, PartialEq, Eq, Structural)]
pub enum DispatchError {
    /// The handle does not name a live dispatcher.
    InvalidHandle,
    /// The chip id is not among the dispatcher's chips.
    UnknownChip,
    /// A single-instance registry already holds a live dispatcher.
    AlreadyExists,
    /// Building the manager of one chip failed.
    Protocol(UwbError),
}

/// One chip of a dispatcher and its protocol manager.
pub struct ChipEntry<M> {
    pub chip_id: String,
    pub manager: M,
}

/// The chip ids of a sequence of entries never repeat.
pub open spec fn unique_ids<M>(s: Seq<(Seq<char>, M)>) -> bool {
    forall|i: int, j: int| 0 <= i < j < s.len() ==> s[i].0 != s[j].0
}

/// The chip ids of a sequence of entries.
pub open spec fn ids_of<M>(s: Seq<(Seq<char>, M)>) -> Set<Seq<char>> {
    Set::new(|id: Seq<char>| exists|i: int| 0 <= i < s.len() && s[i].0 == id)
}

/// The value that a sequence of keyed entries holds for a key (a chip id,
/// a class or method name), if any.
pub open spec fn value_of<M>(s: Seq<(Seq<char>, M)>, id: Seq<char>) -> Option<M> {
    if exists|i: int| 0 <= i < s.len() && s[i].0 == id {
        let i = choose|i: int| 0 <= i < s.len() && s[i].0 == id;
        Some(s[i].1)
    } else {
        None
    }
}

/// The fixed chip set of one dispatcher with a manager for each chip.
pub struct Dispatcher<M> {
    entries: Vec<ChipEntry<M>>,
}

impl<M> View for Dispatcher<M> {
    type V = Seq<(Seq<char>, M)>;

    closed spec fn view(&self) -> Seq<(Seq<char>, M)> {
        entries_view(self.entries@)
    }
}

impl<M> Dispatcher<M> {
    pub closed spec fn wf(&self) -> bool {
        unique_ids(self@)
    }

    /// Number of chips.
    pub fn len(&self) -> (r: usize)
        ensures
            r == self@.len(),
    {
        self.entries.len()
    }

    /// Chip id of the `i`-th chip.
    pub fn chip_id_at(&self, i: usize) -> (r: &String)
        requires
            i < self@.len(),
        ensures
            r@ == self@[i as int].0,
    {
        &self.entries[i].chip_id
    }

    /// Manager of the `i`-th chip.
    pub fn manager_at(&self, i: usize) -> (r: &M)
        requires
            i < self@.len(),
        ensures
            *r == self@[i as int].1,
    {
        &self.entries[i].manager
    }

    /// Position of a chip id among the chips.
    pub fn chip_index(&self, chip_id: &str) -> (r: Option<usize>)
        requires
            self.wf(),
        ensures
            match r {
                Some(i) => i < self@.len() && self@[i as int].0 == chip_id@,
                None => !ids_of(self@).contains(chip_id@),
            },
    {
        let key = chip_id.to_owned();
        let mut i: usize = 0;
        while i < self.entries.len()
            invariant
                i <= self.entries@.len(),
                key@ == chip_id@,
                forall|j: int| 0 <= j < i ==> self@[j].0 != chip_id@,
            decreases self.entries@.len() - i,
        {
            if self.entries[i].chip_id == key {
                return Some(i);
            }
            i = i + 1;
        }
        proof {
            if ids_of(self@).contains(chip_id@) {
                let j = choose|j: int| 0 <= j < self@.len() && self@[j].0 == chip_id@;
                assert(self@[j].0 != chip_id@);
            }
        }
        None
    }

    /// Manager of a chip id.
    pub fn manager(&self, chip_id: &str) -> (r: Option<&M>)
        requires
            self.wf(),
        ensures
            match r {
                Some(m) => value_of(self@, chip_id@) == Some(*m),
                None => value_of(self@, chip_id@) is None,
            },
    {
        match self.chip_index(chip_id) {
            Some(i) => {
                proof {
                    lemma_value_of_index(self@, i as int);
                }
                Some(&self.entries[i].manager)
            },
            None => None,
        }
    }
}

/// With unique chip ids, the entry at a position is the one that its chip id
/// finds.
pub proof fn lemma_value_of_index<M>(s: Seq<(Seq<char>, M)>, i: int)
    requires
        unique_ids(s),
        0 <= i < s.len(),
    ensures
        value_of(s, s[i].0) == Some(s[i].1),
        ids_of(s).contains(s[i].0),
{
    let j = choose|j: int| 0 <= j < s.len() && s[j].0 == s[i].0;
    assert(j == i) by {
        if j < i {
            assert(s[j].0 != s[i].0);
        } else if i < j {
            assert(s[i].0 != s[j].0);
        }
    }
}


/// A registry position: its current generation and the dispatcher it holds.
struct Slot<M> {
    generation: u64,
    dispatcher: Option<Dispatcher<M>>,
}

/// The view of a list of chip entries.
pub open spec fn entries_view<M>(s: Seq<ChipEntry<M>>) -> Seq<(Seq<char>, M)> {
    s.map_values(|e: ChipEntry<M>| (e.chip_id@, e.manager))
}

/// The chip ids that a list of construction outcomes names.
pub open spec fn given_ids<M>(chips: Seq<(String, Result<M, UwbError>)>) -> Set<Seq<char>> {
    Set::new(|id: Seq<char>| exists|i: int| 0 <= i < chips.len() && chips[i].0@ == id)
}

/// The manager of the last outcome given for a chip id, if the id occurs.
pub open spec fn last_manager<M>(chips: Seq<(String, Result<M, UwbError>)>, id: Seq<char>) -> Option<M>
    decreases chips.len(),
{
    if chips.len() == 0 {
        None
    } else if chips.last().0@ == id {
        Some(chips.last().1->Ok_0)
    } else {
        last_manager(chips.drop_last(), id)
    }
}

/// The chips of a dispatcher built from a list of outcomes: one entry per
/// distinct chip id given, holding the manager given last for that id.
pub open spec fn built_from<M>(s: Seq<(Seq<char>, M)>, chips: Seq<(String, Result<M, UwbError>)>) -> bool {
    &&& unique_ids(s)
    &&& ids_of(s) == given_ids(chips)
    &&& forall|id: Seq<char>| #[trigger] value_of(s, id) == last_manager(chips, id)
}

/// The first failed construction outcome of a list, if any.
pub open spec fn first_failure<M>(chips: Seq<(String, Result<M, UwbError>)>) -> Option<UwbError>
    decreases chips.len(),
{
    if chips.len() == 0 {
        None
    } else {
        match chips[0].1 {
            Err(e) => Some(e),
            Ok(_) => first_failure(chips.drop_first()),
        }
    }
}

/// Owner of every dispatcher, addressed by handles.
///
/// All mutation happens in `create` and `destroy`; lookups only read, so the
/// host may guard the registry with a reader/writer lock and let calls to
/// different chips proceed together.
pub struct Registry<M> {
    slots: Vec<Slot<M>>,
    single_instance: bool,
}

impl<M> View for Registry<M> {
    type V = Map<Handle, Seq<(Seq<char>, M)>>;

    /// The live handles and the chips of the dispatcher each one names.
    closed spec fn view(&self) -> Map<Handle, Seq<(Seq<char>, M)>> {
        Map::new(
            |h: Handle| self.live(h),
            |h: Handle| self.slots@[h.slot as int].dispatcher->Some_0@,
        )
    }
}

impl<M> Registry<M> {
    closed spec fn live(&self, h: Handle) -> bool {
        &&& h.slot < self.slots@.len()
        &&& self.slots@[h.slot as int].generation == h.generation
        &&& self.slots@[h.slot as int].dispatcher is Some
    }

    pub closed spec fn wf(&self) -> bool {
        &&& forall|i: int|
            0 <= i < self.slots@.len() ==> {
                &&& self.slots@[i].generation >= 1
                &&& (self.slots@[i].dispatcher matches Some(d) ==> d.wf())
            }
        &&& self.single_instance ==> forall|i: int, j: int|
            0 <= i < self.slots@.len() && 0 <= j < self.slots@.len() && self.slots@[i].dispatcher is Some
                && self.slots@[j].dispatcher is Some ==> i == j
    }

    /// Whether at most one dispatcher may be live at a time.
    pub closed spec fn is_single_instance(&self) -> bool {
        self.single_instance
    }

    /// An empty registry; with `single_instance`, `create` refuses a second
    /// live dispatcher.
    pub fn new(single_instance: bool) -> (r: Registry<M>)
        ensures
            r.wf(),
            r@ == Map::<Handle, Seq<(Seq<char>, M)>>::empty(),
            r.is_single_instance() == single_instance,
    {
        let r = Registry { slots: Vec::new(), single_instance };
        assert(r@ =~= Map::<Handle, Seq<(Seq<char>, M)>>::empty());
        r
    }

    /// Whether a handle names a live dispatcher.
    pub fn is_live(&self, h: Handle) -> (r: bool)
        ensures
            r == self@.contains_key(h),
    {
        h.slot < self.slots.len() && self.slots[h.slot].generation == h.generation
            && self.slots[h.slot].dispatcher.is_some()
    }

    /// Whether any dispatcher is live.
    pub fn any_live(&self) -> (r: bool)
        ensures
            r == (self@.dom() != Set::<Handle>::empty()),
    {
        let mut i: usize = 0;
        while i < self.slots.len()
            invariant
                i <= self.slots@.len(),
                forall|j: int| 0 <= j < i ==> self.slots@[j].dispatcher is None,
            decreases self.slots@.len() - i,
        {
            if self.slots[i].dispatcher.is_some() {
                let h = Handle { slot: i, generation: self.slots[i].generation };
                assert(self@.dom().contains(h));
                return true;
            }
            i = i + 1;
        }
        assert(self@.dom() =~= Set::<Handle>::empty());
        false
    }

    /// The live dispatcher that a handle names.
    pub fn get(&self, h: Handle) -> (r: Result<&Dispatcher<M>, DispatchError>)
        requires
            self.wf(),
        ensures
            match r {
                Ok(d) => self@.contains_key(h) && d@ == self@[h] && d.wf(),
                Err(e) => !self@.contains_key(h) && e == DispatchError::InvalidHandle,
            },
    {
        if h.slot < self.slots.len() && self.slots[h.slot].generation == h.generation {
            match &self.slots[h.slot].dispatcher {
                Some(d) => Ok(d),
                None => Err(DispatchError::InvalidHandle),
            }
        } else {
            Err(DispatchError::InvalidHandle)
        }
    }

    /// The manager of a chip of the dispatcher that a handle names.
    pub fn lookup(&self, h: Handle, chip_id: &str) -> (r: Result<&M, DispatchError>)
        requires
            self.wf(),
        ensures
            match r {
                Ok(m) => lookup_spec(self@, h, chip_id@) == Ok::<M, DispatchError>(*m),
                Err(e) => lookup_spec(self@, h, chip_id@) == Err::<M, DispatchError>(e),
            },
    {
        let d = self.get(h)?;
        match d.manager(chip_id) {
            Some(m) => Ok(m),
            None => Err(DispatchError::UnknownChip),
        }
    }

    /// Runs `f` on the manager of a chip while the registry stays borrowed,
    /// so the manager cannot be torn down under it; when the lookup fails,
    /// `f` is not called and the lookup's error is returned.
    pub fn with_manager<R, F: FnOnce(&M) -> R>(&self, h: Handle, chip_id: &str, f: F) -> (r: Result<
        R,
        DispatchError,
    >)
        requires
            self.wf(),
            forall|m: &M| #[trigger] f.requires((m,)),
        ensures
            match lookup_spec(self@, h, chip_id@) {
                Ok(m) => r matches Ok(v) && f.ensures((&m,), v),
                Err(e) => r == Err::<R, DispatchError>(e),
            },
    {
        match self.lookup(h, chip_id) {
            Ok(m) => Ok(f(m)),
            Err(e) => Err(e),
        }
    }

    /// Creates a dispatcher from the outcome of building each chip's manager,
    /// in the order the chips were declared. A chip id given more than once
    /// gets one entry, holding the manager given last for it.
    ///
    /// On any failure the registry is left as it was and the managers that
    /// were built are dropped with the list, so no partial dispatcher is ever
    /// reachable.
    pub fn create(&mut self, chips: Vec<(String, Result<M, UwbError>)>) -> (r: Result<
        Handle,
        DispatchError,
    >)
        requires
            old(self).wf(),
        ensures
            final(self).wf(),
            final(self).is_single_instance() == old(self).is_single_instance(),
            r == create_outcome(old(self)@, old(self).is_single_instance(), chips@, r),
            match r {
                Ok(h) => {
                    &&& h.generation >= 1
                    &&& !old(self)@.contains_key(h)
                    &&& final(self)@ == old(self)@.insert(h, final(self)@[h])
                    &&& built_from(final(self)@[h], chips@)
                },
                Err(_) => final(self)@ == old(self)@,
            },
    {
        if self.single_instance && self.any_live() {
            return Err(DispatchError::AlreadyExists);
        }
        let n = self.slots.len();
        proof {
            if self.single_instance {
                assert forall|i: int| 0 <= i < self.slots@.len() implies self.slots@[i].dispatcher is None by {
                    if self.slots@[i].dispatcher is Some {
                        assert(i < n);
                        let h = Handle { slot: i as usize, generation: self.slots@[i].generation };
                        assert(self.live(h));
                        assert(self@.dom().contains(h));
                    }
                }
            }
        }
        let entries = match Self::build_entries(chips, Ghost(chips@)) {
            Ok(entries) => entries,
            Err(e) => {
                return Err(DispatchError::Protocol(e));
            },
        };
        let d = Dispatcher { entries };
        self.place(d)
    }

    /// Position of the entry for a chip id, if there is one.
    fn find_entry(entries: &Vec<ChipEntry<M>>, key: &String) -> (r: Option<usize>)
        ensures
            match r {
                Some(j) => j < entries@.len() && entries_view(entries@)[j as int].0 == key@,
                None => !ids_of(entries_view(entries@)).contains(key@),
            },
    {
        let mut i: usize = 0;
        while i < entries.len()
            invariant
                i <= entries@.len(),
                forall|j: int| 0 <= j < i ==> entries_view(entries@)[j].0 != key@,
            decreases entries@.len() - i,
        {
            if entries[i].chip_id == *key {
                return Some(i);
            }
            i = i + 1;
        }
        proof {
            let v = entries_view(entries@);
            if ids_of(v).contains(key@) {
                let j = choose|j: int| 0 <= j < v.len() && v[j].0 == key@;
                assert(v[j].0 != key@);
            }
        }
        None
    }

    /// Takes the managers out of a list of construction outcomes, one entry
    /// per distinct chip id with the manager given last, or gives the first
    /// failure.
    fn build_entries(
        mut pending: Vec<(String, Result<M, UwbError>)>,
        Ghost(chips): Ghost<Seq<(String, Result<M, UwbError>)>>,
    ) -> (r: Result<Vec<ChipEntry<M>>, UwbError>)
        requires
            pending@ == chips,
        ensures
            match r {
                Ok(entries) => first_failure(chips) is None && built_from(entries_view(entries@), chips),
                Err(e) => first_failure(chips) == Some(e),
            },
    {
        let mut entries: Vec<ChipEntry<M>> = Vec::new();
        assert(chips.subrange(0, 0).len() == 0);
        assert(entries_view(entries@) =~= Seq::<(Seq<char>, M)>::empty());
        while pending.len() > 0
            invariant
                pending@.len() <= chips.len(),
                pending@ == chips.subrange(chips.len() - pending@.len(), chips.len() as int),
                unique_ids(entries_view(entries@)),
                forall|id: Seq<char>|
                    #[trigger] value_of(entries_view(entries@), id) == last_manager(
                        chips.subrange(0, chips.len() - pending@.len()),
                        id,
                    ),
                first_failure(chips) == first_failure(pending@),
            decreases pending@.len(),
        {
            let ghost k = chips.len() - pending@.len();
            let ghost before = pending@;
            let ghost prefix = chips.subrange(0, k);
            let ghost prev = entries_view(entries@);
            let (chip_id, outcome) = pending.remove(0);
            assert(before[0] == (chip_id, outcome));
            assert(chips[k] == before[0]);
            match outcome {
                Ok(manager) => {
                    let ghost key = chip_id@;
                    let ghost next = chips.subrange(0, k + 1);
                    proof {
                        assert(next.drop_last() =~= prefix);
                        assert(next.last() == (chip_id, Ok::<M, UwbError>(manager)));
                        assert forall|id: Seq<char>| #[trigger] last_manager(next, id) == (if id == key {
                            Some(manager)
                        } else {
                            last_manager(prefix, id)
                        }) by {}
                    }
                    match Self::find_entry(&entries, &chip_id) {
                        Some(j) => {
                            entries[j] = ChipEntry { chip_id, manager };
                            proof {
                                assert(entries_view(entries@) =~= prev.update(j as int, (key, manager)));
                                assert forall|id: Seq<char>| #[trigger] value_of(entries_view(entries@), id)
                                    == last_manager(next, id) by {
                                    lemma_replace(prev, j as int, manager, id);
                                    assert(last_manager(next, id) == (if id == key {
                                        Some(manager)
                                    } else {
                                        last_manager(prefix, id)
                                    }));
                                }
                                lemma_replace(prev, j as int, manager, key);
                            }
                        },
                        None => {
                            entries.push(ChipEntry { chip_id, manager });
                            proof {
                                assert(entries_view(entries@) =~= prev.push((key, manager)));
                                assert forall|id: Seq<char>| #[trigger] value_of(entries_view(entries@), id)
                                    == last_manager(next, id) by {
                                    lemma_push_fresh(prev, key, manager, id);
                                    assert(last_manager(next, id) == (if id == key {
                                        Some(manager)
                                    } else {
                                        last_manager(prefix, id)
                                    }));
                                }
                                lemma_push_fresh(prev, key, manager, key);
                            }
                        },
                    }
                    proof {
                        assert(pending@ =~= chips.subrange(k + 1, chips.len() as int));
                        assert(chips.subrange(k, chips.len() as int).drop_first() =~= pending@);
                    }
                },
                Err(e) => {
                    assert(before[0].1 == Err::<M, UwbError>(e));
                    assert(first_failure(before) == Some(e));
                    return Err(e);
                },
            }
        }
        proof {
            assert(chips.subrange(0, chips.len() as int) =~= chips);
            let v = entries_view(entries@);
            assert forall|id: Seq<char>| ids_of(v).contains(id) == given_ids(chips).contains(id) by {
                lemma_value_of_ids(v, id);
                lemma_last_manager_some(chips, id);
                assert(value_of(v, id) == last_manager(chips, id));
            }
            assert(ids_of(v) =~= given_ids(chips));
        }
        Ok(entries)
    }

    /// Stores a new dispatcher in a free slot, or in a new one, and returns
    /// its handle.
    fn place(&mut self, d: Dispatcher<M>) -> (h: Result<Handle, DispatchError>)
        requires
            old(self).wf(),
            d.wf(),
            old(self).single_instance ==> forall|i: int|
                0 <= i < old(self).slots@.len() ==> old(self).slots@[i].dispatcher is None,
        ensures
            final(self).wf(),
            final(self).single_instance == old(self).single_instance,
            h matches Ok(h) && h.generation >= 1 && !old(self)@.contains_key(h) && final(self)@
                == old(self)@.insert(h, d@),
    {
        let ghost dv = d@;
        let mut i: usize = 0;
        while i < self.slots.len()
            invariant
                i <= self.slots@.len(),
                *self == *old(self),
                self.wf(),
                d.wf(),
                dv == d@,
                self.single_instance ==> forall|j: int|
                    0 <= j < self.slots@.len() ==> self.slots@[j].dispatcher is None,
            decreases self.slots@.len() - i,
        {
            if self.slots[i].dispatcher.is_none() && self.slots[i].generation < u64::MAX {
                let generation = self.slots[i].generation + 1;
                let ghost old_reg = *self;
                self.slots[i] = Slot { generation, dispatcher: Some(d) };
                let h = Handle { slot: i, generation };
                proof {
                    assert(self.slots@ =~= old_reg.slots@.update(
                        i as int,
                        Slot { generation, dispatcher: Some(d) },
                    ));
                    assert(!old_reg@.contains_key(h));
                    assert forall|hh: Handle| #[trigger] self.live(hh) == (old_reg.live(hh) || hh == h) by {}
                    assert(self@ =~= old_reg@.insert(h, dv));
                }
                return Ok(h);
            }
            i = i + 1;
        }
        let ghost old_reg = *self;
        let h = Handle { slot: self.slots.len(), generation: 1 };
        self.slots.push(Slot { generation: 1, dispatcher: Some(d) });
        proof {
            assert(!old_reg@.contains_key(h));
            assert(self@ =~= old_reg@.insert(h, dv));
        }
        Ok(h)
    }

    /// Destroys the dispatcher that a handle names and hands it back so the
    /// caller can tear its managers down once no lock is held.
    pub fn destroy(&mut self, h: Handle) -> (r: Result<Dispatcher<M>, DispatchError>)
        requires
            old(self).wf(),
        ensures
            final(self).wf(),
            final(self).is_single_instance() == old(self).is_single_instance(),
            match r {
                Ok(d) => {
                    &&& old(self)@.contains_key(h)
                    &&& d@ == old(self)@[h]
                    &&& d.wf()
                    &&& final(self)@ == old(self)@.remove(h)
                },
                Err(e) => {
                    &&& !old(self)@.contains_key(h)
                    &&& e == DispatchError::InvalidHandle
                    &&& final(self)@ == old(self)@
                },
            },
    {
        if !self.is_live(h) {
            return Err(DispatchError::InvalidHandle);
        }
        let ghost old_reg = *self;
        let slot = self.slots.remove(h.slot);
        let Slot { generation, dispatcher } = slot;
        self.slots.insert(h.slot, Slot { generation, dispatcher: None });
        proof {
            assert(self.slots@ =~= old_reg.slots@.update(
                h.slot as int,
                Slot { generation, dispatcher: None },
            ));
            assert(self@ =~= old_reg@.remove(h));
        }
        match dispatcher {
            Some(d) => Ok(d),
            None => Err(DispatchError::InvalidHandle),
        }
    }
}


/// What `lookup` gives on a registry of the given contents.
pub open spec fn lookup_spec<M>(
    reg: Map<Handle, Seq<(Seq<char>, M)>>,
    h: Handle,
    chip_id: Seq<char>,
) -> Result<M, DispatchError> {
    if !reg.contains_key(h) {
        Err(DispatchError::InvalidHandle)
    } else {
        match value_of(reg[h], chip_id) {
            Some(m) => Ok(m),
            None => Err(DispatchError::UnknownChip),
        }
    }
}

/// What `create` gives: the first reason to refuse, in the order they are
/// checked, or the new handle `r` carries.
pub open spec fn create_outcome<M>(
    reg: Map<Handle, Seq<(Seq<char>, M)>>,
    single_instance: bool,
    chips: Seq<(String, Result<M, UwbError>)>,
    r: Result<Handle, DispatchError>,
) -> Result<Handle, DispatchError> {
    if single_instance && reg.dom() != Set::<Handle>::empty() {
        Err(DispatchError::AlreadyExists)
    } else if let Some(e) = first_failure(chips) {
        Err(DispatchError::Protocol(e))
    } else {
        Ok(r->Ok_0)
    }
}


/// Adding an entry for a chip id that a list lacks keeps the ids unique,
/// finds the new manager under that id and leaves every other id as it was.
pub proof fn lemma_push_fresh<M>(s: Seq<(Seq<char>, M)>, key: Seq<char>, value: M, other: Seq<char>)
    requires
        unique_ids(s),
        !ids_of(s).contains(key),
    ensures
        unique_ids(s.push((key, value))),
        value_of(s.push((key, value)), other) == (if other == key {
            Some(value)
        } else {
            value_of(s, other)
        }),
{
    let t = s.push((key, value));
    assert forall|a: int, b: int| 0 <= a < b < t.len() implies t[a].0 != t[b].0 by {
        if b == s.len() {
            if t[a].0 == key {
                assert(s[a].0 == key);
                assert(ids_of(s).contains(key));
            }
        } else {
            assert(t[a] == s[a] && t[b] == s[b]);
        }
    }
    lemma_value_of_index(t, s.len() as int);
    if other != key {
        if ids_of(s).contains(other) {
            let i = choose|i: int| 0 <= i < s.len() && s[i].0 == other;
            assert(t[i] == s[i]);
            lemma_value_of_index(t, i);
            lemma_value_of_index(s, i);
        } else {
            assert(!ids_of(t).contains(other)) by {
                if ids_of(t).contains(other) {
                    let i = choose|i: int| 0 <= i < t.len() && t[i].0 == other;
                    assert(i < s.len());
                    assert(t[i] == s[i]);
                }
            }
        }
    }
}

/// Replacing the manager of an entry keeps the ids, finds the new manager
/// under that entry's id and leaves every other id as it was.
proof fn lemma_replace<M>(s: Seq<(Seq<char>, M)>, j: int, value: M, other: Seq<char>)
    requires
        unique_ids(s),
        0 <= j < s.len(),
    ensures
        unique_ids(s.update(j, (s[j].0, value))),
        ids_of(s.update(j, (s[j].0, value))) == ids_of(s),
        value_of(s.update(j, (s[j].0, value)), other) == (if other == s[j].0 {
            Some(value)
        } else {
            value_of(s, other)
        }),
{
    let t = s.update(j, (s[j].0, value));
    assert forall|a: int, b: int| 0 <= a < b < t.len() implies t[a].0 != t[b].0 by {
        assert(t[a].0 == s[a].0 && t[b].0 == s[b].0);
    }
    assert forall|id: Seq<char>| ids_of(t).contains(id) == ids_of(s).contains(id) by {
        if ids_of(s).contains(id) {
            let i = choose|i: int| 0 <= i < s.len() && s[i].0 == id;
            assert(t[i].0 == id);
        }
        if ids_of(t).contains(id) {
            let i = choose|i: int| 0 <= i < t.len() && t[i].0 == id;
            assert(s[i].0 == id);
        }
    }
    assert(ids_of(t) =~= ids_of(s));
    lemma_value_of_index(t, j);
    if other != s[j].0 {
        if ids_of(s).contains(other) {
            let i = choose|i: int| 0 <= i < s.len() && s[i].0 == other;
            assert(i != j);
            assert(t[i] == s[i]);
            lemma_value_of_index(t, i);
            lemma_value_of_index(s, i);
        } else {
            lemma_value_of_ids(t, other);
            lemma_value_of_ids(s, other);
        }
    }
}

/// A chip id has a last manager exactly when the list names it.
proof fn lemma_last_manager_some<M>(chips: Seq<(String, Result<M, UwbError>)>, id: Seq<char>)
    ensures
        last_manager(chips, id) is Some <==> given_ids(chips).contains(id),
    decreases chips.len(),
{
    if chips.len() > 0 {
        let p = chips.drop_last();
        lemma_last_manager_some(p, id);
        if chips.last().0@ == id {
            assert(chips[chips.len() - 1].0@ == id);
        } else {
            if given_ids(chips).contains(id) {
                let i = choose|i: int| 0 <= i < chips.len() && chips[i].0@ == id;
                assert(i < chips.len() - 1);
                assert(p[i] == chips[i]);
            }
            if given_ids(p).contains(id) {
                let i = choose|i: int| 0 <= i < p.len() && p[i].0@ == id;
                assert(chips[i] == p[i]);
            }
        }
    }
}

/// A chip id that an entry list holds has a manager there, and one that it
/// does not hold has none.
proof fn lemma_value_of_ids<M>(s: Seq<(Seq<char>, M)>, id: Seq<char>)
    ensures
        value_of(s, id) is Some <==> ids_of(s).contains(id),
{
}

/// The zero handle, and any handle of generation 0, never names a
/// dispatcher.
pub proof fn lemma_zero_generation_not_live<M>(reg: Registry<M>, h: Handle)
    requires
        reg.wf(),
        h.generation == 0,
    ensures
        !reg@.contains_key(h),
{
}

/// A single-instance registry holds at most one live dispatcher.
pub proof fn lemma_single_instance_at_most_one<M>(reg: Registry<M>, a: Handle, b: Handle)
    requires
        reg.wf(),
        reg.is_single_instance(),
        reg@.contains_key(a),
        reg@.contains_key(b),
    ensures
        a == b,
{
    assert(a.slot == b.slot);
}

/// Dispatchers made from disjoint chip sets never resolve each other's chips:
/// on the handle of one, every chip of the other is unknown.
pub proof fn lemma_registry_isolation<M>(
    reg: Map<Handle, Seq<(Seq<char>, M)>>,
    a: Handle,
    b: Handle,
    chip_id: Seq<char>,
)
    requires
        reg.contains_key(a),
        reg.contains_key(b),
        ids_of(reg[a]).disjoint(ids_of(reg[b])),
        ids_of(reg[b]).contains(chip_id),
    ensures
        lookup_spec(reg, a, chip_id) == Err::<M, DispatchError>(DispatchError::UnknownChip),
{
    lemma_value_of_ids(reg[a], chip_id);
}

/// A chip id outside a live dispatcher's chip set is always unknown to it.
pub proof fn lemma_unknown_chip<M>(
    reg: Map<Handle, Seq<(Seq<char>, M)>>,
    h: Handle,
    chip_id: Seq<char>,
)
    requires
        reg.contains_key(h),
        !ids_of(reg[h]).contains(chip_id),
    ensures
        lookup_spec(reg, h, chip_id) == Err::<M, DispatchError>(DispatchError::UnknownChip),
{
    lemma_value_of_ids(reg[h], chip_id);
}

/// Creating another dispatcher changes nothing that a live handle resolves:
/// a dispatcher's chip set stays fixed while it lives.
pub proof fn lemma_lookup_stable_under_create<M>(
    reg: Map<Handle, Seq<(Seq<char>, M)>>,
    h: Handle,
    fresh: Handle,
    chips: Seq<(Seq<char>, M)>,
    chip_id: Seq<char>,
)
    requires
        reg.contains_key(h),
        !reg.contains_key(fresh),
    ensures
        lookup_spec(reg.insert(fresh, chips), h, chip_id) == lookup_spec(reg, h, chip_id),
{
}

/// Once a handle is destroyed it no longer resolves: a second `destroy` and
/// every lookup through it fail with `InvalidHandle`.
pub proof fn lemma_destroyed_handle_rejected<M>(
    reg: Map<Handle, Seq<(Seq<char>, M)>>,
    h: Handle,
    chip_id: Seq<char>,
)
    requires
        reg.contains_key(h),
    ensures
        !reg.remove(h).contains_key(h),
        lookup_spec(reg.remove(h), h, chip_id) == Err::<M, DispatchError>(
            DispatchError::InvalidHandle,
        ),
{
}

/// When building one chip's manager fails, `create` fails, and since the
/// registry is then left as it was, a chip that no live dispatcher held
/// before resolves on no handle afterwards.
pub proof fn lemma_partial_construction_rollback<M>(
    reg: Map<Handle, Seq<(Seq<char>, M)>>,
    single_instance: bool,
    chips: Seq<(String, Result<M, UwbError>)>,
    r: Result<Handle, DispatchError>,
    chip_id: Seq<char>,
)
    requires
        first_failure(chips) is Some,
        forall|h: Handle| #[trigger] reg.contains_key(h) ==> !ids_of(reg[h]).contains(chip_id),
    ensures
        create_outcome(reg, single_instance, chips, r) is Err,
        forall|h: Handle| #[trigger] lookup_spec(reg, h, chip_id) is Err,
{
    assert forall|h: Handle| #[trigger] lookup_spec(reg, h, chip_id) is Err by {
        if reg.contains_key(h) {
            lemma_value_of_ids(reg[h], chip_id);
        }
    }
}

} // verus!
