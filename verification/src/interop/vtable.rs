use super::platform::Platform;
use vstd::prelude::*;

verus! {

/// Looks up the dispatch table of an object.
///
/// The object at the base of a chain holds the address of its table as its
/// first field; a derived object begins with its base and asks it.
pub trait Vtable {
    /// The type that describes the object's table.
    type Vtable;

    /// The address of the object's table.
    spec fn table(&self) -> usize;

    /// Returns the address of the object's table.
    fn vtable(&self) -> (address: usize)
        ensures
            address == self.table(),
    ;
}

/// What stands in one slot of a dispatch table.
#[derive(Debug, Clone, Copy, PartialEq, Eq, Structural)]
pub enum SlotKind {
    /// A virtual method.
    Method,
    /// The virtual destructor.
    Destructor,
}

/// One named slot of a dispatch table.
#[derive(Debug, Clone, Copy, PartialEq, Eq)]
pub struct Slot {
    pub name: &'static str,
    pub kind: SlotKind,
}

/// The slots of a dispatch table, in the order of the table itself. The table
/// of a derived class holds the slots of its base, unchanged and in the same
/// places, followed by its own.
#[derive(Debug, Clone, PartialEq, Eq)]
pub struct VtableLayout {
    slots: Vec<Slot>,
}

impl View for VtableLayout {
    type V = Seq<Slot>;

    closed spec fn view(&self) -> Seq<Slot> {
        self.slots@
    }
}

/// The number of entries of the table that a slot takes: a method takes one;
/// the destructor takes one where the unused register is passed, and two,
/// one to destroy and one to delete, elsewhere.
pub open spec fn slot_entries(kind: SlotKind, platform: Platform) -> nat {
    match kind {
        SlotKind::Method => 1,
        SlotKind::Destructor => if platform.has_hidden_register() {
            1
        } else {
            2
        },
    }
}

/// The number of entries that the first `n` slots take.
pub open spec fn entries_before(slots: Seq<Slot>, n: int, platform: Platform) -> nat
    decreases n,
{
    if n <= 0 {
        0
    } else {
        entries_before(slots, n - 1, platform) + slot_entries(slots[n - 1].kind, platform)
    }
}

/// The size of one entry of a table, in bytes.
pub const ENTRY_SIZE: usize = 4;

/// Where slot `index` of the table at `table` begins.
pub open spec fn slot_address_of(table: usize, slots: Seq<Slot>, index: int, platform: Platform)
    -> int {
    table + ENTRY_SIZE * entries_before(slots, index, platform)
}

/// The first `n` slots take at most two entries each.
pub proof fn lemma_entries_bounded(slots: Seq<Slot>, n: int, platform: Platform)
    requires
        0 <= n,
    ensures
        n <= entries_before(slots, n, platform) <= 2 * n,
    decreases n,
{
    if n > 0 {
        lemma_entries_bounded(slots, n - 1, platform);
    }
}

/// Later slots begin at later entries.
pub proof fn lemma_entries_grow(slots: Seq<Slot>, n: int, m: int, platform: Platform)
    requires
        0 <= n <= m,
    ensures
        entries_before(slots, n, platform) <= entries_before(slots, m, platform),
    decreases m - n,
{
    if n < m {
        lemma_entries_grow(slots, n, m - 1, platform);
    }
}

/// A derived table keeps every slot of its base at the entry where the base
/// has it.
pub proof fn lemma_entries_of_prefix(base: Seq<Slot>, own: Seq<Slot>, n: int, platform: Platform)
    requires
        0 <= n <= base.len(),
    ensures
        entries_before(base + own, n, platform) == entries_before(base, n, platform),
    decreases n,
{
    if n > 0 {
        lemma_entries_of_prefix(base, own, n - 1, platform);
    }
}

/// The slots of a derived table: as many as the base and the class have
/// together, those of the base first and in their order, then those of the
/// class in theirs.
pub proof fn lemma_extended_layout(base: Seq<Slot>, own: Seq<Slot>)
    ensures
        (base + own).len() == base.len() + own.len(),
        forall|i: int| 0 <= i < base.len() ==> #[trigger] (base + own)[i] == base[i],
        forall|j: int| 0 <= j < own.len() ==> (base + own)[base.len() + j] == own[j],
{
}

/// The slots of methods with the given names, in their order.
pub open spec fn methods(names: Seq<&'static str>) -> Seq<Slot> {
    Seq::new(names.len(), |i: int| Slot { name: names[i], kind: SlotKind::Method })
}

/// A slot for the destructor of the class `class`.
pub open spec fn destructor(class: &'static str) -> Slot {
    Slot { name: class, kind: SlotKind::Destructor }
}

impl VtableLayout {
    /// The table without slots.
    pub fn empty() -> (layout: Self)
        ensures
            layout@ == Seq::<Slot>::empty(),
    {
        VtableLayout { slots: Vec::new() }
    }

    /// The table of `self` followed by the destructor of `class`.
    pub fn with_destructor(self, class: &'static str) -> (layout: Self)
        ensures
            layout@ == self@.push(destructor(class)),
    {
        let mut slots = self.slots;
        slots.push(Slot { name: class, kind: SlotKind::Destructor });
        VtableLayout { slots }
    }

    /// The table of `self` followed by methods with the names `names`.
    pub fn with_methods(self, names: &[&'static str]) -> (layout: Self)
        ensures
            layout@ == self@ + methods(names@),
    {
        let ghost base = self.slots@;
        let mut slots = self.slots;
        let mut i: usize = 0;
        while i < names.len()
            invariant
                i <= names@.len(),
                slots@ == base + methods(names@).take(i as int),
            decreases names@.len() - i,
        {
            slots.push(Slot { name: names[i], kind: SlotKind::Method });
            assert(slots@ =~= base + methods(names@).take(i + 1));
            i += 1;
        }
        assert(methods(names@).take(names@.len() as int) =~= methods(names@));
        VtableLayout { slots }
    }

    /// The table of a class without a base.
    pub fn new(slots: Vec<Slot>) -> (layout: Self)
        ensures
            layout@ == slots@,
    {
        VtableLayout { slots }
    }

    /// The table of a class derived from the class of `self` that declares
    /// the slots `own`.
    pub fn extend(&self, own: &Vec<Slot>) -> (layout: Self)
        ensures
            layout@ == self@ + own@,
    {
        let mut slots: Vec<Slot> = Vec::new();
        let mut i: usize = 0;
        while i < self.slots.len()
            invariant
                i <= self.slots.len(),
                slots@ == self.slots@.take(i as int),
            decreases self.slots.len() - i,
        {
            slots.push(self.slots[i]);
            assert(slots@ =~= self.slots@.take(i + 1));
            i += 1;
        }
        assert(self.slots@.take(self.slots.len() as int) =~= self.slots@);
        let mut j: usize = 0;
        while j < own.len()
            invariant
                j <= own.len(),
                slots@ == self.slots@ + own@.take(j as int),
            decreases own.len() - j,
        {
            slots.push(own[j]);
            assert(slots@ =~= self.slots@ + own@.take(j + 1));
            j += 1;
        }
        assert(own@.take(own.len() as int) =~= own@);
        VtableLayout { slots }
    }

    /// The number of slots.
    pub fn len(&self) -> (n: usize)
        ensures
            n == self@.len(),
    {
        self.slots.len()
    }

    /// The slot at `index`, counted from zero.
    pub fn slot(&self, index: usize) -> (slot: Slot)
        requires
            index < self@.len(),
        ensures
            slot == self@[index as int],
    {
        self.slots[index]
    }

    /// The slot at `index` if the table has that many: `None` exactly when
    /// `index` is past the last slot.
    pub fn get(&self, index: usize) -> (slot: Option<Slot>)
        ensures
            slot == if index < self@.len() {
                Some(self@[index as int])
            } else {
                None
            },
    {
        if index < self.slots.len() {
            Some(self.slots[index])
        } else {
            None
        }
    }

    /// Where slot `index` of the table at `table` begins: `None` exactly
    /// where the table has no such slot or the address is no address.
    pub fn slot_address(&self, table: usize, index: usize, platform: Platform) -> (address:
        Option<usize>)
        ensures
            match address {
                Some(a) => index < self@.len() && a == slot_address_of(
                    table,
                    self@,
                    index as int,
                    platform,
                ),
                None => index >= self@.len() || slot_address_of(
                    table,
                    self@,
                    index as int,
                    platform,
                ) > usize::MAX,
            },
    {
        if index >= self.slots.len() {
            return None;
        }
        let mut entry: usize = 0;
        let mut i: usize = 0;
        while i < index
            invariant
                i <= index < self.slots.len(),
                entry == entries_before(self.slots@, i as int, platform),
                table + ENTRY_SIZE * entry <= usize::MAX,
            decreases index - i,
        {
            let step: usize = match self.slots[i].kind {
                SlotKind::Method => 1,
                SlotKind::Destructor => if platform.hidden_register() {
                    1
                } else {
                    2
                },
            };
            if step > (usize::MAX - table) / ENTRY_SIZE - entry {
                proof {
                    lemma_entries_grow(self.slots@, i + 1, index as int, platform);
                }
                return None;
            }
            entry = entry + step;
            i += 1;
        }
        Some(table + ENTRY_SIZE * entry)
    }

    /// The first slot with the name `name`, if there is one.
    pub fn find(&self, name: &str) -> (found: Option<usize>)
        ensures
            match found {
                Some(index) => {
                    &&& index < self@.len()
                    &&& self@[index as int].name@ == name@
                    &&& forall|k: int| 0 <= k < index ==> (#[trigger] self@[k]).name@ != name@
                },
                None => forall|k: int| 0 <= k < self@.len() ==> (#[trigger] self@[k]).name@
                    != name@,
            },
    {
        let wanted = String::from_str(name);
        let mut i: usize = 0;
        while i < self.slots.len()
            invariant
                i <= self.slots.len(),
                wanted@ == name@,
                forall|k: int| 0 <= k < i ==> (#[trigger] self.slots@[k]).name@ != name@,
            decreases self.slots.len() - i,
        {
            let here = String::from_str(self.slots[i].name);
            if here == wanted {
                return Some(i);
            }
            i += 1;
        }
        None
    }

    /// The entry of the table at which the slot `index` begins, on
    /// `platform`; for `index` equal to the number of slots, the number of
    /// entries of the whole table.
    pub fn entry_index(&self, index: usize, platform: Platform) -> (entry: usize)
        requires
            index <= self@.len(),
            2 * index <= usize::MAX,
        ensures
            entry == entries_before(self@, index as int, platform),
    {
        let mut entry: usize = 0;
        let mut i: usize = 0;
        while i < index
            invariant
                i <= index <= self.slots.len(),
                2 * index <= usize::MAX,
                entry == entries_before(self.slots@, i as int, platform),
                entry <= 2 * i,
            decreases index - i,
        {
            let step: usize = match self.slots[i].kind {
                SlotKind::Method => 1,
                SlotKind::Destructor => if platform.hidden_register() {
                    1
                } else {
                    2
                },
            };
            entry = entry + step;
            i += 1;
        }
        entry
    }
}

} // verus!
