use super::object::{GameBaseVtable, ShapeBase, ShapeBaseVtable};
use crate::con::object::{ConsoleObjectVtable, SimObjectVtable};
use crate::sim::object::{NetObjectVtable, SceneObjectVtable};
use crate::interop::fn_ptr::TgeAddr;
use crate::interop::platform::{address_for, field_ptr, tge_addr, Platform};
use crate::interop::vtable::{Slot, Vtable, VtableLayout};
use core::ops::{Deref, DerefMut};
use vstd::prelude::*;

verus! {

/// The marble that the player rolls.
#[derive(Debug, Clone, Copy, PartialEq, Eq, Structural)]
pub struct Marble {
    pub parent: ShapeBase,
}

/// The table of a marble: that of a shape object.
#[derive(Debug, Clone, Copy, PartialEq, Eq)]
pub struct MarbleVtable;

impl MarbleVtable {
    /// The slots of the table: those of a shape object and no more.
    pub open spec fn slots() -> Seq<Slot> {
        ShapeBaseVtable::slots()
    }

    /// Returns the slots of the table.
    pub fn layout() -> (layout: VtableLayout)
        ensures
            layout@ == Self::slots(),
    {
        ShapeBaseVtable::layout()
    }
}

impl Deref for Marble {
    type Target = ShapeBase;

    fn deref(&self) -> (base: &ShapeBase)
        ensures
            *base == self.parent,
    {
        &self.parent
    }
}

impl DerefMut for Marble {
    fn deref_mut(&mut self) -> (base: &mut ShapeBase)
        ensures
            *base == old(self).parent,
    {
        &mut self.parent
    }
}

impl Vtable for Marble {
    type Vtable = MarbleVtable;

    open spec fn table(&self) -> usize {
        self.parent.table()
    }

    fn vtable(&self) -> (address: usize) {
        self.parent.vtable()
    }
}

impl Marble {
    /// Where the velocity of the marble at `marble` stands: `None` exactly
    /// where that is no address.
    pub fn velocity(marble: usize, platform: Platform) -> (at: Option<usize>)
        ensures
            match at {
                Some(a) => a == marble + address_for(platform, 0xa00, 0x9ec),
                None => marble + address_for(platform, 0xa00, 0x9ec) > usize::MAX,
            },
    {
        let offset = Self::velocity_offset(platform);
        if marble > usize::MAX - offset.0 {
            None
        } else {
            Some(field_ptr(marble, offset))
        }
    }

    /// How far into a marble its velocity stands, in bytes.
    pub fn velocity_offset(platform: Platform) -> (offset: TgeAddr)
        ensures
            offset.0 == address_for(platform, 0xa00, 0x9ec),
    {
        tge_addr(platform, 0xa00, 0x9ec)
    }
}

/// Where the method stands that gives a marble a power-up.
pub fn tge_marble_do_power_up(platform: Platform) -> (address: TgeAddr)
    ensures
        address.0 == address_for(platform, 0x405f51, 0x2576b0),
{
    tge_addr(platform, 0x405f51, 0x2576b0)
}

/// The tables of the classes from a console object down to a marble: how
/// many slots each has, and that each begins with the whole table of its
/// base, slot for slot.
pub proof fn lemma_class_tables()
    ensures
        ConsoleObjectVtable::slots().len() == 2,
        SimObjectVtable::slots().len() == 20,
        NetObjectVtable::slots().len() == 24,
        SceneObjectVtable::slots().len() == 57,
        GameBaseVtable::slots().len() == 67,
        ShapeBaseVtable::slots().len() == 125,
        MarbleVtable::slots() == ShapeBaseVtable::slots(),
        SimObjectVtable::slots().take(2) == ConsoleObjectVtable::slots(),
        NetObjectVtable::slots().take(20) == SimObjectVtable::slots(),
        SceneObjectVtable::slots().take(24) == NetObjectVtable::slots(),
        GameBaseVtable::slots().take(57) == SceneObjectVtable::slots(),
        ShapeBaseVtable::slots().take(67) == GameBaseVtable::slots(),
{
    assert(SimObjectVtable::slots().take(2) =~= ConsoleObjectVtable::slots());
    assert(NetObjectVtable::slots().take(20) =~= SimObjectVtable::slots());
    assert(SceneObjectVtable::slots().take(24) =~= NetObjectVtable::slots());
    assert(GameBaseVtable::slots().take(57) =~= SceneObjectVtable::slots());
    assert(ShapeBaseVtable::slots().take(67) =~= GameBaseVtable::slots());
}

} // verus!
