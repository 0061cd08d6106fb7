//! Objects of the game itself.

pub mod marble;
pub mod object;

pub use marble::{tge_marble_do_power_up, Marble, MarbleVtable};
pub use object::{GameBase, GameBaseVtable, ShapeBase, ShapeBaseVtable};
