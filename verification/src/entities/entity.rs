//! State shared by every kind of entity.

use vstd::prelude::*;

verus! {

/// The part of an entity that the rules decide on.
///
/// `color` is one of the two faction colours, or the bomb colour. `life`
/// counts frames for enemies and bombs, and attempts for the first player;
/// at zero the entity is dead.
#[derive(Clone, Copy, Debug, PartialEq, Eq, Structural)]
pub struct Entity {
    pub color: u16,
    pub life: u32,
}

} // verus!
