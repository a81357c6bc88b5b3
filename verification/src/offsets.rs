//! The memory layout of one client version: where the world pointer lives and
//! the field offsets along the chain that leads to the player's transform.

use vstd::prelude::*;

verus! {

/// Offsets of one client build.
pub struct WuwaOffset {
    /// Name of the build the offsets belong to.
    pub name: String,
    /// Offset of the global `GWorld` pointer from the image base.
    pub global_gworld: u64,
    pub uworld_owninggameinstance: u64,
    pub ugameinstance_localplayers: u64,
    pub uplayer_playercontroller: u64,
    pub aplayercontroller_acknowlegedpawn: u64,
    pub aactor_rootcomponent: u64,
    pub uscenecomponent_componenttoworld: u64,
    pub uworld_persistentlevel: u64,
    pub ulevel_lastworldorigin: u64,
}

impl WuwaOffset {
    /// A field-for-field copy.
    pub fn duplicate(&self) -> (r: WuwaOffset)
        ensures
            r == *self,
    {
        WuwaOffset {
            name: self.name.clone(),
            global_gworld: self.global_gworld,
            uworld_owninggameinstance: self.uworld_owninggameinstance,
            ugameinstance_localplayers: self.ugameinstance_localplayers,
            uplayer_playercontroller: self.uplayer_playercontroller,
            aplayercontroller_acknowlegedpawn: self.aplayercontroller_acknowlegedpawn,
            aactor_rootcomponent: self.aactor_rootcomponent,
            uscenecomponent_componenttoworld: self.uscenecomponent_componenttoworld,
            uworld_persistentlevel: self.uworld_persistentlevel,
            ulevel_lastworldorigin: self.ulevel_lastworldorigin,
        }
    }

    /// The same offsets with the world pointer moved to `global_gworld`.
    pub open spec fn with_gworld(self, global_gworld: u64) -> WuwaOffset {
        WuwaOffset { global_gworld, ..self }
    }

    /// A copy whose world pointer offset is `global_gworld`.
    pub fn adjusted(&self, global_gworld: u64) -> (r: WuwaOffset)
        ensures
            r == self.with_gworld(global_gworld),
            r.global_gworld == global_gworld,
            r.name == self.name,
            r.uworld_owninggameinstance == self.uworld_owninggameinstance,
            r.ugameinstance_localplayers == self.ugameinstance_localplayers,
            r.uplayer_playercontroller == self.uplayer_playercontroller,
            r.aplayercontroller_acknowlegedpawn == self.aplayercontroller_acknowlegedpawn,
            r.aactor_rootcomponent == self.aactor_rootcomponent,
            r.uscenecomponent_componenttoworld == self.uscenecomponent_componenttoworld,
            r.uworld_persistentlevel == self.uworld_persistentlevel,
            r.ulevel_lastworldorigin == self.ulevel_lastworldorigin,
    {
        let mut r = self.duplicate();
        r.global_gworld = global_gworld;
        r
    }
}

/// Moving the world pointer changes nothing else: the moved offsets are the
/// build's own in every field but `global_gworld`, which is the new one.
pub proof fn lemma_moved_offsets_keep_the_build(o: WuwaOffset, g: u64)
    ensures
        o.with_gworld(g).global_gworld == g,
        o.with_gworld(g).name == o.name,
        o.with_gworld(g).uworld_owninggameinstance == o.uworld_owninggameinstance,
        o.with_gworld(g).ugameinstance_localplayers == o.ugameinstance_localplayers,
        o.with_gworld(g).uplayer_playercontroller == o.uplayer_playercontroller,
        o.with_gworld(g).aplayercontroller_acknowlegedpawn == o.aplayercontroller_acknowlegedpawn,
        o.with_gworld(g).aactor_rootcomponent == o.aactor_rootcomponent,
        o.with_gworld(g).uscenecomponent_componenttoworld == o.uscenecomponent_componenttoworld,
        o.with_gworld(g).uworld_persistentlevel == o.uworld_persistentlevel,
        o.with_gworld(g).ulevel_lastworldorigin == o.ulevel_lastworldorigin,
        o.with_gworld(o.global_gworld) == o,
{
}

} // verus!
