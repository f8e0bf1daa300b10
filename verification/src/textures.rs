//! The textures that the editor draws with.

use vstd::prelude::*;
use crate::catalog::ComponentType;

verus! {

/// A texture of the editor's atlas. `White` is the plain texture that
/// untextured shapes use.
#[derive(Clone, Copy, Debug, PartialEq, Eq, Structural, Hash)]
pub enum SpacecraftTextures {
    White,
    BlockComponent,
    LaserWeaponComponent,
    MissileWeaponComponent,
    RaptorEngineComponent,
    CentralComponent,
}

impl SpacecraftTextures {
    /// The texture's slot in the atlas, counted in declaration order.
    pub open spec fn spec_index(self) -> u32 {
        match self {
            SpacecraftTextures::White => 0,
            SpacecraftTextures::BlockComponent => 1,
            SpacecraftTextures::LaserWeaponComponent => 2,
            SpacecraftTextures::MissileWeaponComponent => 3,
            SpacecraftTextures::RaptorEngineComponent => 4,
            SpacecraftTextures::CentralComponent => 5,
        }
    }

    /// The texture's name in snake case, as its image file is called.
    pub open spec fn spec_name(self) -> Seq<char> {
        match self {
            SpacecraftTextures::White => "white"@,
            SpacecraftTextures::BlockComponent => "block_component"@,
            SpacecraftTextures::LaserWeaponComponent => "laser_weapon_component"@,
            SpacecraftTextures::MissileWeaponComponent => "missile_weapon_component"@,
            SpacecraftTextures::RaptorEngineComponent => "raptor_engine_component"@,
            SpacecraftTextures::CentralComponent => "central_component"@,
        }
    }

    /// Every texture, in declaration order.
    pub open spec fn spec_all() -> Seq<SpacecraftTextures> {
        seq![
            SpacecraftTextures::White,
            SpacecraftTextures::BlockComponent,
            SpacecraftTextures::LaserWeaponComponent,
            SpacecraftTextures::MissileWeaponComponent,
            SpacecraftTextures::RaptorEngineComponent,
            SpacecraftTextures::CentralComponent,
        ]
    }

    /// The texture that shows a component of type `t`.
    pub open spec fn spec_of(t: ComponentType) -> SpacecraftTextures {
        match t {
            ComponentType::LaserWeapon => SpacecraftTextures::LaserWeaponComponent,
            ComponentType::Central => SpacecraftTextures::CentralComponent,
            ComponentType::MissileLauncher => SpacecraftTextures::MissileWeaponComponent,
            ComponentType::RaptorEngine => SpacecraftTextures::RaptorEngineComponent,
            ComponentType::SteelBlock => SpacecraftTextures::BlockComponent,
        }
    }

    /// The texture's name in snake case, as its image file is called.
    pub fn name(self) -> (s: &'static str)
        ensures
            s@ == self.spec_name(),
    {
        match self {
            SpacecraftTextures::White => "white",
            SpacecraftTextures::BlockComponent => "block_component",
            SpacecraftTextures::LaserWeaponComponent => "laser_weapon_component",
            SpacecraftTextures::MissileWeaponComponent => "missile_weapon_component",
            SpacecraftTextures::RaptorEngineComponent => "raptor_engine_component",
            SpacecraftTextures::CentralComponent => "central_component",
        }
    }

    /// Every texture, in declaration order: the texture at place `i` has
    /// index `i`.
    pub fn all() -> (v: Vec<SpacecraftTextures>)
        ensures
            v@ == SpacecraftTextures::spec_all(),
            forall|i: int| 0 <= i < v@.len() ==> (#[trigger] v@[i]).spec_index() == i,
    {
        let mut v: Vec<SpacecraftTextures> = Vec::new();
        v.push(SpacecraftTextures::White);
        v.push(SpacecraftTextures::BlockComponent);
        v.push(SpacecraftTextures::LaserWeaponComponent);
        v.push(SpacecraftTextures::MissileWeaponComponent);
        v.push(SpacecraftTextures::RaptorEngineComponent);
        v.push(SpacecraftTextures::CentralComponent);
        assert(v@ =~= SpacecraftTextures::spec_all());
        v
    }

    /// The texture that shows a component of type `t`.
    pub fn of(t: ComponentType) -> (texture: SpacecraftTextures)
        ensures
            texture == SpacecraftTextures::spec_of(t),
            texture != SpacecraftTextures::White,
    {
        match t {
            ComponentType::LaserWeapon => SpacecraftTextures::LaserWeaponComponent,
            ComponentType::Central => SpacecraftTextures::CentralComponent,
            ComponentType::MissileLauncher => SpacecraftTextures::MissileWeaponComponent,
            ComponentType::RaptorEngine => SpacecraftTextures::RaptorEngineComponent,
            ComponentType::SteelBlock => SpacecraftTextures::BlockComponent,
        }
    }
}

impl Default for SpacecraftTextures {
    /// The plain texture.
    fn default() -> (t: SpacecraftTextures)
        ensures
            t == SpacecraftTextures::White,
    {
        SpacecraftTextures::White
    }
}

impl From<SpacecraftTextures> for u32 {
    /// The texture's slot in the atlas.
    fn from(texture: SpacecraftTextures) -> (index: u32) {
        match texture {
            SpacecraftTextures::White => 0,
            SpacecraftTextures::BlockComponent => 1,
            SpacecraftTextures::LaserWeaponComponent => 2,
            SpacecraftTextures::MissileWeaponComponent => 3,
            SpacecraftTextures::RaptorEngineComponent => 4,
            SpacecraftTextures::CentralComponent => 5,
        }
    }
}

impl vstd::std_specs::convert::FromSpecImpl<SpacecraftTextures> for u32 {
    open spec fn obeys_from_spec() -> bool {
        true
    }

    open spec fn from_spec(texture: SpacecraftTextures) -> u32 {
        texture.spec_index()
    }
}

/// Different textures have different slots in the atlas.
pub proof fn lemma_texture_index_injective(a: SpacecraftTextures, b: SpacecraftTextures)
    requires
        a.spec_index() == b.spec_index(),
    ensures
        a == b,
{
}

} // verus!
