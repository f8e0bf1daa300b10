//! The component catalog: the closed set of component types and, for each,
//! its footprint, whether it is layered on top of a base block, and what it
//! costs in materials.

use vstd::prelude::*;

verus! {

/// A raw material that components are built from.
#[derive(Clone, Copy, Debug, PartialEq, Eq, Structural, Hash)]
pub enum Material {
    Iron,
    Nickel,
    Silicates,
    Copper,
    Carbon,
}

impl Material {
    /// The material's display name.
    pub open spec fn spec_name(self) -> Seq<char> {
        match self {
            Material::Iron => "Iron"@,
            Material::Nickel => "Nickel"@,
            Material::Silicates => "Silicates"@,
            Material::Copper => "Copper"@,
            Material::Carbon => "Carbon"@,
        }
    }

    /// The material's display name.
    pub fn name(self) -> (s: &'static str)
        ensures
            s@ == self.spec_name(),
    {
        match self {
            Material::Iron => "Iron",
            Material::Nickel => "Nickel",
            Material::Silicates => "Silicates",
            Material::Copper => "Copper",
            Material::Carbon => "Carbon",
        }
    }

    /// Every material, in catalog order.
    pub open spec fn spec_all() -> Seq<Material> {
        seq![
            Material::Iron,
            Material::Nickel,
            Material::Silicates,
            Material::Copper,
            Material::Carbon,
        ]
    }

    /// Every material, in catalog order.
    pub fn all() -> (v: Vec<Material>)
        ensures
            v@ == Material::spec_all(),
    {
        let mut v: Vec<Material> = Vec::new();
        v.push(Material::Iron);
        v.push(Material::Nickel);
        v.push(Material::Silicates);
        v.push(Material::Copper);
        v.push(Material::Carbon);
        assert(v@ =~= Material::spec_all());
        v
    }
}

/// A quantity of each material: the cost of one component, or the total
/// over a whole layout.
#[derive(Clone, Copy, Debug, PartialEq, Eq, Structural)]
pub struct MaterialCost {
    pub iron: u128,
    pub nickel: u128,
    pub silicates: u128,
    pub copper: u128,
    pub carbon: u128,
}

impl View for MaterialCost {
    type V = Map<Material, nat>;

    /// The cost as a total map from material to quantity.
    open spec fn view(&self) -> Map<Material, nat> {
        Map::total(|m: Material| self.spec_get(m))
    }
}

impl MaterialCost {
    /// The quantity of material `m`.
    pub open spec fn spec_get(self, m: Material) -> nat {
        match m {
            Material::Iron => self.iron as nat,
            Material::Nickel => self.nickel as nat,
            Material::Silicates => self.silicates as nat,
            Material::Copper => self.copper as nat,
            Material::Carbon => self.carbon as nat,
        }
    }

    /// The cost of nothing.
    pub fn zero() -> (c: MaterialCost)
        ensures
            forall|m: Material| c.spec_get(m) == 0,
    {
        MaterialCost { iron: 0, nickel: 0, silicates: 0, copper: 0, carbon: 0 }
    }

    /// The quantity of material `m`.
    pub fn get(&self, m: Material) -> (q: u128)
        ensures
            q == self.spec_get(m),
            q == self@[m],
    {
        match m {
            Material::Iron => self.iron,
            Material::Nickel => self.nickel,
            Material::Silicates => self.silicates,
            Material::Copper => self.copper,
            Material::Carbon => self.carbon,
        }
    }

    /// The material-wise sum of two costs.
    pub fn plus(&self, other: &MaterialCost) -> (c: MaterialCost)
        requires
            forall|m: Material| self.spec_get(m) + other.spec_get(m) <= u128::MAX,
        ensures
            forall|m: Material| c.spec_get(m) == self.spec_get(m) + other.spec_get(m),
    {
        assert(self.spec_get(Material::Iron) + other.spec_get(Material::Iron) <= u128::MAX);
        assert(self.spec_get(Material::Nickel) + other.spec_get(Material::Nickel) <= u128::MAX);
        assert(self.spec_get(Material::Silicates) + other.spec_get(Material::Silicates)
            <= u128::MAX);
        assert(self.spec_get(Material::Copper) + other.spec_get(Material::Copper) <= u128::MAX);
        assert(self.spec_get(Material::Carbon) + other.spec_get(Material::Carbon) <= u128::MAX);
        MaterialCost {
            iron: self.iron + other.iron,
            nickel: self.nickel + other.nickel,
            silicates: self.silicates + other.silicates,
            copper: self.copper + other.copper,
            carbon: self.carbon + other.carbon,
        }
    }

    /// The quantities paired with their materials, in catalog order.
    pub fn entries(&self) -> (v: Vec<(Material, u128)>)
        ensures
            v@.len() == Material::spec_all().len(),
            forall|i: int|
                0 <= i < v@.len() ==> (#[trigger] v@[i]).0 == Material::spec_all()[i]
                    && v@[i].1 == self.spec_get(v@[i].0),
    {
        let mut v: Vec<(Material, u128)> = Vec::new();
        v.push((Material::Iron, self.iron));
        v.push((Material::Nickel, self.nickel));
        v.push((Material::Silicates, self.silicates));
        v.push((Material::Copper, self.copper));
        v.push((Material::Carbon, self.carbon));
        v
    }
}

/// The width and height of a component, in grid cells.
#[derive(Clone, Copy, Debug, PartialEq, Eq, Structural)]
pub struct Footprint {
    pub width: u32,
    pub height: u32,
}

/// The kinds of component a spacecraft is assembled from. `Central` is the
/// anchor that every valid layout holds exactly once.
#[derive(Clone, Copy, Debug, PartialEq, Eq, Structural, Hash)]
pub enum ComponentType {
    SteelBlock,
    Central,
    LaserWeapon,
    MissileLauncher,
    RaptorEngine,
}

/// No component costs more than this of any one material.
pub const MAX_UNIT_COST: u128 = 1000;

impl ComponentType {
    /// The catalog's tag name of the type.
    pub open spec fn spec_name(self) -> Seq<char> {
        match self {
            ComponentType::SteelBlock => "SteelBlock"@,
            ComponentType::Central => "Central"@,
            ComponentType::LaserWeapon => "LaserWeapon"@,
            ComponentType::MissileLauncher => "MissileLauncher"@,
            ComponentType::RaptorEngine => "RaptorEngine"@,
        }
    }

    /// The catalog's footprint of the type.
    pub open spec fn spec_footprint(self) -> Footprint {
        match self {
            ComponentType::SteelBlock => Footprint { width: 1, height: 1 },
            ComponentType::Central => Footprint { width: 1, height: 1 },
            ComponentType::LaserWeapon => Footprint { width: 1, height: 1 },
            ComponentType::MissileLauncher => Footprint { width: 1, height: 1 },
            ComponentType::RaptorEngine => Footprint { width: 1, height: 2 },
        }
    }

    /// Whether the type sits on top of a base block.
    pub open spec fn spec_layered(self) -> bool {
        self == ComponentType::LaserWeapon || self == ComponentType::MissileLauncher
    }

    /// The catalog's material cost of one component of the type.
    pub open spec fn spec_material_cost(self) -> MaterialCost {
        match self {
            ComponentType::SteelBlock => MaterialCost {
                iron: 10,
                nickel: 0,
                silicates: 0,
                copper: 0,
                carbon: 2,
            },
            ComponentType::Central => MaterialCost {
                iron: 40,
                nickel: 10,
                silicates: 25,
                copper: 30,
                carbon: 0,
            },
            ComponentType::LaserWeapon => MaterialCost {
                iron: 5,
                nickel: 0,
                silicates: 30,
                copper: 15,
                carbon: 0,
            },
            ComponentType::MissileLauncher => MaterialCost {
                iron: 20,
                nickel: 15,
                silicates: 0,
                copper: 5,
                carbon: 10,
            },
            ComponentType::RaptorEngine => MaterialCost {
                iron: 15,
                nickel: 20,
                silicates: 0,
                copper: 10,
                carbon: 5,
            },
        }
    }

    /// What one component of the type costs in material `m`.
    pub open spec fn unit_cost(self, m: Material) -> nat {
        self.spec_material_cost().spec_get(m)
    }

    /// The catalog's tag name of the type.
    pub fn name(self) -> (s: &'static str)
        ensures
            s@ == self.spec_name(),
    {
        match self {
            ComponentType::SteelBlock => "SteelBlock",
            ComponentType::Central => "Central",
            ComponentType::LaserWeapon => "LaserWeapon",
            ComponentType::MissileLauncher => "MissileLauncher",
            ComponentType::RaptorEngine => "RaptorEngine",
        }
    }

    /// The width and height of the type in grid cells, both positive.
    pub fn footprint(self) -> (f: Footprint)
        ensures
            f == self.spec_footprint(),
            f.width >= 1,
            f.height >= 1,
    {
        match self {
            ComponentType::SteelBlock => Footprint { width: 1, height: 1 },
            ComponentType::Central => Footprint { width: 1, height: 1 },
            ComponentType::LaserWeapon => Footprint { width: 1, height: 1 },
            ComponentType::MissileLauncher => Footprint { width: 1, height: 1 },
            ComponentType::RaptorEngine => Footprint { width: 1, height: 2 },
        }
    }

    /// Whether the type sits on top of a base block rather than in a bare
    /// cell of its own.
    pub fn layered(self) -> (b: bool)
        ensures
            b == self.spec_layered(),
    {
        match self {
            ComponentType::LaserWeapon => true,
            ComponentType::MissileLauncher => true,
            _ => false,
        }
    }

    /// Whether the type is the anchor of a layout.
    pub fn is_central(self) -> (b: bool)
        ensures
            b == (self == ComponentType::Central),
    {
        match self {
            ComponentType::Central => true,
            _ => false,
        }
    }

    /// What one component of the type costs, material by material.
    pub fn material_cost(self) -> (c: MaterialCost)
        ensures
            c == self.spec_material_cost(),
            forall|m: Material| c.spec_get(m) == self.unit_cost(m),
    {
        match self {
            ComponentType::SteelBlock => MaterialCost {
                iron: 10,
                nickel: 0,
                silicates: 0,
                copper: 0,
                carbon: 2,
            },
            ComponentType::Central => MaterialCost {
                iron: 40,
                nickel: 10,
                silicates: 25,
                copper: 30,
                carbon: 0,
            },
            ComponentType::LaserWeapon => MaterialCost {
                iron: 5,
                nickel: 0,
                silicates: 30,
                copper: 15,
                carbon: 0,
            },
            ComponentType::MissileLauncher => MaterialCost {
                iron: 20,
                nickel: 15,
                silicates: 0,
                copper: 5,
                carbon: 10,
            },
            ComponentType::RaptorEngine => MaterialCost {
                iron: 15,
                nickel: 20,
                silicates: 0,
                copper: 10,
                carbon: 5,
            },
        }
    }
}

/// Every catalog entry stays within `MAX_UNIT_COST` for every material.
pub proof fn lemma_unit_cost_bounded(t: ComponentType, m: Material)
    ensures
        t.unit_cost(m) <= MAX_UNIT_COST,
{
}

} // verus!
