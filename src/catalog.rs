//! The registry: every material of the catalog, in declaration order, with
//! its data.

use vstd::prelude::*;
use crate::quantity::Span;
use crate::lang::{SLang, Names};
use crate::class::{SubgroupIgneous, SubgroupSedimentary, GroupMetal, RockClass};
use crate::material::{ElementInfo, Component, MaterialRecord};

verus! {

/// Number of materials in the catalog.
pub const COUNT_MATERIALS: u32 = 15;

/// Identity of a material of the catalog.
#[derive(Clone, Copy, Debug, PartialEq, Eq, Structural)]
pub enum MaterialId {
    Basalt,
    Granite,
    Obsidian,
    BrownCoal,
    Eclogite,
    Hydrogen,
    Gold,
    Iron,
    Aluminium,
    Copper,
    Zinc,
    Magnesium,
    Manganese,
    Brass,
    Dural,
}

/// Every material of the catalog, in declaration order.
pub open spec fn all_ids() -> Seq<MaterialId> {
    seq![
        MaterialId::Basalt,
        MaterialId::Granite,
        MaterialId::Obsidian,
        MaterialId::BrownCoal,
        MaterialId::Eclogite,
        MaterialId::Hydrogen,
        MaterialId::Gold,
        MaterialId::Iron,
        MaterialId::Aluminium,
        MaterialId::Copper,
        MaterialId::Zinc,
        MaterialId::Magnesium,
        MaterialId::Manganese,
        MaterialId::Brass,
        MaterialId::Dural,
    ]
}

impl MaterialId {
    /// Whether the material is a rock.
    pub open spec fn is_rock(self) -> bool {
        self.spec_rock() is Some
    }

    /// Whether the material is a chemical element.
    pub open spec fn is_element(self) -> bool {
        self.spec_element() is Some
    }

    /// Whether the material is an alloy.
    pub open spec fn is_alloy(self) -> bool {
        self.spec_composition() is Some
    }

    /// The name in `lang`.
    pub open spec fn spec_name(self, lang: SLang) -> Seq<char> {
        match lang {
            SLang::RU => self.spec_name_ru(),
            SLang::EN => self.spec_name_en(),
        }
    }

    /// The Russian name.
    pub open spec fn spec_name_ru(self) -> Seq<char> {
        match self {
            MaterialId::Basalt => "Базальт"@,
            MaterialId::Granite => "Гранит"@,
            MaterialId::Obsidian => "Обсидиан"@,
            MaterialId::BrownCoal => "Бурый уголь"@,
            MaterialId::Eclogite => "Эклогит"@,
            MaterialId::Hydrogen => "Водород"@,
            MaterialId::Gold => "Золото"@,
            MaterialId::Iron => "Железо"@,
            MaterialId::Aluminium => "Алюминий"@,
            MaterialId::Copper => "Медь"@,
            MaterialId::Zinc => "Цинк"@,
            MaterialId::Magnesium => "Магний"@,
            MaterialId::Manganese => "Марганец"@,
            MaterialId::Brass => "Латунь"@,
            MaterialId::Dural => "Дюраль"@,
        }
    }

    /// The English name.
    pub open spec fn spec_name_en(self) -> Seq<char> {
        match self {
            MaterialId::Basalt => "Basalt"@,
            MaterialId::Granite => "Granite"@,
            MaterialId::Obsidian => "Obsidian"@,
            MaterialId::BrownCoal => "Brown Coal"@,
            MaterialId::Eclogite => "Eclogite"@,
            MaterialId::Hydrogen => "Hydrogen"@,
            MaterialId::Gold => "Gold"@,
            MaterialId::Iron => "Iron"@,
            MaterialId::Aluminium => "Aluminium"@,
            MaterialId::Copper => "Copper"@,
            MaterialId::Zinc => "Zinc"@,
            MaterialId::Magnesium => "Magnesium"@,
            MaterialId::Manganese => "Manganese"@,
            MaterialId::Brass => "Brass"@,
            MaterialId::Dural => "Dural"@,
        }
    }

    /// The declared density range, g/cm³.
    pub open spec fn spec_density(self) -> Option<Span> {
        match self {
            MaterialId::Basalt => Some(Span { min: 2_6000000, max: 3_1000000 }),
            MaterialId::Granite => Some(Span { min: 2_6000000, max: 3_0000000 }),
            MaterialId::Obsidian => Some(Span { min: 2_5000000, max: 2_6000000 }),
            MaterialId::BrownCoal => Some(Span { min: 1_2000000, max: 1_5000000 }),
            MaterialId::Eclogite => Some(Span { min: 3_3000000, max: 3_7000000 }),
            MaterialId::Hydrogen => Some(Span { min: 0_0000899, max: 0_0000899 }),
            MaterialId::Gold => Some(Span { min: 19_3000000, max: 19_3200000 }),
            MaterialId::Iron => Some(Span { min: 7_8740000, max: 7_8740000 }),
            MaterialId::Aluminium => Some(Span { min: 2_6989000, max: 2_6989000 }),
            MaterialId::Copper => Some(Span { min: 8_9200000, max: 8_9200000 }),
            MaterialId::Zinc => Some(Span { min: 7_1300000, max: 7_1300000 }),
            MaterialId::Magnesium => Some(Span { min: 1_7380000, max: 1_7380000 }),
            MaterialId::Manganese => Some(Span { min: 7_2100000, max: 7_2100000 }),
            MaterialId::Brass => Some(Span { min: 8_5000000, max: 8_7000000 }),
            MaterialId::Dural => Some(Span { min: 2_7900000, max: 2_7700000 }),
        }
    }

    /// The declared melting range, °C.
    pub open spec fn spec_melting(self) -> Option<Span> {
        match self {
            MaterialId::Basalt => Some(Span { min: 1100_0000000, max: 1250_0000000 }),
            MaterialId::Granite => Some(Span { min: 1215_0000000, max: 1260_0000000 }),
            MaterialId::Obsidian => Some(Span { min: 1200_0000000, max: 1500_0000000 }),
            MaterialId::BrownCoal => None,
            MaterialId::Eclogite => None,
            MaterialId::Hydrogen => None,
            MaterialId::Gold => Some(Span { min: 1064_1800000, max: 1064_1800000 }),
            MaterialId::Iron => Some(Span { min: 1538_8500000, max: 1538_8500000 }),
            MaterialId::Aluminium => Some(Span { min: 933_5000000, max: 933_5000000 }),
            MaterialId::Copper => Some(Span { min: 1083_4000000, max: 1083_4000000 }),
            MaterialId::Zinc => Some(Span { min: 419_5500000, max: 419_5500000 }),
            MaterialId::Magnesium => Some(Span { min: 650_0000000, max: 650_0000000 }),
            MaterialId::Manganese => Some(Span { min: 1243_0000000, max: 1243_0000000 }),
            MaterialId::Brass => Some(Span { min: 900_0000000, max: 950_0000000 }),
            MaterialId::Dural => Some(Span { min: 515_0000000, max: 640_0000000 }),
        }
    }

    /// The declared ignition range, °C.
    pub open spec fn spec_ignition(self) -> Option<Span> {
        match self {
            MaterialId::Basalt => None,
            MaterialId::Granite => None,
            MaterialId::Obsidian => None,
            MaterialId::BrownCoal => Some(Span { min: 250_0000000, max: 250_0000000 }),
            MaterialId::Eclogite => None,
            MaterialId::Hydrogen => Some(Span { min: 510_0000000, max: 590_0000000 }),
            MaterialId::Gold => None,
            MaterialId::Iron => None,
            MaterialId::Aluminium => None,
            MaterialId::Copper => None,
            MaterialId::Zinc => None,
            MaterialId::Magnesium => None,
            MaterialId::Manganese => None,
            MaterialId::Brass => None,
            MaterialId::Dural => None,
        }
    }

    /// The declared burning range, °C.
    pub open spec fn spec_burning(self) -> Option<Span> {
        match self {
            MaterialId::Basalt => None,
            MaterialId::Granite => None,
            MaterialId::Obsidian => None,
            MaterialId::BrownCoal => Some(Span { min: 1900_0000000, max: 1900_0000000 }),
            MaterialId::Eclogite => None,
            MaterialId::Hydrogen => Some(Span { min: 2600_0000000, max: 2900_0000000 }),
            MaterialId::Gold => None,
            MaterialId::Iron => None,
            MaterialId::Aluminium => None,
            MaterialId::Copper => None,
            MaterialId::Zinc => None,
            MaterialId::Magnesium => None,
            MaterialId::Manganese => None,
            MaterialId::Brass => None,
            MaterialId::Dural => None,
        }
    }

    /// The declared heat value range, MJ/kg.
    pub open spec fn spec_heat_value(self) -> Option<Span> {
        match self {
            MaterialId::Basalt => None,
            MaterialId::Granite => None,
            MaterialId::Obsidian => None,
            MaterialId::BrownCoal => Some(Span { min: 14_0000000, max: 16_0000000 }),
            MaterialId::Eclogite => None,
            MaterialId::Hydrogen => Some(Span { min: 141_8650000, max: 141_8650000 }),
            MaterialId::Gold => None,
            MaterialId::Iron => None,
            MaterialId::Aluminium => None,
            MaterialId::Copper => None,
            MaterialId::Zinc => None,
            MaterialId::Magnesium => None,
            MaterialId::Manganese => None,
            MaterialId::Brass => None,
            MaterialId::Dural => None,
        }
    }

    /// The rock classification.
    pub open spec fn spec_rock(self) -> Option<RockClass> {
        match self {
            MaterialId::Basalt => Some(RockClass::Igneous(SubgroupIgneous::Extrusive)),
            MaterialId::Granite => Some(RockClass::Igneous(SubgroupIgneous::Intrusive)),
            MaterialId::Obsidian => Some(RockClass::Igneous(SubgroupIgneous::Extrusive)),
            MaterialId::BrownCoal => Some(RockClass::Sedimentary(SubgroupSedimentary::Biogenic)),
            MaterialId::Eclogite => Some(RockClass::Metamorphic),
            MaterialId::Hydrogen => None,
            MaterialId::Gold => None,
            MaterialId::Iron => None,
            MaterialId::Aluminium => None,
            MaterialId::Copper => None,
            MaterialId::Zinc => None,
            MaterialId::Magnesium => None,
            MaterialId::Manganese => None,
            MaterialId::Brass => None,
            MaterialId::Dural => None,
        }
    }

    /// The atomic number and symbol of an element.
    pub open spec fn spec_element(self) -> Option<(u8, Seq<char>)> {
        match self {
            MaterialId::Basalt => None,
            MaterialId::Granite => None,
            MaterialId::Obsidian => None,
            MaterialId::BrownCoal => None,
            MaterialId::Eclogite => None,
            MaterialId::Hydrogen => Some((1, seq!['H'])),
            MaterialId::Gold => Some((79, seq!['A', 'u'])),
            MaterialId::Iron => Some((26, seq!['F', 'e'])),
            MaterialId::Aluminium => Some((13, seq!['A', 'l'])),
            MaterialId::Copper => Some((29, seq!['C', 'u'])),
            MaterialId::Zinc => Some((30, seq!['Z', 'n'])),
            MaterialId::Magnesium => Some((12, seq!['M', 'g'])),
            MaterialId::Manganese => Some((25, seq!['M', 'n'])),
            MaterialId::Brass => None,
            MaterialId::Dural => None,
        }
    }

    /// The metal family.
    pub open spec fn spec_metal(self) -> Option<GroupMetal> {
        match self {
            MaterialId::Basalt => None,
            MaterialId::Granite => None,
            MaterialId::Obsidian => None,
            MaterialId::BrownCoal => None,
            MaterialId::Eclogite => None,
            MaterialId::Hydrogen => None,
            MaterialId::Gold => Some(GroupMetal::Transition),
            MaterialId::Iron => Some(GroupMetal::Transition),
            MaterialId::Aluminium => Some(GroupMetal::PostTransition),
            MaterialId::Copper => Some(GroupMetal::Transition),
            MaterialId::Zinc => Some(GroupMetal::Transition),
            MaterialId::Magnesium => Some(GroupMetal::AlkalineEarth),
            MaterialId::Manganese => Some(GroupMetal::Transition),
            MaterialId::Brass => None,
            MaterialId::Dural => None,
        }
    }

    /// The composition of an alloy, in declared order.
    pub open spec fn spec_composition(self) -> Option<Seq<Component>> {
        match self {
            MaterialId::Basalt => None,
            MaterialId::Granite => None,
            MaterialId::Obsidian => None,
            MaterialId::BrownCoal => None,
            MaterialId::Eclogite => None,
            MaterialId::Hydrogen => None,
            MaterialId::Gold => None,
            MaterialId::Iron => None,
            MaterialId::Aluminium => None,
            MaterialId::Copper => None,
            MaterialId::Zinc => None,
            MaterialId::Magnesium => None,
            MaterialId::Manganese => None,
            MaterialId::Brass => Some(seq![
                Component { element: MaterialId::Copper, percent: Span { min: 50_0000000, max: 90_0000000 } },
                Component { element: MaterialId::Zinc, percent: Span { min: 10_0000000, max: 50_0000000 } },
            ]),
            MaterialId::Dural => Some(seq![
                Component { element: MaterialId::Aluminium, percent: Span { min: 91_0000000, max: 95_0000000 } },
                Component { element: MaterialId::Copper, percent: Span { min: 3_8000000, max: 4_9000000 } },
                Component { element: MaterialId::Magnesium, percent: Span { min: 1_2000000, max: 1_8000000 } },
                Component { element: MaterialId::Manganese, percent: Span { min: 0_3000000, max: 0_9000000 } },
            ]),
        }
    }

    /// Whether `r` holds exactly the data of this material: its names, its
    /// declared ranges, its classification, its element data, its metal
    /// family and its composition, each present exactly where declared.
    pub open spec fn is_record(self, r: MaterialRecord) -> bool {
        &&& r.names.ru@ == self.spec_name_ru()
        &&& r.names.en@ == self.spec_name_en()
        &&& r.density == self.spec_density()
        &&& r.melting == self.spec_melting()
        &&& r.ignition == self.spec_ignition()
        &&& r.burning == self.spec_burning()
        &&& r.heat_value == self.spec_heat_value()
        &&& r.rock == self.spec_rock()
        &&& r.metal == self.spec_metal()
        &&& match self.spec_element() {
            Some((number, symbol)) => r.element matches Some(e) && e.number == number
                && e.symbol@ == symbol,
            None => r.element is None,
        }
        &&& match self.spec_composition() {
            Some(parts) => r.composition matches Some(v) && v@ == parts,
            None => r.composition is None,
        }
    }

    /// The record of this material.
    pub fn record(self) -> (r: MaterialRecord)
        ensures
            self.is_record(r),
    {
        let r = match self {
            MaterialId::Basalt => MaterialRecord::named(Names::new("Базальт", "Basalt"))
                .with_rock(RockClass::Igneous(SubgroupIgneous::Extrusive))
                .with_density(Span::new(2_6000000, 3_1000000))
                .with_melting(Span::new(1100_0000000, 1250_0000000)),
            MaterialId::Granite => MaterialRecord::named(Names::new("Гранит", "Granite"))
                .with_rock(RockClass::Igneous(SubgroupIgneous::Intrusive))
                .with_density(Span::new(2_6000000, 3_0000000))
                .with_melting(Span::new(1215_0000000, 1260_0000000)),
            MaterialId::Obsidian => MaterialRecord::named(Names::new("Обсидиан", "Obsidian"))
                .with_rock(RockClass::Igneous(SubgroupIgneous::Extrusive))
                .with_density(Span::new(2_5000000, 2_6000000))
                .with_melting(Span::new(1200_0000000, 1500_0000000)),
            MaterialId::BrownCoal => MaterialRecord::named(Names::new("Бурый уголь", "Brown Coal"))
                .with_rock(RockClass::Sedimentary(SubgroupSedimentary::Biogenic))
                .with_density(Span::new(1_2000000, 1_5000000))
                .with_ignition(Span::new(250_0000000, 250_0000000))
                .with_burning(Span::new(1900_0000000, 1900_0000000))
                .with_heat_value(Span::new(14_0000000, 16_0000000)),
            MaterialId::Eclogite => MaterialRecord::named(Names::new("Эклогит", "Eclogite"))
                .with_rock(RockClass::Metamorphic)
                .with_density(Span::new(3_3000000, 3_7000000)),
            MaterialId::Hydrogen => MaterialRecord::named(Names::new("Водород", "Hydrogen"))
                .with_element(ElementInfo { number: 1, symbol: "H" })
                .with_density(Span::new(0_0000899, 0_0000899))
                .with_ignition(Span::new(510_0000000, 590_0000000))
                .with_burning(Span::new(2600_0000000, 2900_0000000))
                .with_heat_value(Span::new(141_8650000, 141_8650000)),
            MaterialId::Gold => MaterialRecord::named(Names::new("Золото", "Gold"))
                .with_element(ElementInfo { number: 79, symbol: "Au" })
                .with_density(Span::new(19_3000000, 19_3200000))
                .with_melting(Span::new(1064_1800000, 1064_1800000))
                .with_metal(GroupMetal::Transition),
            MaterialId::Iron => MaterialRecord::named(Names::new("Железо", "Iron"))
                .with_element(ElementInfo { number: 26, symbol: "Fe" })
                .with_density(Span::new(7_8740000, 7_8740000))
                .with_melting(Span::new(1538_8500000, 1538_8500000))
                .with_metal(GroupMetal::Transition),
            MaterialId::Aluminium => MaterialRecord::named(Names::new("Алюминий", "Aluminium"))
                .with_element(ElementInfo { number: 13, symbol: "Al" })
                .with_density(Span::new(2_6989000, 2_6989000))
                .with_melting(Span::new(933_5000000, 933_5000000))
                .with_metal(GroupMetal::PostTransition),
            MaterialId::Copper => MaterialRecord::named(Names::new("Медь", "Copper"))
                .with_element(ElementInfo { number: 29, symbol: "Cu" })
                .with_density(Span::new(8_9200000, 8_9200000))
                .with_melting(Span::new(1083_4000000, 1083_4000000))
                .with_metal(GroupMetal::Transition),
            MaterialId::Zinc => MaterialRecord::named(Names::new("Цинк", "Zinc"))
                .with_element(ElementInfo { number: 30, symbol: "Zn" })
                .with_density(Span::new(7_1300000, 7_1300000))
                .with_melting(Span::new(419_5500000, 419_5500000))
                .with_metal(GroupMetal::Transition),
            MaterialId::Magnesium => MaterialRecord::named(Names::new("Магний", "Magnesium"))
                .with_element(ElementInfo { number: 12, symbol: "Mg" })
                .with_density(Span::new(1_7380000, 1_7380000))
                .with_melting(Span::new(650_0000000, 650_0000000))
                .with_metal(GroupMetal::AlkalineEarth),
            MaterialId::Manganese => MaterialRecord::named(Names::new("Марганец", "Manganese"))
                .with_element(ElementInfo { number: 25, symbol: "Mn" })
                .with_density(Span::new(7_2100000, 7_2100000))
                .with_melting(Span::new(1243_0000000, 1243_0000000))
                .with_metal(GroupMetal::Transition),
            MaterialId::Brass => MaterialRecord::named(Names::new("Латунь", "Brass"))
                .with_density(Span::new(8_5000000, 8_7000000))
                .with_melting(Span::new(900_0000000, 950_0000000))
                .with_composition(vec![
                    Component { element: MaterialId::Copper, percent: Span::new(50_0000000, 90_0000000) },
                    Component { element: MaterialId::Zinc, percent: Span::new(10_0000000, 50_0000000) },
                ]),
            MaterialId::Dural => MaterialRecord::named(Names::new("Дюраль", "Dural"))
                .with_density(Span::new(2_7900000, 2_7700000))
                .with_melting(Span::new(515_0000000, 640_0000000))
                .with_composition(vec![
                    Component { element: MaterialId::Aluminium, percent: Span::new(91_0000000, 95_0000000) },
                    Component { element: MaterialId::Copper, percent: Span::new(3_8000000, 4_9000000) },
                    Component { element: MaterialId::Magnesium, percent: Span::new(1_2000000, 1_8000000) },
                    Component { element: MaterialId::Manganese, percent: Span::new(0_3000000, 0_9000000) },
                ]),
        };
        proof {
            reveal_strlit("H");
            reveal_strlit("Au");
            reveal_strlit("Fe");
            reveal_strlit("Al");
            reveal_strlit("Cu");
            reveal_strlit("Zn");
            reveal_strlit("Mg");
            reveal_strlit("Mn");
            assert(self.is_record(r)) by {
                if let Some(parts) = self.spec_composition() {
                    assert(r.composition->0@ =~= parts);
                }
                if let Some((_, symbol)) = self.spec_element() {
                    assert(r.element->0.symbol@ =~= symbol);
                }
            }
        }
        r
    }
}

/// Every material of the catalog is named in every supported language and
/// has a density; only elements are metals; an alloy's components are
/// elements of the catalog; an element's symbol has one or two characters.
pub proof fn law_catalog_shape(id: MaterialId)
    ensures
        forall|lang: SLang| #[trigger] id.spec_name(lang).len() > 0,
        id.spec_density() is Some,
        id.spec_metal() is Some ==> id.is_element(),
        id.spec_composition() matches Some(parts) ==> forall|i: int|
            0 <= i < parts.len() ==> (#[trigger] parts[i]).element.is_element(),
        id.spec_element() matches Some((_, symbol)) ==> 1 <= symbol.len() <= 2,
{
    match id {
        MaterialId::Basalt => {
            reveal_strlit("Базальт");
            reveal_strlit("Basalt");
        },
        MaterialId::Granite => {
            reveal_strlit("Гранит");
            reveal_strlit("Granite");
        },
        MaterialId::Obsidian => {
            reveal_strlit("Обсидиан");
            reveal_strlit("Obsidian");
        },
        MaterialId::BrownCoal => {
            reveal_strlit("Бурый уголь");
            reveal_strlit("Brown Coal");
        },
        MaterialId::Eclogite => {
            reveal_strlit("Эклогит");
            reveal_strlit("Eclogite");
        },
        MaterialId::Hydrogen => {
            reveal_strlit("Водород");
            reveal_strlit("Hydrogen");
        },
        MaterialId::Gold => {
            reveal_strlit("Золото");
            reveal_strlit("Gold");
        },
        MaterialId::Iron => {
            reveal_strlit("Железо");
            reveal_strlit("Iron");
        },
        MaterialId::Aluminium => {
            reveal_strlit("Алюминий");
            reveal_strlit("Aluminium");
        },
        MaterialId::Copper => {
            reveal_strlit("Медь");
            reveal_strlit("Copper");
        },
        MaterialId::Zinc => {
            reveal_strlit("Цинк");
            reveal_strlit("Zinc");
        },
        MaterialId::Magnesium => {
            reveal_strlit("Магний");
            reveal_strlit("Magnesium");
        },
        MaterialId::Manganese => {
            reveal_strlit("Марганец");
            reveal_strlit("Manganese");
        },
        MaterialId::Brass => {
            reveal_strlit("Латунь");
            reveal_strlit("Brass");
        },
        MaterialId::Dural => {
            reveal_strlit("Дюраль");
            reveal_strlit("Dural");
        },
    }
}

/// Every material of the catalog, in declaration order. The same sequence
/// on every call.
pub fn list_all() -> (r: Vec<MaterialId>)
    ensures
        r@ == all_ids(),
        r@.len() == COUNT_MATERIALS,
        r@.no_duplicates(),
{
    vec![
        MaterialId::Basalt,
        MaterialId::Granite,
        MaterialId::Obsidian,
        MaterialId::BrownCoal,
        MaterialId::Eclogite,
        MaterialId::Hydrogen,
        MaterialId::Gold,
        MaterialId::Iron,
        MaterialId::Aluminium,
        MaterialId::Copper,
        MaterialId::Zinc,
        MaterialId::Magnesium,
        MaterialId::Manganese,
        MaterialId::Brass,
        MaterialId::Dural,
    ]
}

/// The records of every material of the catalog, in declaration order.
pub fn all_materials() -> (r: Vec<MaterialRecord>)
    ensures
        r@.len() == all_ids().len(),
        forall|i: int| 0 <= i < r@.len() ==> all_ids()[i].is_record(#[trigger] r@[i]),
{
    let ids = list_all();
    let mut out: Vec<MaterialRecord> = Vec::new();
    let mut i: usize = 0;
    while i < ids.len()
        invariant
            ids@ == all_ids(),
            i <= ids@.len(),
            out@.len() == i,
            forall|j: int| 0 <= j < i ==> all_ids()[j].is_record(#[trigger] out@[j]),
        decreases ids@.len() - i,
    {
        out.push(ids[i].record());
        i = i + 1;
    }
    out
}

} // verus!
