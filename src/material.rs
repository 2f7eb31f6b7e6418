//! The material record and the capability traits over it.
//!
//! A material has a name in each supported language and any subset of the
//! capabilities: the record holds one optional field per capability. Each
//! accessor of a capability requires that the capability is present; callers
//! ask `supports` first.

use vstd::prelude::*;
use crate::quantity::{
    Span, Celsius, Kelvin, Gcm3, KGm3, KkalKg, MjKg, kelvin_of, kgm3_of, heat_converted,
    celsius_to_kelvin, gcm3_to_kgm3, convert_heat_value,
};
use crate::lang::{SLang, Names, translated_count};
use crate::class::{GroupRock, SubgroupIgneous, SubgroupSedimentary, GroupMetal, RockClass};
use crate::catalog::MaterialId;

verus! {

/// A capability that a material may have.
#[derive(Clone, Copy, Debug, PartialEq, Eq, Structural)]
pub enum Capability {
    Density,
    Melting,
    Ignition,
    Burning,
    HeatValue,
    Rock,
    Element,
    Metal,
    Alloy,
}

/// Data of a chemical element: its atomic number and symbol.
#[derive(Clone, Copy, Debug)]
pub struct ElementInfo {
    pub number: u8,
    pub symbol: &'static str,
}

/// One entry of an alloy's composition: an element of the catalog and its
/// declared share, in percent (a span in ten-millionths of a percent).
#[derive(Clone, Copy, Debug, PartialEq, Eq, Structural)]
pub struct Component {
    pub element: MaterialId,
    pub percent: Span,
}

/// A material: its names and its capabilities, each present or absent.
#[derive(Clone, Debug)]
pub struct MaterialRecord {
    pub names: Names,
    /// Density, g/cm³.
    pub density: Option<Span>,
    /// Melting point, °C.
    pub melting: Option<Span>,
    /// Ignition temperature, °C.
    pub ignition: Option<Span>,
    /// Burning temperature, °C.
    pub burning: Option<Span>,
    /// Heat value, MJ/kg.
    pub heat_value: Option<Span>,
    pub rock: Option<RockClass>,
    pub element: Option<ElementInfo>,
    pub metal: Option<GroupMetal>,
    /// Chemical composition of an alloy, in declared order.
    pub composition: Option<Vec<Component>>,
}

impl MaterialRecord {
    /// Whether the material has capability `c`.
    pub open spec fn has(&self, c: Capability) -> bool {
        match c {
            Capability::Density => self.density is Some,
            Capability::Melting => self.melting is Some,
            Capability::Ignition => self.ignition is Some,
            Capability::Burning => self.burning is Some,
            Capability::HeatValue => self.heat_value is Some,
            Capability::Rock => self.rock is Some,
            Capability::Element => self.element is Some,
            Capability::Metal => self.metal is Some,
            Capability::Alloy => self.composition is Some,
        }
    }

    /// A material with the given names and no capability.
    pub fn named(names: Names) -> (r: MaterialRecord)
        ensures
            r == (MaterialRecord {
                names,
                density: None,
                melting: None,
                ignition: None,
                burning: None,
                heat_value: None,
                rock: None,
                element: None,
                metal: None,
                composition: None,
            }),
    {
        MaterialRecord {
            names,
            density: None,
            melting: None,
            ignition: None,
            burning: None,
            heat_value: None,
            rock: None,
            element: None,
            metal: None,
            composition: None,
        }
    }

    /// The same material with a density range, g/cm³.
    pub fn with_density(self, v: Span) -> (r: MaterialRecord)
        ensures
            r == (MaterialRecord { density: Some(v), ..self }),
    {
        MaterialRecord { density: Some(v), ..self }
    }

    /// The same material with a melting range, °C.
    pub fn with_melting(self, v: Span) -> (r: MaterialRecord)
        ensures
            r == (MaterialRecord { melting: Some(v), ..self }),
    {
        MaterialRecord { melting: Some(v), ..self }
    }

    /// The same material with an ignition range, °C.
    pub fn with_ignition(self, v: Span) -> (r: MaterialRecord)
        ensures
            r == (MaterialRecord { ignition: Some(v), ..self }),
    {
        MaterialRecord { ignition: Some(v), ..self }
    }

    /// The same material with a burning range, °C.
    pub fn with_burning(self, v: Span) -> (r: MaterialRecord)
        ensures
            r == (MaterialRecord { burning: Some(v), ..self }),
    {
        MaterialRecord { burning: Some(v), ..self }
    }

    /// The same material with a heat value range, MJ/kg.
    pub fn with_heat_value(self, v: Span) -> (r: MaterialRecord)
        ensures
            r == (MaterialRecord { heat_value: Some(v), ..self }),
    {
        MaterialRecord { heat_value: Some(v), ..self }
    }

    /// The same material with a rock classification.
    pub fn with_rock(self, v: RockClass) -> (r: MaterialRecord)
        ensures
            r == (MaterialRecord { rock: Some(v), ..self }),
    {
        MaterialRecord { rock: Some(v), ..self }
    }

    /// The same material with element data.
    pub fn with_element(self, v: ElementInfo) -> (r: MaterialRecord)
        ensures
            r == (MaterialRecord { element: Some(v), ..self }),
    {
        MaterialRecord { element: Some(v), ..self }
    }

    /// The same material with a metal family.
    pub fn with_metal(self, v: GroupMetal) -> (r: MaterialRecord)
        ensures
            r == (MaterialRecord { metal: Some(v), ..self }),
    {
        MaterialRecord { metal: Some(v), ..self }
    }

    /// The same material with an alloy composition.
    pub fn with_composition(self, v: Vec<Component>) -> (r: MaterialRecord)
        requires
            forall|i: int| 0 <= i < v@.len() ==> (#[trigger] v@[i]).element.is_element(),
        ensures
            r == (MaterialRecord { composition: Some(v), ..self }),
    {
        MaterialRecord { composition: Some(v), ..self }
    }

    /// Whether the material has capability `c`.
    pub fn supports(&self, c: Capability) -> (r: bool)
        ensures
            r == self.has(c),
    {
        match c {
            Capability::Density => self.density.is_some(),
            Capability::Melting => self.melting.is_some(),
            Capability::Ignition => self.ignition.is_some(),
            Capability::Burning => self.burning.is_some(),
            Capability::HeatValue => self.heat_value.is_some(),
            Capability::Rock => self.rock.is_some(),
            Capability::Element => self.element.is_some(),
            Capability::Metal => self.metal.is_some(),
            Capability::Alloy => self.composition.is_some(),
        }
    }
}

/// A named material.
pub trait Material {
    /// The name in `lang`; empty where it is not translated.
    spec fn name_in(&self, lang: SLang) -> Seq<char>;

    /// Localization progress: one for each supported language with a
    /// non-empty name. Ideally equal to the number of supported languages.
    fn get_progress_locale_name(&self) -> (r: u16)
        ensures
            r as nat == translated_count(self.name_in(SLang::RU)) + translated_count(
                self.name_in(SLang::EN),
            ),
    ;

    /// The localized name; an empty string where it is not translated.
    fn get_name(&self, lang: SLang) -> (r: &'static str)
        ensures
            r@ == self.name_in(lang),
    ;
}

impl Material for MaterialRecord {
    open spec fn name_in(&self, lang: SLang) -> Seq<char> {
        self.names.name_in(lang)
    }

    fn get_progress_locale_name(&self) -> (r: u16) {
        self.names.count_translated()
    }

    fn get_name(&self, lang: SLang) -> (r: &'static str) {
        self.names.get(lang)
    }
}


/// Density, g/cm³ and kg/m³, the mean of a declared range.
pub trait Density {
    /// The declared range, g/cm³, where the material has a density.
    spec fn density_span(&self) -> Option<Span>;

    fn get_density_avg_gcm3(&self) -> (r: Gcm3)
        requires
            self.density_span() is Some,
        ensures
            r == self.density_span()->0.mean(),
    ;

    fn get_density_avg_kgm3(&self) -> (r: KGm3)
        requires
            self.density_span() is Some,
        ensures
            r == kgm3_of(self.density_span()->0.mean()),
    ;
}

/// Melting point, °C and kelvin, the mean of a declared range in °C.
pub trait Melting {
    spec fn melting_span(&self) -> Option<Span>;

    fn get_melting_avg_c(&self) -> (r: Celsius)
        requires
            self.melting_span() is Some,
        ensures
            r == self.melting_span()->0.mean(),
    ;

    fn get_melting_avg_k(&self) -> (r: Kelvin)
        requires
            self.melting_span() is Some,
        ensures
            r == kelvin_of(self.melting_span()->0.mean()),
    ;
}

/// Ignition temperature, °C and kelvin, the mean of a declared range in °C.
pub trait Ignition {
    spec fn ignition_span(&self) -> Option<Span>;

    fn get_ignition_avg_c(&self) -> (r: Celsius)
        requires
            self.ignition_span() is Some,
        ensures
            r == self.ignition_span()->0.mean(),
    ;

    fn get_ignition_avg_k(&self) -> (r: Kelvin)
        requires
            self.ignition_span() is Some,
        ensures
            r == kelvin_of(self.ignition_span()->0.mean()),
    ;
}

/// Burning (maximum) temperature, °C and kelvin, the mean of a declared
/// range in °C.
pub trait Burning {
    spec fn burning_span(&self) -> Option<Span>;

    fn get_burning_avg_c(&self) -> (r: Celsius)
        requires
            self.burning_span() is Some,
        ensures
            r == self.burning_span()->0.mean(),
    ;

    fn get_burning_avg_k(&self) -> (r: Kelvin)
        requires
            self.burning_span() is Some,
        ensures
            r == kelvin_of(self.burning_span()->0.mean()),
    ;
}

/// Heat value, the mean of a declared range in MJ/kg. The getter names do
/// not match the units they return: the one named for kcal/kg returns that
/// mean as it is, and the one named for MJ/kg returns it times 238.8458966275.
pub trait HeatValue {
    spec fn heat_value_span(&self) -> Option<Span>;

    fn get_heat_value_avg_kkal(&self) -> (r: KkalKg)
        requires
            self.heat_value_span() is Some,
        ensures
            r == self.heat_value_span()->0.mean(),
    ;

    fn get_heat_value_avg_mj(&self) -> (r: MjKg)
        requires
            self.heat_value_span() is Some,
        ensures
            r == heat_converted(self.heat_value_span()->0.mean()),
    ;
}

impl Density for MaterialRecord {
    open spec fn density_span(&self) -> Option<Span> {
        self.density
    }

    fn get_density_avg_gcm3(&self) -> (r: Gcm3) {
        self.density.unwrap().average()
    }

    fn get_density_avg_kgm3(&self) -> (r: KGm3) {
        gcm3_to_kgm3(self.density.unwrap().average())
    }
}

impl Melting for MaterialRecord {
    open spec fn melting_span(&self) -> Option<Span> {
        self.melting
    }

    fn get_melting_avg_c(&self) -> (r: Celsius) {
        self.melting.unwrap().average()
    }

    fn get_melting_avg_k(&self) -> (r: Kelvin) {
        celsius_to_kelvin(self.melting.unwrap().average())
    }
}

impl Ignition for MaterialRecord {
    open spec fn ignition_span(&self) -> Option<Span> {
        self.ignition
    }

    fn get_ignition_avg_c(&self) -> (r: Celsius) {
        self.ignition.unwrap().average()
    }

    fn get_ignition_avg_k(&self) -> (r: Kelvin) {
        celsius_to_kelvin(self.ignition.unwrap().average())
    }
}

impl Burning for MaterialRecord {
    open spec fn burning_span(&self) -> Option<Span> {
        self.burning
    }

    fn get_burning_avg_c(&self) -> (r: Celsius) {
        self.burning.unwrap().average()
    }

    fn get_burning_avg_k(&self) -> (r: Kelvin) {
        celsius_to_kelvin(self.burning.unwrap().average())
    }
}

impl HeatValue for MaterialRecord {
    open spec fn heat_value_span(&self) -> Option<Span> {
        self.heat_value
    }

    fn get_heat_value_avg_kkal(&self) -> (r: KkalKg) {
        self.heat_value.unwrap().average()
    }

    fn get_heat_value_avg_mj(&self) -> (r: MjKg) {
        convert_heat_value(self.heat_value.unwrap().average())
    }
}


/// A rock, classified by group.
pub trait Rock {
    /// The classification, where the material is a rock.
    spec fn rock_class(&self) -> Option<RockClass>;

    fn get_group(&self) -> (r: GroupRock)
        requires
            self.rock_class() is Some,
        ensures
            r == self.rock_class()->0.spec_group(),
    ;
}

/// A sedimentary rock.
pub trait Sedimentary: Rock {
    fn get_subgroup(&self) -> (r: SubgroupSedimentary)
        requires
            self.rock_class() matches Some(RockClass::Sedimentary(_)),
        ensures
            self.rock_class() == Some(RockClass::Sedimentary(r)),
    ;
}

/// An igneous rock.
pub trait Igneous: Rock {
    fn get_subgroup(&self) -> (r: SubgroupIgneous)
        requires
            self.rock_class() matches Some(RockClass::Igneous(_)),
        ensures
            self.rock_class() == Some(RockClass::Igneous(r)),
    ;
}

/// A metamorphic rock. The group has no subgroup, so it adds nothing to ask
/// beyond `Rock::get_group`.
pub trait Metamorphic: Rock {
}

/// An element of the periodic table.
pub trait Element {
    spec fn element_info(&self) -> Option<ElementInfo>;

    fn get_symbol(&self) -> (r: &'static str)
        requires
            self.element_info() is Some,
        ensures
            r@ == self.element_info()->0.symbol@,
    ;

    fn get_number(&self) -> (r: u8)
        requires
            self.element_info() is Some,
        ensures
            r == self.element_info()->0.number,
    ;
}

/// A metal, by family.
pub trait Metal {
    spec fn metal_group(&self) -> Option<GroupMetal>;

    fn get_group_metal(&self) -> (r: GroupMetal)
        requires
            self.metal_group() is Some,
        ensures
            self.metal_group() == Some(r),
    ;
}

/// An alloy: a mixture of elements of the catalog.
pub trait Alloy {
    /// The composition, in declared order, where the material is an alloy.
    spec fn spec_composition(&self) -> Option<Seq<Component>>;

    fn get_chemical_composition(&self) -> (r: &Vec<Component>)
        requires
            self.spec_composition() is Some,
        ensures
            self.spec_composition() == Some(r@),
    ;
}

impl Rock for MaterialRecord {
    open spec fn rock_class(&self) -> Option<RockClass> {
        self.rock
    }

    fn get_group(&self) -> (r: GroupRock) {
        self.rock.unwrap().group()
    }
}

impl Sedimentary for MaterialRecord {
    fn get_subgroup(&self) -> (r: SubgroupSedimentary) {
        match self.rock {
            Some(RockClass::Sedimentary(sub)) => sub,
            _ => unreached(),
        }
    }
}

impl Igneous for MaterialRecord {
    fn get_subgroup(&self) -> (r: SubgroupIgneous) {
        match self.rock {
            Some(RockClass::Igneous(sub)) => sub,
            _ => unreached(),
        }
    }
}

impl Element for MaterialRecord {
    open spec fn element_info(&self) -> Option<ElementInfo> {
        self.element
    }

    fn get_symbol(&self) -> (r: &'static str) {
        self.element.unwrap().symbol
    }

    fn get_number(&self) -> (r: u8) {
        self.element.unwrap().number
    }
}

impl Metal for MaterialRecord {
    open spec fn metal_group(&self) -> Option<GroupMetal> {
        self.metal
    }

    fn get_group_metal(&self) -> (r: GroupMetal) {
        self.metal.unwrap()
    }
}

impl Alloy for MaterialRecord {
    open spec fn spec_composition(&self) -> Option<Seq<Component>> {
        match self.composition {
            Some(v) => Some(v@),
            None => None,
        }
    }

    fn get_chemical_composition(&self) -> (r: &Vec<Component>) {
        self.composition.as_ref().unwrap()
    }
}

} // verus!
