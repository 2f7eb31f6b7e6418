//! Materials: a catalog of physical materials (rocks, chemical elements,
//! alloys) with their physical properties and localized names.
//!
//! Each material is one record. Which capabilities it has (density, melting
//! point, rock classification, element data, ...) is given by which of the
//! record's optional fields are present. Physical values are exact
//! fixed-point integers; see the `quantity` module for the scales.

pub mod quantity;
pub mod lang;
pub mod class;
pub mod material;
pub mod catalog;
pub mod audit;
pub mod laws;

pub use quantity::{Span, Celsius, Kelvin, Gcm3, KGm3, KkalKg, MjKg};
pub use lang::{SLang, Names, COUNT_SUPPORTED_LANGUAGES};
pub use class::{GroupRock, SubgroupIgneous, SubgroupSedimentary, GroupMetal, RockClass};
pub use material::{
    Capability, ElementInfo, Component, MaterialRecord, Material, Density, Melting, Ignition,
    Burning, HeatValue, Rock, Sedimentary, Igneous, Metamorphic, Element, Metal, Alloy,
};
pub use catalog::{MaterialId, COUNT_MATERIALS, list_all, all_materials};
pub use audit::{AuditRow, AuditReport, audit};
