use materials::{
    all_materials, list_all, Alloy, Burning, Capability, Density, Element, GroupMetal,
    GroupRock, HeatValue, Igneous, Ignition, Material, MaterialId, Melting, Metal, Rock,
    Sedimentary, SLang, Span, SubgroupIgneous, SubgroupSedimentary, COUNT_MATERIALS,
};

/// An average, in hundred-millionths, read as a number of units.
fn units(v: i128) -> f64 {
    v as f64 / 100_000_000.0
}

#[test]
fn test1() {
    println!("COUNT_MATERIALS: {}", COUNT_MATERIALS);
    let obsidian = MaterialId::Obsidian.record();
    println!(
        "{} density: {}g/cm³ melting: {}°C",
        obsidian.get_name(SLang::EN),
        units(obsidian.get_density_avg_gcm3()),
        units(obsidian.get_melting_avg_c())
    );
    let gold = MaterialId::Gold.record();
    println!(
        "{} number: {}, density: {}g/cm³ melting: {}°C",
        gold.get_name(SLang::EN),
        gold.get_number(),
        units(gold.get_density_avg_gcm3()),
        units(gold.get_melting_avg_c()),
    );
    let hydrogen = MaterialId::Hydrogen.record();
    println!(
        "{} number: {}, density: {}g/cm³, ignition: {}°C, burning_c: {}°C",
        hydrogen.get_name(SLang::EN),
        hydrogen.get_number(),
        units(hydrogen.get_density_avg_gcm3()),
        units(hydrogen.get_ignition_avg_c()),
        units(hydrogen.get_burning_avg_c()),
    );
}

#[test]
fn basalt_density_and_melting() {
    let basalt = MaterialId::Basalt.record();
    assert_eq!(basalt.get_density_avg_gcm3(), 2_85000000);
    assert_eq!(basalt.get_density_avg_kgm3(), 2850_00000000);
    assert_eq!(basalt.get_melting_avg_c(), 1175_00000000);
    assert_eq!(basalt.get_melting_avg_k(), 1448_15000000);
    assert!((units(basalt.get_density_avg_gcm3()) - 2.85).abs() < 1e-9);
    assert!((units(basalt.get_melting_avg_k()) - 1448.15).abs() < 1e-9);
}

#[test]
fn brass_composition() {
    let brass = MaterialId::Brass.record();
    assert!(brass.supports(Capability::Alloy));
    let parts = brass.get_chemical_composition();
    assert_eq!(parts.len(), 2);
    assert_eq!(parts[0].element, MaterialId::Copper);
    assert_eq!(parts[0].percent, Span::new(50_0000000, 90_0000000));
    assert_eq!(parts[1].element, MaterialId::Zinc);
    assert_eq!(parts[1].percent, Span::new(10_0000000, 50_0000000));
    for part in parts.iter() {
        let element = part.element.record();
        assert!(element.supports(Capability::Element));
    }
    assert_eq!(MaterialId::Copper.record().get_symbol(), "Cu");
    assert_eq!(MaterialId::Zinc.record().get_number(), 30);
}

#[test]
fn dural_composition_order() {
    let dural = MaterialId::Dural.record();
    let parts = dural.get_chemical_composition();
    let ids: Vec<MaterialId> = parts.iter().map(|p| p.element).collect();
    assert_eq!(
        ids,
        vec![MaterialId::Aluminium, MaterialId::Copper, MaterialId::Magnesium, MaterialId::Manganese]
    );
    assert_eq!(parts[1].percent, Span::new(3_8000000, 4_9000000));
}

#[test]
fn every_alloy_component_is_an_element() {
    for id in list_all() {
        let m = id.record();
        if m.supports(Capability::Alloy) {
            for part in m.get_chemical_composition().iter() {
                assert!(part.element.record().supports(Capability::Element));
            }
        }
    }
}

#[test]
fn density_is_midpoint_and_kgm3_is_thousandfold() {
    for m in all_materials().iter() {
        let span = m.density.unwrap();
        let avg = m.get_density_avg_gcm3();
        assert_eq!(2 * avg, (span.min as i128 + span.max as i128) * 10);
        assert_eq!(m.get_density_avg_kgm3(), avg * 1000);
    }
}

#[test]
fn dural_density_with_reversed_bounds() {
    let dural = MaterialId::Dural.record();
    assert_eq!(dural.get_density_avg_gcm3(), 2_78000000);
}

#[test]
fn hydrogen_small_density() {
    let hydrogen = MaterialId::Hydrogen.record();
    assert_eq!(hydrogen.get_density_avg_gcm3(), 8990);
    assert_eq!(hydrogen.get_density_avg_kgm3(), 8_990_000);
}

#[test]
fn melting_kelvin_adds_offset() {
    let gold = MaterialId::Gold.record();
    assert_eq!(gold.get_melting_avg_c(), 1064_18000000);
    assert_eq!(gold.get_melting_avg_k(), 1337_33000000);
    let zinc = MaterialId::Zinc.record();
    assert_eq!(zinc.get_melting_avg_k(), 692_70000000);
}

#[test]
fn heat_value_units_as_named() {
    let coal = MaterialId::BrownCoal.record();
    assert_eq!(coal.get_heat_value_avg_kkal(), 15_00000000);
    assert_eq!(coal.get_heat_value_avg_mj(), 3582688449412500000000);
    let hydrogen = MaterialId::Hydrogen.record();
    assert_eq!(hydrogen.get_heat_value_avg_kkal(), 141_86500000);
    assert_eq!(hydrogen.get_heat_value_avg_mj(), 33883873125060287500000);
    let mj = hydrogen.get_heat_value_avg_mj() as f64 / 1e18;
    assert!((mj - 141.865 * 238.8458966275).abs() < 1e-6);
}

#[test]
fn ignition_and_burning() {
    let coal = MaterialId::BrownCoal.record();
    assert_eq!(coal.get_ignition_avg_c(), 250_00000000);
    assert_eq!(coal.get_ignition_avg_k(), 523_15000000);
    assert_eq!(coal.get_burning_avg_c(), 1900_00000000);
    assert_eq!(coal.get_burning_avg_k(), 2173_15000000);
    let hydrogen = MaterialId::Hydrogen.record();
    assert_eq!(hydrogen.get_ignition_avg_c(), 550_00000000);
    assert_eq!(hydrogen.get_burning_avg_c(), 2750_00000000);
}

#[test]
fn rock_classification() {
    let granite = MaterialId::Granite.record();
    assert_eq!(granite.get_group(), GroupRock::Igneous);
    assert_eq!(Igneous::get_subgroup(&granite), SubgroupIgneous::Intrusive);
    let basalt = MaterialId::Basalt.record();
    assert_eq!(Igneous::get_subgroup(&basalt), SubgroupIgneous::Extrusive);
    let coal = MaterialId::BrownCoal.record();
    assert_eq!(coal.get_group(), GroupRock::Sedimentary);
    assert_eq!(Sedimentary::get_subgroup(&coal), SubgroupSedimentary::Biogenic);
    let eclogite = MaterialId::Eclogite.record();
    assert_eq!(eclogite.get_group(), GroupRock::Metamorphic);
    assert!(!eclogite.supports(Capability::Melting));
    assert!(!eclogite.supports(Capability::Element));
}

#[test]
fn elements_and_metals() {
    let gold = MaterialId::Gold.record();
    assert_eq!(gold.get_symbol(), "Au");
    assert_eq!(gold.get_number(), 79);
    assert_eq!(gold.get_group_metal(), GroupMetal::Transition);
    assert_eq!(MaterialId::Magnesium.record().get_group_metal(), GroupMetal::AlkalineEarth);
    assert_eq!(MaterialId::Aluminium.record().get_group_metal(), GroupMetal::PostTransition);
    let hydrogen = MaterialId::Hydrogen.record();
    assert_eq!(hydrogen.get_symbol(), "H");
    assert!(hydrogen.supports(Capability::Element));
    assert!(!hydrogen.supports(Capability::Metal));
    assert!(!hydrogen.supports(Capability::Rock));
}

#[test]
fn list_all_is_stable() {
    let first = list_all();
    let second = list_all();
    assert_eq!(first, second);
    assert_eq!(first.len(), COUNT_MATERIALS as usize);
    assert_eq!(first[0], MaterialId::Basalt);
    assert_eq!(first[14], MaterialId::Dural);
    let a = MaterialId::Iron.record();
    let b = MaterialId::Iron.record();
    assert_eq!(a.get_density_avg_gcm3(), b.get_density_avg_gcm3());
    assert_eq!(a.get_name(SLang::RU), b.get_name(SLang::RU));
}

#[test]
fn catalog_identities_are_unique() {
    let ids = list_all();
    for i in 0..ids.len() {
        for j in (i + 1)..ids.len() {
            assert_ne!(ids[i], ids[j]);
        }
    }
}

#[test]
fn element_symbols_and_numbers_are_distinct() {
    let elements: Vec<_> = list_all()
        .into_iter()
        .map(|id| id.record())
        .filter(|m| m.supports(Capability::Element))
        .collect();
    assert_eq!(elements.len(), 8);
    for (i, a) in elements.iter().enumerate() {
        let symbol = a.get_symbol();
        assert!(!symbol.is_empty() && symbol.chars().count() <= 2);
        for b in elements.iter().skip(i + 1) {
            assert_ne!(a.get_symbol(), b.get_symbol());
            assert_ne!(a.get_number(), b.get_number());
        }
    }
}

#[test]
fn only_combustibles_ignite() {
    for id in list_all() {
        let m = id.record();
        let combustible = id == MaterialId::Hydrogen || id == MaterialId::BrownCoal;
        assert_eq!(m.supports(Capability::Ignition), combustible);
        assert_eq!(m.supports(Capability::Burning), combustible);
        assert_eq!(m.supports(Capability::HeatValue), combustible);
    }
}

#[test]
fn catalog_names_in_order() {
    let names: Vec<&str> = list_all().into_iter().map(|id| id.record().get_name(SLang::EN)).collect();
    assert_eq!(
        names,
        vec![
            "Basalt", "Granite", "Obsidian", "Brown Coal", "Eclogite", "Hydrogen", "Gold", "Iron",
            "Aluminium", "Copper", "Zinc", "Magnesium", "Manganese", "Brass", "Dural"
        ]
    );
}
