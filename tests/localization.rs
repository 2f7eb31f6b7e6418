use materials::{
    all_materials, audit, list_all, Material, MaterialId, MaterialRecord, Names, SLang,
    COUNT_MATERIALS, COUNT_SUPPORTED_LANGUAGES,
};

#[test]
fn localization_name() {
    println!("COUNT_SUPPORTED_LANGUAGES:{}", COUNT_SUPPORTED_LANGUAGES);
    println!("COUNT_MATERIALS:{}", COUNT_MATERIALS);
    let mut need_translate: u32 = 0;
    for material in all_materials().iter() {
        let mut add: &str = "✔";
        if material.get_progress_locale_name() < COUNT_SUPPORTED_LANGUAGES {
            add = "🔥";
            need_translate +=
                (COUNT_SUPPORTED_LANGUAGES - material.get_progress_locale_name()) as u32;
        }
        println!(
            "RU:{}, EN:{}, progress: {}/{} {}",
            material.get_name(SLang::RU),
            material.get_name(SLang::EN),
            material.get_progress_locale_name(),
            COUNT_SUPPORTED_LANGUAGES,
            add,
        );
    }
    assert!(need_translate == 0, "Need translate {} materials", need_translate)
}

#[test]
fn audit_counts_one_missing_translation() {
    let materials = vec![
        MaterialRecord::named(Names::new("Базальт", "Basalt")),
        MaterialRecord::named(Names::new("Гранит", "Granite")),
        MaterialRecord::named(Names::new("", "Obsidian")),
    ];
    let report = audit(&materials);
    assert_eq!(report.missing, 1);
    assert!(!report.passed());
    assert_eq!(report.rows.len(), 3);
    assert_eq!(report.rows[0].progress, 2);
    assert_eq!(report.rows[2].progress, 1);
    assert_eq!(report.rows[2].ru, "");
    assert_eq!(report.rows[2].en, "Obsidian");
}

#[test]
fn audit_of_catalog_passes() {
    let materials = all_materials();
    let report = audit(&materials);
    assert_eq!(report.missing, 0);
    assert!(report.passed());
    assert_eq!(report.rows.len(), COUNT_MATERIALS as usize);
    assert_eq!(report.rows[3].ru, "Бурый уголь");
    assert_eq!(report.rows[3].en, "Brown Coal");
}

#[test]
fn audit_of_nothing_passes() {
    let materials: Vec<MaterialRecord> = Vec::new();
    let report = audit(&materials);
    assert_eq!(report.missing, 0);
    assert!(report.passed());
    assert!(report.rows.is_empty());
}

#[test]
fn audit_counts_untranslated_material_twice() {
    let materials = vec![MaterialRecord::named(Names::new("", ""))];
    let report = audit(&materials);
    assert_eq!(report.missing, 2);
    assert_eq!(report.rows[0].progress, 0);
}

#[test]
fn missing_name_is_empty_string() {
    let m = MaterialRecord::named(Names::new("", "Gold"));
    assert_eq!(m.get_name(SLang::RU), "");
    assert_eq!(m.get_name(SLang::EN), "Gold");
    assert_eq!(m.get_progress_locale_name(), 1);
}

#[test]
fn every_catalog_name_is_present() {
    for id in list_all() {
        let m = id.record();
        assert!(!m.get_name(SLang::RU).is_empty());
        assert!(!m.get_name(SLang::EN).is_empty());
        assert_eq!(m.get_progress_locale_name(), COUNT_SUPPORTED_LANGUAGES);
    }
    assert_eq!(MaterialId::Basalt.record().get_name(SLang::RU), "Базальт");
    assert_eq!(MaterialId::Zinc.record().get_name(SLang::EN), "Zinc");
}
