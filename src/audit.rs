//! The localization audit: a read-only scan over a list of materials that
//! counts the missing translations.

use vstd::prelude::*;
use crate::lang::{SLang, COUNT_SUPPORTED_LANGUAGES, translated_count};
use crate::material::Material;

verus! {

/// How many supported languages have a non-empty name for `m`.
pub open spec fn progress_of<M: Material>(m: M) -> nat {
    translated_count(m.name_in(SLang::RU)) + translated_count(m.name_in(SLang::EN))
}

/// How many supported languages lack a name for `m`.
pub open spec fn deficit_of<M: Material>(m: M) -> nat {
    (COUNT_SUPPORTED_LANGUAGES - progress_of(m)) as nat
}

/// The missing translations of all of `ms`, summed.
pub open spec fn total_deficit<M: Material>(ms: Seq<M>) -> nat
    decreases ms.len(),
{
    if ms.len() == 0 {
        0
    } else {
        total_deficit(ms.drop_last()) + deficit_of(ms.last())
    }
}

/// One line of the report: a material's names, blank where missing, and how
/// many of the supported languages it is named in.
#[derive(Clone, Copy, Debug)]
pub struct AuditRow {
    pub ru: &'static str,
    pub en: &'static str,
    pub progress: u16,
}

/// The result of an audit: the missing translations summed over all
/// materials, and one row per material in the order given.
#[derive(Clone, Debug)]
pub struct AuditReport {
    pub missing: u32,
    pub rows: Vec<AuditRow>,
}

impl AuditReport {
    /// Whether no translation is missing.
    pub fn passed(&self) -> (r: bool)
        ensures
            r == (self.missing == 0),
    {
        self.missing == 0
    }
}

proof fn lemma_deficit_bounded<M: Material>(ms: Seq<M>)
    ensures
        total_deficit(ms) <= ms.len() * COUNT_SUPPORTED_LANGUAGES,
    decreases ms.len(),
{
    if ms.len() > 0 {
        lemma_deficit_bounded(ms.drop_last());
    }
}

/// Scans `materials` in order and counts, for each, the supported languages
/// it has no name in.
pub fn audit<M: Material>(materials: &[M]) -> (r: AuditReport)
    requires
        materials@.len() * COUNT_SUPPORTED_LANGUAGES <= u32::MAX,
    ensures
        r.missing == total_deficit(materials@),
        r.rows@.len() == materials@.len(),
        forall|i: int|
            0 <= i < materials@.len() ==> {
                let row = #[trigger] r.rows@[i];
                &&& row.ru@ == materials@[i].name_in(SLang::RU)
                &&& row.en@ == materials@[i].name_in(SLang::EN)
                &&& row.progress == progress_of(materials@[i])
            },
{
    let mut missing: u32 = 0;
    let mut rows: Vec<AuditRow> = Vec::new();
    let mut i: usize = 0;
    while i < materials.len()
        invariant
            i <= materials@.len(),
            materials@.len() * COUNT_SUPPORTED_LANGUAGES <= u32::MAX,
            missing == total_deficit(materials@.subrange(0, i as int)),
            rows@.len() == i,
            forall|j: int|
                0 <= j < i ==> {
                    let row = #[trigger] rows@[j];
                    &&& row.ru@ == materials@[j].name_in(SLang::RU)
                    &&& row.en@ == materials@[j].name_in(SLang::EN)
                    &&& row.progress == progress_of(materials@[j])
                },
        decreases materials@.len() - i,
    {
        let m = &materials[i];
        let progress = m.get_progress_locale_name();
        proof {
            let done = materials@.subrange(0, i as int);
            let next = materials@.subrange(0, i + 1);
            assert(next.drop_last() =~= done);
            lemma_deficit_bounded(next);
            assert((i + 1) * COUNT_SUPPORTED_LANGUAGES <= materials@.len()
                * COUNT_SUPPORTED_LANGUAGES) by (nonlinear_arith)
                requires
                    i + 1 <= materials@.len(),
            ;
        }
        missing = missing + (COUNT_SUPPORTED_LANGUAGES - progress) as u32;
        rows.push(AuditRow { ru: m.get_name(SLang::RU), en: m.get_name(SLang::EN), progress });
        i = i + 1;
    }
    assert(materials@.subrange(0, i as int) =~= materials@);
    AuditReport { missing, rows }
}

} // verus!
