//! Properties that relate the accessors and the audit, stated over the
//! spec functions that their contracts use.

use vstd::prelude::*;
use crate::quantity::{
    Span, DECLARED_PER_UNIT, AVERAGE_PER_UNIT, KELVIN_OFFSET, KGM3_PER_GCM3, HEAT_FACTOR,
    HEAT_FACTOR_PER_UNIT, kelvin_of, kgm3_of, heat_converted,
};
use crate::lang::{SLang, COUNT_SUPPORTED_LANGUAGES};
use crate::material::{Density, Melting, HeatValue, Material, MaterialRecord};
use crate::catalog::{all_ids, law_catalog_shape, MaterialId};
use crate::audit::{progress_of, deficit_of, total_deficit};

verus! {

/// The mean of a span is the midpoint of its bounds: twice the mean, read in
/// its unit, is the sum of the bounds, read in theirs.
pub proof fn law_mean_is_midpoint(s: Span)
    ensures
        2 * s.mean() * DECLARED_PER_UNIT == (s.min + s.max) * AVERAGE_PER_UNIT,
{
}

/// The average density of a material is the midpoint of its declared range,
/// and its value in kg/m³ is its value in g/cm³ times 1000.
pub proof fn law_density_average<M: Density>(m: M)
    requires
        m.density_span() is Some,
    ensures
        2 * m.density_span()->0.mean() * DECLARED_PER_UNIT == (m.density_span()->0.min
            + m.density_span()->0.max) * AVERAGE_PER_UNIT,
        kgm3_of(m.density_span()->0.mean()) == m.density_span()->0.mean() * KGM3_PER_GCM3,
{
    law_mean_is_midpoint(m.density_span()->0);
}

/// The average melting point of a material is the midpoint of its declared
/// range in °C, and its value in kelvin is that plus 273.15.
pub proof fn law_melting_average<M: Melting>(m: M)
    requires
        m.melting_span() is Some,
    ensures
        2 * m.melting_span()->0.mean() * DECLARED_PER_UNIT == (m.melting_span()->0.min
            + m.melting_span()->0.max) * AVERAGE_PER_UNIT,
        kelvin_of(m.melting_span()->0.mean()) == m.melting_span()->0.mean() + KELVIN_OFFSET,
        KELVIN_OFFSET == 27315 * AVERAGE_PER_UNIT / 100,
{
    law_mean_is_midpoint(m.melting_span()->0);
}

/// The heat value in the first unit is the midpoint of the declared range,
/// and the value in the second is that times 238.8458966275.
pub proof fn law_heat_value_average<M: HeatValue>(m: M)
    requires
        m.heat_value_span() is Some,
    ensures
        2 * m.heat_value_span()->0.mean() * DECLARED_PER_UNIT == (m.heat_value_span()->0.min
            + m.heat_value_span()->0.max) * AVERAGE_PER_UNIT,
        heat_converted(m.heat_value_span()->0.mean()) == m.heat_value_span()->0.mean()
            * HEAT_FACTOR,
        HEAT_FACTOR == 2388458966275,
        HEAT_FACTOR_PER_UNIT == 10_000_000_000,
{
    law_mean_is_midpoint(m.heat_value_span()->0);
}

/// No material is named in more languages than are supported.
pub proof fn law_progress_bounded<M: Material>(m: M)
    ensures
        progress_of(m) <= COUNT_SUPPORTED_LANGUAGES,
        deficit_of(m) + progress_of(m) == COUNT_SUPPORTED_LANGUAGES,
{
}

/// The audit finds nothing missing exactly when every material is named in
/// every supported language.
pub proof fn law_audit_passes_iff_complete<M: Material>(ms: Seq<M>)
    ensures
        total_deficit(ms) == 0 <==> forall|i: int|
            0 <= i < ms.len() ==> progress_of(#[trigger] ms[i]) == COUNT_SUPPORTED_LANGUAGES,
    decreases ms.len(),
{
    if ms.len() > 0 {
        let init = ms.drop_last();
        law_audit_passes_iff_complete(init);
        assert forall|i: int| 0 <= i < init.len() implies #[trigger] init[i] == ms[i] by {}
        if total_deficit(ms) == 0 {
            assert forall|i: int|
                0 <= i < ms.len() implies progress_of(#[trigger] ms[i])
                == COUNT_SUPPORTED_LANGUAGES by {
                if i < init.len() {
                    assert(init[i] == ms[i]);
                }
            }
        }
        if forall|i: int|
            0 <= i < ms.len() ==> progress_of(#[trigger] ms[i]) == COUNT_SUPPORTED_LANGUAGES {
            assert(progress_of(ms[ms.len() - 1]) == COUNT_SUPPORTED_LANGUAGES);
            assert forall|i: int|
                0 <= i < init.len() implies progress_of(#[trigger] init[i])
                == COUNT_SUPPORTED_LANGUAGES by {
                assert(init[i] == ms[i]);
            }
        }
    }
}

/// Every average density of the catalog is positive, and so is every average
/// temperature of the catalog read in kelvin.
pub proof fn law_catalog_positive(id: MaterialId)
    ensures
        id.spec_density()->0.mean() > 0,
        id.spec_melting() matches Some(s) ==> kelvin_of(s.mean()) > 0,
        id.spec_ignition() matches Some(s) ==> kelvin_of(s.mean()) > 0,
        id.spec_burning() matches Some(s) ==> kelvin_of(s.mean()) > 0,
{
}

/// Only hydrogen and brown coal ignite and burn, and only they have a heat
/// value; the other elements, rocks and the alloys have none of these.
pub proof fn law_catalog_combustibles(id: MaterialId)
    ensures
        id.spec_ignition() is Some <==> (id is Hydrogen || id is BrownCoal),
        id.spec_burning() is Some <==> (id is Hydrogen || id is BrownCoal),
        id.spec_heat_value() is Some <==> (id is Hydrogen || id is BrownCoal),
{
}

/// Two elements of the catalog have different atomic numbers and different
/// symbols.
pub proof fn law_catalog_elements_distinct(a: MaterialId, b: MaterialId)
    requires
        a.is_element(),
        b.is_element(),
        a != b,
    ensures
        a.spec_element() matches Some((na, sa)) ==> (b.spec_element() matches Some((nb, sb))
            && na != nb && sa != sb),
{
    let (_, sa) = a.spec_element()->0;
    let (_, sb) = b.spec_element()->0;
    if sa.len() == sb.len() && sa[0] == sb[0] {
        assert(sa[1] != sb[1]);
    }
}

/// Two records of one material of the catalog hold the same data: reading
/// the catalog twice gives the same answers.
pub proof fn law_record_stable(id: MaterialId, r1: MaterialRecord, r2: MaterialRecord)
    requires
        id.is_record(r1),
        id.is_record(r2),
    ensures
        forall|lang: SLang| #[trigger] r1.name_in(lang) == r2.name_in(lang),
        r1.density == r2.density,
        r1.melting == r2.melting,
        r1.ignition == r2.ignition,
        r1.burning == r2.burning,
        r1.heat_value == r2.heat_value,
        r1.rock == r2.rock,
        r1.metal == r2.metal,
        r1.element is Some <==> r2.element is Some,
        r1.element matches Some(e1) ==> r2.element matches Some(e2) && e1.number == e2.number
            && e1.symbol@ == e2.symbol@,
        r1.composition is Some <==> r2.composition is Some,
        r1.composition matches Some(v1) ==> r2.composition matches Some(v2) && v1@ == v2@,
{
}

/// Every material of the catalog is named in every supported language, so
/// an audit of the catalog finds nothing missing.
pub proof fn law_catalog_complete(ms: Seq<MaterialRecord>)
    requires
        ms.len() == all_ids().len(),
        forall|i: int| 0 <= i < ms.len() ==> all_ids()[i].is_record(#[trigger] ms[i]),
    ensures
        forall|i: int, lang: SLang|
            0 <= i < ms.len() ==> #[trigger] ms[i].name_in(lang).len() > 0,
        total_deficit(ms) == 0,
{
    assert forall|i: int, lang: SLang| 0 <= i < ms.len() implies #[trigger] ms[i].name_in(
        lang,
    ).len() > 0 by {
        assert(all_ids()[i].is_record(ms[i]));
        law_catalog_shape(all_ids()[i]);
        assert(all_ids()[i].spec_name(lang).len() > 0);
    }
    assert forall|i: int|
        0 <= i < ms.len() implies progress_of(#[trigger] ms[i]) == COUNT_SUPPORTED_LANGUAGES by {
        assert(ms[i].name_in(SLang::RU).len() > 0);
        assert(ms[i].name_in(SLang::EN).len() > 0);
    }
    law_audit_passes_iff_complete(ms);
}

} // verus!
