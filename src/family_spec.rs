//! The declaration of an error family, and the check that a family can be
//! generated from it at all.
use vstd::prelude::*;
use vstd::string::StringExecFns;

verus! {

/// One variant of a family: its name, the names of its fields in order, and
/// whether it absorbs a cause.
pub struct VariantSpec {
    pub name: String,
    pub fields: Vec<String>,
    pub has_cause: bool,
}

/// Why a family cannot be generated.
#[derive(PartialEq, Eq, Structural, Debug, Clone, Copy)]
pub enum SpecError {
    /// Field `field` of variant `variant` bears the name reserved for the
    /// cause, and the variant has a cause.
    ReservedField { variant: usize, field: usize },
    /// Variant `second` bears the name of the earlier variant `first`.
    DuplicateVariant { first: usize, second: usize },
}

/// The name of the field that holds a cause's detail.
pub open spec fn reserved_name() -> Seq<char> {
    "source"@
}

/// Field `j` of `v` collides with the cause field.
pub open spec fn reserved_at(v: VariantSpec, j: int) -> bool {
    v.has_cause && 0 <= j < v.fields@.len() && v.fields@[j]@ == reserved_name()
}

pub open spec fn has_reserved(v: VariantSpec) -> bool {
    exists|j: int| reserved_at(v, j)
}

/// Variant `k` comes before variant `i` and bears the same name.
pub open spec fn duplicate_at(vs: Seq<VariantSpec>, k: int, i: int) -> bool {
    0 <= k < i < vs.len() && vs[k].name@ == vs[i].name@
}

/// Variant `i` cannot be generated: it has a field named like the cause
/// field, or an earlier variant has its name.
pub open spec fn faulty(vs: Seq<VariantSpec>, i: int) -> bool {
    has_reserved(vs[i]) || exists|k: int| duplicate_at(vs, k, i)
}

/// A family whose every variant can be generated.
pub open spec fn family_ok(vs: Seq<VariantSpec>) -> bool {
    forall|i: int| 0 <= i < vs.len() ==> !faulty(vs, i)
}

/// Checks that a family can be generated from `variants`.
///
/// The first faulty variant in declaration order is reported: a reserved
/// field name (its first such field) before a duplicate name (the earliest
/// variant that it repeats).
pub fn check_family(variants: &Vec<VariantSpec>) -> (r: Result<(), SpecError>)
    ensures
        r.is_ok() <==> family_ok(variants@),
        match r {
            Ok(()) => true,
            Err(SpecError::ReservedField { variant, field }) => {
                &&& variant < variants@.len()
                &&& forall|i: int| 0 <= i < variant ==> !faulty(variants@, i)
                &&& reserved_at(variants@[variant as int], field as int)
                &&& forall|j: int| 0 <= j < field ==> !reserved_at(variants@[variant as int], j)
            },
            Err(SpecError::DuplicateVariant { first, second }) => {
                &&& second < variants@.len()
                &&& forall|i: int| 0 <= i < second ==> !faulty(variants@, i)
                &&& !has_reserved(variants@[second as int])
                &&& duplicate_at(variants@, first as int, second as int)
                &&& forall|k: int| 0 <= k < first ==> !duplicate_at(variants@, k, second as int)
            },
        },
{
    let reserved = String::from_str("source");
    let mut i: usize = 0;
    while i < variants.len()
        invariant
            i <= variants@.len(),
            reserved@ == reserved_name(),
            forall|a: int| 0 <= a < i ==> !faulty(variants@, a),
        decreases variants@.len() - i,
    {
        let v = &variants[i];
        if v.has_cause {
            let mut j: usize = 0;
            while j < v.fields.len()
                invariant
                    0 <= i < variants@.len(),
                    *v == variants@[i as int],
                    v.has_cause,
                    j <= v.fields@.len(),
                    reserved@ == reserved_name(),
                    forall|a: int| 0 <= a < i ==> !faulty(variants@, a),
                    forall|b: int| 0 <= b < j ==> !reserved_at(*v, b),
                decreases v.fields@.len() - j,
            {
                if v.fields[j] == reserved {
                    assert(reserved_at(variants@[i as int], j as int));
                    assert(faulty(variants@, i as int));
                    assert(forall|b: int| 0 <= b < j ==> !reserved_at(variants@[i as int], b));
                    return Err(SpecError::ReservedField { variant: i, field: j });
                }
                j = j + 1;
            }
        }
        assert(!has_reserved(variants@[i as int]));
        let mut k: usize = 0;
        while k < i
            invariant
                0 <= i < variants@.len(),
                k <= i,
                *v == variants@[i as int],
                !has_reserved(variants@[i as int]),
                forall|a: int| 0 <= a < i ==> !faulty(variants@, a),
                forall|b: int| 0 <= b < k ==> !duplicate_at(variants@, b, i as int),
            decreases i - k,
        {
            if variants[k].name == v.name {
                assert(duplicate_at(variants@, k as int, i as int));
                assert(faulty(variants@, i as int));
                return Err(SpecError::DuplicateVariant { first: k, second: i });
            }
            k = k + 1;
        }
        i = i + 1;
    }
    Ok(())
}

} // verus!
