//! Configuration resolution: merging a supplied configuration with a plugin
//! type's declared defaults, and validating its shape.
//!
//! A plugin type declares a schema of named fields, each with an optional
//! default. Resolution is a pure transformation: a field present in the
//! supplied configuration overrides the default; a field absent takes the
//! declared default; a supplied field the schema does not know, or a
//! required field with no default and no supplied value, fails with
//! `ConfigInvalid` naming the offending field — never a substituted
//! placeholder.

use vstd::prelude::*;

use crate::errors::ExtensionError;

verus! {

/// A configuration field's value.
#[derive(Clone, Copy, Debug, PartialEq, Eq, Structural)]
pub enum ConfigValue {
    /// A boolean flag.
    Bool(bool),
    /// An integer setting.
    Int(i64),
}

/// One field of a plugin type's declared configuration schema.
#[derive(Debug, PartialEq, Eq)]
pub struct FieldSpec {
    /// The field's name.
    pub name: String,
    /// The documented default, or `None` for a required field that the
    /// supplied configuration must provide.
    pub default: Option<ConfigValue>,
}

/// One named field of a supplied or resolved configuration.
#[derive(Debug, PartialEq, Eq)]
pub struct ConfigField {
    /// The field's name.
    pub name: String,
    /// The field's value.
    pub value: ConfigValue,
}

/// The value the first field with the given name carries, if any: how a
/// supplied configuration is read.
pub open spec fn lookup(supplied: Seq<ConfigField>, name: Seq<char>) -> Option<ConfigValue>
    decreases supplied.len(),
{
    if supplied.len() == 0 {
        None
    } else if supplied[0].name@ == name {
        Some(supplied[0].value)
    } else {
        lookup(supplied.drop_first(), name)
    }
}

/// Whether the schema declares a field of the given name.
pub open spec fn schema_names_contain(schema: Seq<FieldSpec>, name: Seq<char>) -> bool {
    exists|i: int| 0 <= i < schema.len() && (#[trigger] schema[i]).name@ == name
}

/// The first supplied field the schema does not declare, if any: such a
/// field makes the whole configuration invalid.
pub open spec fn first_unknown(schema: Seq<FieldSpec>, supplied: Seq<ConfigField>) -> Option<Seq<char>>
    decreases supplied.len(),
{
    if supplied.len() == 0 {
        None
    } else if !schema_names_contain(schema, supplied[0].name@) {
        Some(supplied[0].name@)
    } else {
        first_unknown(schema, supplied.drop_first())
    }
}

/// What one schema field resolves to: the supplied value if present,
/// otherwise the declared default; `None` when the field is required and
/// absent.
pub open spec fn resolved_value(field: FieldSpec, supplied: Seq<ConfigField>) -> Option<ConfigValue> {
    match lookup(supplied, field.name@) {
        Some(value) => Some(value),
        None => field.default,
    }
}

/// The first schema field with no default and no supplied value, if any.
pub open spec fn first_missing(schema: Seq<FieldSpec>, supplied: Seq<ConfigField>) -> Option<Seq<char>>
    decreases schema.len(),
{
    if schema.len() == 0 {
        None
    } else if resolved_value(schema[0], supplied) is None {
        Some(schema[0].name@)
    } else {
        first_missing(schema.drop_first(), supplied)
    }
}

/// The field `resolve` rejects, if any: an unknown supplied field first,
/// otherwise a missing required field. Resolution succeeds exactly when
/// there is none.
pub open spec fn offending_field(schema: Seq<FieldSpec>, supplied: Seq<ConfigField>) -> Option<Seq<char>> {
    match first_unknown(schema, supplied) {
        Some(name) => Some(name),
        None => first_missing(schema, supplied),
    }
}

/// The resolved configuration: the schema's fields in order, each carrying
/// its supplied value or, failing that, its declared default. Meaningful
/// when no field is offending.
pub open spec fn spec_resolved(schema: Seq<FieldSpec>, supplied: Seq<ConfigField>) -> Seq<ConfigField> {
    Seq::new(
        schema.len(),
        |i: int| ConfigField { name: schema[i].name, value: resolved_value(schema[i], supplied)->0 },
    )
}

/// Whether the schema declares a field of the given name.
fn schema_declares(schema: &Vec<FieldSpec>, name: &String) -> (declared: bool)
    ensures
        declared == schema_names_contain(schema@, name@),
{
    let mut i: usize = 0;
    while i < schema.len()
        invariant
            0 <= i <= schema@.len(),
            forall|k: int| 0 <= k < i ==> (#[trigger] schema@[k]).name@ != name@,
        decreases schema@.len() - i,
    {
        if schema[i].name == *name {
            return true;
        }
        i = i + 1;
    }
    false
}

/// The value the supplied configuration carries for the given name, if any.
fn find_value(supplied: &Vec<ConfigField>, name: &String) -> (found: Option<ConfigValue>)
    ensures
        found == lookup(supplied@, name@),
{
    proof {
        assert(supplied@.skip(0) =~= supplied@);
    }
    let mut i: usize = 0;
    while i < supplied.len()
        invariant
            0 <= i <= supplied@.len(),
            lookup(supplied@, name@) == lookup(supplied@.skip(i as int), name@),
        decreases supplied@.len() - i,
    {
        proof {
            assert(supplied@.skip(i as int)[0] == supplied@[i as int]);
        }
        if supplied[i].name == *name {
            return Some(supplied[i].value);
        }
        proof {
            assert(supplied@.skip(i as int).drop_first() =~= supplied@.skip(i as int + 1));
        }
        i = i + 1;
    }
    proof {
        assert(supplied@.skip(supplied@.len() as int).len() == 0);
    }
    None
}

/// Resolve a supplied configuration against a plugin type's declared schema.
///
/// Succeeds exactly when every supplied field is declared and every required
/// field is covered, yielding the schema's fields in order with the supplied
/// value overriding the default; otherwise fails with `ConfigInvalid` naming
/// the offending field.
pub fn resolve(schema: &Vec<FieldSpec>, supplied: &Vec<ConfigField>) -> (r: Result<Vec<ConfigField>, ExtensionError>)
    ensures
        r is Ok <==> offending_field(schema@, supplied@) is None,
        r matches Ok(resolved) ==> resolved@ == spec_resolved(schema@, supplied@),
        r matches Err(e) ==> (e matches ExtensionError::ConfigInvalid(field)
            && Some(field@) == offending_field(schema@, supplied@)),
{
    proof {
        assert(supplied@.skip(0) =~= supplied@);
    }
    let mut i: usize = 0;
    while i < supplied.len()
        invariant
            0 <= i <= supplied@.len(),
            first_unknown(schema@, supplied@) == first_unknown(schema@, supplied@.skip(i as int)),
        decreases supplied@.len() - i,
    {
        proof {
            assert(supplied@.skip(i as int)[0] == supplied@[i as int]);
        }
        if !schema_declares(schema, &supplied[i].name) {
            return Err(ExtensionError::ConfigInvalid(supplied[i].name.clone()));
        }
        proof {
            assert(supplied@.skip(i as int).drop_first() =~= supplied@.skip(i as int + 1));
        }
        i = i + 1;
    }
    proof {
        assert(supplied@.skip(supplied@.len() as int).len() == 0);
        assert(schema@.skip(0) =~= schema@);
    }
    let mut resolved: Vec<ConfigField> = Vec::new();
    let mut j: usize = 0;
    while j < schema.len()
        invariant
            0 <= j <= schema@.len(),
            first_unknown(schema@, supplied@) is None,
            first_missing(schema@, supplied@) == first_missing(schema@.skip(j as int), supplied@),
            resolved@.len() == j,
            forall|k: int| 0 <= k < j ==> #[trigger] resolved@[k] == spec_resolved(schema@, supplied@)[k],
        decreases schema@.len() - j,
    {
        proof {
            assert(schema@.skip(j as int)[0] == schema@[j as int]);
        }
        let found = find_value(supplied, &schema[j].name);
        let value = match found {
            Some(supplied_value) => supplied_value,
            None => {
                match schema[j].default {
                    Some(default_value) => default_value,
                    None => {
                        return Err(ExtensionError::ConfigInvalid(schema[j].name.clone()));
                    },
                }
            },
        };
        resolved.push(ConfigField { name: schema[j].name.clone(), value });
        proof {
            assert(resolved@[j as int] == spec_resolved(schema@, supplied@)[j as int]);
            assert(schema@.skip(j as int).drop_first() =~= schema@.skip(j as int + 1));
        }
        j = j + 1;
    }
    proof {
        assert(schema@.skip(schema@.len() as int).len() == 0);
        assert(resolved@ =~= spec_resolved(schema@, supplied@));
    }
    Ok(resolved)
}

/// With every schema field given a default, no field can be missing,
/// whatever was supplied.
pub proof fn lemma_no_missing_when_all_defaulted(schema: Seq<FieldSpec>, supplied: Seq<ConfigField>)
    requires
        forall|i: int| 0 <= i < schema.len() ==> (#[trigger] schema[i]).default is Some,
    ensures
        first_missing(schema, supplied) is None,
    decreases schema.len(),
{
    if schema.len() > 0 {
        assert(schema[0].default is Some);
        assert forall|i: int| 0 <= i < schema.drop_first().len() implies (#[trigger] schema.drop_first()[i]).default is Some by {
            assert(schema.drop_first()[i] == schema[i + 1]);
        }
        lemma_no_missing_when_all_defaulted(schema.drop_first(), supplied);
    }
}

/// Law: for a plugin type whose every declared field has a default,
/// resolving an empty supplied configuration succeeds and yields exactly the
/// declared defaults, in schema order.
pub proof fn lemma_empty_supplied_yields_defaults(schema: Seq<FieldSpec>)
    requires
        forall|i: int| 0 <= i < schema.len() ==> (#[trigger] schema[i]).default is Some,
    ensures
        offending_field(schema, Seq::<ConfigField>::empty()) is None,
        spec_resolved(schema, Seq::<ConfigField>::empty()).len() == schema.len(),
        forall|i: int| 0 <= i < schema.len()
            ==> (#[trigger] spec_resolved(schema, Seq::<ConfigField>::empty())[i]).name
                == schema[i].name
            && spec_resolved(schema, Seq::<ConfigField>::empty())[i].value == schema[i].default->0,
{
    lemma_no_missing_when_all_defaulted(schema, Seq::<ConfigField>::empty());
    assert forall|i: int| 0 <= i < schema.len()
        implies (#[trigger] spec_resolved(schema, Seq::<ConfigField>::empty())[i]).name
            == schema[i].name
        && spec_resolved(schema, Seq::<ConfigField>::empty())[i].value == schema[i].default->0 by {
        assert(lookup(Seq::<ConfigField>::empty(), schema[i].name@) is None);
    }
}

/// A schema field that resolves to nothing makes some field missing.
pub proof fn lemma_unresolved_field_is_missing(schema: Seq<FieldSpec>, supplied: Seq<ConfigField>, i: int)
    requires
        0 <= i < schema.len(),
        resolved_value(schema[i], supplied) is None,
    ensures
        first_missing(schema, supplied) is Some,
    decreases schema.len(),
{
    if resolved_value(schema[0], supplied) is None {
    } else {
        assert(schema.drop_first()[i - 1] == schema[i]);
        lemma_unresolved_field_is_missing(schema.drop_first(), supplied, i - 1);
    }
}

/// Law: a required field — one with no declared default — that is absent
/// from the supplied configuration makes resolution fail: some field is
/// offending, so `resolve` returns `ConfigInvalid` rather than substituting
/// a placeholder.
pub proof fn lemma_missing_required_field_fails(schema: Seq<FieldSpec>, supplied: Seq<ConfigField>, i: int)
    requires
        0 <= i < schema.len(),
        schema[i].default is None,
        lookup(supplied, schema[i].name@) is None,
    ensures
        offending_field(schema, supplied) is Some,
{
    lemma_unresolved_field_is_missing(schema, supplied, i);
}

} // verus!
