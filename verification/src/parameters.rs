//! Query parameters: result columns, and how the parameters a user passes
//! are laid out.

use vstd::prelude::*;

use crate::connection_pool::str_eq;
use crate::errors::{PSQLPyResult, RustPSQLDriverError};
use crate::query::strings_view;
use crate::text::push_str;

verus! {

/// A column of a query's result.
#[derive(Clone, Debug)]
pub struct Column {
    name: String,
    table_oid: Option<u32>,
}

impl Column {
    pub closed spec fn spec_name(&self) -> Seq<char> {
        self.name@
    }

    pub closed spec fn spec_table_oid(&self) -> Option<u32> {
        self.table_oid
    }

    pub fn new(name: String, table_oid: Option<u32>) -> (c: Self)
        ensures
            c.spec_name() == name@,
            c.spec_table_oid() == table_oid,
    {
        Self { name, table_oid }
    }

    /// The column's name.
    pub fn get_name(&self) -> (n: String)
        ensures
            n@ == self.spec_name(),
    {
        self.name.clone()
    }

    /// The OID of the table the column comes from, if any.
    pub fn get_table_oid(&self) -> (oid: Option<u32>)
        ensures
            oid == self.spec_table_oid(),
    {
        self.table_oid
    }
}

/// How the parameters a user passed are laid out.
#[derive(Clone, Copy, Debug, PartialEq, Eq, Structural)]
pub enum ParametersLayout {
    /// No parameters.
    Empty,
    /// A sequence: the n-th value binds `$n`.
    Sequence,
    /// A mapping: values are taken by the query's parameter names.
    Mapping,
}

/// How parameters are laid out, from what they are: none at all, a
/// sequence, or a mapping for a query that names its parameters. Anything
/// else is refused.
pub fn parameters_layout(
    is_none: bool,
    is_sequence: bool,
    is_mapping: bool,
    has_parameter_names: bool,
) -> (r: PSQLPyResult<ParametersLayout>)
    ensures
        is_none ==> r == Ok::<ParametersLayout, RustPSQLDriverError>(ParametersLayout::Empty),
        !is_none && is_sequence && !is_mapping ==> r == Ok::<ParametersLayout, RustPSQLDriverError>(ParametersLayout::Sequence),
        !is_none && !is_sequence && is_mapping && has_parameter_names ==> r == Ok::<ParametersLayout, RustPSQLDriverError>(ParametersLayout::Mapping),
        !is_none && !(is_sequence && !is_mapping) && !(!is_sequence && is_mapping && has_parameter_names) ==> (r matches Err(e)
            && e matches RustPSQLDriverError::PyToRustValueConversionError(m)
            && m@ == "Parameters must be sequence or mapping"@),
{
    if is_none {
        Ok(ParametersLayout::Empty)
    } else if is_sequence && !is_mapping {
        Ok(ParametersLayout::Sequence)
    } else if !is_sequence && is_mapping && has_parameter_names {
        Ok(ParametersLayout::Mapping)
    } else {
        Err(RustPSQLDriverError::PyToRustValueConversionError("Parameters must be sequence or mapping".to_owned()))
    }
}

/// The error for a parameter name the mapping lacks.
pub fn missing_parameter_error(param_name: &str) -> (e: RustPSQLDriverError)
    ensures
        e matches RustPSQLDriverError::PyToRustValueConversionError(m)
            && m@ == "Cannot find parameter with name <"@ + param_name@ + ">"@,
{
    let mut m = String::new();
    push_str(&mut m, "Cannot find parameter with name <");
    push_str(&mut m, param_name);
    push_str(&mut m, ">");
    assert(m@ =~= "Cannot find parameter with name <"@ + param_name@ + ">"@);
    RustPSQLDriverError::PyToRustValueConversionError(m)
}

/// Where each named parameter is found among the keys of the mapping the
/// user passed, in the order of the query's parameter names. The first
/// name that no key matches is refused.
pub fn extract_parameters(parameters_names: &Vec<String>, keys: &Vec<String>) -> (r: PSQLPyResult<Vec<usize>>)
    ensures
        (forall|i: int| 0 <= i < parameters_names@.len() ==> #[trigger] strings_view(keys@).contains(parameters_names@[i]@))
            ==> (r matches Ok(pos) && pos@.len() == parameters_names@.len()
                && forall|i: int| 0 <= i < pos@.len() ==> #[trigger] pos@[i] < keys@.len()
                    && keys@[pos@[i] as int]@ == parameters_names@[i]@),
        (exists|i: int| 0 <= i < parameters_names@.len()
            && !strings_view(keys@).contains(#[trigger] parameters_names@[i]@)) ==> r is Err,
        r is Err ==> exists|i: int| 0 <= i < parameters_names@.len()
            && !strings_view(keys@).contains(parameters_names@[i]@)
            && (forall|k: int| 0 <= k < i ==> #[trigger] strings_view(keys@).contains(parameters_names@[k]@))
            && (r matches Err(RustPSQLDriverError::PyToRustValueConversionError(m))
                && m@ == "Cannot find parameter with name <"@ + parameters_names@[i]@ + ">"@),
{
    let mut pos: Vec<usize> = Vec::new();
    let mut i: usize = 0;
    while i < parameters_names.len()
        invariant
            i <= parameters_names.len(),
            pos@.len() == i,
            forall|k: int| 0 <= k < i ==> #[trigger] pos@[k] < keys@.len() && keys@[pos@[k] as int]@ == parameters_names@[k]@,
            forall|k: int| 0 <= k < i ==> #[trigger] strings_view(keys@).contains(parameters_names@[k]@),
        decreases parameters_names.len() - i,
    {
        let mut j: usize = 0;
        let mut found: Option<usize> = None;
        while j < keys.len() && found.is_none()
            invariant
                j <= keys.len(),
                i < parameters_names.len(),
                found matches Some(p) ==> p < keys@.len() && keys@[p as int]@ == parameters_names@[i as int]@,
                found is None ==> forall|k: int| 0 <= k < j ==> keys@[k]@ != parameters_names@[i as int]@,
            decreases keys.len() - j,
        {
            if str_eq(keys[j].as_str(), parameters_names[i].as_str()) {
                found = Some(j);
            }
            j = j + 1;
        }
        match found {
            Some(p) => {
                assert(strings_view(keys@)[p as int] == parameters_names@[i as int]@);
                pos.push(p);
            },
            None => {
                assert(!strings_view(keys@).contains(parameters_names@[i as int]@)) by {
                    if strings_view(keys@).contains(parameters_names@[i as int]@) {
                        let k = choose|k: int| 0 <= k < strings_view(keys@).len() && strings_view(keys@)[k] == parameters_names@[i as int]@;
                        assert(keys@[k]@ == parameters_names@[i as int]@);
                    }
                }
                let e = missing_parameter_error(parameters_names[i].as_str());
                return Err(e);
            },
        }
        i = i + 1;
    }
    Ok(pos)
}

} // verus!
