use vstd::prelude::*;

verus! {

/// A column reference as it appears in a generated query's sort clause: a
/// plain column name, optionally qualified by a table alias.
///
/// The query builder that consumes the sort clause owns richer column
/// representations; this crate only compares columns for identity and
/// attaches a direction to each one.
#[derive(Debug)]
pub struct Column {
    pub alias: Option<String>,
    pub name: String,
}

/// The mathematical value of a `Column`: its alias and name as character
/// sequences.
pub struct ColumnModel {
    pub alias: Option<Seq<char>>,
    pub name: Seq<char>,
}

impl View for Column {
    type V = ColumnModel;

    open spec fn view(&self) -> ColumnModel {
        ColumnModel { alias: self.alias.deep_view(), name: self.name@ }
    }
}

impl Column {
    /// Builds an unqualified column reference from a plain name.
    pub fn named(name: &str) -> (c: Column)
        ensures
            c@ == (ColumnModel { alias: None, name: name@ }),
    {
        Column { alias: None, name: name.to_owned() }
    }

    /// Builds an alias-qualified column reference from an `(alias, name)`
    /// pair.
    pub fn aliased(alias: &str, name: &str) -> (c: Column)
        ensures
            c@ == (ColumnModel { alias: Some(alias@), name: name@ }),
    {
        Column { alias: Some(alias.to_owned()), name: name.to_owned() }
    }
}

impl Clone for Column {
    fn clone(&self) -> (c: Column)
        ensures
            c@ == self@,
    {
        Column {
            alias: match &self.alias {
                Some(a) => Some(a.clone()),
                None => None,
            },
            name: self.name.clone(),
        }
    }
}

impl PartialEq for Column {
    fn eq(&self, other: &Column) -> (r: bool) {
        let names_equal = self.name == other.name;
        match (&self.alias, &other.alias) {
            (Some(a), Some(b)) => names_equal && *a == *b,
            (None, None) => names_equal,
            _ => false,
        }
    }
}

impl vstd::std_specs::cmp::PartialEqSpecImpl for Column {
    open spec fn obeys_eq_spec() -> bool {
        true
    }

    open spec fn eq_spec(&self, other: &Column) -> bool {
        self@ == other@
    }
}

} // verus!
