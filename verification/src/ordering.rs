use vstd::prelude::*;

use crate::column::{Column, ColumnModel};

verus! {

/// A sort direction requested for a column, or resolved for the emitted
/// sort clause.
#[derive(Clone, Copy, PartialEq, Eq, Structural, Debug)]
pub enum SortOrder {
    Ascending,
    Descending,
}

/// The order that `reverse` turns `order` into: the opposite direction.
pub open spec fn reversed(order: SortOrder) -> SortOrder {
    match order {
        SortOrder::Ascending => SortOrder::Descending,
        SortOrder::Descending => SortOrder::Ascending,
    }
}

/// The direction a column is sorted by once the reverse directive is
/// applied: `reverse` flips the base order, and otherwise the base order
/// stands.
pub open spec fn resolved_direction(base: SortOrder, reverse: bool) -> SortOrder {
    if reverse {
        reversed(base)
    } else {
        base
    }
}

/// Directives the caller derives from the query's pagination state.
///
/// `reverse` asks the query to invert its effective sort direction (the
/// caller re-reverses the returned rows); `needs_implicit_tiebreak` asks
/// for a deterministic tie-breaker column even when no explicit sort was
/// requested.
#[derive(Clone, Copy, PartialEq, Eq, Structural, Debug)]
pub struct OrderDirectives {
    pub reverse: bool,
    pub needs_implicit_tiebreak: bool,
}

/// A sortable field, resolved by the model-metadata layer: the column it
/// maps to, and its bare database name for alias-qualified use.
#[derive(Debug)]
pub struct Field {
    pub column: Column,
    pub db_name: String,
}

/// A user-requested sort: a field and the direction to sort it by.
#[derive(Debug)]
pub struct OrderBy {
    pub field: Field,
    pub sort_order: SortOrder,
}

/// The part of a model this crate reads: the column of its identifier
/// field, which serves as the deterministic tie-breaker.
#[derive(Debug)]
pub struct Model {
    pub id_column: Column,
}

/// The ordered sort specifications a caller splices into a query's sort
/// clause: the first entry is the primary sort key, later entries are
/// tie-breakers.
pub type OrderVec = Vec<(Column, Option<SortOrder>)>;

/// The sort clause owed for the given inputs, over column models.
///
/// A present primary column yields `[primary, secondary]` — or a single
/// entry when the two coincide — with both entries given the direction
/// that the requested order (`Ascending` when absent) resolves to under
/// the reverse directive, so the tie-breaker never contradicts the
/// primary's pagination direction. An absent primary yields the secondary
/// alone when an implicit tie-breaker is needed (base order `Ascending`),
/// and no ordering at all otherwise.
pub open spec fn ordering_model(
    primary: Option<ColumnModel>,
    secondary: ColumnModel,
    requested_order: Option<SortOrder>,
    directives: OrderDirectives,
) -> Seq<(ColumnModel, Option<SortOrder>)> {
    match primary {
        Some(first) => {
            let base = match requested_order {
                Some(order) => order,
                None => SortOrder::Ascending,
            };
            let direction = resolved_direction(base, directives.reverse);
            if first == secondary {
                seq![(secondary, Some(direction))]
            } else {
                seq![(first, Some(direction)), (secondary, Some(direction))]
            }
        },
        None => {
            if directives.needs_implicit_tiebreak {
                seq![(secondary, Some(resolved_direction(SortOrder::Ascending, directives.reverse)))]
            } else {
                Seq::empty()
            }
        },
    }
}

/// The models of the columns in a built sort clause, direction kept.
pub open spec fn order_vec_model(r: Seq<(Column, Option<SortOrder>)>) -> Seq<
    (ColumnModel, Option<SortOrder>),
> {
    Seq::new(r.len(), |i: int| (r[i].0@, r[i].1))
}

/// The model of an optional primary column.
pub open spec fn primary_model(primary: Option<Column>) -> Option<ColumnModel> {
    match primary {
        Some(c) => Some(c@),
        None => None,
    }
}

/// The primary column model an order-by specification asks for.
pub open spec fn requested_primary(order_by: Option<&OrderBy>) -> Option<ColumnModel> {
    match order_by {
        Some(oby) => Some(oby.field.column@),
        None => None,
    }
}

/// The sort order an order-by specification asks for.
pub open spec fn requested_order(order_by: Option<&OrderBy>) -> Option<SortOrder> {
    match order_by {
        Some(oby) => Some(oby.sort_order),
        None => None,
    }
}

/// Tooling for generating orderings for different query types.
pub struct Ordering;

impl Ordering {
    /// Resolves the direction a column is sorted by: `reverse` flips the
    /// base order, and otherwise the base order stands.
    pub fn resolve_direction(base: SortOrder, reverse: bool) -> (direction: SortOrder)
        ensures
            direction == resolved_direction(base, reverse),
    {
        match (base, reverse) {
            (SortOrder::Ascending, true) => SortOrder::Descending,
            (SortOrder::Descending, true) => SortOrder::Ascending,
            (order, false) => order,
        }
    }

    /// The decision core: builds the sort clause from an optional primary
    /// column, the tie-breaker column, the requested order and the
    /// directives.
    pub fn by_fields(
        first_column: Option<Column>,
        second_column: Column,
        requested_order: Option<SortOrder>,
        directives: OrderDirectives,
    ) -> (r: OrderVec)
        ensures
            order_vec_model(r@) == ordering_model(
                primary_model(first_column),
                second_column@,
                requested_order,
                directives,
            ),
    {
        let base = match requested_order {
            Some(order) => order,
            None => SortOrder::Ascending,
        };
        let mut out: OrderVec = Vec::new();
        match first_column {
            Some(first) => {
                let direction = Self::resolve_direction(base, directives.reverse);
                if first == second_column {
                    out.push((second_column, Some(direction)));
                } else {
                    out.push((first, Some(direction)));
                    out.push((second_column, Some(direction)));
                }
            },
            None => {
                if directives.needs_implicit_tiebreak {
                    let direction = Self::resolve_direction(SortOrder::Ascending, directives.reverse);
                    out.push((second_column, Some(direction)));
                }
            },
        }
        proof {
            assert(order_vec_model(out@) =~= ordering_model(
                primary_model(first_column),
                second_column@,
                requested_order,
                directives,
            ));
        }
        out
    }

    /// Builds the sort clause for a query over a model: the primary column
    /// comes from the order-by specification's field, the tie-breaker from
    /// the model's identifier column.
    pub fn for_model(model: &Model, order_by: Option<&OrderBy>, directives: OrderDirectives) -> (r:
        OrderVec)
        ensures
            order_vec_model(r@) == ordering_model(
                requested_primary(order_by),
                model.id_column@,
                requested_order(order_by),
                directives,
            ),
    {
        let first = match order_by {
            Some(oby) => Some(oby.field.column.clone()),
            None => None,
        };
        let requested = match order_by {
            Some(oby) => Some(oby.sort_order),
            None => None,
        };
        Self::by_fields(first, model.id_column.clone(), requested, directives)
    }

    /// Builds the sort clause for an internal query not anchored to a
    /// model: the tie-breaker column is supplied directly by the caller.
    pub fn internal(second_field: Column, order_by: Option<&OrderBy>, directives: OrderDirectives)
        -> (r: OrderVec)
        ensures
            order_vec_model(r@) == ordering_model(
                requested_primary(order_by),
                second_field@,
                requested_order(order_by),
                directives,
            ),
    {
        let first = match order_by {
            Some(oby) => Some(oby.field.column.clone()),
            None => None,
        };
        let requested = match order_by {
            Some(oby) => Some(oby.sort_order),
            None => None,
        };
        Self::by_fields(first, second_field, requested, directives)
    }

    /// Builds the sort clause for a joined or subselected query: both
    /// columns are alias-qualified, the primary by `alias` with the
    /// order-by field's database name, the tie-breaker by
    /// `secondary_alias` with `secondary_field`.
    pub fn aliased_internal(
        alias: &str,
        secondary_alias: &str,
        secondary_field: &str,
        order_by: Option<&OrderBy>,
        directives: OrderDirectives,
    ) -> (r: OrderVec)
        ensures
            order_vec_model(r@) == ordering_model(
                match order_by {
                    Some(oby) => Some(ColumnModel { alias: Some(alias@), name: oby.field.db_name@ }),
                    None => None,
                },
                (ColumnModel { alias: Some(secondary_alias@), name: secondary_field@ }),
                requested_order(order_by),
                directives,
            ),
    {
        let first = match order_by {
            Some(oby) => Some(Column::aliased(alias, oby.field.db_name.as_str())),
            None => None,
        };
        let second = Column::aliased(secondary_alias, secondary_field);
        let requested = match order_by {
            Some(oby) => Some(oby.sort_order),
            None => None,
        };
        Self::by_fields(first, second, requested, directives)
    }
}

/// The sort clause never holds more than two entries, whatever the inputs.
pub proof fn lemma_at_most_two_entries(
    primary: Option<ColumnModel>,
    secondary: ColumnModel,
    requested_order: Option<SortOrder>,
    directives: OrderDirectives,
)
    ensures
        ordering_model(primary, secondary, requested_order, directives).len() <= 2,
{
}

/// A primary column that differs from the tie-breaker yields exactly two
/// entries, the primary first and the tie-breaker second.
pub proof fn lemma_distinct_primary_emits_both(
    primary: ColumnModel,
    secondary: ColumnModel,
    requested_order: Option<SortOrder>,
    directives: OrderDirectives,
)
    requires
        primary != secondary,
    ensures
        ordering_model(Some(primary), secondary, requested_order, directives).len() == 2,
        ordering_model(Some(primary), secondary, requested_order, directives)[0].0 == primary,
        ordering_model(Some(primary), secondary, requested_order, directives)[1].0 == secondary,
{
}

/// A primary column equal to the tie-breaker yields exactly one entry.
pub proof fn lemma_shared_column_emits_one(
    secondary: ColumnModel,
    requested_order: Option<SortOrder>,
    directives: OrderDirectives,
)
    ensures
        ordering_model(Some(secondary), secondary, requested_order, directives).len() == 1,
{
}

/// With no primary column and no implicit tie-breaker directive, no
/// ordering is imposed, whatever the reverse directive says.
pub proof fn lemma_no_order_imposed(
    secondary: ColumnModel,
    requested_order: Option<SortOrder>,
    directives: OrderDirectives,
)
    requires
        !directives.needs_implicit_tiebreak,
    ensures
        ordering_model(None, secondary, requested_order, directives).len() == 0,
{
}

/// With no primary column but an implicit tie-breaker directive, the
/// tie-breaker is the sole entry: ascending unless the reverse directive
/// flips it to descending.
pub proof fn lemma_implicit_tiebreak(
    secondary: ColumnModel,
    requested_order: Option<SortOrder>,
    directives: OrderDirectives,
)
    requires
        directives.needs_implicit_tiebreak,
    ensures
        ordering_model(None, secondary, requested_order, directives) =~= seq![
            (
                secondary,
                Some(
                    if directives.reverse {
                        SortOrder::Descending
                    } else {
                        SortOrder::Ascending
                    },
                ),
            ),
        ],
{
}

/// Direction resolution is involutive under double reversal: reversing a
/// base order twice returns it unchanged.
pub proof fn lemma_double_reverse_is_identity(base: SortOrder)
    ensures
        resolved_direction(resolved_direction(base, true), true) == base,
{
}

} // verus!
