//! The order-by model of the query layer: what a query orders its results
//! by (a scalar field, an aggregation over a relation path, or a relevance
//! score), in which direction, and how that direction maps onto the SQL
//! layer's ordering values.

use vstd::prelude::*;

use quaint::ast::Order;

verus! {

/// A reference to one scalar field of a model.
#[derive(Debug, PartialEq, Eq, Hash)]
pub struct ScalarFieldRef {
    pub name: String,
}

impl Clone for ScalarFieldRef {
    fn clone(&self) -> (res: Self)
        ensures
            res == *self,
    {
        ScalarFieldRef { name: self.name.clone() }
    }
}

/// A reference to one relation field, carrying the scalar fields of the
/// primary identifier of the model the relation points to.
#[derive(Debug, PartialEq, Eq, Hash)]
pub struct RelationFieldRef {
    pub name: String,
    pub related_id_fields: Vec<ScalarFieldRef>,
}

/// The mathematical value of a [`RelationFieldRef`].
pub ghost struct RelationFieldView {
    pub name: Seq<char>,
    pub related_id_fields: Seq<ScalarFieldRef>,
}

impl View for RelationFieldRef {
    type V = RelationFieldView;

    open spec fn view(&self) -> RelationFieldView {
        RelationFieldView { name: self.name@, related_id_fields: self.related_id_fields@ }
    }
}

impl Clone for RelationFieldRef {
    fn clone(&self) -> (res: Self)
        ensures
            res@ == self@,
    {
        let mut ids: Vec<ScalarFieldRef> = Vec::new();
        let n = self.related_id_fields.len();
        let mut i: usize = 0;
        while i < n
            invariant
                n == self.related_id_fields@.len(),
                0 <= i <= n,
                ids@ =~= self.related_id_fields@.subrange(0, i as int),
            decreases n - i,
        {
            ids.push(self.related_id_fields[i].clone());
            i = i + 1;
        }
        proof {
            assert(ids@ =~= self.related_id_fields@);
        }
        RelationFieldRef { name: self.name.clone(), related_id_fields: ids }
    }
}

/// The values of a relation path, element by element.
pub open spec fn rel_fields_view(s: Seq<RelationFieldRef>) -> Seq<RelationFieldView> {
    s.map_values(|f: RelationFieldRef| f@)
}

fn clone_relation_fields(v: &Vec<RelationFieldRef>) -> (r: Vec<RelationFieldRef>)
    ensures
        r@.len() == v@.len(),
        forall|i: int| 0 <= i < v@.len() ==> #[trigger] r@[i]@ == v@[i]@,
{
    let mut r: Vec<RelationFieldRef> = Vec::new();
    let n = v.len();
    let mut i: usize = 0;
    while i < n
        invariant
            n == v@.len(),
            0 <= i <= n,
            r@.len() == i,
            forall|j: int| 0 <= j < i ==> #[trigger] r@[j]@ == v@[j]@,
        decreases n - i,
    {
        r.push(v[i].clone());
        i = i + 1;
    }
    r
}

/// The direction a query orders by.
#[derive(Clone, Copy, PartialEq, Debug, Eq, Structural, Hash)]
pub enum SortOrder {
    Ascending,
    Descending,
}

/// The aggregate a query may order by.
#[derive(Clone, Copy, PartialEq, Debug, Eq, Structural, Hash)]
pub enum SortAggregation {
    Count,
    Avg,
    Sum,
    Min,
    Max,
}

/// An ordering by the value of a scalar field, possibly reached over a
/// relation path.
#[derive(Debug, PartialEq, Eq, Hash)]
pub struct OrderByScalar {
    pub field: ScalarFieldRef,
    pub path: Vec<RelationFieldRef>,
    pub sort_order: SortOrder,
}

/// An ordering by an aggregate over the records a relation path reaches.
#[derive(Debug, PartialEq, Eq, Hash)]
pub struct OrderByAggregation {
    pub path: Vec<RelationFieldRef>,
    pub sort_order: SortOrder,
    pub sort_aggregation: SortAggregation,
}

/// An ordering by a full-text relevance score over a field.
#[derive(Debug, PartialEq, Eq, Hash)]
pub struct OrderByRelevance {
    pub field: ScalarFieldRef,
    pub sort_order: SortOrder,
}

/// One element of a query's order-by list.
#[derive(Debug, PartialEq, Eq, Hash)]
pub enum OrderBy {
    Scalar(OrderByScalar),
    Aggregation(OrderByAggregation),
    Relevance(OrderByRelevance),
}

/// The relation path an ordering traverses; an ordering by relevance
/// traverses none.
pub open spec fn spec_path(o: OrderBy) -> Seq<RelationFieldRef> {
    match o {
        OrderBy::Scalar(s) => s.path@,
        OrderBy::Aggregation(a) => a.path@,
        OrderBy::Relevance(_) => Seq::empty(),
    }
}

/// The direction of an ordering.
pub open spec fn spec_sort_order(o: OrderBy) -> SortOrder {
    match o {
        OrderBy::Scalar(s) => s.sort_order,
        OrderBy::Aggregation(a) => a.sort_order,
        OrderBy::Relevance(r) => r.sort_order,
    }
}

/// An aggregation ordering names a field only where its path is non-empty
/// and the related model has an identifier field.
pub open spec fn spec_aggregation_field_defined(a: OrderByAggregation) -> bool {
    a.path@.len() > 0 && a.path@.last()@.related_id_fields.len() > 0
}

/// The field an aggregation ordering is about: the first identifier field of
/// the model its path ends at.
pub open spec fn spec_aggregation_field(a: OrderByAggregation) -> ScalarFieldRef {
    a.path@.last()@.related_id_fields[0]
}

/// Whether the ordering names a field at all.
pub open spec fn spec_field_defined(o: OrderBy) -> bool {
    match o {
        OrderBy::Aggregation(a) => spec_aggregation_field_defined(a),
        _ => true,
    }
}

/// The field an ordering is about.
pub open spec fn spec_field(o: OrderBy) -> ScalarFieldRef {
    match o {
        OrderBy::Scalar(s) => s.field,
        OrderBy::Aggregation(a) => spec_aggregation_field(a),
        OrderBy::Relevance(r) => r.field,
    }
}

impl OrderByAggregation {
    /// The field this ordering aggregates towards: the first identifier
    /// field of the model its relation path ends at.
    pub fn field(&self) -> (r: ScalarFieldRef)
        requires
            spec_aggregation_field_defined(*self),
        ensures
            r == spec_aggregation_field(*self),
    {
        let last = &self.path[self.path.len() - 1];
        let id = &last.related_id_fields[0];
        id.clone()
    }
}

impl OrderBy {
    /// The relation path this ordering traverses, as a fresh vector.
    pub fn path(&self) -> (r: Vec<RelationFieldRef>)
        ensures
            rel_fields_view(r@) == rel_fields_view(spec_path(*self)),
    {
        let r = match self {
            OrderBy::Scalar(o) => clone_relation_fields(&o.path),
            OrderBy::Aggregation(o) => clone_relation_fields(&o.path),
            OrderBy::Relevance(_) => Vec::new(),
        };
        proof {
            assert(rel_fields_view(r@) =~= rel_fields_view(spec_path(*self)));
        }
        r
    }

    /// The direction of this ordering.
    pub fn sort_order(&self) -> (r: SortOrder)
        ensures
            r == spec_sort_order(*self),
    {
        match self {
            OrderBy::Scalar(o) => o.sort_order,
            OrderBy::Aggregation(o) => o.sort_order,
            OrderBy::Relevance(o) => o.sort_order,
        }
    }

    /// The field this ordering is about.
    pub fn field(&self) -> (r: ScalarFieldRef)
        requires
            spec_field_defined(*self),
        ensures
            r == spec_field(*self),
    {
        match self {
            OrderBy::Scalar(o) => o.field.clone(),
            OrderBy::Aggregation(o) => o.field(),
            OrderBy::Relevance(o) => o.field.clone(),
        }
    }

    /// An ordering by a scalar field.
    pub fn scalar(field: ScalarFieldRef, path: Vec<RelationFieldRef>, sort_order: SortOrder) -> (r:
        Self)
        ensures
            r == OrderBy::Scalar(OrderByScalar { field, path, sort_order }),
    {
        Self::Scalar(OrderByScalar { field, path, sort_order })
    }

    /// An ordering by an aggregate over a relation path.
    pub fn aggregation(
        path: Vec<RelationFieldRef>,
        sort_order: SortOrder,
        sort_aggregation: SortAggregation,
    ) -> (r: Self)
        ensures
            r == OrderBy::Aggregation(OrderByAggregation { path, sort_order, sort_aggregation }),
    {
        Self::Aggregation(OrderByAggregation { path, sort_order, sort_aggregation })
    }

    /// The ordering a bare scalar field stands for: by that field, ascending,
    /// over no relation path.
    pub fn from(field: ScalarFieldRef) -> (r: Self)
        ensures
            r matches OrderBy::Scalar(o) && o.field == field && o.path@
                == Seq::<RelationFieldRef>::empty() && o.sort_order == SortOrder::Ascending,
    {
        Self::Scalar(OrderByScalar { field, path: Vec::new(), sort_order: SortOrder::Ascending })
    }
}

/// How a sort order is written in SQL.
pub open spec fn spec_sort_order_text(s: SortOrder) -> Seq<char> {
    match s {
        SortOrder::Ascending => "ASC"@,
        SortOrder::Descending => "DESC"@,
    }
}

/// Relies on quaint's `Order`, the ordering value of its SQL syntax tree;
/// declared so that it can stand in signatures, and otherwise opaque here.
#[verifier::external_type_specification]
#[verifier::external_body]
pub struct ExOrder(Order);

/// Whether a value of the SQL layer's ordering enum is its ascending
/// variant.
pub uninterp spec fn is_ascending(o: Order) -> bool;

/// Relies on quaint's `Order::Asc` constructor: it yields the ascending
/// variant.
#[verifier::external_body]
fn order_asc() -> (r: Order)
    ensures
        is_ascending(r),
{
    Order::Asc
}

/// Relies on quaint's `Order::Desc` constructor: it yields the descending
/// variant, which is distinct from the ascending one.
#[verifier::external_body]
fn order_desc() -> (r: Order)
    ensures
        !is_ascending(r),
{
    Order::Desc
}

impl SortOrder {
    /// The SQL-layer ordering this direction stands for, flipped where the
    /// surrounding query is read in reverse.
    pub fn into_order(self, reverse: bool) -> (r: Order)
        ensures
            is_ascending(r) == ((self is Ascending) != reverse),
    {
        match (self, reverse) {
            (SortOrder::Ascending, false) => order_asc(),
            (SortOrder::Descending, false) => order_desc(),
            (SortOrder::Ascending, true) => order_desc(),
            (SortOrder::Descending, true) => order_asc(),
        }
    }

    /// How this direction is written in SQL.
    pub fn to_string(&self) -> (r: String)
        ensures
            r@ == spec_sort_order_text(*self),
    {
        match self {
            SortOrder::Ascending => String::from_str("ASC"),
            SortOrder::Descending => String::from_str("DESC"),
        }
    }
}

} // verus!
