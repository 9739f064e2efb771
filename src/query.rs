//! Queries of the management API: paging, an optional sort and filter criteria.
use vstd::prelude::*;

verus! {

/// Declares serde_json's `Value`, which a criterion carries as its right operand
/// without looking inside.
#[verifier::external_type_specification]
#[verifier::external_body]
pub struct ExValue(serde_json::Value);

/// The page size of a query that sets none.
pub const DEFAULT_LIMIT: i32 = 50;

#[derive(PartialEq, Eq, Structural, Clone, Copy, Debug)]
pub enum SortOrder {
    Asc,
    Desc,
}

/// The field to sort by and the direction.
pub struct Sort {
    field: String,
    order: SortOrder,
}

/// One filter condition: left operand, operator, right operand.
pub struct Criterion {
    operand_left: String,
    operator: String,
    operand_right: serde_json::Value,
}

/// A query: where the page starts, how long it is, an optional sort and the
/// filter conditions in the order they were added.
pub struct Query {
    offset: i32,
    limit: i32,
    sort: Option<Sort>,
    filter_expression: Vec<Criterion>,
}

/// Builds a [`Query`] step by step, starting from the default one.
pub struct QueryBuilder(Query);

/// A criterion as plain values.
pub struct CriterionView {
    pub left: Seq<char>,
    pub operator: Seq<char>,
    pub right: serde_json::Value,
}

/// A query as plain values.
pub struct QueryView {
    pub offset: i32,
    pub limit: i32,
    pub sort: Option<(Seq<char>, SortOrder)>,
    pub filters: Seq<CriterionView>,
}

impl View for Sort {
    type V = (Seq<char>, SortOrder);

    closed spec fn view(&self) -> (Seq<char>, SortOrder) {
        (self.field@, self.order)
    }
}

impl View for Criterion {
    type V = CriterionView;

    closed spec fn view(&self) -> CriterionView {
        CriterionView { left: self.operand_left@, operator: self.operator@, right: self.operand_right }
    }
}

impl View for Query {
    type V = QueryView;

    closed spec fn view(&self) -> QueryView {
        QueryView {
            offset: self.offset,
            limit: self.limit,
            sort: match self.sort {
                Some(s) => Some(s@),
                None => None,
            },
            filters: self.filter_expression@.map_values(|c: Criterion| c@),
        }
    }
}

impl View for QueryBuilder {
    type V = QueryView;

    closed spec fn view(&self) -> QueryView {
        self.0@
    }
}

/// The first page with the default size, unsorted and unfiltered.
pub open spec fn default_query() -> QueryView {
    QueryView { offset: 0, limit: DEFAULT_LIMIT, sort: None, filters: Seq::empty() }
}

impl Sort {
    pub fn new(field: String, order: SortOrder) -> (r: Sort)
        ensures
            r@ == (field@, order),
    {
        Sort { field, order }
    }

    pub fn field(&self) -> (r: &str)
        ensures
            r@ == self@.0,
    {
        self.field.as_str()
    }

    pub fn order(&self) -> (r: SortOrder)
        ensures
            r == self@.1,
    {
        self.order
    }
}

impl Criterion {
    pub fn new(operand_left: &str, operator: &str, operand_right: serde_json::Value) -> (r: Criterion)
        ensures
            r@.left == operand_left@,
            r@.operator == operator@,
            r@.right == operand_right,
    {
        Criterion {
            operand_left: operand_left.to_owned(),
            operator: operator.to_owned(),
            operand_right,
        }
    }

    pub fn operand_left(&self) -> (r: &str)
        ensures
            r@ == self@.left,
    {
        self.operand_left.as_str()
    }

    pub fn operator(&self) -> (r: &str)
        ensures
            r@ == self@.operator,
    {
        self.operator.as_str()
    }

    pub fn operand_right(&self) -> (r: &serde_json::Value)
        ensures
            *r == self@.right,
    {
        &self.operand_right
    }
}

impl Default for Query {
    fn default() -> (r: Query)
        ensures
            r@ == default_query(),
    {
        let q = Query { offset: 0, limit: DEFAULT_LIMIT, sort: None, filter_expression: Vec::new() };
        assert(q@.filters =~= Seq::<CriterionView>::empty());
        q
    }
}

impl Query {
    /// A builder that starts from the default query.
    pub fn builder() -> (r: QueryBuilder)
        ensures
            r@ == default_query(),
    {
        QueryBuilder(Query::default())
    }

    pub fn offset(&self) -> (r: i32)
        ensures
            r == self@.offset,
    {
        self.offset
    }

    pub fn limit(&self) -> (r: i32)
        ensures
            r == self@.limit,
    {
        self.limit
    }

    pub fn sort(&self) -> (r: Option<&Sort>)
        ensures
            match r {
                Some(s) => self@.sort == Some(s@),
                None => self@.sort is None,
            },
    {
        self.sort.as_ref()
    }

    pub fn filter_expression(&self) -> (r: &[Criterion])
        ensures
            r@.map_values(|c: Criterion| c@) == self@.filters,
    {
        self.filter_expression.as_slice()
    }
}

impl QueryBuilder {
    /// Adds the condition `left operator right` after those already there.
    pub fn filter(self, left: &str, operator: &str, right: serde_json::Value) -> (r: QueryBuilder)
        ensures
            r@ == (QueryView {
                filters: self@.filters.push((CriterionView { left: left@, operator: operator@, right })),
                ..self@
            }),
    {
        let QueryBuilder(mut q) = self;
        let c = Criterion::new(left, operator, right);
        let ghost before = q.filter_expression@;
        q.filter_expression.push(c);
        assert(q.filter_expression@.map_values(|c: Criterion| c@) =~= before.map_values(
            |c: Criterion| c@,
        ).push(c@));
        QueryBuilder(q)
    }

    /// Sorts by `field` in `order`, replacing any earlier sort.
    pub fn sort(self, field: &str, order: SortOrder) -> (r: QueryBuilder)
        ensures
            r@ == (QueryView { sort: Some((field@, order)), ..self@ }),
    {
        let QueryBuilder(mut q) = self;
        q.sort = Some(Sort::new(field.to_owned(), order));
        QueryBuilder(q)
    }

    pub fn limit(self, limit: i32) -> (r: QueryBuilder)
        ensures
            r@ == (QueryView { limit, ..self@ }),
    {
        let QueryBuilder(mut q) = self;
        q.limit = limit;
        QueryBuilder(q)
    }

    pub fn offset(self, offset: i32) -> (r: QueryBuilder)
        ensures
            r@ == (QueryView { offset, ..self@ }),
    {
        let QueryBuilder(mut q) = self;
        q.offset = offset;
        QueryBuilder(q)
    }

    pub fn build(self) -> (r: Query)
        ensures
            r@ == self@,
    {
        self.0
    }
}

} // verus!
