//! The AQL requests that the service sends to ArangoDB, as plain values: the
//! query text, its bind variables and the batch size asked for. The
//! application turns each into a request of the database driver.

use vstd::prelude::*;

verus! {

/// The value of a bind variable.
pub enum BindValue {
    /// A string.
    Text(String),
    /// An integer.
    Number(i64),
    /// A list of strings.
    TextList(Vec<String>),
    /// A JSON document, as its text.
    Json(String),
}

/// What a bind variable's value is, as mathematical values.
pub enum BindValueView {
    Text(Seq<char>),
    Number(int),
    TextList(Seq<Seq<char>>),
    Json(Seq<char>),
}

impl View for BindValue {
    type V = BindValueView;

    open spec fn view(&self) -> BindValueView {
        match self {
            BindValue::Text(s) => BindValueView::Text(s@),
            BindValue::Number(n) => BindValueView::Number(*n as int),
            BindValue::TextList(v) => BindValueView::TextList(v.deep_view()),
            BindValue::Json(s) => BindValueView::Json(s@),
        }
    }
}

/// An AQL query with its bind variables and the batch size asked for
/// (none where the query sets none).
pub struct AqlRequest {
    pub query: String,
    pub bind_vars: Vec<(String, BindValue)>,
    pub batch_size: Option<u32>,
}

/// The mathematical content of an [`AqlRequest`].
pub struct AqlView {
    pub query: Seq<char>,
    pub bind_vars: Seq<(Seq<char>, BindValueView)>,
    pub batch_size: Option<u32>,
}

impl View for AqlRequest {
    type V = AqlView;

    open spec fn view(&self) -> AqlView {
        AqlView {
            query: self.query@,
            bind_vars: self.bind_vars@.map_values(|p: (String, BindValue)| (p.0@, p.1@)),
            batch_size: self.batch_size,
        }
    }
}

impl AqlRequest {
    /// A request for `query`, with no bind variable and no batch size.
    pub fn new(query: &str) -> (r: AqlRequest)
        ensures
            r@ == (AqlView { query: query@, bind_vars: Seq::empty(), batch_size: None }),
    {
        let r = AqlRequest { query: query.to_owned(), bind_vars: Vec::new(), batch_size: None };
        assert(r@.bind_vars =~= Seq::<(Seq<char>, BindValueView)>::empty());
        r
    }

    /// A request for the query text `query`, with no bind variable and no
    /// batch size.
    pub fn from_text(query: String) -> (r: AqlRequest)
        ensures
            r@ == (AqlView { query: query@, bind_vars: Seq::empty(), batch_size: None }),
    {
        let r = AqlRequest { query, bind_vars: Vec::new(), batch_size: None };
        assert(r@.bind_vars =~= Seq::<(Seq<char>, BindValueView)>::empty());
        r
    }

    /// The same request with one more bind variable.
    pub fn bind_var(self, name: &str, value: BindValue) -> (r: AqlRequest)
        ensures
            r@ == (AqlView { bind_vars: self@.bind_vars.push((name@, value@)), ..self@ }),
    {
        let mut vars = self.bind_vars;
        let ghost before = vars@;
        vars.push((name.to_owned(), value));
        let r = AqlRequest { query: self.query, bind_vars: vars, batch_size: self.batch_size };
        assert(r@.bind_vars =~= self@.bind_vars.push((name@, value@)));
        r
    }

    /// The same request with the batch size `size`.
    pub fn batch_size(self, size: u32) -> (r: AqlRequest)
        ensures
            r@ == (AqlView { batch_size: Some(size), ..self@ }),
    {
        AqlRequest { query: self.query, bind_vars: self.bind_vars, batch_size: Some(size) }
    }
}

} // verus!
