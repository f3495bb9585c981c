use vstd::prelude::*;

verus! {

/// Which column the settings panel applies to.
#[derive(Debug)]
pub enum ColumnLocator {
    /// A column of the underlying data.
    Plain(String),
    /// A computed column; `None` is a new expression not saved yet.
    Expr(Option<String>),
}

/// Mathematical form of a [`ColumnLocator`].
pub enum LocatorView {
    Plain(Seq<char>),
    Expr(Option<Seq<char>>),
}

/// Views an optional string as an optional character sequence.
pub open spec fn opt_view(o: Option<String>) -> Option<Seq<char>> {
    match o {
        Some(s) => Some(s@),
        None => None,
    }
}

pub open spec fn opt_ref_view(o: Option<&String>) -> Option<Seq<char>> {
    match o {
        Some(s) => Some(s@),
        None => None,
    }
}

impl View for ColumnLocator {
    type V = LocatorView;

    open spec fn view(&self) -> LocatorView {
        match self {
            ColumnLocator::Plain(n) => LocatorView::Plain(n@),
            ColumnLocator::Expr(n) => LocatorView::Expr(opt_view(*n)),
        }
    }
}

impl LocatorView {
    /// The name that the column is registered under, if it has one.
    pub open spec fn name(self) -> Option<Seq<char>> {
        match self {
            LocatorView::Plain(n) => Some(n),
            LocatorView::Expr(n) => n,
        }
    }

    pub open spec fn is_expr(self) -> bool {
        self is Expr
    }

    /// An expression that has not been saved yet.
    pub open spec fn is_new_expr(self) -> bool {
        self == LocatorView::Expr(None)
    }
}

/// Exact equality of two strings by their characters.
pub fn same_text(a: &String, b: &String) -> (r: bool)
    ensures
        r == (a@ == b@),
{
    a.eq(b)
}

/// Exact equality of two optional strings.
pub fn same_opt_text(a: &Option<String>, b: &Option<String>) -> (r: bool)
    ensures
        r == (opt_view(*a) == opt_view(*b)),
{
    match (a, b) {
        (Some(x), Some(y)) => same_text(x, y),
        (None, None) => true,
        _ => false,
    }
}

impl ColumnLocator {
    /// The column's name, if it has one.
    pub fn name(&self) -> (r: Option<&String>)
        ensures
            opt_ref_view(r) == self@.name(),
    {
        match self {
            ColumnLocator::Plain(n) => Some(n),
            ColumnLocator::Expr(n) => n.as_ref(),
        }
    }

    /// Whether the column is computed by an expression, saved or not.
    pub fn is_expr(&self) -> (r: bool)
        ensures
            r == self@.is_expr(),
    {
        match self {
            ColumnLocator::Expr(_) => true,
            ColumnLocator::Plain(_) => false,
        }
    }

    /// Whether the column is a new expression that has not been saved.
    pub fn is_new_expr(&self) -> (r: bool)
        ensures
            r == self@.is_new_expr(),
    {
        match self {
            ColumnLocator::Expr(None) => true,
            _ => false,
        }
    }

    /// Whether two locators name the same column in the same way.
    pub fn same_as(&self, other: &ColumnLocator) -> (r: bool)
        ensures
            r == (self@ == other@),
    {
        match (self, other) {
            (ColumnLocator::Plain(a), ColumnLocator::Plain(b)) => same_text(a, b),
            (ColumnLocator::Expr(a), ColumnLocator::Expr(b)) => same_opt_text(a, b),
            _ => false,
        }
    }

    /// A copy with the same view.
    pub fn duplicate(&self) -> (r: ColumnLocator)
        ensures
            r@ == self@,
    {
        match self {
            ColumnLocator::Plain(n) => ColumnLocator::Plain(n.clone()),
            ColumnLocator::Expr(Some(n)) => ColumnLocator::Expr(Some(n.clone())),
            ColumnLocator::Expr(None) => ColumnLocator::Expr(None),
        }
    }
}

/// Copies an optional string, keeping its view.
pub fn clone_opt(o: &Option<String>) -> (r: Option<String>)
    ensures
        opt_view(r) == opt_view(*o),
{
    match o {
        Some(s) => Some(s.clone()),
        None => None,
    }
}

/// The type of a column's values as the view reports it.
#[derive(Debug, Clone, Copy, PartialEq, Eq, Structural)]
pub enum ColumnType {
    Integer,
    Float,
    String,
    Bool,
    Date,
    Datetime,
}

} // verus!
