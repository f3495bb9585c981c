use vstd::prelude::*;

use crate::locator::{clone_opt, opt_view, same_opt_text, ColumnLocator, LocatorView};
use crate::tabs::ColumnSettingsTab;

verus! {

/// The name shown, and editable, in the panel's header.
pub struct HeaderState {
    pub current: Option<String>,
    pub initial: Option<String>,
}

/// Mathematical form of a [`HeaderState`].
pub struct HeaderView {
    pub current: Option<Seq<char>>,
    pub initial: Option<Seq<char>>,
}

impl View for HeaderState {
    type V = HeaderView;

    open spec fn view(&self) -> HeaderView {
        HeaderView { current: opt_view(self.current), initial: opt_view(self.initial) }
    }
}

impl HeaderState {
    /// A header showing `name`, unedited.
    pub fn new(name: &String) -> (r: HeaderState)
        ensures
            r@.current == Some(name@),
            r@.initial == Some(name@),
    {
        HeaderState { current: Some(name.clone()), initial: Some(name.clone()) }
    }

    /// Takes the name the user typed.
    pub fn set(&mut self, value: Option<String>)
        ensures
            final(self)@.current == opt_view(value),
            final(self)@.initial == old(self)@.initial,
    {
        self.current = value;
    }

    /// Whether the name shown differs from the column's own.
    pub fn changed(&self) -> (r: bool)
        ensures
            r == (self@.current != self@.initial),
    {
        !same_opt_text(&self.current, &self.initial)
    }

    /// Shows the column's own name again.
    pub fn restore(&mut self)
        ensures
            final(self)@.current == old(self)@.initial,
            final(self)@.initial == old(self)@.initial,
    {
        self.current = clone_opt(&self.initial);
    }
}

/// Whether the header's name may be edited: only for an expression, on its Attributes tab.
pub open spec fn header_editable(col: LocatorView, tab: ColumnSettingsTab) -> bool {
    col.is_expr() && tab == ColumnSettingsTab::Attributes
}

/// Whether the header's name may be edited with `tab` open.
pub fn column_settings_header_editable(col: &ColumnLocator, tab: ColumnSettingsTab) -> (r: bool)
    ensures
        r == header_editable(col@, tab),
{
    col.is_expr() && tab == ColumnSettingsTab::Attributes
}

} // verus!
