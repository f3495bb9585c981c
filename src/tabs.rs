use vstd::prelude::*;

use crate::locator::{ColumnLocator, ColumnType, LocatorView};

verus! {

/// A tab of the column settings panel.
#[derive(Debug, Clone, Copy, PartialEq, Eq, Structural)]
pub enum ColumnSettingsTab {
    Attributes,
    Style,
}

pub open spec fn tab_label(t: ColumnSettingsTab) -> Seq<char> {
    match t {
        ColumnSettingsTab::Attributes => "Attributes"@,
        ColumnSettingsTab::Style => "Style"@,
    }
}

impl ColumnSettingsTab {
    /// The label shown for the tab.
    pub fn label(&self) -> (r: &'static str)
        ensures
            r@ == tab_label(*self),
    {
        match self {
            ColumnSettingsTab::Attributes => "Attributes",
            ColumnSettingsTab::Style => "Style",
        }
    }

    /// The tab selected when nothing else is asked for.
    pub fn default_tab() -> (r: ColumnSettingsTab)
        ensures
            r == ColumnSettingsTab::Attributes,
    {
        ColumnSettingsTab::Attributes
    }
}

/// What the active visualization offers for styling a single column.
pub struct PluginStyle {
    /// Whether the plugin exposes per-column style configuration at all.
    pub has_column_config: bool,
    /// The column types whose columns may be styled.
    pub styled_types: Vec<ColumnType>,
}

impl PluginStyle {
    /// Whether columns of type `ty` may be styled.
    pub open spec fn styles(&self, ty: ColumnType) -> bool {
        self.styled_types@.contains(ty)
    }

    /// The data grid styles every column except booleans.
    pub fn datagrid(has_column_config: bool) -> (r: PluginStyle)
        ensures
            r.has_column_config == has_column_config,
            forall|t: ColumnType| r.styles(t) <==> t != ColumnType::Bool,
    {
        let styled_types = vec![
            ColumnType::Integer,
            ColumnType::Float,
            ColumnType::String,
            ColumnType::Date,
            ColumnType::Datetime,
        ];
        let r = PluginStyle { has_column_config, styled_types };
        assert forall|t: ColumnType| r.styles(t) <==> t != ColumnType::Bool by {
            if t != ColumnType::Bool {
                match t {
                    ColumnType::Integer => assert(r.styled_types@[0] == t),
                    ColumnType::Float => assert(r.styled_types@[1] == t),
                    ColumnType::String => assert(r.styled_types@[2] == t),
                    ColumnType::Date => assert(r.styled_types@[3] == t),
                    ColumnType::Datetime => assert(r.styled_types@[4] == t),
                    ColumnType::Bool => {},
                }
            }
        }
        r
    }

    /// The scatter chart styles string columns only.
    pub fn xy_scatter(has_column_config: bool) -> (r: PluginStyle)
        ensures
            r.has_column_config == has_column_config,
            forall|t: ColumnType| r.styles(t) <==> t == ColumnType::String,
    {
        let r = PluginStyle { has_column_config, styled_types: vec![ColumnType::String] };
        assert(r.styled_types@[0] == ColumnType::String);
        r
    }

    /// A plugin without any column styling.
    pub fn unstyled() -> (r: PluginStyle)
        ensures
            !r.has_column_config,
            forall|t: ColumnType| !r.styles(t),
    {
        PluginStyle { has_column_config: false, styled_types: Vec::new() }
    }

    /// Whether columns of type `ty` may be styled.
    pub fn styles_type(&self, ty: ColumnType) -> (r: bool)
        ensures
            r == self.styles(ty),
    {
        let mut i: usize = 0;
        while i < self.styled_types.len()
            invariant
                0 <= i <= self.styled_types@.len(),
                forall|j: int| 0 <= j < i ==> self.styled_types@[j] != ty,
            decreases self.styled_types@.len() - i,
        {
            if self.styled_types[i] == ty {
                return true;
            }
            i = i + 1;
        }
        false
    }
}

/// Whether the Style tab is offered for a column.
pub open spec fn shows_style(col: LocatorView, ty: Option<ColumnType>, plugin: PluginStyle) -> bool {
    &&& !col.is_new_expr()
    &&& plugin.has_column_config
    &&& match ty {
        Some(t) => plugin.styles(t),
        None => false,
    }
}

/// The tabs of the panel, in display order.
pub open spec fn tabs_for(col: LocatorView, ty: Option<ColumnType>, plugin: PluginStyle) -> Seq<
    ColumnSettingsTab,
> {
    let style: Seq<ColumnSettingsTab> = if shows_style(col, ty, plugin) {
        seq![ColumnSettingsTab::Style]
    } else {
        Seq::empty()
    };
    let attrs: Seq<ColumnSettingsTab> = if col.is_expr() {
        seq![ColumnSettingsTab::Attributes]
    } else {
        Seq::empty()
    };
    style + attrs
}

/// Computes the tabs offered for the column `col` of type `ty` under `plugin`.
pub fn available_tabs(col: &ColumnLocator, ty: Option<ColumnType>, plugin: &PluginStyle) -> (r: Vec<
    ColumnSettingsTab,
>)
    ensures
        r@ == tabs_for(col@, ty, *plugin),
{
    let mut tabs: Vec<ColumnSettingsTab> = Vec::new();
    let styled = match ty {
        Some(t) => plugin.styles_type(t),
        None => false,
    };
    if !col.is_new_expr() && plugin.has_column_config && styled {
        tabs.push(ColumnSettingsTab::Style);
    }
    if col.is_expr() {
        tabs.push(ColumnSettingsTab::Attributes);
    }
    assert(tabs@ =~= tabs_for(col@, ty, *plugin));
    tabs
}

/// Whether two tab lists are the same.
pub fn same_tabs(a: &Vec<ColumnSettingsTab>, b: &Vec<ColumnSettingsTab>) -> (r: bool)
    ensures
        r == (a@ == b@),
{
    if a.len() != b.len() {
        return false;
    }
    let mut i: usize = 0;
    while i < a.len()
        invariant
            a@.len() == b@.len(),
            0 <= i <= a@.len(),
            forall|j: int| 0 <= j < i ==> a@[j] == b@[j],
        decreases a@.len() - i,
    {
        if a[i] != b[i] {
            return false;
        }
        i = i + 1;
    }
    assert(a@ =~= b@);
    true
}

/// The tab that is open: its position among the offered tabs, and which it is.
#[derive(Debug, Clone, Copy, PartialEq, Eq, Structural)]
pub struct TabSelection {
    pub index: usize,
    pub tab: ColumnSettingsTab,
}

/// The first tab of `tabs`, or the default tab when there is none.
pub open spec fn first_tab(tabs: Seq<ColumnSettingsTab>) -> ColumnSettingsTab {
    if tabs.len() > 0 {
        tabs[0]
    } else {
        ColumnSettingsTab::Attributes
    }
}

/// Where the content area stands when `sel` is asked of `n` offered tabs.
pub open spec fn shown_index(sel: TabSelection, n: nat) -> nat {
    if sel.index >= n {
        0
    } else {
        sel.index as nat
    }
}

impl TabSelection {
    /// The selection that opens on the first of `tabs`.
    pub fn first(tabs: &Vec<ColumnSettingsTab>) -> (r: TabSelection)
        ensures
            r.index == 0,
            r.tab == first_tab(tabs@),
    {
        let tab = if tabs.len() > 0 {
            tabs[0]
        } else {
            ColumnSettingsTab::default_tab()
        };
        TabSelection { index: 0, tab }
    }

    /// Follows the offered tabs from `old_tabs` to `new_tabs`: a selection
    /// survives only when the set of tabs keeps its shape.
    pub fn retarget(&mut self, old_tabs: &Vec<ColumnSettingsTab>, new_tabs: &Vec<ColumnSettingsTab>)
        ensures
            old_tabs@ == new_tabs@ ==> *final(self) == *old(self),
            old_tabs@ != new_tabs@ ==> final(self).index == 0 && final(self).tab == first_tab(
                new_tabs@,
            ),
    {
        if !same_tabs(old_tabs, new_tabs) {
            *self = TabSelection::first(new_tabs);
        }
    }

    /// The position shown among `n` offered tabs; out of range falls back to the first.
    pub fn shown(&self, n: usize) -> (r: usize)
        ensures
            r == shown_index(*self, n as nat),
    {
        if self.index >= n {
            0
        } else {
            self.index
        }
    }

    /// The tab shown among `tabs`, or `None` when no tab is offered.
    pub fn shown_tab(&self, tabs: &Vec<ColumnSettingsTab>) -> (r: Option<ColumnSettingsTab>)
        ensures
            tabs@.len() == 0 ==> r is None,
            tabs@.len() > 0 ==> r == Some(tabs@[shown_index(*self, tabs@.len()) as int]),
    {
        if tabs.len() == 0 {
            None
        } else {
            Some(tabs[self.shown(tabs.len())])
        }
    }
}

} // verus!
