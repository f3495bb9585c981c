use vstd::prelude::*;

use crate::attributes::{
    delete_expr, delete_update, rename_expr, rename_update, save_expr, save_update, saved_name,
    SaveOutcome,
};
use crate::editor::{
    after_header, after_reset, after_save, after_set, after_validate, initial_text, opened,
    EditorView, ExpressionEditor, ExpressionEditorProps, StoredEdit, ValidationRequest,
    ValidationView,
};
use crate::header::{column_settings_header_editable, header_editable, HeaderState, HeaderView};
use crate::locator::{clone_opt, opt_view, ColumnLocator, ColumnType, LocatorView};
use crate::registry::ColumnSettingsUpdate;
use crate::tabs::{
    available_tabs, first_tab, shown_index, tabs_for, ColumnSettingsTab, PluginStyle, TabSelection,
};

verus! {

/// The text registered for `col` that its editor opens on: only a saved
/// expression has one.
pub open spec fn seeded(col: LocatorView, stored: Option<Seq<char>>) -> Option<Seq<char>> {
    match col {
        LocatorView::Expr(Some(_)) => stored,
        _ => None,
    }
}

/// The editor of a panel opened on `col`, numbering requests after `latest`.
pub open spec fn editor_for(col: LocatorView, stored: Option<Seq<char>>, latest: nat) -> EditorView {
    opened(col.name(), seeded(col, stored), !col.is_expr(), true, latest)
}

/// Mathematical form of a [`ColumnSettingsSidebar`].
pub struct SidebarView {
    pub column: LocatorView,
    pub column_name: Seq<char>,
    pub ty: Option<ColumnType>,
    pub tabs: Seq<ColumnSettingsTab>,
    pub selection: TabSelection,
    pub header: HeaderView,
    pub header_valid: bool,
    pub placeholder: Seq<char>,
    pub editor: EditorView,
}

impl SidebarView {
    /// The panel's invariant: the editor works on the selected column and
    /// knows whether the header's name may be used.
    pub open spec fn wf(self) -> bool {
        &&& self.editor.wf()
        &&& self.editor.alias == self.column.name()
        &&& self.editor.disabled == !self.column.is_expr()
        &&& self.editor.valid_alias == self.header_valid
    }
}

/// The column settings panel: the selected column, its tabs, its header and
/// its expression editor.
pub struct ColumnSettingsSidebar {
    selected_column: ColumnLocator,
    column_name: String,
    ty: Option<ColumnType>,
    tabs: Vec<ColumnSettingsTab>,
    selection: TabSelection,
    header: HeaderState,
    header_valid: bool,
    placeholder: String,
    editor: ExpressionEditor,
}

impl View for ColumnSettingsSidebar {
    type V = SidebarView;

    closed spec fn view(&self) -> SidebarView {
        SidebarView {
            column: self.selected_column@,
            column_name: self.column_name@,
            ty: self.ty,
            tabs: self.tabs@,
            selection: self.selection,
            header: self.header@,
            header_valid: self.header_valid,
            placeholder: self.placeholder@,
            editor: self.editor@,
        }
    }
}

fn editor_props(col: &ColumnLocator, stored: &Option<String>, valid_alias: bool, alias_changed: bool) -> (r:
    ExpressionEditorProps)
    ensures
        opt_view(r.alias) == col@.name(),
        opt_view(r.stored) == seeded(col@, opt_view(*stored)),
        r.disabled == !col@.is_expr(),
        r.valid_alias == valid_alias,
        r.alias_changed == alias_changed,
{
    let alias = match col.name() {
        Some(n) => Some(n.clone()),
        None => None,
    };
    let seeded = match col {
        ColumnLocator::Expr(Some(_)) => clone_opt(stored),
        _ => None,
    };
    ExpressionEditorProps {
        alias,
        stored: seeded,
        disabled: !col.is_expr(),
        valid_alias,
        alias_changed,
    }
}

impl ColumnSettingsSidebar {
    /// Opens the panel on `col`, shown as `column_name`, of type `ty`, under
    /// a plugin that styles columns as `plugin` says. `stored` is the text
    /// registered under the column's name, if any.
    pub fn open(
        col: &ColumnLocator,
        column_name: &String,
        stored: &Option<String>,
        ty: Option<ColumnType>,
        plugin: &PluginStyle,
    ) -> (r: ColumnSettingsSidebar)
        ensures
            r@.wf(),
            r@.column == col@,
            r@.column_name == column_name@,
            r@.ty == ty,
            r@.tabs == tabs_for(col@, ty, *plugin),
            r@.selection.index == 0,
            r@.header.current == Some(column_name@),
            r@.header.initial == Some(column_name@),
            r@.header_valid,
            r@.placeholder == initial_text(seeded(col@, opt_view(*stored))),
            r@.editor == editor_for(col@, opt_view(*stored), 0),
    {
        let tabs = available_tabs(col, ty, plugin);
        let selection = TabSelection::first(&tabs);
        let props = editor_props(col, stored, true, false);
        let placeholder = props.initial_expr();
        let editor = ExpressionEditor::create(&props);
        ColumnSettingsSidebar {
            selected_column: col.duplicate(),
            column_name: column_name.clone(),
            ty,
            tabs,
            selection,
            header: HeaderState::new(column_name),
            header_valid: true,
            placeholder,
            editor,
        }
    }

    /// Moves the panel to another column. The header shows the new name,
    /// the editor starts afresh on it (answers meant for the last column are
    /// ignored), and the tab stays selected only if the tabs keep their shape.
    pub fn select_column(
        &mut self,
        col: &ColumnLocator,
        column_name: &String,
        stored: &Option<String>,
        ty: Option<ColumnType>,
        plugin: &PluginStyle,
    )
        requires
            old(self)@.wf(),
        ensures
            final(self)@.wf(),
            final(self)@.column == col@,
            final(self)@.column_name == column_name@,
            final(self)@.ty == ty,
            final(self)@.tabs == tabs_for(col@, ty, *plugin),
            old(self)@.tabs == final(self)@.tabs ==> final(self)@.selection == old(self)@.selection,
            old(self)@.tabs != final(self)@.tabs ==> final(self)@.selection.index == 0
                && final(self)@.selection.tab == first_tab(final(self)@.tabs),
            final(self)@.header.current == Some(column_name@),
            final(self)@.header.initial == Some(column_name@),
            final(self)@.header_valid,
            final(self)@.placeholder == initial_text(seeded(col@, opt_view(*stored))),
            final(self)@.editor == editor_for(col@, opt_view(*stored), old(self)@.editor.latest),
    {
        let tabs = available_tabs(col, ty, plugin);
        self.selection.retarget(&self.tabs, &tabs);
        self.tabs = tabs;
        let props = editor_props(col, stored, true, false);
        self.placeholder = props.initial_expr();
        self.editor.reopen(&props);
        self.selected_column = col.duplicate();
        self.column_name = column_name.clone();
        self.ty = ty;
        self.header = HeaderState::new(column_name);
        self.header_valid = true;
    }

    /// The column's type changed: the tabs are worked out again, and the
    /// selection survives only if they keep their shape.
    pub fn set_column_type(&mut self, ty: Option<ColumnType>, plugin: &PluginStyle)
        requires
            old(self)@.wf(),
        ensures
            final(self)@ == (SidebarView {
                ty,
                tabs: tabs_for(old(self)@.column, ty, *plugin),
                selection: final(self)@.selection,
                ..old(self)@
            }),
            old(self)@.tabs == final(self)@.tabs ==> final(self)@.selection == old(self)@.selection,
            old(self)@.tabs != final(self)@.tabs ==> final(self)@.selection.index == 0
                && final(self)@.selection.tab == first_tab(final(self)@.tabs),
            final(self)@.wf(),
    {
        let tabs = available_tabs(&self.selected_column, ty, plugin);
        self.selection.retarget(&self.tabs, &tabs);
        self.tabs = tabs;
        self.ty = ty;
    }

    /// Opens the tab at `index`; an index past the tabs changes nothing.
    pub fn select_tab(&mut self, index: usize) -> (r: bool)
        requires
            old(self)@.wf(),
        ensures
            r == (index < old(self)@.tabs.len()),
            r ==> final(self)@ == (SidebarView {
                selection: TabSelection { index, tab: old(self)@.tabs[index as int] },
                ..old(self)@
            }),
            !r ==> final(self)@ == old(self)@,
            final(self)@.wf(),
    {
        if index < self.tabs.len() {
            self.selection = TabSelection { index, tab: self.tabs[index] };
            true
        } else {
            false
        }
    }

    /// Takes the name typed in the header, and whether it may be used.
    pub fn set_header(&mut self, value: Option<String>, valid: bool)
        requires
            old(self)@.wf(),
        ensures
            final(self)@ == (SidebarView {
                header: HeaderView { current: opt_view(value), initial: old(self)@.header.initial },
                header_valid: valid,
                editor: after_header(
                    old(self)@.editor,
                    valid,
                    opt_view(value) != old(self)@.header.initial,
                ),
                ..old(self)@
            }),
            final(self)@.wf(),
    {
        self.header.set(value);
        self.header_valid = valid;
        let changed = self.header.changed();
        self.editor.header_changed(valid, changed);
    }

    /// Takes a new draft of the expression; see [`ExpressionEditor::set_expr`].
    pub fn input(&mut self, text: String) -> (r: Option<ValidationRequest>)
        requires
            old(self)@.wf(),
            old(self)@.editor.can_issue(),
        ensures
            final(self)@.editor == after_set(old(self)@.editor, text@),
            final(self)@ == (SidebarView {
                placeholder: if old(self)@.editor.disabled {
                    old(self)@.placeholder
                } else {
                    text@
                },
                editor: final(self)@.editor,
                ..old(self)@
            }),
            match r {
                Some(req) => !old(self)@.editor.disabled
                    && req.id as nat == final(self)@.editor.latest && req.expr@ == text@,
                None => old(self)@.editor.disabled,
            },
            final(self)@.wf(),
    {
        let r = self.editor.set_expr(text);
        if let Some(req) = &r {
            self.placeholder = req.expr.clone();
        }
        r
    }

    /// Takes the answer to validation request `id`; see
    /// [`ExpressionEditor::validate_complete`].
    pub fn validated(&mut self, id: u64, err: Option<String>) -> (r: Option<StoredEdit>)
        requires
            old(self)@.wf(),
        ensures
            final(self)@ == (SidebarView {
                editor: after_validate(old(self)@.editor, id as nat, opt_view(err)),
                ..old(self)@
            }),
            match r {
                Some(e) => old(self)@.editor.validation == ValidationView::Validating(id as nat)
                    && err is None && old(self)@.editor.alias == Some(e.alias@)
                    && e.expr@ == old(self)@.editor.expr,
                None => !(old(self)@.editor.validation == ValidationView::Validating(id as nat)
                    && err is None && old(self)@.editor.alias is Some
                    && old(self)@.editor.original is Some),
            },
            final(self)@.wf(),
    {
        self.editor.validate_complete(id, err)
    }

    /// Puts the registered text back, and the column's own name in the
    /// header; see [`ExpressionEditor::reset`].
    pub fn reset(&mut self) -> (r: Option<ValidationRequest>)
        requires
            old(self)@.wf(),
            old(self)@.editor.can_issue(),
        ensures
            match r {
                Some(req) => old(self)@.editor.reset_enabled && final(self)@ == (SidebarView {
                    header: HeaderView {
                        current: old(self)@.header.initial,
                        initial: old(self)@.header.initial,
                    },
                    placeholder: req.expr@,
                    editor: after_reset(old(self)@.editor),
                    ..old(self)@
                }) && req.id as nat == final(self)@.editor.latest && req.expr@ == initial_text(
                    old(self)@.editor.original,
                ),
                None => !old(self)@.editor.reset_enabled && final(self)@ == old(self)@,
            },
            final(self)@.wf(),
    {
        let r = self.editor.reset();
        if let Some(req) = &r {
            self.header.restore();
            self.placeholder = req.expr.clone();
        }
        r
    }

    /// Saves the draft: the update to apply and where the panel opens
    /// next. Where save is not offered, nothing changes and `None` comes back.
    pub fn save(&mut self) -> (r: Option<SaveOutcome>)
        requires
            old(self)@.wf(),
        ensures
            final(self)@ == (SidebarView { editor: after_save(old(self)@.editor), ..old(self)@ }),
            match r {
                Some(o) => old(self)@.editor.save_enabled && save_update(
                    old(self)@.column,
                    old(self)@.header.current,
                    old(self)@.editor.expr,
                ) == Some(o.update@) && o.reopen.locator@ == LocatorView::Expr(
                    Some(saved_name(old(self)@.header.current, old(self)@.editor.expr)),
                ) && o.reopen.tab == ColumnSettingsTab::Attributes,
                None => !old(self)@.editor.save_enabled,
            },
            final(self)@.wf(),
    {
        match self.editor.save() {
            Some(text) => save_expr(&self.selected_column, &self.header.current, &text),
            None => None,
        }
    }

    /// The removal of the selected column, after which the panel closes.
    /// Only a saved expression can be removed: otherwise `None`, and nothing
    /// changes.
    pub fn delete(&self) -> (r: Option<ColumnSettingsUpdate>)
        requires
            self@.wf(),
        ensures
            match r {
                Some(u) => delete_update(self@.column) == Some(u@),
                None => delete_update(self@.column) is None,
            },
    {
        delete_expr(&self.selected_column)
    }

    /// The renaming of the selected column to the header's name, if it has
    /// a new one.
    pub fn rename(&self) -> (r: Option<ColumnSettingsUpdate>)
        ensures
            match r {
                Some(u) => rename_update(self@.column, self@.header.current) == Some(u@),
                None => rename_update(self@.column, self@.header.current) is None,
            },
    {
        rename_expr(&self.selected_column, &self.header.current)
    }

    pub fn editor(&self) -> (r: &ExpressionEditor)
        ensures
            r@ == self@.editor,
    {
        &self.editor
    }

    pub fn tabs(&self) -> (r: &Vec<ColumnSettingsTab>)
        ensures
            r@ == self@.tabs,
    {
        &self.tabs
    }

    pub fn selection(&self) -> (r: TabSelection)
        ensures
            r == self@.selection,
    {
        self.selection
    }

    /// The tab whose content is shown, if any tab is offered.
    pub fn shown_tab(&self) -> (r: Option<ColumnSettingsTab>)
        ensures
            self@.tabs.len() == 0 ==> r is None,
            self@.tabs.len() > 0 ==> r == Some(
                self@.tabs[shown_index(self@.selection, self@.tabs.len()) as int],
            ),
    {
        self.selection.shown_tab(&self.tabs)
    }

    pub fn header(&self) -> (r: &HeaderState)
        ensures
            r@ == self@.header,
    {
        &self.header
    }

    /// Whether the header's name may be edited with the current tab open.
    pub fn header_editable(&self) -> (r: bool)
        ensures
            r == header_editable(self@.column, self@.selection.tab),
    {
        column_settings_header_editable(&self.selected_column, self.selection.tab)
    }

    /// The text shown in the header when it is empty: the latest draft.
    pub fn placeholder(&self) -> (r: &String)
        ensures
            r@ == self@.placeholder,
    {
        &self.placeholder
    }

    pub fn selected_column(&self) -> (r: &ColumnLocator)
        ensures
            r@ == self@.column,
    {
        &self.selected_column
    }

    pub fn column_type(&self) -> (r: Option<ColumnType>)
        ensures
            r == self@.ty,
    {
        self.ty
    }
}

} // verus!
