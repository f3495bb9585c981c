use vstd::prelude::*;

use crate::locator::{opt_view, same_text, ColumnLocator, LocatorView};
use crate::registry::{ColumnSettingsUpdate, Expression, UpdateView};
use crate::tabs::ColumnSettingsTab;

verus! {

/// Where the settings panel opens next.
pub struct OpenColumnSettings {
    pub locator: ColumnLocator,
    pub tab: ColumnSettingsTab,
}

/// A save: the update to apply, and where the panel opens after it.
pub struct SaveOutcome {
    pub update: ColumnSettingsUpdate,
    pub reopen: OpenColumnSettings,
}

/// The name a saved expression goes by: the header's, or else its own text.
pub open spec fn saved_name(header: Option<Seq<char>>, text: Seq<char>) -> Seq<char> {
    match header {
        Some(h) => h,
        None => text,
    }
}

/// The update that saves `text` for the column `col`; none for a data column.
pub open spec fn save_update(col: LocatorView, header: Option<Seq<char>>, text: Seq<char>) -> Option<
    UpdateView,
> {
    match col {
        LocatorView::Plain(_) => None,
        LocatorView::Expr(None) => Some(UpdateView::Insert(saved_name(header, text), text)),
        LocatorView::Expr(Some(old)) => Some(
            UpdateView::Replace(old, saved_name(header, text), text),
        ),
    }
}

/// The update that removes the column `col`; only a saved expression has one.
pub open spec fn delete_update(col: LocatorView) -> Option<UpdateView> {
    match col {
        LocatorView::Expr(Some(name)) => Some(UpdateView::Remove(name)),
        _ => None,
    }
}

/// The update that renames `col` to the header's name, when there is a new one.
pub open spec fn rename_update(col: LocatorView, header: Option<Seq<char>>) -> Option<UpdateView> {
    match (col.name(), header) {
        (Some(old), Some(new)) => if old != new {
            Some(UpdateView::Rename(old, new))
        } else {
            None
        },
        _ => None,
    }
}

/// The save of `text` for the column `col`, named by `header_value` when
/// there is one. A new expression is inserted, a saved one replaced, and the
/// panel opens again on the expression's Attributes tab under its new name.
/// A data column cannot be saved as an expression: `None`.
pub fn save_expr(col: &ColumnLocator, header_value: &Option<String>, text: &String) -> (r: Option<
    SaveOutcome,
>)
    ensures
        match r {
            Some(o) => save_update(col@, opt_view(*header_value), text@) == Some(o.update@)
                && o.reopen.locator@ == LocatorView::Expr(
                Some(saved_name(opt_view(*header_value), text@)),
            ) && o.reopen.tab == ColumnSettingsTab::Attributes,
            None => save_update(col@, opt_view(*header_value), text@) is None,
        },
{
    let name = match header_value {
        Some(h) => h.clone(),
        None => text.clone(),
    };
    let reopen = OpenColumnSettings {
        locator: ColumnLocator::Expr(Some(name.clone())),
        tab: ColumnSettingsTab::Attributes,
    };
    let expr = Expression { name, text: text.clone() };
    match col {
        ColumnLocator::Plain(_) => None,
        ColumnLocator::Expr(None) => Some(
            SaveOutcome { update: ColumnSettingsUpdate::InsertExpression(expr), reopen },
        ),
        ColumnLocator::Expr(Some(old_name)) => Some(
            SaveOutcome {
                update: ColumnSettingsUpdate::ReplaceExpression { old_name: old_name.clone(), expr },
                reopen,
            },
        ),
    }
}

/// The removal of the column `col`, which must be a saved expression; otherwise `None`.
pub fn delete_expr(col: &ColumnLocator) -> (r: Option<ColumnSettingsUpdate>)
    ensures
        match r {
            Some(u) => delete_update(col@) == Some(u@),
            None => delete_update(col@) is None,
        },
{
    match col {
        ColumnLocator::Expr(Some(name)) => Some(ColumnSettingsUpdate::RemoveExpression(name.clone())),
        _ => None,
    }
}

/// The renaming of `col` to `header_value`, when both have a name and they differ.
pub fn rename_expr(col: &ColumnLocator, header_value: &Option<String>) -> (r: Option<
    ColumnSettingsUpdate,
>)
    ensures
        match r {
            Some(u) => rename_update(col@, opt_view(*header_value)) == Some(u@),
            None => rename_update(col@, opt_view(*header_value)) is None,
        },
{
    match (col.name(), header_value) {
        (Some(old), Some(new)) => if same_text(old, new) {
            None
        } else {
            Some(ColumnSettingsUpdate::RenameColumn { old_name: old.clone(), new_name: new.clone() })
        },
        _ => None,
    }
}

} // verus!
