use vstd::prelude::*;

use crate::attributes::{delete_update, save_update, saved_name};
use crate::editor::{
    after_header, after_reset, after_save, after_set, after_validate, initial_text, opened,
    EditorView,
};
use crate::locator::LocatorView;
use crate::registry::{applied, lookup, update_error};
use crate::sidebar::{editor_for, SidebarView};

verus! {

/// The editor after the drafts `vals` are typed in turn.
pub open spec fn after_sets(v: EditorView, vals: Seq<Seq<char>>) -> EditorView
    decreases vals.len(),
{
    if vals.len() == 0 {
        v
    } else {
        after_set(after_sets(v, vals.drop_last()), vals.last())
    }
}

/// Every step of the editor keeps its invariant.
pub proof fn law_steps_keep_invariant(
    v: EditorView,
    val: Seq<char>,
    id: nat,
    err: Option<Seq<char>>,
    valid_alias: bool,
    alias_changed: bool,
)
    requires
        v.wf(),
    ensures
        v.can_issue() ==> after_set(v, val).wf(),
        after_validate(v, id, err).wf(),
        v.can_issue() ==> after_reset(v).wf(),
        after_save(v).wf(),
        after_header(v, valid_alias, alias_changed).wf(),
{
}

/// An editor opens in a state that meets its invariant.
pub proof fn law_opened_is_wf(
    alias: Option<Seq<char>>,
    stored: Option<Seq<char>>,
    disabled: bool,
    valid_alias: bool,
    latest: nat,
)
    requires
        latest <= u64::MAX,
    ensures
        opened(alias, stored, disabled, valid_alias, latest).wf(),
{
}

/// Typing drafts numbers each request after the last, and keeps the invariant.
pub proof fn law_sets_number_requests(v: EditorView, vals: Seq<Seq<char>>)
    requires
        v.wf(),
        v.latest + vals.len() <= u64::MAX,
    ensures
        after_sets(v, vals).wf(),
        !v.disabled ==> after_sets(v, vals).latest == v.latest + vals.len(),
        v.disabled ==> after_sets(v, vals) == v,
        after_sets(v, vals).disabled == v.disabled,
    decreases vals.len(),
{
    if vals.len() > 0 {
        law_sets_number_requests(v, vals.drop_last());
    }
}

/// However many drafts were typed, only the answer to the request issued
/// last can change validation or the offer to save: an answer to any other
/// request leaves the editor as it was.
pub proof fn law_only_latest_answer_counts(
    v: EditorView,
    vals: Seq<Seq<char>>,
    id: nat,
    err: Option<Seq<char>>,
)
    requires
        v.wf(),
        v.latest + vals.len() <= u64::MAX,
        id != after_sets(v, vals).latest,
    ensures
        after_validate(after_sets(v, vals), id, err) == after_sets(v, vals),
{
    law_sets_number_requests(v, vals);
}

/// Save is never offered while the draft is not known to be valid.
pub proof fn law_save_needs_valid(v: EditorView)
    requires
        v.wf(),
    ensures
        !(v.validation is Valid) ==> !v.save_enabled,
{
}

/// After a reset the draft is the registered text (empty for a new
/// expression) and reset is no longer offered. Where reset was not offered
/// the editor is left as it was, so the draft is the registered text only if
/// it already was.
pub proof fn law_reset_restores(v: EditorView)
    requires
        v.wf(),
        v.reset_enabled || v.expr == initial_text(v.original),
    ensures
        after_reset(v).expr == initial_text(v.original),
        !after_reset(v).reset_enabled,
{
}

/// A new expression, not saved yet, cannot be deleted: no update is made,
/// and asking changes nothing.
pub proof fn law_new_expression_not_deleted(col: LocatorView)
    requires
        col.is_new_expr(),
    ensures
        delete_update(col) is None,
{
}

/// Saving an expression and opening the panel again under the name it was
/// saved as, once the session has applied the update, shows the saved text
/// as the registered one, with neither save nor reset offered.
pub proof fn law_save_round_trip(s: SidebarView, reg: Map<Seq<char>, Seq<char>>, latest: nat)
    requires
        s.wf(),
        s.column.is_expr(),
        s.editor.save_enabled,
        update_error(reg, save_update(s.column, s.header.current, s.editor.expr)->0) is None,
    ensures
        ({
            let u = save_update(s.column, s.header.current, s.editor.expr)->0;
            let name = saved_name(s.header.current, s.editor.expr);
            let e = editor_for(LocatorView::Expr(Some(name)), lookup(applied(reg, u), name), latest);
            &&& e.original == Some(s.editor.expr)
            &&& e.expr == s.editor.expr
            &&& !e.save_enabled
            &&& !e.reset_enabled
        }),
{
}

} // verus!
