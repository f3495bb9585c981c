use vstd::prelude::*;

use crate::locator::{clone_opt, opt_view, same_opt_text, same_text};

verus! {

/// Where validation of the draft stands.
#[derive(Debug)]
pub enum ValidationState {
    /// Nothing has been asked yet.
    Idle,
    /// The request with this id is outstanding.
    Validating(u64),
    /// The draft was found valid.
    Valid,
    /// The draft was refused, with this message.
    Invalid(String),
}

/// Mathematical form of a [`ValidationState`].
pub enum ValidationView {
    Idle,
    Validating(nat),
    Valid,
    Invalid(Seq<char>),
}

impl View for ValidationState {
    type V = ValidationView;

    open spec fn view(&self) -> ValidationView {
        match self {
            ValidationState::Idle => ValidationView::Idle,
            ValidationState::Validating(id) => ValidationView::Validating(*id as nat),
            ValidationState::Valid => ValidationView::Valid,
            ValidationState::Invalid(m) => ValidationView::Invalid(m@),
        }
    }
}

/// What the editor is opened with.
pub struct ExpressionEditorProps {
    /// The name of the selected column, if it has one.
    pub alias: Option<String>,
    /// The text registered under `alias`, if any.
    pub stored: Option<String>,
    /// A column that is not an expression is shown read-only.
    pub disabled: bool,
    /// Whether the name in the header may be used.
    pub valid_alias: bool,
    /// Whether the name in the header differs from the one the column had.
    pub alias_changed: bool,
}

impl ExpressionEditorProps {
    /// The text the editor opens with: the registered one, or empty.
    pub fn initial_expr(&self) -> (r: String)
        ensures
            r@ == initial_text(opt_view(self.stored)),
    {
        match &self.stored {
            Some(s) => s.clone(),
            None => String::new(),
        }
    }
}

/// The text that a reset returns to.
pub open spec fn initial_text(original: Option<Seq<char>>) -> Seq<char> {
    match original {
        Some(t) => t,
        None => Seq::empty(),
    }
}

/// A request to validate `expr`, answered through the same `id`.
pub struct ValidationRequest {
    pub id: u64,
    pub expr: String,
}

/// A valid draft to be kept in the session as the live edit of `alias`.
pub struct StoredEdit {
    pub alias: String,
    pub expr: String,
}

/// Mathematical form of an [`ExpressionEditor`].
pub struct EditorView {
    pub expr: Seq<char>,
    pub original: Option<Seq<char>>,
    pub alias: Option<Seq<char>>,
    pub disabled: bool,
    pub valid_alias: bool,
    pub validation: ValidationView,
    pub save_enabled: bool,
    pub reset_enabled: bool,
    /// The id of the last validation request issued, 0 before the first.
    pub latest: nat,
}

impl EditorView {
    /// Whether the draft differs from what is registered (always, for a new expression).
    pub open spec fn is_edited(self) -> bool {
        match self.original {
            Some(o) => self.expr != o,
            None => true,
        }
    }

    /// The state's invariant.
    pub open spec fn wf(self) -> bool {
        &&& self.save_enabled ==> {
            &&& self.validation is Valid
            &&& self.is_edited()
            &&& self.valid_alias
            &&& !self.disabled
        }
        &&& self.reset_enabled ==> {
            &&& self.original is Some
            &&& self.expr != self.original->0
            &&& !self.disabled
        }
        &&& self.validation matches ValidationView::Validating(id) ==> id == self.latest
        &&& self.disabled ==> self.validation is Idle
        &&& self.latest <= u64::MAX
    }

    /// Whether another validation request can be numbered.
    pub open spec fn can_issue(self) -> bool {
        self.latest < u64::MAX
    }
}

/// The editor as it opens on `p`, numbering requests after `latest`.
pub open spec fn opened(
    alias: Option<Seq<char>>,
    stored: Option<Seq<char>>,
    disabled: bool,
    valid_alias: bool,
    latest: nat,
) -> EditorView {
    EditorView {
        expr: initial_text(stored),
        original: stored,
        alias,
        disabled,
        valid_alias,
        validation: ValidationView::Idle,
        save_enabled: false,
        reset_enabled: false,
        latest,
    }
}

/// The state after the draft is set to `val`.
pub open spec fn after_set(v: EditorView, val: Seq<char>) -> EditorView {
    if v.disabled {
        v
    } else {
        EditorView {
            expr: val,
            validation: ValidationView::Validating(v.latest + 1),
            save_enabled: false,
            reset_enabled: v.original is Some && v.original->0 != val,
            latest: v.latest + 1,
            ..v
        }
    }
}

/// The state after the answer `err` (`None` when valid) to request `id`.
pub open spec fn after_validate(v: EditorView, id: nat, err: Option<Seq<char>>) -> EditorView {
    if v.validation != ValidationView::Validating(id) {
        v
    } else {
        match err {
            Some(m) => EditorView { validation: ValidationView::Invalid(m), save_enabled: false, ..v },
            None => EditorView {
                validation: ValidationView::Valid,
                save_enabled: v.is_edited() && v.valid_alias,
                ..v
            },
        }
    }
}

/// The state after a reset.
pub open spec fn after_reset(v: EditorView) -> EditorView {
    if !v.reset_enabled {
        v
    } else {
        after_set(
            EditorView {
                expr: initial_text(v.original),
                save_enabled: false,
                reset_enabled: false,
                ..v
            },
            initial_text(v.original),
        )
    }
}

/// The state after a save.
pub open spec fn after_save(v: EditorView) -> EditorView {
    if !v.save_enabled {
        v
    } else {
        EditorView { save_enabled: false, reset_enabled: false, ..v }
    }
}

/// The state after the header's name changes its standing.
pub open spec fn after_header(v: EditorView, valid_alias: bool, alias_changed: bool) -> EditorView {
    EditorView {
        valid_alias,
        save_enabled: if !valid_alias {
            false
        } else if alias_changed {
            v.validation is Valid && v.is_edited() && !v.disabled
        } else {
            v.save_enabled
        },
        ..v
    }
}

/// What the editor is told.
pub enum ExpressionEditorMsg {
    Reset,
    Delete,
    SetExpr(String),
    ValidateComplete(u64, Option<String>),
    SaveExpr,
}

/// What the editor asks its owner to do after a message.
pub enum EditorAction {
    /// Nothing.
    Nothing,
    /// Show the new draft and validate it.
    Validate(ValidationRequest),
    /// The draft was put back: restore what goes with it, show it and validate it.
    Restored(ValidationRequest),
    /// Keep the valid draft as the live edit of its column.
    StoreEdit(StoredEdit),
    /// Save this text.
    Save(String),
    /// Remove the expression with this name.
    Delete(String),
}

/// The expression editor: a draft formula, its validation, and which of
/// save and reset are offered.
pub struct ExpressionEditor {
    expr: String,
    original: Option<String>,
    alias: Option<String>,
    disabled: bool,
    valid_alias: bool,
    validation: ValidationState,
    save_enabled: bool,
    reset_enabled: bool,
    latest: u64,
}

impl View for ExpressionEditor {
    type V = EditorView;

    closed spec fn view(&self) -> EditorView {
        EditorView {
            expr: self.expr@,
            original: opt_view(self.original),
            alias: opt_view(self.alias),
            disabled: self.disabled,
            valid_alias: self.valid_alias,
            validation: self.validation@,
            save_enabled: self.save_enabled,
            reset_enabled: self.reset_enabled,
            latest: self.latest as nat,
        }
    }
}

impl ExpressionEditor {
    /// Opens the editor on `props`, its first request numbered 1.
    pub fn create(props: &ExpressionEditorProps) -> (r: ExpressionEditor)
        ensures
            r@ == opened(
                opt_view(props.alias),
                opt_view(props.stored),
                props.disabled,
                props.valid_alias,
                0,
            ),
            r@.wf(),
    {
        ExpressionEditor {
            expr: props.initial_expr(),
            original: clone_opt(&props.stored),
            alias: clone_opt(&props.alias),
            disabled: props.disabled,
            valid_alias: props.valid_alias,
            validation: ValidationState::Idle,
            save_enabled: false,
            reset_enabled: false,
            latest: 0,
        }
    }

    /// The draft.
    pub fn expr(&self) -> (r: &String)
        ensures
            r@ == self@.expr,
    {
        &self.expr
    }

    /// The text registered for the column when the editor opened.
    pub fn original(&self) -> (r: Option<String>)
        ensures
            opt_view(r) == self@.original,
    {
        clone_opt(&self.original)
    }

    /// Where validation stands.
    pub fn validation(&self) -> (r: &ValidationState)
        ensures
            r@ == self@.validation,
    {
        &self.validation
    }

    /// The message of the last refusal, when the draft stands refused.
    pub fn error_message(&self) -> (r: Option<String>)
        ensures
            match self@.validation {
                ValidationView::Invalid(m) => opt_view(r) == Some(m),
                _ => r is None,
            },
    {
        match &self.validation {
            ValidationState::Invalid(m) => Some(m.clone()),
            _ => None,
        }
    }

    /// Whether a validation request is outstanding.
    pub fn is_validating(&self) -> (r: bool)
        ensures
            r == self@.validation is Validating,
    {
        match self.validation {
            ValidationState::Validating(_) => true,
            _ => false,
        }
    }

    pub fn save_enabled(&self) -> (r: bool)
        ensures
            r == self@.save_enabled,
    {
        self.save_enabled
    }

    pub fn reset_enabled(&self) -> (r: bool)
        ensures
            r == self@.reset_enabled,
    {
        self.reset_enabled
    }

    pub fn disabled(&self) -> (r: bool)
        ensures
            r == self@.disabled,
    {
        self.disabled
    }

    /// The id of the last validation request issued, 0 before the first.
    pub fn latest_request(&self) -> (r: u64)
        ensures
            r as nat == self@.latest,
    {
        self.latest
    }

    /// Whether another validation request can be numbered.
    pub fn can_issue(&self) -> (r: bool)
        ensures
            r == self@.can_issue(),
    {
        self.latest < u64::MAX
    }

    /// Takes `val` as the new draft. Save is withdrawn at once and a new
    /// request, numbered after every earlier one, asks to validate it.
    /// A read-only editor takes no input and answers `None`.
    pub fn set_expr(&mut self, val: String) -> (r: Option<ValidationRequest>)
        requires
            old(self)@.wf(),
            old(self)@.can_issue(),
        ensures
            final(self)@ == after_set(old(self)@, val@),
            final(self)@.wf(),
            match r {
                Some(req) => !old(self)@.disabled && req.id as nat == final(self)@.latest
                    && req.expr@ == val@,
                None => old(self)@.disabled,
            },
    {
        if self.disabled {
            return None;
        }
        let reset_enabled = match &self.original {
            Some(o) => !same_text(o, &val),
            None => false,
        };
        let id = self.latest + 1;
        self.latest = id;
        self.reset_enabled = reset_enabled;
        self.save_enabled = false;
        self.validation = ValidationState::Validating(id);
        let expr = val.clone();
        self.expr = val;
        Some(ValidationRequest { id, expr })
    }

    /// Takes the answer to request `id`: `err` is the refusal's message, or
    /// `None` when the draft is valid. An answer to any request but the
    /// outstanding one changes nothing. A valid draft of a registered column
    /// is handed back to be kept as its live edit.
    pub fn validate_complete(&mut self, id: u64, err: Option<String>) -> (r: Option<StoredEdit>)
        requires
            old(self)@.wf(),
        ensures
            final(self)@ == after_validate(old(self)@, id as nat, opt_view(err)),
            final(self)@.wf(),
            match r {
                Some(e) => old(self)@.validation == ValidationView::Validating(id as nat)
                    && err is None && old(self)@.alias == Some(e.alias@)
                    && old(self)@.original is Some && e.expr@ == old(self)@.expr,
                None => !(old(self)@.validation == ValidationView::Validating(id as nat)
                    && err is None && old(self)@.alias is Some && old(self)@.original is Some),
            },
    {
        let current = match self.validation {
            ValidationState::Validating(n) => n == id,
            _ => false,
        };
        if !current {
            return None;
        }
        match err {
            Some(m) => {
                self.validation = ValidationState::Invalid(m);
                self.save_enabled = false;
                None
            },
            None => {
                self.validation = ValidationState::Valid;
                let edited = match &self.original {
                    Some(o) => !same_text(&self.expr, o),
                    None => true,
                };
                self.save_enabled = edited && self.valid_alias;
                match (&self.alias, &self.original) {
                    (Some(a), Some(_)) => Some(StoredEdit { alias: a.clone(), expr: self.expr.clone() }),
                    _ => None,
                }
            },
        }
    }

    /// Puts the registered text back and validates it again. Where reset
    /// is not offered, nothing changes and `None` comes back.
    pub fn reset(&mut self) -> (r: Option<ValidationRequest>)
        requires
            old(self)@.wf(),
            old(self)@.can_issue(),
        ensures
            final(self)@ == after_reset(old(self)@),
            final(self)@.wf(),
            match r {
                Some(req) => old(self)@.reset_enabled && req.id as nat == final(self)@.latest
                    && req.expr@ == initial_text(old(self)@.original),
                None => !old(self)@.reset_enabled,
            },
    {
        if !self.reset_enabled {
            return None;
        }
        self.reset_enabled = false;
        self.save_enabled = false;
        let restored = match &self.original {
            Some(o) => o.clone(),
            None => String::new(),
        };
        self.expr = restored.clone();
        self.set_expr(restored)
    }

    /// Hands out the draft to be saved, and withdraws save and reset until
    /// the next edit. Where save is not offered, nothing changes and `None`
    /// comes back.
    pub fn save(&mut self) -> (r: Option<String>)
        requires
            old(self)@.wf(),
        ensures
            final(self)@ == after_save(old(self)@),
            final(self)@.wf(),
            match r {
                Some(t) => old(self)@.save_enabled && t@ == old(self)@.expr,
                None => !old(self)@.save_enabled,
            },
    {
        if !self.save_enabled {
            return None;
        }
        self.save_enabled = false;
        self.reset_enabled = false;
        Some(self.expr.clone())
    }

    /// The name of the expression to remove. Only a registered expression
    /// column can be removed; otherwise `None`.
    pub fn delete(&self) -> (r: Option<String>)
        ensures
            opt_view(r) == (if self@.disabled {
                None
            } else {
                self@.alias
            }),
    {
        if self.disabled {
            None
        } else {
            clone_opt(&self.alias)
        }
    }

    /// Whether the delete control is shown: only for a named column that
    /// nothing else in the view uses.
    pub fn delete_visible(&self, in_use: bool) -> (r: bool)
        ensures
            r == (self@.alias is Some && !in_use),
    {
        self.alias.is_some() && !in_use
    }

    /// Starts afresh on `props`, numbering requests after every one issued
    /// so far, so that no late answer meant for the old draft is taken.
    pub fn reopen(&mut self, props: &ExpressionEditorProps)
        requires
            old(self)@.wf(),
        ensures
            final(self)@.wf(),
            final(self)@ == opened(
                opt_view(props.alias),
                opt_view(props.stored),
                props.disabled,
                props.valid_alias,
                old(self)@.latest,
            ),
    {
        let latest = self.latest;
        *self = ExpressionEditor::create(props);
        self.latest = latest;
    }

    /// Takes in whether the header's name may be used and whether it
    /// differs from the column's own. An unusable name withdraws save; a
    /// changed usable one offers it again for a valid, edited draft.
    pub fn header_changed(&mut self, valid_alias: bool, alias_changed: bool)
        requires
            old(self)@.wf(),
        ensures
            final(self)@.wf(),
            final(self)@ == after_header(old(self)@, valid_alias, alias_changed),
    {
        self.valid_alias = valid_alias;
        if !valid_alias {
            self.save_enabled = false;
        } else if alias_changed {
            let edited = match &self.original {
                Some(o) => !same_text(&self.expr, o),
                None => true,
            };
            let valid = match self.validation {
                ValidationState::Valid => true,
                _ => false,
            };
            self.save_enabled = valid && edited && !self.disabled;
        }
    }

    /// Follows new props. A different column opens a fresh editor, whose
    /// requests are numbered after this one's so that no late answer reaches
    /// it; otherwise only the header's standing is taken in.
    pub fn changed(&mut self, props: &ExpressionEditorProps) -> (r: bool)
        requires
            old(self)@.wf(),
        ensures
            final(self)@.wf(),
            r == (opt_view(props.alias) != old(self)@.alias),
            r ==> final(self)@ == opened(
                opt_view(props.alias),
                opt_view(props.stored),
                props.disabled,
                props.valid_alias,
                old(self)@.latest,
            ),
            !r ==> final(self)@ == after_header(old(self)@, props.valid_alias, props.alias_changed),
    {
        if !same_opt_text(&props.alias, &self.alias) {
            self.reopen(props);
            return true;
        }
        self.header_changed(props.valid_alias, props.alias_changed);
        false
    }

    /// Handles one message and says what its owner should do next.
    pub fn update(&mut self, msg: ExpressionEditorMsg) -> (r: EditorAction)
        requires
            old(self)@.wf(),
            old(self)@.can_issue(),
        ensures
            final(self)@.wf(),
            match msg {
                ExpressionEditorMsg::SetExpr(val) => final(self)@ == after_set(old(self)@, val@) && (
                match r {
                    EditorAction::Validate(req) => req.id as nat == final(self)@.latest
                        && req.expr@ == val@,
                    EditorAction::Nothing => old(self)@.disabled,
                    _ => false,
                }),
                ExpressionEditorMsg::ValidateComplete(id, err) => final(self)@ == after_validate(
                    old(self)@,
                    id as nat,
                    opt_view(err),
                ) && (match r {
                    EditorAction::StoreEdit(e) => e.expr@ == old(self)@.expr && old(self)@.alias
                        == Some(e.alias@),
                    EditorAction::Nothing => true,
                    _ => false,
                }),
                ExpressionEditorMsg::Reset => final(self)@ == after_reset(old(self)@) && (match r {
                    EditorAction::Restored(req) => old(self)@.reset_enabled && req.id as nat
                        == final(self)@.latest && req.expr@ == initial_text(old(self)@.original),
                    EditorAction::Nothing => !old(self)@.reset_enabled,
                    _ => false,
                }),
                ExpressionEditorMsg::SaveExpr => final(self)@ == after_save(old(self)@) && (match r {
                    EditorAction::Save(t) => old(self)@.save_enabled && t@ == old(self)@.expr,
                    EditorAction::Nothing => !old(self)@.save_enabled,
                    _ => false,
                }),
                ExpressionEditorMsg::Delete => final(self)@ == old(self)@ && (match r {
                    EditorAction::Delete(n) => !old(self)@.disabled && old(self)@.alias == Some(
                        n@,
                    ),
                    EditorAction::Nothing => old(self)@.disabled || old(self)@.alias is None,
                    _ => false,
                }),
            },
    {
        match msg {
            ExpressionEditorMsg::SetExpr(val) => match self.set_expr(val) {
                Some(req) => EditorAction::Validate(req),
                None => EditorAction::Nothing,
            },
            ExpressionEditorMsg::ValidateComplete(id, err) => match self.validate_complete(id, err) {
                Some(e) => EditorAction::StoreEdit(e),
                None => EditorAction::Nothing,
            },
            ExpressionEditorMsg::Reset => match self.reset() {
                Some(req) => EditorAction::Restored(req),
                None => EditorAction::Nothing,
            },
            ExpressionEditorMsg::SaveExpr => match self.save() {
                Some(t) => EditorAction::Save(t),
                None => EditorAction::Nothing,
            },
            ExpressionEditorMsg::Delete => match self.delete() {
                Some(n) => EditorAction::Delete(n),
                None => EditorAction::Nothing,
            },
        }
    }
}

} // verus!
