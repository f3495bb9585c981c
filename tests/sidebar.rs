use column_settings::editor::ValidationState;
use column_settings::locator::{ColumnLocator, ColumnType};
use column_settings::registry::{ColumnSettingsUpdate, ExpressionRegistry};
use column_settings::sidebar::ColumnSettingsSidebar;
use column_settings::tabs::{ColumnSettingsTab, PluginStyle};

fn expr(name: &str) -> ColumnLocator {
    ColumnLocator::Expr(Some(name.to_string()))
}

fn s(t: &str) -> String {
    t.to_string()
}

#[test]
fn new_expression_saved_and_reopened() {
    let grid = PluginStyle::datagrid(true);
    let mut p = ColumnSettingsSidebar::open(&ColumnLocator::Expr(None), &s("New Column 1"), &None, None, &grid);
    assert_eq!(p.tabs(), &vec![ColumnSettingsTab::Attributes]);
    let text = s("\"A\" + \"B\"");
    let req = p.input(text.clone()).unwrap();
    assert_eq!(req.expr, text);
    assert!(!p.editor().save_enabled());
    assert!(p.validated(req.id, None).is_none());
    assert!(p.editor().save_enabled());
    let out = p.save().unwrap();
    match &out.update {
        ColumnSettingsUpdate::InsertExpression(e) => {
            assert_eq!(e.name, "New Column 1");
            assert_eq!(e.text, text);
        },
        _ => panic!("expected an insert"),
    }
    assert!(matches!(&out.reopen.locator, ColumnLocator::Expr(Some(n)) if n == "New Column 1"));
    assert_eq!(out.reopen.tab, ColumnSettingsTab::Attributes);
    assert!(!p.editor().save_enabled());
    assert!(!p.editor().reset_enabled());

    let mut reg = ExpressionRegistry::new();
    assert!(reg.apply(&out.update).is_ok());
    let stored = reg.get(&s("New Column 1"));
    assert_eq!(stored, Some(text.clone()));
    let q = ColumnSettingsSidebar::open(&out.reopen.locator, &s("New Column 1"), &stored, Some(ColumnType::String), &grid);
    assert_eq!(q.editor().original(), Some(text.clone()));
    assert_eq!(q.editor().expr(), &text);
    assert!(!q.editor().save_enabled());
    assert!(!q.editor().reset_enabled());
    assert_eq!(q.shown_tab(), Some(ColumnSettingsTab::Style));
}

#[test]
fn new_expression_without_header_named_by_text() {
    let grid = PluginStyle::datagrid(true);
    let mut p = ColumnSettingsSidebar::open(&ColumnLocator::Expr(None), &s("New Column 1"), &None, None, &grid);
    p.set_header(None, true);
    let req = p.input(s("\"A\" + \"B\"")).unwrap();
    p.validated(req.id, None);
    let out = p.save().unwrap();
    match &out.update {
        ColumnSettingsUpdate::InsertExpression(e) => {
            assert_eq!(e.name, "\"A\" + \"B\"");
            assert_eq!(e.text, "\"A\" + \"B\"");
        },
        _ => panic!("expected an insert"),
    }
}

#[test]
fn existing_expression_invalid_edit_then_reset() {
    let grid = PluginStyle::datagrid(true);
    let mut p = ColumnSettingsSidebar::open(&expr("x"), &s("x"), &Some(s("1+1")), Some(ColumnType::Integer), &grid);
    let req = p.input(s("1+2")).unwrap();
    p.validated(req.id, Some(s("bad op")));
    assert!(!p.editor().save_enabled());
    assert!(p.editor().reset_enabled());
    assert_eq!(p.editor().error_message(), Some(s("bad op")));
    p.set_header(Some(s("y")), true);
    let again = p.reset().unwrap();
    assert_eq!(again.expr, "1+1");
    assert_eq!(p.editor().expr(), "1+1");
    assert!(matches!(p.editor().validation(), ValidationState::Validating(_)));
    assert!(!p.editor().save_enabled());
    assert!(!p.editor().reset_enabled());
    assert_eq!(p.header().current, Some(s("x")));
    let edit = p.validated(again.id, None).unwrap();
    assert_eq!(edit.alias, "x");
    assert_eq!(edit.expr, "1+1");
    assert!(!p.editor().save_enabled());
    assert!(p.editor().error_message().is_none());
}

#[test]
fn existing_expression_saved_under_new_name() {
    let grid = PluginStyle::datagrid(true);
    let mut p = ColumnSettingsSidebar::open(&expr("x"), &s("x"), &Some(s("1+1")), Some(ColumnType::Integer), &grid);
    let req = p.input(s("1+2")).unwrap();
    p.validated(req.id, None);
    p.set_header(Some(s("y")), true);
    let out = p.save().unwrap();
    match &out.update {
        ColumnSettingsUpdate::ReplaceExpression { old_name, expr } => {
            assert_eq!(old_name, "x");
            assert_eq!(expr.name, "y");
            assert_eq!(expr.text, "1+2");
        },
        _ => panic!("expected a replace"),
    }
    assert!(matches!(&out.reopen.locator, ColumnLocator::Expr(Some(n)) if n == "y"));
}

#[test]
fn style_tab_dropped_when_type_changes() {
    let grid = PluginStyle::datagrid(true);
    let mut p = ColumnSettingsSidebar::open(&expr("x"), &s("x"), &Some(s("1")), Some(ColumnType::Integer), &grid);
    assert_eq!(p.tabs(), &vec![ColumnSettingsTab::Style, ColumnSettingsTab::Attributes]);
    assert_eq!(p.shown_tab(), Some(ColumnSettingsTab::Style));
    p.set_column_type(Some(ColumnType::Bool), &grid);
    assert_eq!(p.tabs(), &vec![ColumnSettingsTab::Attributes]);
    assert_eq!(p.selection().index, 0);
    assert_eq!(p.selection().tab, ColumnSettingsTab::Attributes);
    assert_eq!(p.shown_tab(), Some(ColumnSettingsTab::Attributes));
}

#[test]
fn selection_resets_when_tab_set_shrinks() {
    let grid = PluginStyle::datagrid(true);
    let mut p = ColumnSettingsSidebar::open(&expr("x"), &s("x"), &Some(s("1")), Some(ColumnType::Integer), &grid);
    assert!(p.select_tab(1));
    assert_eq!(p.shown_tab(), Some(ColumnSettingsTab::Attributes));
    assert!(!p.select_tab(2));
    p.set_column_type(Some(ColumnType::Bool), &grid);
    assert_eq!(p.selection().index, 0);
}

#[test]
fn selection_kept_when_tabs_unchanged() {
    let grid = PluginStyle::datagrid(true);
    let mut p = ColumnSettingsSidebar::open(&expr("x"), &s("x"), &Some(s("1")), Some(ColumnType::Integer), &grid);
    p.select_tab(1);
    p.set_column_type(Some(ColumnType::Float), &grid);
    assert_eq!(p.selection().index, 1);
    let req = p.input(s("2")).unwrap();
    p.validated(req.id, None);
    assert_eq!(p.selection().index, 1);
    assert_eq!(p.placeholder(), "2");
}

#[test]
fn data_column_without_style_has_no_tabs() {
    let scatter = PluginStyle::xy_scatter(true);
    let mut p = ColumnSettingsSidebar::open(&ColumnLocator::Plain(s("price")), &s("price"), &None, Some(ColumnType::Float), &scatter);
    assert!(p.tabs().is_empty());
    assert_eq!(p.shown_tab(), None);
    assert!(p.editor().disabled());
    assert!(p.input(s("1")).is_none());
    assert!(p.save().is_none());
    assert!(p.delete().is_none());
    assert!(!p.header_editable());
}

#[test]
fn new_expression_cannot_be_deleted() {
    let grid = PluginStyle::datagrid(true);
    let p = ColumnSettingsSidebar::open(&ColumnLocator::Expr(None), &s("New Column 1"), &None, Some(ColumnType::Integer), &grid);
    assert!(p.delete().is_none());
    assert_eq!(p.tabs(), &vec![ColumnSettingsTab::Attributes]);
    assert!(p.header_editable());
}

#[test]
fn saved_expression_deleted() {
    let grid = PluginStyle::datagrid(true);
    let p = ColumnSettingsSidebar::open(&expr("x"), &s("x"), &Some(s("1")), None, &grid);
    match p.delete() {
        Some(ColumnSettingsUpdate::RemoveExpression(n)) => assert_eq!(n, "x"),
        _ => panic!("expected a removal"),
    }
}

#[test]
fn header_rename() {
    let grid = PluginStyle::datagrid(true);
    let mut p = ColumnSettingsSidebar::open(&expr("x"), &s("x"), &Some(s("1")), None, &grid);
    assert!(p.rename().is_none());
    p.set_header(Some(s("y")), true);
    assert!(p.header().changed());
    match p.rename() {
        Some(ColumnSettingsUpdate::RenameColumn { old_name, new_name }) => {
            assert_eq!(old_name, "x");
            assert_eq!(new_name, "y");
        },
        _ => panic!("expected a rename"),
    }
}

#[test]
fn invalid_header_withdraws_save() {
    let grid = PluginStyle::datagrid(true);
    let mut p = ColumnSettingsSidebar::open(&expr("x"), &s("x"), &Some(s("1")), None, &grid);
    let req = p.input(s("2")).unwrap();
    p.validated(req.id, None);
    assert!(p.editor().save_enabled());
    p.set_header(Some(s("")), false);
    assert!(!p.editor().save_enabled());
    assert!(p.save().is_none());
}

#[test]
fn answer_for_previous_column_ignored() {
    let grid = PluginStyle::datagrid(true);
    let mut p = ColumnSettingsSidebar::open(&expr("x"), &s("x"), &Some(s("1")), None, &grid);
    let req = p.input(s("2")).unwrap();
    p.select_column(&expr("y"), &s("y"), &Some(s("3")), Some(ColumnType::Integer), &grid);
    assert!(p.validated(req.id, None).is_none());
    assert!(matches!(p.editor().validation(), ValidationState::Idle));
    assert_eq!(p.editor().expr(), "3");
    assert_eq!(p.header().current, Some(s("y")));
    assert_eq!(p.tabs(), &vec![ColumnSettingsTab::Style, ColumnSettingsTab::Attributes]);
    assert_eq!(p.selection().index, 0);
    let next = p.input(s("4")).unwrap();
    assert!(next.id > req.id);
}
