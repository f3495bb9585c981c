use column_settings::attributes::{delete_expr, rename_expr, save_expr};
use column_settings::header::{column_settings_header_editable, HeaderState};
use column_settings::locator::{ColumnLocator, ColumnType};
use column_settings::registry::ColumnSettingsUpdate;
use column_settings::tabs::{available_tabs, same_tabs, ColumnSettingsTab, PluginStyle, TabSelection};

const ALL: [ColumnType; 6] = [
    ColumnType::Integer,
    ColumnType::Float,
    ColumnType::String,
    ColumnType::Bool,
    ColumnType::Date,
    ColumnType::Datetime,
];

#[test]
fn datagrid_styles_all_but_bool() {
    let p = PluginStyle::datagrid(true);
    for t in ALL {
        assert_eq!(p.styles_type(t), t != ColumnType::Bool);
    }
}

#[test]
fn scatter_styles_strings_only() {
    let p = PluginStyle::xy_scatter(true);
    for t in ALL {
        assert_eq!(p.styles_type(t), t == ColumnType::String);
    }
    let u = PluginStyle::unstyled();
    for t in ALL {
        assert!(!u.styles_type(t));
    }
}

#[test]
fn tabs_by_column_kind() {
    let grid = PluginStyle::datagrid(true);
    let plain = ColumnLocator::Plain("a".to_string());
    let new = ColumnLocator::Expr(None);
    let saved = ColumnLocator::Expr(Some("x".to_string()));
    let int = Some(ColumnType::Integer);
    assert_eq!(available_tabs(&plain, int, &grid), vec![ColumnSettingsTab::Style]);
    assert_eq!(available_tabs(&new, int, &grid), vec![ColumnSettingsTab::Attributes]);
    assert_eq!(
        available_tabs(&saved, int, &grid),
        vec![ColumnSettingsTab::Style, ColumnSettingsTab::Attributes]
    );
    assert_eq!(available_tabs(&saved, None, &grid), vec![ColumnSettingsTab::Attributes]);
    assert!(available_tabs(&plain, Some(ColumnType::Bool), &grid).is_empty());
    let no_config = PluginStyle::datagrid(false);
    assert!(available_tabs(&plain, int, &no_config).is_empty());
}

#[test]
fn selection_follows_tab_shape() {
    let two = vec![ColumnSettingsTab::Style, ColumnSettingsTab::Attributes];
    let one = vec![ColumnSettingsTab::Attributes];
    let mut sel = TabSelection { index: 1, tab: ColumnSettingsTab::Attributes };
    sel.retarget(&two, &two.clone());
    assert_eq!(sel.index, 1);
    sel.retarget(&two, &one);
    assert_eq!(sel, TabSelection { index: 0, tab: ColumnSettingsTab::Attributes });
    let none: Vec<ColumnSettingsTab> = vec![];
    assert_eq!(TabSelection::first(&none).index, 0);
    let far = TabSelection { index: 5, tab: ColumnSettingsTab::Style };
    assert_eq!(far.shown(2), 0);
    assert_eq!(far.shown_tab(&two), Some(ColumnSettingsTab::Style));
    assert_eq!(far.shown_tab(&none), None);
    assert!(same_tabs(&two, &two.clone()));
    assert!(!same_tabs(&two, &one));
}

#[test]
fn tab_labels() {
    assert_eq!(ColumnSettingsTab::Attributes.label(), "Attributes");
    assert_eq!(ColumnSettingsTab::Style.label(), "Style");
    assert_eq!(ColumnSettingsTab::default_tab(), ColumnSettingsTab::Attributes);
}

#[test]
fn header_state_changes_and_restores() {
    let mut h = HeaderState::new(&"x".to_string());
    assert!(!h.changed());
    h.set(Some("y".to_string()));
    assert!(h.changed());
    h.restore();
    assert_eq!(h.current, Some("x".to_string()));
    let e = ColumnLocator::Expr(None);
    assert!(column_settings_header_editable(&e, ColumnSettingsTab::Attributes));
    assert!(!column_settings_header_editable(&e, ColumnSettingsTab::Style));
    assert!(!column_settings_header_editable(&ColumnLocator::Plain("a".to_string()), ColumnSettingsTab::Attributes));
}

#[test]
fn update_builders() {
    let plain = ColumnLocator::Plain("a".to_string());
    assert!(save_expr(&plain, &None, &"1".to_string()).is_none());
    assert!(delete_expr(&ColumnLocator::Expr(None)).is_none());
    assert!(delete_expr(&plain).is_none());
    assert!(rename_expr(&ColumnLocator::Expr(None), &Some("b".to_string())).is_none());
    match rename_expr(&plain, &Some("b".to_string())) {
        Some(ColumnSettingsUpdate::RenameColumn { old_name, new_name }) => {
            assert_eq!(old_name, "a");
            assert_eq!(new_name, "b");
        },
        _ => panic!("expected a rename"),
    }
    let saved = ColumnLocator::Expr(Some("x".to_string()));
    match save_expr(&saved, &None, &"2*3".to_string()) {
        Some(o) => match o.update {
            ColumnSettingsUpdate::ReplaceExpression { old_name, expr } => {
                assert_eq!(old_name, "x");
                assert_eq!(expr.name, "2*3");
                assert_eq!(expr.text, "2*3");
            },
            _ => panic!("expected a replace"),
        },
        None => panic!("expected a save"),
    }
}

#[test]
fn locator_names() {
    let plain = ColumnLocator::Plain("a".to_string());
    assert_eq!(plain.name(), Some(&"a".to_string()));
    assert_eq!(ColumnLocator::Expr(None).name(), None);
    assert!(ColumnLocator::Expr(None).is_new_expr());
    assert!(!plain.is_expr());
    assert!(plain.same_as(&plain.duplicate()));
    assert!(!plain.same_as(&ColumnLocator::Expr(Some("a".to_string()))));
}
