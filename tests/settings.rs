use std::cell::Cell;

use flowy_grid::{
    ChangesetError, GridLayout, GridLayoutPB, GridSettingChangesetPB, GridSettingChangesetParams,
    GridSettingPB, LayoutRevision,
};

type Changeset = GridSettingChangesetPB<String, String, String, String>;
type Params = GridSettingChangesetParams<String, String, String, String>;
type Outcome = Result<Params, ChangesetError<String>>;

fn field_params(payload: String) -> Result<String, String> {
    if payload.is_empty() {
        Err("field id is empty".to_string())
    } else {
        Ok(format!("field:{}", payload))
    }
}

fn group_params(payload: String) -> Result<String, String> {
    if payload.is_empty() {
        Err("group id is empty".to_string())
    } else {
        Ok(format!("group:{}", payload))
    }
}

fn changeset(grid_id: &str) -> Changeset {
    GridSettingChangesetPB {
        grid_id: grid_id.to_string(),
        layout_type: GridLayout::Table,
        insert_filter: None,
        delete_filter: None,
        insert_group: None,
        delete_group: None,
    }
}

fn validate(cs: Changeset) -> Outcome {
    cs.try_into_params(field_params, field_params, group_params, group_params)
}

#[test]
fn layout_round_trip() {
    for layout in [GridLayout::Table, GridLayout::Board] {
        assert_eq!(GridLayout::from(LayoutRevision::from(layout)), layout);
    }
    for rev in [LayoutRevision::Table, LayoutRevision::Board] {
        assert_eq!(LayoutRevision::from(GridLayout::from(rev)), rev);
    }
    assert_eq!(LayoutRevision::from(GridLayout::Board), LayoutRevision::Board);
    assert_eq!(GridLayout::from(LayoutRevision::Table), GridLayout::Table);
}

#[test]
fn all_layouts_in_declaration_order() {
    for _ in 0..2 {
        let all = GridLayoutPB::all();
        assert_eq!(all.len(), 2);
        let kinds: Vec<GridLayout> = all.iter().map(|l| l.ty()).collect();
        assert_eq!(kinds, vec![GridLayout::Table, GridLayout::Board]);
    }
    assert_eq!(GridLayoutPB::all(), GridLayoutPB::all());
}

#[test]
fn default_layout_is_table() {
    assert_eq!(GridLayout::default(), GridLayout::Table);
    assert_eq!(GridLayoutPB::default().ty(), GridLayout::Table);
}

#[test]
fn setting_snapshot_holds_its_parts() {
    let setting = GridSettingPB {
        layouts: GridLayoutPB::all(),
        layout_type: GridLayout::Board,
        filters: vec![1u32, 2],
        group_configurations: vec![7u32],
    };
    assert_eq!(setting.layouts.len(), 2);
    assert_eq!(setting.layout_type, GridLayout::Board);
    assert_eq!(setting.clone(), setting);
    let empty: GridSettingPB<Vec<u32>, Vec<u32>> = GridSettingPB::default();
    assert_eq!(empty.layout_type, GridLayout::Table);
    assert!(empty.layouts.is_empty());
}

#[test]
fn empty_identifier_is_rejected() {
    let mut cs = changeset("");
    cs.insert_filter = Some("f1".to_string());
    cs.delete_group = Some(String::new());
    assert_eq!(validate(cs), Err(ChangesetError::InvalidIdentifier));
    assert_eq!(validate(changeset("")), Err(ChangesetError::InvalidIdentifier));
}

#[test]
fn blank_identifier_is_rejected() {
    assert_eq!(validate(changeset("  \t\n")), Err(ChangesetError::InvalidIdentifier));
    assert_eq!(validate(changeset("\u{3000}\u{a0}")), Err(ChangesetError::InvalidIdentifier));
}

#[test]
fn identifier_is_kept_as_given() {
    let params = validate(changeset(" v1 ")).unwrap();
    assert_eq!(params.grid_id, " v1 ");
}

#[test]
fn no_sub_operations_is_accepted() {
    let mut cs = changeset("grid-1");
    cs.layout_type = GridLayout::Board;
    let params = validate(cs).unwrap();
    assert_eq!(
        params,
        GridSettingChangesetParams {
            grid_id: "grid-1".to_string(),
            layout_type: LayoutRevision::Board,
            insert_filter: None,
            delete_filter: None,
            insert_group: None,
            delete_group: None,
        }
    );
    assert!(!params.is_filter_changed());
}

#[test]
fn insert_filter_only() {
    let mut cs = changeset("grid-1");
    cs.insert_filter = Some("f1".to_string());
    let params = validate(cs).unwrap();
    assert_eq!(params.insert_filter, Some("field:f1".to_string()));
    assert_eq!(params.delete_filter, None);
    assert_eq!(params.insert_group, None);
    assert_eq!(params.delete_group, None);
    assert_eq!(params.layout_type, LayoutRevision::Table);
    assert!(params.is_filter_changed());
}

#[test]
fn delete_filter_changes_filters() {
    let mut cs = changeset("grid-1");
    cs.delete_filter = Some("f2".to_string());
    cs.insert_group = Some("g1".to_string());
    let params = validate(cs).unwrap();
    assert_eq!(params.insert_filter, None);
    assert_eq!(params.delete_filter, Some("field:f2".to_string()));
    assert_eq!(params.insert_group, Some("group:g1".to_string()));
    assert!(params.is_filter_changed());
}

#[test]
fn group_operations_leave_filters_unchanged() {
    let mut cs = changeset("grid-1");
    cs.insert_group = Some("g1".to_string());
    cs.delete_group = Some("g2".to_string());
    let params = validate(cs).unwrap();
    assert_eq!(params.insert_group, Some("group:g1".to_string()));
    assert_eq!(params.delete_group, Some("group:g2".to_string()));
    assert!(!params.is_filter_changed());
}

#[test]
fn all_four_sub_operations_together() {
    let mut cs = changeset("grid-1");
    cs.insert_filter = Some("a".to_string());
    cs.delete_filter = Some("b".to_string());
    cs.insert_group = Some("c".to_string());
    cs.delete_group = Some("d".to_string());
    let params = validate(cs).unwrap();
    assert_eq!(params.insert_filter, Some("field:a".to_string()));
    assert_eq!(params.delete_filter, Some("field:b".to_string()));
    assert_eq!(params.insert_group, Some("group:c".to_string()));
    assert_eq!(params.delete_group, Some("group:d".to_string()));
}

#[test]
fn malformed_delete_group_rejects_whole_changeset() {
    let mut cs = changeset("grid-1");
    cs.layout_type = GridLayout::Board;
    cs.insert_filter = Some("f1".to_string());
    cs.insert_group = Some("g1".to_string());
    cs.delete_group = Some(String::new());
    assert_eq!(
        validate(cs),
        Err(ChangesetError::InvalidDeleteGroupPayload("group id is empty".to_string()))
    );
}

#[test]
fn each_payload_error_is_attributed() {
    let mut cs = changeset("grid-1");
    cs.insert_filter = Some(String::new());
    assert_eq!(
        validate(cs),
        Err(ChangesetError::InvalidInsertFilterPayload("field id is empty".to_string()))
    );
    let mut cs = changeset("grid-1");
    cs.delete_filter = Some(String::new());
    assert_eq!(
        validate(cs),
        Err(ChangesetError::InvalidDeleteFilterPayload("field id is empty".to_string()))
    );
    let mut cs = changeset("grid-1");
    cs.insert_group = Some(String::new());
    assert_eq!(
        validate(cs),
        Err(ChangesetError::InvalidInsertGroupPayload("group id is empty".to_string()))
    );
}

#[test]
fn first_failure_stops_conversion() {
    let later_calls = Cell::new(0u32);
    let mut cs = changeset("grid-1");
    cs.insert_filter = Some(String::new());
    cs.delete_filter = Some("f2".to_string());
    cs.insert_group = Some("g1".to_string());
    cs.delete_group = Some(String::new());
    let count = |payload: String| {
        later_calls.set(later_calls.get() + 1);
        group_params(payload)
    };
    let outcome = cs.try_into_params(
        field_params,
        |payload: String| {
            later_calls.set(later_calls.get() + 1);
            field_params(payload)
        },
        count,
        count,
    );
    assert_eq!(
        outcome,
        Err(ChangesetError::InvalidInsertFilterPayload("field id is empty".to_string()))
    );
    assert_eq!(later_calls.get(), 0);
}

#[test]
fn validation_is_repeatable() {
    let mut cs = changeset("grid-1");
    cs.layout_type = GridLayout::Board;
    cs.delete_filter = Some("f9".to_string());
    cs.insert_group = Some("g3".to_string());
    let first = validate(cs.clone());
    let second = validate(cs);
    assert_eq!(first, second);
    assert!(first.is_ok());

    let mut bad = changeset("grid-1");
    bad.delete_group = Some(String::new());
    assert_eq!(validate(bad.clone()), validate(bad));
}
