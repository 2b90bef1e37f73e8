use bookmarks::entity::organization::{ActiveModel, Model};
use bookmarks::entity::{ActiveValue, Owned, Record};
use bookmarks::table::{
    contains_key, copy_rows, fetch, keep_owned, position_of, remove_key, replace_row, select_owned,
};
use bookmarks::time::Timestamp;

fn row(id: i32, user_id: i32) -> Model {
    Model {
        id,
        name: format!("org {}", id),
        user_id,
        created_at: Timestamp::new(1, 0),
        updated_at: Timestamp::new(2, 0),
        deleted_at: None,
    }
}

#[test]
fn a_column_of_a_staged_row() {
    let changed = ActiveValue::Changed(3);
    let unchanged = ActiveValue::Unchanged(4);
    let not_set: ActiveValue<i32> = ActiveValue::NotSet;
    assert!(changed.is_changed() && !changed.is_unchanged() && !changed.is_not_set());
    assert!(!unchanged.is_changed() && unchanged.is_unchanged() && !unchanged.is_not_set());
    assert!(!not_set.is_changed() && !not_set.is_unchanged() && not_set.is_not_set());
    assert_eq!(ActiveValue::Changed(3).into_value(), Some(3));
    assert_eq!(ActiveValue::Unchanged(4).into_value(), Some(4));
    assert_eq!(ActiveValue::<i32>::NotSet.into_value(), None);
    assert_eq!(ActiveValue::Changed(3).unwrap(), 3);
    assert_eq!(ActiveValue::Unchanged(4).unwrap(), 4);
    assert_eq!(ActiveValue::Changed(3).write_over(9), 3);
    assert_eq!(ActiveValue::Unchanged(4).write_over(9), 9);
    assert_eq!(ActiveValue::NotSet.write_over(9), 9);
    assert_eq!(ActiveValue::Changed(3).or_else(ActiveValue::Unchanged(9)), ActiveValue::Changed(3));
    assert_eq!(ActiveValue::Unchanged(4).or_else(ActiveValue::Unchanged(9)), ActiveValue::Unchanged(9));
    assert_eq!(ActiveValue::NotSet.or_else(ActiveValue::Changed(9)), ActiveValue::Changed(9));
    assert_eq!(ActiveValue::<i32>::NotSet.or_else(ActiveValue::NotSet), ActiveValue::NotSet);
}

#[test]
fn a_row_as_a_staged_row_that_changes_nothing() {
    let staged = row(3, 1).into_active_model();
    assert_eq!(
        staged,
        ActiveModel {
            id: ActiveValue::Unchanged(3),
            name: ActiveValue::Unchanged("org 3".to_string()),
            user_id: ActiveValue::Unchanged(1),
            created_at: ActiveValue::Unchanged(Timestamp::new(1, 0)),
            updated_at: ActiveValue::Unchanged(Timestamp::new(2, 0)),
            deleted_at: ActiveValue::Unchanged(None),
        }
    );
    assert!(staged.is_complete());
    assert_eq!(staged.write_over(row(5, 2)), row(5, 2));
}

#[test]
fn a_staged_row_without_values() {
    let empty = ActiveModel::new();
    assert_eq!(empty.id, ActiveValue::NotSet);
    assert_eq!(empty.name, ActiveValue::NotSet);
    assert_eq!(empty.deleted_at, ActiveValue::NotSet);
    assert!(!empty.is_complete());
    assert_eq!(ActiveModel::new().write_over(row(5, 2)), row(5, 2));
    assert_eq!(ActiveModel::new().lay_over(row(5, 2).into_active_model()), row(5, 2).into_active_model());
}

#[test]
fn a_staged_row_is_complete_without_key_and_deletion_mark() {
    let mut staged = row(3, 1).into_active_model();
    staged.id = ActiveValue::NotSet;
    staged.deleted_at = ActiveValue::NotSet;
    assert!(staged.is_complete());
    assert_eq!(staged.into_row(8), Model { id: 8, ..row(3, 1) });
    for missing in 0..4 {
        let mut staged = row(3, 1).into_active_model();
        match missing {
            0 => staged.name = ActiveValue::NotSet,
            1 => staged.user_id = ActiveValue::NotSet,
            2 => staged.created_at = ActiveValue::NotSet,
            _ => staged.updated_at = ActiveValue::NotSet,
        }
        assert!(!staged.is_complete());
    }
}

#[test]
fn changes_laid_over_a_staged_row() {
    let mut changes = ActiveModel::new();
    changes.id = ActiveValue::Changed(99);
    changes.name = ActiveValue::Changed("new".to_string());
    changes.user_id = ActiveValue::Unchanged(42);
    let laid = changes.lay_over(row(3, 1).into_active_model());
    assert_eq!(
        laid,
        ActiveModel {
            id: ActiveValue::Unchanged(3),
            name: ActiveValue::Changed("new".to_string()),
            user_id: ActiveValue::Unchanged(1),
            created_at: ActiveValue::Unchanged(Timestamp::new(1, 0)),
            updated_at: ActiveValue::Unchanged(Timestamp::new(2, 0)),
            deleted_at: ActiveValue::Unchanged(None),
        }
    );
    let written = laid.write_over(row(3, 1));
    assert_eq!(written, Model { name: "new".to_string(), ..row(3, 1) });
}

#[test]
fn keys_and_owners_of_rows() {
    let r = row(3, 7);
    assert_eq!(r.id(), 3);
    assert_eq!(r.owner_id(), Some(7));
    assert_eq!(r.duplicate(), r);
    assert_eq!(r.clone(), r);
}

#[test]
fn finding_rows_in_a_table() {
    let rows = vec![row(1, 1), row(3, 2), row(4, 1)];
    assert_eq!(position_of(&rows, 3), Some(1));
    assert_eq!(position_of(&rows, 2), None);
    assert!(contains_key(&rows, 4));
    assert!(!contains_key(&rows, 0));
    assert_eq!(fetch(&rows, 4), Some(row(4, 1)));
    assert_eq!(fetch(&rows, 5), None);
    assert_eq!(copy_rows(&rows), rows);
    assert_eq!(remove_key(&rows, 3), vec![row(1, 1), row(4, 1)]);
    assert_eq!(remove_key(&rows, 2), rows);
    assert_eq!(select_owned(&rows, 1), vec![row(1, 1), row(4, 1)]);
    assert_eq!(select_owned(&rows, 3), vec![]);
    let empty: Vec<Model> = vec![];
    assert_eq!(position_of(&empty, 1), None);
    assert_eq!(copy_rows(&empty), empty);
}

#[test]
fn replacing_a_row_in_a_table() {
    let rows = vec![row(1, 1), row(3, 2), row(4, 1)];
    let new = Model { name: "renamed".to_string(), ..row(3, 5) };
    assert_eq!(replace_row(rows.clone(), new.clone()), vec![row(1, 1), new, row(4, 1)]);
    assert_eq!(replace_row(rows.clone(), row(2, 2)), rows);
    let doubled = vec![row(1, 1), row(1, 2)];
    assert_eq!(replace_row(doubled, row(1, 9)), vec![row(1, 9), row(1, 9)]);
}

#[test]
fn children_are_kept_for_their_parents() {
    let parents = vec![row(1, 1), row(4, 1)];
    // The children are rows of the same shape: their owner is their `user_id`.
    let children = vec![row(10, 1), row(11, 3), row(12, 4), row(13, 5)];
    assert_eq!(keep_owned(&children, &parents), vec![row(10, 1), row(12, 4)]);
    let none: Vec<Model> = vec![];
    assert_eq!(keep_owned(&children, &none), vec![]);
    assert_eq!(keep_owned(&none, &parents), vec![]);
}
