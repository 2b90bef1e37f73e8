use bookmarks::database::Database;
use bookmarks::dto::bookmark::CreateBookmarkRequest;
use bookmarks::dto::groups::CreateGroupsDto;
use bookmarks::dto::organization::CreateOrganizationDto;
use bookmarks::dto::user::CreateUserDto;
use bookmarks::dto::workspace::CreateWorkspaceDto;
use bookmarks::time::Timestamp;

/// Two users. User 1 has organizations 1 and 2, user 2 has organization 3.
/// Workspaces 1 and 2 are of organization 1, 3 of organization 2, 4 of
/// organization 3. Groups 1 and 2 are of workspace 1, 3 of workspace 2, 4 of
/// workspace 3, 5 of workspace 4. Bookmark `n` is of group `n`, and bookmark
/// 6 of group 1.
fn tree() -> Database {
    let mut db = Database::new();
    let now = Timestamp::new(1, 0);
    for name in ["Ana", "Bea"] {
        db.insert_user(
            CreateUserDto { name: name.to_string(), email: format!("{}@x.com", name) }.into_active_model(now),
        )
        .unwrap();
    }
    for user_id in [1, 1, 2] {
        db.insert_organization(
            CreateOrganizationDto { name: "org".to_string(), user_id }.into_active_model(now),
        )
        .unwrap();
    }
    for organization_id in [1, 1, 2, 3] {
        db.insert_workspace(
            CreateWorkspaceDto { name: "ws".to_string(), organization_id }.into_active_model(now),
        )
        .unwrap();
    }
    for workspace_id in [1, 1, 2, 3, 4] {
        db.insert_group(CreateGroupsDto { name: "g".to_string(), workspace_id }.into_active_model(now))
            .unwrap();
    }
    for group_id in [1, 2, 3, 4, 5, 1] {
        db.insert_bookmark(
            CreateBookmarkRequest {
                name: "b".to_string(),
                url: "u".to_string(),
                tags: "t".to_string(),
                is_favorite: false,
                group_id: Some(group_id),
            }
            .into_active_model(now),
        )
        .unwrap();
    }
    db
}

fn ids(db: &Database) -> [Vec<i32>; 5] {
    [
        db.all_users().iter().map(|r| r.id).collect(),
        db.all_organizations().iter().map(|r| r.id).collect(),
        db.all_workspaces().iter().map(|r| r.id).collect(),
        db.all_groups().iter().map(|r| r.id).collect(),
        db.all_bookmarks().iter().map(|r| r.id).collect(),
    ]
}

#[test]
fn the_tree_is_as_described() {
    assert_eq!(
        ids(&tree()),
        [vec![1, 2], vec![1, 2, 3], vec![1, 2, 3, 4], vec![1, 2, 3, 4, 5], vec![1, 2, 3, 4, 5, 6]]
    );
}

#[test]
fn deleting_a_bookmark_takes_nothing_else() {
    let mut db = tree();
    assert!(db.delete_bookmark(3));
    assert_eq!(
        ids(&db),
        [vec![1, 2], vec![1, 2, 3], vec![1, 2, 3, 4], vec![1, 2, 3, 4, 5], vec![1, 2, 4, 5, 6]]
    );
}

#[test]
fn deleting_a_group_takes_its_bookmarks() {
    let mut db = tree();
    assert!(db.delete_group(1));
    assert_eq!(
        ids(&db),
        [vec![1, 2], vec![1, 2, 3], vec![1, 2, 3, 4], vec![2, 3, 4, 5], vec![2, 3, 4, 5]]
    );
    assert_eq!(db.bookmarks_of_group(1), vec![]);
    assert_eq!(db.find_bookmark_by_id(1), None);
    assert_eq!(db.find_bookmark_by_id(6), None);
}

#[test]
fn deleting_a_workspace_takes_its_groups_and_their_bookmarks() {
    let mut db = tree();
    assert!(db.delete_workspace(1));
    assert_eq!(
        ids(&db),
        [vec![1, 2], vec![1, 2, 3], vec![2, 3, 4], vec![3, 4, 5], vec![3, 4, 5]]
    );
}

#[test]
fn deleting_an_organization_takes_everything_below_it() {
    let mut db = tree();
    assert!(db.delete_organization(1));
    assert_eq!(ids(&db), [vec![1, 2], vec![2, 3], vec![3, 4], vec![4, 5], vec![4, 5]]);
}

#[test]
fn deleting_a_user_takes_everything_below_the_user() {
    let mut db = tree();
    assert!(db.delete_user(1));
    assert_eq!(ids(&db), [vec![2], vec![3], vec![4], vec![5], vec![5]]);
    assert!(db.delete_user(2));
    let empty: Vec<i32> = Vec::new();
    assert_eq!(ids(&db), [empty.clone(), empty.clone(), empty.clone(), empty.clone(), empty]);
}

#[test]
fn deleting_what_is_not_there_takes_nothing() {
    let mut db = tree();
    let before = ids(&db);
    assert!(!db.delete_user(3));
    assert!(!db.delete_organization(4));
    assert!(!db.delete_workspace(5));
    assert!(!db.delete_group(6));
    assert!(!db.delete_bookmark(7));
    assert!(!db.delete_user(0));
    assert!(!db.delete_group(-1));
    assert_eq!(ids(&db), before);
}

#[test]
fn deleting_twice_is_deleting_once() {
    let mut db = tree();
    assert!(db.delete_workspace(2));
    let once = ids(&db);
    assert!(!db.delete_workspace(2));
    assert_eq!(ids(&db), once);
    assert_eq!(once, [vec![1, 2], vec![1, 2, 3], vec![1, 3, 4], vec![1, 2, 4, 5], vec![1, 2, 4, 5, 6]]);
}

#[test]
fn keys_of_deleted_rows_are_not_given_out_again() {
    let mut db = tree();
    assert!(db.delete_user(2));
    let now = Timestamp::new(2, 0);
    let id = db
        .insert_user(CreateUserDto { name: "Cy".to_string(), email: "c@x.com".to_string() }.into_active_model(now))
        .unwrap();
    assert_eq!(id, 3);
    let id = db
        .insert_organization(CreateOrganizationDto { name: "new".to_string(), user_id: 3 }.into_active_model(now))
        .unwrap();
    assert_eq!(id, 4);
}

#[test]
fn rows_that_stay_are_unchanged_by_a_delete() {
    let mut db = tree();
    let group = db.find_group_by_id(4).unwrap();
    let bookmark = db.find_bookmark_by_id(4).unwrap();
    assert!(db.delete_organization(1));
    assert_eq!(db.find_group_by_id(4), Some(group));
    assert_eq!(db.find_bookmark_by_id(4), Some(bookmark));
}
