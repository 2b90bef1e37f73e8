use bookmarks::database::Database;
use bookmarks::dto::bookmark::{CreateBookmarkRequest, UpdateBookmarkRequest};
use bookmarks::dto::groups::{CreateGroupsDto, UpdateGroupsDto};
use bookmarks::dto::organization::{CreateOrganizationDto, UpdateOrganizationDto};
use bookmarks::dto::user::{CreateUserDto, UpdateUserDto, UserDto};
use bookmarks::dto::workspace::{CreateWorkspaceDto, UpdateWorkspaceDto};
use bookmarks::entity::Entity;
use bookmarks::error::{DbError, ServiceError};
use bookmarks::router::bookmark_router::{create_bookmark_router, BookmarkOp};
use bookmarks::router::groups_router::{create_groups_router, GroupOp};
use bookmarks::router::organization_router::{create_organization_router, OrganizationOp};
use bookmarks::router::user::{create_users_router, UserOp};
use bookmarks::router::workspace_router::{create_workspace_router, WorkspaceOp};
use bookmarks::router::{
    create_router, handle, ContextRouter, Error, ErrorCode, Fault, Input, Operation, Output,
    Procedure, ProcedureKind, Router, RouterBuilder,
};
use bookmarks::time::Timestamp;

use bookmarks::router::ProcedureKind::{Mutation, Query};

fn lines(procedures: &Vec<Procedure>) -> Vec<(String, ProcedureKind)> {
    procedures.iter().map(|p| (p.name.clone(), p.kind)).collect()
}

fn expect(names: &[(&str, ProcedureKind)]) -> Vec<(String, ProcedureKind)> {
    names.iter().map(|(name, kind)| (name.to_string(), *kind)).collect()
}

fn call(router: &Router, ctx: &mut ContextRouter, kind: ProcedureKind, path: &str, input: Input) -> Result<Output, Error> {
    router.call(ctx, kind, path, input, Timestamp::new(1_000, 0))
}

fn ana() -> Input {
    Input::CreateUser(CreateUserDto { name: "Ana".to_string(), email: "a@x.com".to_string() })
}

fn ana_dto() -> UserDto {
    UserDto {
        id: 1,
        name: "Ana".to_string(),
        email: "a@x.com".to_string(),
        created_at: Timestamp::new(1_000, 0),
        updated_at: Timestamp::new(1_000, 0),
    }
}

#[test]
fn a_fresh_context_has_no_session() {
    let ctx = ContextRouter::new(Database::new());
    assert_eq!(ctx.session_id, None);
    assert_eq!(ctx.message, "Hello World");
    assert_eq!(ctx.db.all_users(), vec![]);
}

#[test]
fn the_procedures_of_the_users() {
    assert_eq!(
        lines(&create_users_router().procedures),
        expect(&[
            ("getUsers", Query),
            ("getUserById", Query),
            ("createUser", Mutation),
            ("updateUser", Mutation),
            ("deleteUser", Mutation),
        ])
    );
    let operations: Vec<Operation> = create_users_router().procedures.iter().map(|p| p.operation).collect();
    assert_eq!(
        operations,
        vec![
            Operation::User(UserOp::GetUsers),
            Operation::User(UserOp::GetUserById),
            Operation::User(UserOp::CreateUser),
            Operation::User(UserOp::UpdateUser),
            Operation::User(UserOp::DeleteUser),
        ]
    );
}

#[test]
fn the_procedures_of_the_organizations() {
    assert_eq!(
        lines(&create_organization_router().procedures),
        expect(&[
            ("getOrganizations", Query),
            ("getOrganizationById", Query),
            ("getOrganizationByUserId", Query),
            ("createOrganization", Mutation),
            ("updateOrganization", Mutation),
            ("deleteOrganization", Mutation),
        ])
    );
}

#[test]
fn the_procedures_of_the_workspaces() {
    assert_eq!(
        lines(&create_workspace_router().procedures),
        expect(&[
            ("getWorkspaces", Query),
            ("createWorkspace", Mutation),
            ("updateWorkspace", Mutation),
            ("deleteWorkspace", Mutation),
        ])
    );
}

#[test]
fn the_procedures_of_the_groups() {
    assert_eq!(
        lines(&create_groups_router().procedures),
        expect(&[
            ("getGroups", Query),
            ("getGroupById", Query),
            ("getBelongedGroups", Query),
            ("createGroups", Mutation),
            ("updateGroup", Mutation),
            ("deleteGroup", Mutation),
        ])
    );
}

#[test]
fn the_procedures_of_the_bookmarks() {
    assert_eq!(
        lines(&create_bookmark_router().procedures),
        expect(&[
            ("list", Query),
            ("getById", Query),
            ("search", Query),
            ("getByGroup", Query),
            ("create", Mutation),
            ("update", Mutation),
            ("delete", Mutation),
        ])
    );
}

#[test]
fn every_procedure_by_its_full_name() {
    let router = create_router();
    assert_eq!(
        lines(router.procedures()),
        expect(&[
            ("version", Query),
            ("users.getUsers", Query),
            ("users.getUserById", Query),
            ("users.createUser", Mutation),
            ("users.updateUser", Mutation),
            ("users.deleteUser", Mutation),
            ("organization.getOrganizations", Query),
            ("organization.getOrganizationById", Query),
            ("organization.getOrganizationByUserId", Query),
            ("organization.createOrganization", Mutation),
            ("organization.updateOrganization", Mutation),
            ("organization.deleteOrganization", Mutation),
            ("workspace.getWorkspaces", Query),
            ("workspace.createWorkspace", Mutation),
            ("workspace.updateWorkspace", Mutation),
            ("workspace.deleteWorkspace", Mutation),
            ("bookmark.list", Query),
            ("bookmark.getById", Query),
            ("bookmark.search", Query),
            ("bookmark.getByGroup", Query),
            ("bookmark.create", Mutation),
            ("bookmark.update", Mutation),
            ("bookmark.delete", Mutation),
            ("groups.getGroups", Query),
            ("groups.getGroupById", Query),
            ("groups.getBelongedGroups", Query),
            ("groups.createGroups", Mutation),
            ("groups.updateGroup", Mutation),
            ("groups.deleteGroup", Mutation),
        ])
    );
}

#[test]
fn a_builder_adds_and_merges() {
    let inner = RouterBuilder::new()
        .query("a", Operation::Version)
        .mutation("b", Operation::User(UserOp::DeleteUser));
    let outer = RouterBuilder::new().mutation("top", Operation::Version).merge("in.", inner);
    assert_eq!(lines(&outer.procedures), expect(&[("top", Mutation), ("in.a", Query), ("in.b", Mutation)]));
    let router = outer.build();
    assert_eq!(router.find(Query, "in.a"), Some(Operation::Version));
    assert_eq!(router.find(Mutation, "in.b"), Some(Operation::User(UserOp::DeleteUser)));
    assert_eq!(router.find(Mutation, "in.a"), None);
    assert_eq!(router.find(Query, "a"), None);
    assert_eq!(router.find(Query, ""), None);
    assert_eq!(RouterBuilder::new().build().find(Query, "a"), None);
}

#[test]
fn names_resolve_to_operations() {
    let router = create_router();
    assert_eq!(router.find(Query, "version"), Some(Operation::Version));
    assert_eq!(router.find(Query, "users.getUserById"), Some(Operation::User(UserOp::GetUserById)));
    assert_eq!(
        router.find(Query, "organization.getOrganizationByUserId"),
        Some(Operation::Organization(OrganizationOp::GetOrganizationByUserId))
    );
    assert_eq!(
        router.find(Mutation, "workspace.updateWorkspace"),
        Some(Operation::Workspace(WorkspaceOp::UpdateWorkspace))
    );
    assert_eq!(router.find(Mutation, "groups.createGroups"), Some(Operation::Group(GroupOp::CreateGroups)));
    assert_eq!(router.find(Query, "bookmark.search"), Some(Operation::Bookmark(BookmarkOp::Search)));
    assert_eq!(router.find(Mutation, "bookmark.search"), None);
    assert_eq!(router.find(Query, "users.createUser"), None);
    assert_eq!(router.find(Query, "getUsers"), None);
    assert_eq!(router.find(Query, "users.getusers"), None);
}

#[test]
fn every_line_of_the_table_resolves_to_its_own_operation() {
    let router = create_router();
    assert_eq!(router.procedures().len(), 29);
    for procedure in router.procedures() {
        assert_eq!(router.find(procedure.kind, &procedure.name), Some(procedure.operation));
    }
    for (i, a) in router.procedures().iter().enumerate() {
        for b in &router.procedures()[i + 1..] {
            assert_ne!(a.name, b.name);
            assert_ne!(a.operation, b.operation);
        }
    }
}

#[test]
fn version_is_a_query() {
    let router = create_router();
    let mut ctx = ContextRouter::new(Database::new());
    assert_eq!(call(&router, &mut ctx, Query, "version", Input::Unit), Ok(Output::Text("1.0.0".to_string())));
    assert_eq!(call(&router, &mut ctx, Query, "version", Input::Id(1)), Err(Error::bad_input()));
    assert_eq!(call(&router, &mut ctx, Mutation, "version", Input::Unit), Err(Error::no_procedure()));
}

#[test]
fn an_unknown_procedure_is_an_error_and_writes_nothing() {
    let router = create_router();
    let mut ctx = ContextRouter::new(Database::new());
    assert_eq!(
        call(&router, &mut ctx, Mutation, "users.create", ana()),
        Err(Error { code: ErrorCode::NotFound, fault: Fault::UnknownProcedure })
    );
    assert_eq!(ctx.db.all_users(), vec![]);
}

#[test]
fn users_through_the_router() {
    let router = create_router();
    let mut ctx = ContextRouter::new(Database::new());
    assert_eq!(call(&router, &mut ctx, Mutation, "users.createUser", ana()), Ok(Output::User(ana_dto())));
    assert_eq!(call(&router, &mut ctx, Query, "users.getUsers", Input::Unit), Ok(Output::Users(vec![ana_dto()])));
    assert_eq!(call(&router, &mut ctx, Query, "users.getUserById", Input::Id(1)), Ok(Output::User(ana_dto())));
    let change = UpdateUserDto { id: Some(1), name: Some("Ana B".to_string()), email: None };
    let later = Timestamp::new(2_000, 0);
    assert_eq!(
        router.call(&mut ctx, Mutation, "users.updateUser", Input::UpdateUser(change), later),
        Ok(Output::User(UserDto { name: "Ana B".to_string(), updated_at: later, ..ana_dto() }))
    );
    assert_eq!(call(&router, &mut ctx, Mutation, "users.deleteUser", Input::Id(1)), Ok(Output::Done));
    assert_eq!(call(&router, &mut ctx, Mutation, "users.deleteUser", Input::Id(1)), Ok(Output::Done));
    assert_eq!(call(&router, &mut ctx, Query, "users.getUsers", Input::Unit), Ok(Output::Users(vec![])));
    assert_eq!(
        call(&router, &mut ctx, Query, "users.getUserById", Input::Id(1)),
        Err(Error {
            code: ErrorCode::InternalServerError,
            fault: Fault::Service(ServiceError::NotFound(DbError::RecordNotFound(Entity::User))),
        })
    );
}

#[test]
fn an_update_without_id_is_a_bad_request_for_every_kind_of_row() {
    let router = create_router();
    let mut ctx = ContextRouter::new(Database::new());
    let refused = |entity: Entity| {
        Err(Error { code: ErrorCode::BadRequest, fault: Fault::Service(ServiceError::ValidationError(entity)) })
    };
    assert_eq!(
        call(&router, &mut ctx, Mutation, "users.updateUser", Input::UpdateUser(UpdateUserDto { id: None, name: None, email: None })),
        refused(Entity::User)
    );
    assert_eq!(
        call(
            &router,
            &mut ctx,
            Mutation,
            "organization.updateOrganization",
            Input::UpdateOrganization(UpdateOrganizationDto { id: None, name: None, user_id: None })
        ),
        refused(Entity::Organization)
    );
    assert_eq!(
        call(
            &router,
            &mut ctx,
            Mutation,
            "workspace.updateWorkspace",
            Input::UpdateWorkspace(UpdateWorkspaceDto { id: None, name: None, organization_id: None })
        ),
        refused(Entity::Workspace)
    );
    assert_eq!(
        call(
            &router,
            &mut ctx,
            Mutation,
            "groups.updateGroup",
            Input::UpdateGroup(UpdateGroupsDto { id: None, name: None, workspace_id: None })
        ),
        refused(Entity::Group)
    );
    assert_eq!(
        call(
            &router,
            &mut ctx,
            Mutation,
            "bookmark.update",
            Input::UpdateBookmark(UpdateBookmarkRequest {
                id: None,
                name: None,
                url: None,
                tags: None,
                is_favorite: None,
                group_id: None
            })
        ),
        refused(Entity::Bookmark)
    );
}

#[test]
fn an_input_of_the_wrong_type_is_a_bad_request() {
    let router = create_router();
    let mut ctx = ContextRouter::new(Database::new());
    for (kind, path, input) in [
        (Query, "users.getUsers", Input::Id(1)),
        (Query, "users.getUserById", Input::Unit),
        (Mutation, "users.createUser", Input::Text("Ana".to_string())),
        (Mutation, "users.updateUser", ana()),
        (Mutation, "users.deleteUser", Input::Unit),
        (Query, "bookmark.search", Input::Id(3)),
        (Query, "bookmark.getByGroup", Input::Text("1".to_string())),
        (Mutation, "groups.createGroups", ana()),
        (Query, "groups.getBelongedGroups", Input::Unit),
        (Query, "organization.getOrganizationByUserId", Input::Unit),
        (Mutation, "workspace.deleteWorkspace", Input::Text("1".to_string())),
    ] {
        assert_eq!(
            call(&router, &mut ctx, kind, path, input),
            Err(Error { code: ErrorCode::BadRequest, fault: Fault::InvalidInput })
        );
    }
    assert_eq!(ctx.db.all_users(), vec![]);
}

#[test]
fn the_whole_tree_through_the_router() {
    let router = create_router();
    let mut ctx = ContextRouter::new(Database::new());
    call(&router, &mut ctx, Mutation, "users.createUser", ana()).unwrap();
    let acme = Input::CreateOrganization(CreateOrganizationDto { name: "Acme".to_string(), user_id: 1 });
    call(&router, &mut ctx, Mutation, "organization.createOrganization", acme).unwrap();
    let eng = Input::CreateWorkspace(CreateWorkspaceDto { name: "Eng".to_string(), organization_id: 1 });
    call(&router, &mut ctx, Mutation, "workspace.createWorkspace", eng).unwrap();
    let links = Input::CreateGroup(CreateGroupsDto { name: "Links".to_string(), workspace_id: 1 });
    call(&router, &mut ctx, Mutation, "groups.createGroups", links).unwrap();
    let docs = Input::CreateBookmark(CreateBookmarkRequest {
        name: "Docs".to_string(),
        url: "https://x".to_string(),
        tags: "ref".to_string(),
        is_favorite: false,
        group_id: Some(1),
    });
    let created = call(&router, &mut ctx, Mutation, "bookmark.create", docs).unwrap();
    let Output::Bookmark(docs) = created else { panic!("not a bookmark") };

    let found = call(&router, &mut ctx, Query, "bookmark.search", Input::Text("ref other".to_string()));
    assert_eq!(found, Ok(Output::Bookmarks(vec![docs.clone()])));
    assert_eq!(call(&router, &mut ctx, Query, "bookmark.list", Input::Unit), Ok(Output::Bookmarks(vec![docs.clone()])));
    assert_eq!(call(&router, &mut ctx, Query, "bookmark.getById", Input::Id(1)), Ok(Output::Bookmark(docs.clone())));
    assert_eq!(call(&router, &mut ctx, Query, "bookmark.getByGroup", Input::Id(1)), Ok(Output::Bookmarks(vec![docs])));
    assert!(matches!(
        call(&router, &mut ctx, Query, "groups.getBelongedGroups", Input::Id(1)),
        Ok(Output::Groups(list)) if list.len() == 1 && list[0].name == "Links"
    ));
    assert!(matches!(
        call(&router, &mut ctx, Query, "organization.getOrganizationByUserId", Input::Id(1)),
        Ok(Output::Organizations(list)) if list.len() == 1 && list[0].name == "Acme"
    ));
    assert!(matches!(
        call(&router, &mut ctx, Query, "workspace.getWorkspaces", Input::Unit),
        Ok(Output::Workspaces(list)) if list.len() == 1 && list[0].name == "Eng"
    ));

    assert_eq!(call(&router, &mut ctx, Mutation, "workspace.deleteWorkspace", Input::Id(1)), Ok(Output::Done));
    assert_eq!(call(&router, &mut ctx, Query, "groups.getGroups", Input::Unit), Ok(Output::Groups(vec![])));
    assert_eq!(call(&router, &mut ctx, Query, "bookmark.list", Input::Unit), Ok(Output::Bookmarks(vec![])));
    assert!(matches!(
        call(&router, &mut ctx, Query, "groups.getGroupById", Input::Id(1)),
        Err(Error { code: ErrorCode::InternalServerError, .. })
    ));
    assert!(matches!(
        call(&router, &mut ctx, Query, "organization.getOrganizations", Input::Unit),
        Ok(Output::Organizations(list)) if list.len() == 1
    ));
}

#[test]
fn queries_leave_the_store_as_it_is() {
    let router = create_router();
    let mut ctx = ContextRouter::new(Database::new());
    call(&router, &mut ctx, Mutation, "users.createUser", ana()).unwrap();
    let before = ctx.db.all_users();
    let names: Vec<String> =
        router.procedures().iter().filter(|p| p.kind == Query).map(|p| p.name.clone()).collect();
    assert_eq!(names.len(), 14);
    for name in names {
        for input in [Input::Unit, Input::Id(1), Input::Text("Ana".to_string()), ana()] {
            let _ = call(&router, &mut ctx, Query, &name, input);
        }
    }
    assert_eq!(ctx.db.all_users(), before);
    assert_eq!(ctx.db.all_organizations(), vec![]);
}

#[test]
fn an_operation_run_without_the_table() {
    let mut ctx = ContextRouter::new(Database::new());
    let now = Timestamp::new(1_000, 0);
    assert_eq!(handle(Operation::User(UserOp::CreateUser), &mut ctx, ana(), now), Ok(Output::User(ana_dto())));
    assert_eq!(handle(Operation::Version, &mut ctx, Input::Unit, now), Ok(Output::Text("1.0.0".to_string())));
    assert_eq!(
        handle(Operation::Group(GroupOp::GetGroupById), &mut ctx, Input::Id(1), now),
        Err(Error::from_service(ServiceError::NotFound(DbError::RecordNotFound(Entity::Group))))
    );
}
