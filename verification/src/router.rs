//! The named procedures that callers invoke: a table of names, and for each
//! name what it asks of which service. A call names a procedure, brings one
//! input, and gets one output or one error with a code.

use vstd::prelude::*;
use vstd::string::StringExecFns;

use crate::database::state::State;
use crate::database::Database;
use crate::dto::bookmark::{BookmarkDto, CreateBookmarkRequest, UpdateBookmarkRequest};
use crate::dto::groups::{CreateGroupsDto, GroupsDto, UpdateGroupsDto};
use crate::dto::organization::{CreateOrganizationDto, OrganizationDto, UpdateOrganizationDto};
use crate::dto::user::{CreateUserDto, UpdateUserDto, UserDto};
use crate::dto::workspace::{CreateWorkspaceDto, UpdateWorkspaceDto, WorkspaceDto};
use crate::error::ServiceError;
use crate::router::bookmark_router::{create_bookmark_router, BookmarkOp};
use crate::router::groups_router::{create_groups_router, GroupOp};
use crate::router::organization_router::{create_organization_router, OrganizationOp};
use crate::router::user::{create_users_router, UserOp};
use crate::router::workspace_router::{create_workspace_router, WorkspaceOp};
use crate::time::Timestamp;

pub mod bookmark_router;
pub mod groups_router;
pub mod organization_router;
pub mod user;
pub mod workspace_router;

verus! {

/// What a procedure call is handed: the store, and the session that the call
/// belongs to. No procedure reads the session or the message.
pub struct ContextRouter {
    pub db: Database,
    pub session_id: Option<String>,
    pub message: String,
}

impl ContextRouter {
    /// A context over `db`, without a session.
    pub fn new(db: Database) -> (ctx: ContextRouter)
        ensures
            ctx.db == db,
            ctx.session_id is None,
            ctx.message@ == "Hello World"@,
    {
        ContextRouter { db, session_id: None, message: "Hello World".to_owned() }
    }

    /// The two contexts differ in the store at most.
    pub open spec fn same_session(self, other: ContextRouter) -> bool {
        self.session_id == other.session_id && self.message == other.message
    }
}

/// A query reads; a mutation may write.
#[derive(Clone, Copy, Debug, PartialEq, Eq, Structural)]
pub enum ProcedureKind {
    Query,
    Mutation,
}

/// What a procedure asks for.
#[derive(Clone, Copy, Debug, PartialEq, Eq, Structural)]
pub enum Operation {
    Version,
    User(UserOp),
    Organization(OrganizationOp),
    Workspace(WorkspaceOp),
    Group(GroupOp),
    Bookmark(BookmarkOp),
}

/// The one value that a call brings.
#[derive(Debug, PartialEq, Eq)]
pub enum Input {
    Unit,
    Id(i32),
    Text(String),
    CreateUser(CreateUserDto),
    UpdateUser(UpdateUserDto),
    CreateOrganization(CreateOrganizationDto),
    UpdateOrganization(UpdateOrganizationDto),
    CreateWorkspace(CreateWorkspaceDto),
    UpdateWorkspace(UpdateWorkspaceDto),
    CreateGroup(CreateGroupsDto),
    UpdateGroup(UpdateGroupsDto),
    CreateBookmark(CreateBookmarkRequest),
    UpdateBookmark(UpdateBookmarkRequest),
}

/// The one value that a call returns.
#[derive(Debug, PartialEq, Eq)]
pub enum Output {
    Done,
    Text(String),
    User(UserDto),
    Users(Vec<UserDto>),
    Organization(OrganizationDto),
    Organizations(Vec<OrganizationDto>),
    Workspace(WorkspaceDto),
    Workspaces(Vec<WorkspaceDto>),
    Group(GroupsDto),
    Groups(Vec<GroupsDto>),
    Bookmark(BookmarkDto),
    Bookmarks(Vec<BookmarkDto>),
}

/// An output with its text and its lists as sequences.
pub enum OutputView {
    Done,
    Text(Seq<char>),
    User(UserDto),
    Users(Seq<UserDto>),
    Organization(OrganizationDto),
    Organizations(Seq<OrganizationDto>),
    Workspace(WorkspaceDto),
    Workspaces(Seq<WorkspaceDto>),
    Group(GroupsDto),
    Groups(Seq<GroupsDto>),
    Bookmark(BookmarkDto),
    Bookmarks(Seq<BookmarkDto>),
}

impl View for Output {
    type V = OutputView;

    open spec fn view(&self) -> OutputView {
        match *self {
            Output::Done => OutputView::Done,
            Output::Text(text) => OutputView::Text(text@),
            Output::User(dto) => OutputView::User(dto),
            Output::Users(list) => OutputView::Users(list@),
            Output::Organization(dto) => OutputView::Organization(dto),
            Output::Organizations(list) => OutputView::Organizations(list@),
            Output::Workspace(dto) => OutputView::Workspace(dto),
            Output::Workspaces(list) => OutputView::Workspaces(list@),
            Output::Group(dto) => OutputView::Group(dto),
            Output::Groups(list) => OutputView::Groups(list@),
            Output::Bookmark(dto) => OutputView::Bookmark(dto),
            Output::Bookmarks(list) => OutputView::Bookmarks(list@),
        }
    }
}

/// The code that the transport shows for an error.
#[derive(Clone, Copy, Debug, PartialEq, Eq, Structural)]
pub enum ErrorCode {
    BadRequest,
    NotFound,
    InternalServerError,
}

/// Why a call failed.
#[derive(Debug, PartialEq, Eq)]
pub enum Fault {
    /// The service that was asked reported an error.
    Service(ServiceError),
    /// The input is not of the type that the procedure takes.
    InvalidInput,
    /// No procedure of that kind has that name.
    UnknownProcedure,
}

/// The error of a call: a code for the transport and the reason.
#[derive(Debug, PartialEq, Eq)]
pub struct Error {
    pub code: ErrorCode,
    pub fault: Fault,
}

impl Error {
    /// The error for an error of a service: an input that a service refused is
    /// a bad request, everything else an internal error.
    pub open spec fn of(e: ServiceError) -> Error {
        Error {
            code: if e is ValidationError {
                ErrorCode::BadRequest
            } else {
                ErrorCode::InternalServerError
            },
            fault: Fault::Service(e),
        }
    }

    pub open spec fn invalid_input() -> Error {
        Error { code: ErrorCode::BadRequest, fault: Fault::InvalidInput }
    }

    pub open spec fn unknown_procedure() -> Error {
        Error { code: ErrorCode::NotFound, fault: Fault::UnknownProcedure }
    }

    pub fn from_service(e: ServiceError) -> (r: Error)
        ensures
            r == Error::of(e),
    {
        let code = match &e {
            ServiceError::ValidationError(_) => ErrorCode::BadRequest,
            _ => ErrorCode::InternalServerError,
        };
        Error { code, fault: Fault::Service(e) }
    }

    pub fn bad_input() -> (r: Error)
        ensures
            r == Error::invalid_input(),
    {
        Error { code: ErrorCode::BadRequest, fault: Fault::InvalidInput }
    }

    pub fn no_procedure() -> (r: Error)
        ensures
            r == Error::unknown_procedure(),
    {
        Error { code: ErrorCode::NotFound, fault: Fault::UnknownProcedure }
    }

    pub open spec fn message_text(self) -> Seq<char> {
        match self.fault {
            Fault::Service(e) => e.message_text(),
            Fault::InvalidInput => "The input does not fit the procedure"@,
            Fault::UnknownProcedure => "No such procedure"@,
        }
    }

    /// The error in words.
    pub fn message(&self) -> (r: String)
        ensures
            r@ == self.message_text(),
    {
        match &self.fault {
            Fault::Service(e) => e.message(),
            Fault::InvalidInput => "The input does not fit the procedure".to_owned(),
            Fault::UnknownProcedure => "No such procedure".to_owned(),
        }
    }
}

/// One line of the table of procedures.
#[derive(Debug, PartialEq, Eq)]
pub struct Procedure {
    pub name: String,
    pub kind: ProcedureKind,
    pub operation: Operation,
}

/// A line of the table with its name as a sequence of characters.
pub struct ProcedureView {
    pub name: Seq<char>,
    pub kind: ProcedureKind,
    pub operation: Operation,
}

impl View for Procedure {
    type V = ProcedureView;

    open spec fn view(&self) -> ProcedureView {
        ProcedureView { name: self.name@, kind: self.kind, operation: self.operation }
    }
}

/// The lines `table`, each name with `prefix` before it.
pub open spec fn prefixed(prefix: Seq<char>, table: Seq<ProcedureView>) -> Seq<ProcedureView> {
    table.map_values(|p: ProcedureView| ProcedureView { name: prefix + p.name, ..p })
}

/// The operation that the first line of that kind and name stands for.
pub open spec fn resolve(
    table: Seq<ProcedureView>,
    kind: ProcedureKind,
    path: Seq<char>,
) -> Option<Operation>
    decreases table.len(),
{
    if table.len() == 0 {
        None
    } else if table[0].kind == kind && table[0].name == path {
        Some(table[0].operation)
    } else {
        resolve(table.drop_first(), kind, path)
    }
}

/// A table of procedures in the making.
pub struct RouterBuilder {
    pub procedures: Vec<Procedure>,
}

impl View for RouterBuilder {
    type V = Seq<ProcedureView>;

    open spec fn view(&self) -> Seq<ProcedureView> {
        self.procedures@.map_values(|p: Procedure| p@)
    }
}

impl RouterBuilder {
    pub fn new() -> (r: RouterBuilder)
        ensures
            r@ == Seq::<ProcedureView>::empty(),
    {
        let r = RouterBuilder { procedures: Vec::new() };
        assert(r@ =~= Seq::<ProcedureView>::empty());
        r
    }

    fn procedure(self, name: &str, kind: ProcedureKind, operation: Operation) -> (r: RouterBuilder)
        ensures
            r@ == self@.push(ProcedureView { name: name@, kind, operation }),
    {
        let ghost before = self@;
        let mut procedures = self.procedures;
        procedures.push(Procedure { name: name.to_owned(), kind, operation });
        let r = RouterBuilder { procedures };
        assert(r@ =~= before.push(ProcedureView { name: name@, kind, operation }));
        r
    }

    /// Adds a query under `name`.
    pub fn query(self, name: &str, operation: Operation) -> (r: RouterBuilder)
        ensures
            r@ == self@.push(
                ProcedureView { name: name@, kind: ProcedureKind::Query, operation },
            ),
    {
        self.procedure(name, ProcedureKind::Query, operation)
    }

    /// Adds a mutation under `name`.
    pub fn mutation(self, name: &str, operation: Operation) -> (r: RouterBuilder)
        ensures
            r@ == self@.push(
                ProcedureView { name: name@, kind: ProcedureKind::Mutation, operation },
            ),
    {
        self.procedure(name, ProcedureKind::Mutation, operation)
    }

    /// Adds the procedures of `other`, each under `prefix` and its own name.
    pub fn merge(self, prefix: &str, other: RouterBuilder) -> (r: RouterBuilder)
        ensures
            r@ == self@ + prefixed(prefix@, other@),
    {
        let ghost before = self@;
        let mut procedures = self.procedures;
        let mut i: usize = 0;
        while i < other.procedures.len()
            invariant
                i <= other.procedures@.len(),
                procedures@.len() == before.len() + i,
                forall|j: int| 0 <= j < before.len() ==> (#[trigger] procedures@[j])@ == before[j],
                forall|j: int|
                    before.len() <= j < before.len() + i ==> (#[trigger] procedures@[j])@
                        == prefixed(prefix@, other@)[j - before.len()],
            decreases other.procedures@.len() - i,
        {
            let p = &other.procedures[i];
            let name = prefix.to_owned().concat(p.name.as_str());
            assert(other@[i as int] == p@);
            procedures.push(Procedure { name, kind: p.kind, operation: p.operation });
            i += 1;
        }
        let r = RouterBuilder { procedures };
        proof {
            let joined = before + prefixed(prefix@, other@);
            assert(r@.len() == joined.len());
            assert forall|j: int| 0 <= j < r@.len() implies r@[j] == joined[j] by {
                assert(r@[j] == r.procedures@[j]@);
            }
            assert(r@ =~= joined);
        }
        r
    }

    /// The finished table.
    pub fn build(self) -> (r: Router)
        ensures
            r@ == self@,
    {
        Router { procedures: self.procedures }
    }
}

/// The table of procedures.
pub struct Router {
    procedures: Vec<Procedure>,
}

impl View for Router {
    type V = Seq<ProcedureView>;

    closed spec fn view(&self) -> Seq<ProcedureView> {
        self.procedures@.map_values(|p: Procedure| p@)
    }
}

/// What the procedure answers at the time `now`, on the store `s`.
pub open spec fn answer(
    op: Operation,
    s: State,
    input: Input,
    now: Timestamp,
) -> Result<OutputView, Error> {
    match op {
        Operation::Version => match input {
            Input::Unit => Ok(OutputView::Text("1.0.0"@)),
            _ => Err(Error::invalid_input()),
        },
        Operation::User(op) => user::answer(op, s, input, now),
        Operation::Organization(op) => organization_router::answer(op, s, input, now),
        Operation::Workspace(op) => workspace_router::answer(op, s, input, now),
        Operation::Group(op) => groups_router::answer(op, s, input, now),
        Operation::Bookmark(op) => bookmark_router::answer(op, s, input, now),
    }
}

/// The store after the procedure has run at the time `now` on the store `s`.
pub open spec fn effect(op: Operation, s: State, input: Input, now: Timestamp) -> State {
    match op {
        Operation::Version => s,
        Operation::User(op) => user::effect(op, s, input, now),
        Operation::Organization(op) => organization_router::effect(op, s, input, now),
        Operation::Workspace(op) => workspace_router::effect(op, s, input, now),
        Operation::Group(op) => groups_router::effect(op, s, input, now),
        Operation::Bookmark(op) => bookmark_router::effect(op, s, input, now),
    }
}

/// The result `r` is what the procedure answers.
pub open spec fn answers(
    r: Result<Output, Error>,
    op: Operation,
    s: State,
    input: Input,
    now: Timestamp,
) -> bool {
    match r {
        Ok(out) => answer(op, s, input, now) == Ok::<OutputView, Error>(out@),
        Err(e) => answer(op, s, input, now) == Err::<OutputView, Error>(e),
    }
}

/// Runs one operation at the time `now`.
pub fn handle(
    op: Operation,
    ctx: &mut ContextRouter,
    input: Input,
    now: Timestamp,
) -> (r: Result<Output, Error>)
    ensures
        final(ctx).same_session(*old(ctx)),
        final(ctx).db@ == effect(op, old(ctx).db@, input, now),
        answers(r, op, old(ctx).db@, input, now),
{
    match op {
        Operation::Version => match input {
            Input::Unit => Ok(Output::Text("1.0.0".to_owned())),
            _ => Err(Error::bad_input()),
        },
        Operation::User(op) => user::handle(op, ctx, input, now),
        Operation::Organization(op) => organization_router::handle(op, ctx, input, now),
        Operation::Workspace(op) => workspace_router::handle(op, ctx, input, now),
        Operation::Group(op) => groups_router::handle(op, ctx, input, now),
        Operation::Bookmark(op) => bookmark_router::handle(op, ctx, input, now),
    }
}

/// Every procedure of the application, by its full name: `version`, and the
/// procedures of the five kinds of row under `users.`, `organization.`,
/// `workspace.`, `bookmark.` and `groups.`.
pub open spec fn procedures() -> Seq<ProcedureView> {
    seq![
        ProcedureView {
            name: "version"@,
            kind: ProcedureKind::Query,
            operation: Operation::Version,
        },
    ] + prefixed("users."@, user::procedures()) + prefixed(
        "organization."@,
        organization_router::procedures(),
    ) + prefixed("workspace."@, workspace_router::procedures()) + prefixed(
        "bookmark."@,
        bookmark_router::procedures(),
    ) + prefixed("groups."@, groups_router::procedures())
}

/// Builds the table of every procedure.
pub fn create_router() -> (r: Router)
    ensures
        r@ == procedures(),
{
    RouterBuilder::new().query("version", Operation::Version).merge(
        "users.",
        create_users_router(),
    ).merge("organization.", create_organization_router()).merge(
        "workspace.",
        create_workspace_router(),
    ).merge("bookmark.", create_bookmark_router()).merge("groups.", create_groups_router()).build()
}

/// Where the names of the table differ: the length of the name in line `i`, its
/// first character, and the place and the character at which the name proper
/// begins after its prefix.
spec fn mark(i: int) -> (int, char, int, char) {
    if i == 0 {
        (7, 'v', 0, 'v')
    } else if i == 1 {
        (14, 'u', 6, 'g')
    } else if i == 2 {
        (17, 'u', 6, 'g')
    } else if i == 3 {
        (16, 'u', 6, 'c')
    } else if i == 4 {
        (16, 'u', 6, 'u')
    } else if i == 5 {
        (16, 'u', 6, 'd')
    } else if i == 6 {
        (29, 'o', 13, 'g')
    } else if i == 7 {
        (32, 'o', 13, 'g')
    } else if i == 8 {
        (36, 'o', 13, 'g')
    } else if i == 9 {
        (31, 'o', 13, 'c')
    } else if i == 10 {
        (31, 'o', 13, 'u')
    } else if i == 11 {
        (31, 'o', 13, 'd')
    } else if i == 12 {
        (23, 'w', 10, 'g')
    } else if i == 13 {
        (25, 'w', 10, 'c')
    } else if i == 14 {
        (25, 'w', 10, 'u')
    } else if i == 15 {
        (25, 'w', 10, 'd')
    } else if i == 16 {
        (13, 'b', 9, 'l')
    } else if i == 17 {
        (16, 'b', 9, 'g')
    } else if i == 18 {
        (15, 'b', 9, 's')
    } else if i == 19 {
        (19, 'b', 9, 'g')
    } else if i == 20 {
        (15, 'b', 9, 'c')
    } else if i == 21 {
        (15, 'b', 9, 'u')
    } else if i == 22 {
        (15, 'b', 9, 'd')
    } else if i == 23 {
        (16, 'g', 7, 'g')
    } else if i == 24 {
        (19, 'g', 7, 'g')
    } else if i == 25 {
        (24, 'g', 7, 'g')
    } else if i == 26 {
        (19, 'g', 7, 'c')
    } else if i == 27 {
        (18, 'g', 7, 'u')
    } else {
        (18, 'g', 7, 'd')
    }
}

/// The names of the table have the marks that `mark` gives.
proof fn lemma_marks(i: int)
    requires
        0 <= i < procedures().len(),
    ensures
        procedures().len() == 29,
        procedures()[i].name.len() == mark(i).0,
        procedures()[i].name[0] == mark(i).1,
        procedures()[i].name[mark(i).2] == mark(i).3,
{
    reveal_strlit("version");
    reveal_strlit("users.");
    reveal_strlit("organization.");
    reveal_strlit("workspace.");
    reveal_strlit("bookmark.");
    reveal_strlit("groups.");
    user::lemma_names();
    organization_router::lemma_names();
    workspace_router::lemma_names();
    bookmark_router::lemma_names();
    groups_router::lemma_names();
    let users = prefixed("users."@, user::procedures());
    let organizations = prefixed("organization."@, organization_router::procedures());
    let workspaces = prefixed("workspace."@, workspace_router::procedures());
    let bookmarks = prefixed("bookmark."@, bookmark_router::procedures());
    let groups = prefixed("groups."@, groups_router::procedures());
    if i < 1 {
    } else if i < 6 {
        assert(procedures()[i] == users[i - 1]);
        assert(users[i - 1].name == "users."@ + user::procedures()[i - 1].name);
    } else if i < 12 {
        assert(procedures()[i] == organizations[i - 6]);
        assert(organizations[i - 6].name == "organization."@
            + organization_router::procedures()[i - 6].name);
    } else if i < 16 {
        assert(procedures()[i] == workspaces[i - 12]);
        assert(workspaces[i - 12].name == "workspace."@ + workspace_router::procedures()[i
            - 12].name);
    } else if i < 23 {
        assert(procedures()[i] == bookmarks[i - 16]);
        assert(bookmarks[i - 16].name == "bookmark."@ + bookmark_router::procedures()[i
            - 16].name);
    } else {
        assert(procedures()[i] == groups[i - 23]);
        assert(groups[i - 23].name == "groups."@ + groups_router::procedures()[i - 23].name);
    }
}

/// No two procedures of one kind have the same name.
pub proof fn lemma_names_differ(i: int, j: int)
    requires
        0 <= i < j < procedures().len(),
        procedures()[i].kind == procedures()[j].kind,
    ensures
        procedures()[i].name != procedures()[j].name,
{
    lemma_marks(i);
    lemma_marks(j);
    lemma_kinds(i);
    lemma_kinds(j);
}

/// The kind of each line of the table.
proof fn lemma_kinds(i: int)
    requires
        0 <= i < procedures().len(),
    ensures
        procedures()[i].kind == kind_of(i),
{
    let users = prefixed("users."@, user::procedures());
    let organizations = prefixed("organization."@, organization_router::procedures());
    let workspaces = prefixed("workspace."@, workspace_router::procedures());
    let bookmarks = prefixed("bookmark."@, bookmark_router::procedures());
    let groups = prefixed("groups."@, groups_router::procedures());
    if i < 1 {
    } else if i < 6 {
        assert(procedures()[i] == users[i - 1]);
    } else if i < 12 {
        assert(procedures()[i] == organizations[i - 6]);
    } else if i < 16 {
        assert(procedures()[i] == workspaces[i - 12]);
    } else if i < 23 {
        assert(procedures()[i] == bookmarks[i - 16]);
    } else {
        assert(procedures()[i] == groups[i - 23]);
    }
}

/// The kind of the procedure in line `i` of the table.
spec fn kind_of(i: int) -> ProcedureKind {
    if i == 0 || 1 <= i < 3 || 6 <= i < 9 || i == 12 || 16 <= i < 20 || 23 <= i < 26 {
        ProcedureKind::Query
    } else {
        ProcedureKind::Mutation
    }
}

/// The first line of a table that has the kind and the name is the line that
/// the name resolves to.
proof fn lemma_resolve_at(table: Seq<ProcedureView>, kind: ProcedureKind, path: Seq<char>, i: int)
    requires
        0 <= i < table.len(),
        table[i].kind == kind && table[i].name == path,
        forall|j: int|
            0 <= j < i ==> !((#[trigger] table[j]).kind == kind && table[j].name == path),
    ensures
        resolve(table, kind, path) == Some(table[i].operation),
    decreases i,
{
    if i > 0 {
        let rest = table.drop_first();
        assert(rest[i - 1] == table[i]);
        assert forall|j: int| 0 <= j < i - 1 implies !((#[trigger] rest[j]).kind == kind
            && rest[j].name == path) by {
            assert(rest[j] == table[j + 1]);
        }
        lemma_resolve_at(rest, kind, path, i - 1);
    }
}

/// Every procedure of the table is found under its own kind and name.
pub proof fn lemma_resolves(i: int)
    requires
        0 <= i < procedures().len(),
    ensures
        resolve(procedures(), procedures()[i].kind, procedures()[i].name) == Some(
            procedures()[i].operation,
        ),
{
    let table = procedures();
    assert forall|j: int| 0 <= j < i implies !((#[trigger] table[j]).kind == table[i].kind
        && table[j].name == table[i].name) by {
        if table[j].kind == table[i].kind {
            lemma_names_differ(j, i);
        }
    }
    lemma_resolve_at(table, table[i].kind, table[i].name, i);
}

/// A query leaves the store as it is, whatever it is sent.
pub proof fn lemma_queries_read_only(i: int, s: State, input: Input, now: Timestamp)
    requires
        0 <= i < procedures().len(),
        procedures()[i].kind == ProcedureKind::Query,
    ensures
        effect(procedures()[i].operation, s, input, now) == s,
{
    let users = prefixed("users."@, user::procedures());
    let organizations = prefixed("organization."@, organization_router::procedures());
    let workspaces = prefixed("workspace."@, workspace_router::procedures());
    let bookmarks = prefixed("bookmark."@, bookmark_router::procedures());
    let groups = prefixed("groups."@, groups_router::procedures());
    if i < 1 {
    } else if i < 1 + users.len() {
        assert(procedures()[i] == users[i - 1]);
        user::lemma_queries_read_only(i - 1, s, input, now);
    } else if i < 1 + users.len() + organizations.len() {
        let j = i - 1 - users.len();
        assert(procedures()[i] == organizations[j]);
        organization_router::lemma_queries_read_only(j, s, input, now);
    } else if i < 1 + users.len() + organizations.len() + workspaces.len() {
        let j = i - 1 - users.len() - organizations.len();
        assert(procedures()[i] == workspaces[j]);
        workspace_router::lemma_queries_read_only(j, s, input, now);
    } else if i < 1 + users.len() + organizations.len() + workspaces.len() + bookmarks.len() {
        let j = i - 1 - users.len() - organizations.len() - workspaces.len();
        assert(procedures()[i] == bookmarks[j]);
        bookmark_router::lemma_queries_read_only(j, s, input, now);
    } else {
        let j = i - 1 - users.len() - organizations.len() - workspaces.len() - bookmarks.len();
        assert(procedures()[i] == groups[j]);
        groups_router::lemma_queries_read_only(j, s, input, now);
    }
}

/// The code of an error of a service: a bad request for an input that the
/// service refused, an internal error for everything else, a missing row too.
pub proof fn lemma_error_codes(e: ServiceError)
    ensures
        Error::of(e).code == ErrorCode::BadRequest <==> e is ValidationError,
        Error::of(e).code == ErrorCode::InternalServerError <==> !(e is ValidationError),
        Error::of(e).fault == Fault::Service(e),
{
}

impl Router {
    /// The lines of the table.
    pub fn procedures(&self) -> (r: &Vec<Procedure>)
        ensures
            r@.map_values(|p: Procedure| p@) == self@,
    {
        &self.procedures
    }

    /// The operation behind a name.
    pub fn find(&self, kind: ProcedureKind, path: &str) -> (r: Option<Operation>)
        ensures
            r == resolve(self@, kind, path@),
    {
        let wanted = path.to_owned();
        let ghost table = self@;
        let mut i: usize = 0;
        assert(table.skip(0) == table);
        while i < self.procedures.len()
            invariant
                i <= self.procedures@.len(),
                table == self@,
                wanted@ == path@,
                resolve(table, kind, path@) == resolve(table.skip(i as int), kind, path@),
            decreases self.procedures@.len() - i,
        {
            let p = &self.procedures[i];
            assert(table.skip(i as int)[0] == p@);
            assert(table.skip(i as int).drop_first() == table.skip(i + 1));
            if p.kind == kind && p.name == wanted {
                return Some(p.operation);
            }
            i += 1;
        }
        None
    }

    /// Calls the procedure `path` of the kind `kind` at the time `now`. A name
    /// that the table does not hold is an error, and the store stays as it is.
    pub fn call(
        &self,
        ctx: &mut ContextRouter,
        kind: ProcedureKind,
        path: &str,
        input: Input,
        now: Timestamp,
    ) -> (r: Result<Output, Error>)
        ensures
            final(ctx).same_session(*old(ctx)),
            match resolve(self@, kind, path@) {
                Some(op) => final(ctx).db@ == effect(op, old(ctx).db@, input, now) && answers(
                    r,
                    op,
                    old(ctx).db@,
                    input,
                    now,
                ),
                None => final(ctx).db@ == old(ctx).db@ && r == Err::<Output, Error>(
                    Error::unknown_procedure(),
                ),
            },
    {
        match self.find(kind, path) {
            Some(op) => handle(op, ctx, input, now),
            None => Err(Error::no_procedure()),
        }
    }
}

} // verus!
