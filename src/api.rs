use vstd::prelude::*;
use crate::model::{Project, Task, User, projects_view, tasks_view, texts_view, users_view};
use crate::request::{CreateProjectRequest, CreateUserRequest};
use crate::stats::Stats;
use crate::store::Store;

verus! {

/// The uniform wrapper of every answer: a flag, a human-readable message,
/// the payload, and for listings the number of entries.
#[derive(Debug)]
pub struct ApiResponse<T> {
    pub success: bool,
    pub message: String,
    pub data: Option<T>,
    pub total: Option<usize>,
}

/// A required field of a request body was absent.
#[derive(Debug)]
pub enum RequestError {
    MissingField(String),
}

impl RequestError {
    /// The name of the absent field.
    pub fn field(&self) -> (r: String)
        ensures
            self matches RequestError::MissingField(f) && r@ == f@,
    {
        match self {
            RequestError::MissingField(f) => f.clone(),
        }
    }
}

/// A user request body as it arrives, each field possibly absent.
#[derive(Debug)]
pub struct UserFields {
    pub name: Option<String>,
    pub email: Option<String>,
    pub role: Option<String>,
}

/// A project request body as it arrives, each field possibly absent.
#[derive(Debug)]
pub struct ProjectFields {
    pub title: Option<String>,
    pub description: Option<String>,
    pub technologies: Option<Vec<String>>,
    pub owner_id: Option<String>,
}

impl UserFields {
    pub open spec fn complete(&self) -> bool {
        self.name is Some && self.email is Some && self.role is Some
    }

    /// The first absent field, in the order name, email, role.
    pub open spec fn first_missing(&self) -> Seq<char> {
        if self.name is None {
            "name"@
        } else if self.email is None {
            "email"@
        } else {
            "role"@
        }
    }
}

impl ProjectFields {
    pub open spec fn complete(&self) -> bool {
        self.title is Some && self.description is Some && self.technologies is Some
            && self.owner_id is Some
    }

    /// The first absent field, in the order title, description, technologies, owner_id.
    pub open spec fn first_missing(&self) -> Seq<char> {
        if self.title is None {
            "title"@
        } else if self.description is None {
            "description"@
        } else if self.technologies is None {
            "technologies"@
        } else {
            "owner_id"@
        }
    }
}

/// The request that a complete body describes; the first absent field otherwise.
pub fn decode_user_request(fields: UserFields) -> (r: Result<CreateUserRequest, RequestError>)
    ensures
        r is Ok <==> fields.complete(),
        r matches Ok(req) ==> req.name@ == fields.name->Some_0@ && req.email@
            == fields.email->Some_0@ && req.role@ == fields.role->Some_0@,
        r matches Err(RequestError::MissingField(f)) ==> f@ == fields.first_missing(),
{
    match (fields.name, fields.email, fields.role) {
        (Some(name), Some(email), Some(role)) => Ok(CreateUserRequest { name, email, role }),
        (None, _, _) => Err(RequestError::MissingField(String::from_str("name"))),
        (_, None, _) => Err(RequestError::MissingField(String::from_str("email"))),
        (_, _, None) => Err(RequestError::MissingField(String::from_str("role"))),
    }
}

/// The request that a complete body describes; the first absent field otherwise.
pub fn decode_project_request(fields: ProjectFields) -> (r: Result<
    CreateProjectRequest,
    RequestError,
>)
    ensures
        r is Ok <==> fields.complete(),
        r matches Ok(req) ==> req.title@ == fields.title->Some_0@ && req.description@
            == fields.description->Some_0@ && texts_view(req.technologies@) == texts_view(
            fields.technologies->Some_0@,
        ) && req.owner_id@ == fields.owner_id->Some_0@,
        r matches Err(RequestError::MissingField(f)) ==> f@ == fields.first_missing(),
{
    match (fields.title, fields.description, fields.technologies, fields.owner_id) {
        (Some(title), Some(description), Some(technologies), Some(owner_id)) => Ok(
            CreateProjectRequest { title, description, technologies, owner_id },
        ),
        (None, _, _, _) => Err(RequestError::MissingField(String::from_str("title"))),
        (_, None, _, _) => Err(RequestError::MissingField(String::from_str("description"))),
        (_, _, None, _) => Err(RequestError::MissingField(String::from_str("technologies"))),
        (_, _, _, None) => Err(RequestError::MissingField(String::from_str("owner_id"))),
    }
}

/// Every user, with their number.
pub fn list_users_response(store: &Store) -> (r: ApiResponse<Vec<User>>)
    ensures
        r.success,
        r.message@ == "Users retrieved successfully"@,
        r.data matches Some(v) && users_view(v@) == store@.users,
        r.total == Some(store@.users.len() as usize),
{
    let users = store.list_users();
    let n = users.len();
    ApiResponse {
        success: true,
        message: String::from_str("Users retrieved successfully"),
        data: Some(users),
        total: Some(n),
    }
}

/// Every project, with their number.
pub fn list_projects_response(store: &Store) -> (r: ApiResponse<Vec<Project>>)
    ensures
        r.success,
        r.message@ == "Projects retrieved successfully"@,
        r.data matches Some(v) && projects_view(v@) == store@.projects,
        r.total == Some(store@.projects.len() as usize),
{
    let projects = store.list_projects();
    let n = projects.len();
    ApiResponse {
        success: true,
        message: String::from_str("Projects retrieved successfully"),
        data: Some(projects),
        total: Some(n),
    }
}

/// Every task, with their number.
pub fn list_tasks_response(store: &Store) -> (r: ApiResponse<Vec<Task>>)
    ensures
        r.success,
        r.message@ == "Tasks retrieved successfully"@,
        r.data matches Some(v) && tasks_view(v@) == store@.tasks,
        r.total == Some(store@.tasks.len() as usize),
{
    let tasks = store.list_tasks();
    let n = tasks.len();
    ApiResponse {
        success: true,
        message: String::from_str("Tasks retrieved successfully"),
        data: Some(tasks),
        total: Some(n),
    }
}

/// The summary of the store.
pub fn stats_response(store: &Store) -> (r: ApiResponse<Stats>)
    ensures
        r.success,
        r.message@ == "Statistics retrieved successfully"@,
        r.data matches Some(s) && s.describes(store@),
        r.total is None,
{
    ApiResponse {
        success: true,
        message: String::from_str("Statistics retrieved successfully"),
        data: Some(store.stats()),
        total: None,
    }
}

/// Serves a user body at time `now`: a complete one creates the user, an
/// incomplete one is refused and leaves the store as it was.
pub fn submit_user(store: &mut Store, fields: UserFields, now: u64) -> (r: Result<
    ApiResponse<User>,
    RequestError,
>)
    requires
        old(store).wf(),
        old(store)@.users.len() < usize::MAX,
    ensures
        final(store).wf(),
        r is Ok <==> fields.complete(),
        r matches Err(RequestError::MissingField(f)) ==> f@ == fields.first_missing()
            && final(store)@ == old(store)@,
        r matches Ok(resp) ==> {
            let req = crate::request::CreateUserRequestView {
                name: fields.name->Some_0@,
                email: fields.email->Some_0@,
                role: fields.role->Some_0@,
            };
            &&& resp.success
            &&& resp.message@ == "User created successfully"@
            &&& resp.data matches Some(u) && u@ == old(store)@.new_user(req, now)
            &&& resp.total is None
            &&& final(store)@ == old(store)@.after_user_request(req, now)
        },
{
    match decode_user_request(fields) {
        Ok(req) => {
            let user = store.create_user(req, now);
            Ok(
                ApiResponse {
                    success: true,
                    message: String::from_str("User created successfully"),
                    data: Some(user),
                    total: None,
                },
            )
        },
        Err(e) => Err(e),
    }
}

/// Serves a project body at time `now`: a complete one creates the project
/// (planned, no progress), an incomplete one is refused and leaves the store as it was.
pub fn submit_project(store: &mut Store, fields: ProjectFields, now: u64) -> (r: Result<
    ApiResponse<Project>,
    RequestError,
>)
    requires
        old(store).wf(),
        old(store)@.projects.len() < usize::MAX,
    ensures
        final(store).wf(),
        r is Ok <==> fields.complete(),
        r matches Err(RequestError::MissingField(f)) ==> f@ == fields.first_missing()
            && final(store)@ == old(store)@,
        r matches Ok(resp) ==> {
            let req = crate::request::CreateProjectRequestView {
                title: fields.title->Some_0@,
                description: fields.description->Some_0@,
                technologies: texts_view(fields.technologies->Some_0@),
                owner_id: fields.owner_id->Some_0@,
            };
            &&& resp.success
            &&& resp.message@ == "Project created successfully"@
            &&& resp.data matches Some(p) && p@ == old(store)@.new_project(req, now)
            &&& resp.total is None
            &&& final(store)@ == old(store)@.after_project_request(req, now)
        },
{
    match decode_project_request(fields) {
        Ok(req) => {
            let project = store.create_project(req, now);
            Ok(
                ApiResponse {
                    success: true,
                    message: String::from_str("Project created successfully"),
                    data: Some(project),
                    total: None,
                },
            )
        },
        Err(e) => Err(e),
    }
}

} // verus!
