use vstd::prelude::*;
use crate::model::{texts_view, opt_text_view};

verus! {

/// The fields that a new user is created from.
#[derive(Debug)]
pub struct CreateUserRequest {
    pub name: String,
    pub email: String,
    pub role: String,
}

/// The fields that a new project is created from; status and progress are set by the store.
#[derive(Debug)]
pub struct CreateProjectRequest {
    pub title: String,
    pub description: String,
    pub technologies: Vec<String>,
    pub owner_id: String,
}

/// The fields that a new task is created from; its status is set by the store.
#[derive(Debug)]
pub struct CreateTaskRequest {
    pub project_id: String,
    pub title: String,
    pub description: String,
    pub priority: String,
    pub assigned_to: Option<String>,
    pub due_date: Option<u64>,
}

pub struct CreateUserRequestView {
    pub name: Seq<char>,
    pub email: Seq<char>,
    pub role: Seq<char>,
}

pub struct CreateProjectRequestView {
    pub title: Seq<char>,
    pub description: Seq<char>,
    pub technologies: Seq<Seq<char>>,
    pub owner_id: Seq<char>,
}

pub struct CreateTaskRequestView {
    pub project_id: Seq<char>,
    pub title: Seq<char>,
    pub description: Seq<char>,
    pub priority: Seq<char>,
    pub assigned_to: Option<Seq<char>>,
    pub due_date: Option<u64>,
}

impl View for CreateUserRequest {
    type V = CreateUserRequestView;

    open spec fn view(&self) -> CreateUserRequestView {
        CreateUserRequestView { name: self.name@, email: self.email@, role: self.role@ }
    }
}

impl View for CreateProjectRequest {
    type V = CreateProjectRequestView;

    open spec fn view(&self) -> CreateProjectRequestView {
        CreateProjectRequestView {
            title: self.title@,
            description: self.description@,
            technologies: texts_view(self.technologies@),
            owner_id: self.owner_id@,
        }
    }
}

impl View for CreateTaskRequest {
    type V = CreateTaskRequestView;

    open spec fn view(&self) -> CreateTaskRequestView {
        CreateTaskRequestView {
            project_id: self.project_id@,
            title: self.title@,
            description: self.description@,
            priority: self.priority@,
            assigned_to: opt_text_view(self.assigned_to),
            due_date: self.due_date,
        }
    }
}

} // verus!
