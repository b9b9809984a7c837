use vstd::prelude::*;

verus! {

/// A registered person. `created_at` is in seconds since the Unix epoch (UTC).
#[derive(Debug)]
pub struct User {
    pub id: String,
    pub name: String,
    pub email: String,
    pub role: String,
    pub created_at: u64,
    pub is_active: bool,
}

/// A project; `owner_id` names a user but is not checked against the users.
#[derive(Debug)]
pub struct Project {
    pub id: String,
    pub title: String,
    pub description: String,
    pub status: String,
    pub owner_id: String,
    pub created_at: u64,
    pub technologies: Vec<String>,
    pub progress: u32,
}

/// A unit of work; `project_id` and `assigned_to` are unchecked references.
#[derive(Debug)]
pub struct Task {
    pub id: String,
    pub project_id: String,
    pub title: String,
    pub description: String,
    pub status: String,
    pub priority: String,
    pub assigned_to: Option<String>,
    pub created_at: u64,
    pub due_date: Option<u64>,
}

pub struct UserView {
    pub id: Seq<char>,
    pub name: Seq<char>,
    pub email: Seq<char>,
    pub role: Seq<char>,
    pub created_at: u64,
    pub is_active: bool,
}

pub struct ProjectView {
    pub id: Seq<char>,
    pub title: Seq<char>,
    pub description: Seq<char>,
    pub status: Seq<char>,
    pub owner_id: Seq<char>,
    pub created_at: u64,
    pub technologies: Seq<Seq<char>>,
    pub progress: u32,
}

pub struct TaskView {
    pub id: Seq<char>,
    pub project_id: Seq<char>,
    pub title: Seq<char>,
    pub description: Seq<char>,
    pub status: Seq<char>,
    pub priority: Seq<char>,
    pub assigned_to: Option<Seq<char>>,
    pub created_at: u64,
    pub due_date: Option<u64>,
}

/// The contents of each text in `v`.
pub open spec fn texts_view(v: Seq<String>) -> Seq<Seq<char>> {
    v.map_values(|t: String| t@)
}

pub open spec fn opt_text_view(o: Option<String>) -> Option<Seq<char>> {
    match o {
        Some(t) => Some(t@),
        None => None,
    }
}

impl View for User {
    type V = UserView;

    open spec fn view(&self) -> UserView {
        UserView {
            id: self.id@,
            name: self.name@,
            email: self.email@,
            role: self.role@,
            created_at: self.created_at,
            is_active: self.is_active,
        }
    }
}

impl View for Project {
    type V = ProjectView;

    open spec fn view(&self) -> ProjectView {
        ProjectView {
            id: self.id@,
            title: self.title@,
            description: self.description@,
            status: self.status@,
            owner_id: self.owner_id@,
            created_at: self.created_at,
            technologies: texts_view(self.technologies@),
            progress: self.progress,
        }
    }
}

impl View for Task {
    type V = TaskView;

    open spec fn view(&self) -> TaskView {
        TaskView {
            id: self.id@,
            project_id: self.project_id@,
            title: self.title@,
            description: self.description@,
            status: self.status@,
            priority: self.priority@,
            assigned_to: opt_text_view(self.assigned_to),
            created_at: self.created_at,
            due_date: self.due_date,
        }
    }
}

/// A copy of every text in `v`, in order.
pub fn copy_texts(v: &Vec<String>) -> (r: Vec<String>)
    ensures
        texts_view(r@) == texts_view(v@),
{
    let mut r: Vec<String> = Vec::new();
    let mut i: usize = 0;
    while i < v.len()
        invariant
            i <= v@.len(),
            texts_view(r@) == texts_view(v@.take(i as int)),
        decreases v@.len() - i,
    {
        let t = v[i].clone();
        let ghost before = r@;
        r.push(t);
        assert(r@ == before.push(t));
        assert(t@ == v@[i as int]@);
        i = i + 1;
        assert(texts_view(r@) =~= texts_view(v@.take(i as int))) by {
            assert(texts_view(before) =~= texts_view(v@.take(i - 1)));
            assert forall|k: int| 0 <= k < i implies #[trigger] texts_view(r@)[k] == texts_view(v@.take(i as int))[k] by {
                if k < i - 1 {
                    assert(texts_view(before)[k] == texts_view(v@.take(i - 1))[k]);
                }
            }
        }
    }
    assert(v@.take(i as int) =~= v@);
    r
}

pub fn copy_opt_text(o: &Option<String>) -> (r: Option<String>)
    ensures
        opt_text_view(r) == opt_text_view(*o),
{
    match o {
        Some(t) => Some(t.clone()),
        None => None,
    }
}

impl User {
    /// An independent copy with the same contents.
    pub fn copy(&self) -> (r: User)
        ensures
            r@ == self@,
    {
        User {
            id: self.id.clone(),
            name: self.name.clone(),
            email: self.email.clone(),
            role: self.role.clone(),
            created_at: self.created_at,
            is_active: self.is_active,
        }
    }
}

impl Project {
    /// An independent copy with the same contents.
    pub fn copy(&self) -> (r: Project)
        ensures
            r@ == self@,
    {
        Project {
            id: self.id.clone(),
            title: self.title.clone(),
            description: self.description.clone(),
            status: self.status.clone(),
            owner_id: self.owner_id.clone(),
            created_at: self.created_at,
            technologies: copy_texts(&self.technologies),
            progress: self.progress,
        }
    }
}

impl Task {
    /// An independent copy with the same contents.
    pub fn copy(&self) -> (r: Task)
        ensures
            r@ == self@,
    {
        Task {
            id: self.id.clone(),
            project_id: self.project_id.clone(),
            title: self.title.clone(),
            description: self.description.clone(),
            status: self.status.clone(),
            priority: self.priority.clone(),
            assigned_to: copy_opt_text(&self.assigned_to),
            created_at: self.created_at,
            due_date: self.due_date,
        }
    }
}

pub open spec fn users_view(v: Seq<User>) -> Seq<UserView> {
    v.map_values(|u: User| u@)
}

pub open spec fn projects_view(v: Seq<Project>) -> Seq<ProjectView> {
    v.map_values(|p: Project| p@)
}

pub open spec fn tasks_view(v: Seq<Task>) -> Seq<TaskView> {
    v.map_values(|t: Task| t@)
}

} // verus!
