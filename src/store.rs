use vstd::prelude::*;
use crate::model::{
    Project, ProjectView, Task, TaskView, User, UserView, projects_view, tasks_view, users_view,
};
use crate::request::{
    CreateProjectRequest, CreateProjectRequestView, CreateTaskRequest, CreateTaskRequestView,
    CreateUserRequest, CreateUserRequestView,
};
use crate::stats::{Stats, project_stats, task_stats, user_stats};
use crate::text::{decimal, decimal_text, lemma_decimal_injective, lemma_prefix_cancel};

verus! {

/// The id made of `prefix` followed by the number `k` in decimal.
pub open spec fn entity_id(prefix: Seq<char>, k: nat) -> Seq<char> {
    prefix + decimal(k)
}

/// The id of the `k`-th user ever created, counting from one.
pub open spec fn nth_user_id(k: nat) -> Seq<char> {
    entity_id("user_"@, k)
}

/// The id of the `k`-th project ever created, counting from one.
pub open spec fn nth_project_id(k: nat) -> Seq<char> {
    entity_id("project_"@, k)
}

/// The id of the `k`-th task ever created, counting from one.
pub open spec fn nth_task_id(k: nat) -> Seq<char> {
    entity_id("task_"@, k)
}

/// Under one prefix, different numbers give different ids.
pub proof fn lemma_entity_id_injective(prefix: Seq<char>, a: nat, b: nat)
    requires
        entity_id(prefix, a) == entity_id(prefix, b),
    ensures
        a == b,
{
    lemma_prefix_cancel(prefix, decimal(a), decimal(b));
    lemma_decimal_injective(a, b);
}

/// The three collections, each in the order of creation.
pub struct StoreView {
    pub users: Seq<UserView>,
    pub projects: Seq<ProjectView>,
    pub tasks: Seq<TaskView>,
}

impl StoreView {
    /// Every entity carries the id of its one-based position in its collection.
    pub open spec fn wf(self) -> bool {
        &&& forall|i: int|
            0 <= i < self.users.len() ==> #[trigger] self.users[i].id == nth_user_id((i + 1) as nat)
        &&& forall|i: int|
            0 <= i < self.projects.len() ==> #[trigger] self.projects[i].id == nth_project_id(
                (i + 1) as nat,
            )
        &&& forall|i: int|
            0 <= i < self.tasks.len() ==> #[trigger] self.tasks[i].id == nth_task_id((i + 1) as nat)
    }

    /// The user that a create request adds at time `now`.
    pub open spec fn new_user(self, req: CreateUserRequestView, now: u64) -> UserView {
        UserView {
            id: nth_user_id(self.users.len() + 1),
            name: req.name,
            email: req.email,
            role: req.role,
            created_at: now,
            is_active: true,
        }
    }

    /// The project that a create request adds at time `now`: planned, with no progress.
    pub open spec fn new_project(self, req: CreateProjectRequestView, now: u64) -> ProjectView {
        ProjectView {
            id: nth_project_id(self.projects.len() + 1),
            title: req.title,
            description: req.description,
            status: "Planning"@,
            owner_id: req.owner_id,
            created_at: now,
            technologies: req.technologies,
            progress: 0,
        }
    }

    /// The task that a create request adds at time `now`: still to do.
    pub open spec fn new_task(self, req: CreateTaskRequestView, now: u64) -> TaskView {
        TaskView {
            id: nth_task_id(self.tasks.len() + 1),
            project_id: req.project_id,
            title: req.title,
            description: req.description,
            status: "Todo"@,
            priority: req.priority,
            assigned_to: req.assigned_to,
            created_at: now,
            due_date: req.due_date,
        }
    }

    /// The store after a user request is served at time `now`.
    pub open spec fn after_user_request(self, req: CreateUserRequestView, now: u64) -> StoreView {
        StoreView {
            users: self.users.push(self.new_user(req, now)),
            projects: self.projects,
            tasks: self.tasks,
        }
    }

    /// The store after a project request is served at time `now`.
    pub open spec fn after_project_request(self, req: CreateProjectRequestView, now: u64) -> StoreView {
        StoreView {
            users: self.users,
            projects: self.projects.push(self.new_project(req, now)),
            tasks: self.tasks,
        }
    }

    /// The store after a task request is served at time `now`.
    pub open spec fn after_task_request(self, req: CreateTaskRequestView, now: u64) -> StoreView {
        StoreView {
            users: self.users,
            projects: self.projects,
            tasks: self.tasks.push(self.new_task(req, now)),
        }
    }
}

/// The authoritative holder of all users, projects and tasks.
///
/// Entities are only ever added; each gets the next id of its kind.
pub struct Store {
    users: Vec<User>,
    projects: Vec<Project>,
    tasks: Vec<Task>,
}

impl View for Store {
    type V = StoreView;

    closed spec fn view(&self) -> StoreView {
        StoreView {
            users: users_view(self.users@),
            projects: projects_view(self.projects@),
            tasks: tasks_view(self.tasks@),
        }
    }
}

fn make_id(prefix: &str, k: u64) -> (r: String)
    ensures
        r@ == entity_id(prefix@, k as nat),
{
    let mut s = String::from_str(prefix);
    let d = decimal_text(k);
    s.append(d.as_str());
    s
}

impl Store {
    pub open spec fn wf(&self) -> bool {
        self@.wf()
    }

    /// A store with no entities.
    pub fn new() -> (r: Store)
        ensures
            r.wf(),
            r@.users.len() == 0,
            r@.projects.len() == 0,
            r@.tasks.len() == 0,
    {
        let r = Store { users: Vec::new(), projects: Vec::new(), tasks: Vec::new() };
        assert(r@.users =~= Seq::<UserView>::empty());
        assert(r@.projects =~= Seq::<ProjectView>::empty());
        assert(r@.tasks =~= Seq::<TaskView>::empty());
        r
    }

    pub fn user_count(&self) -> (r: usize)
        ensures
            r == self@.users.len(),
    {
        self.users.len()
    }

    pub fn project_count(&self) -> (r: usize)
        ensures
            r == self@.projects.len(),
    {
        self.projects.len()
    }

    pub fn task_count(&self) -> (r: usize)
        ensures
            r == self@.tasks.len(),
    {
        self.tasks.len()
    }

    fn push_user(
        &mut self,
        name: String,
        email: String,
        role: String,
        created_at: u64,
        is_active: bool,
    ) -> (r: User)
        requires
            old(self).wf(),
            old(self)@.users.len() < usize::MAX,
        ensures
            final(self).wf(),
            r@ == (UserView {
                id: nth_user_id(old(self)@.users.len() + 1),
                name: name@,
                email: email@,
                role: role@,
                created_at,
                is_active,
            }),
            final(self)@.users == old(self)@.users.push(r@),
            final(self)@.projects == old(self)@.projects,
            final(self)@.tasks == old(self)@.tasks,
    {
        let k = self.users.len() as u64 + 1;
        let user = User { id: make_id("user_", k), name, email, role, created_at, is_active };
        let r = user.copy();
        let ghost before = self.users@;
        let ghost old_view = self@;
        self.users.push(user);
        assert(users_view(self.users@) =~= users_view(before).push(r@));
        assert forall|i: int| 0 <= i < self@.projects.len() implies #[trigger] self@.projects[i].id
            == nth_project_id((i + 1) as nat) by {
            assert(self@.projects[i] == old_view.projects[i]);
        }
        assert forall|i: int| 0 <= i < self@.tasks.len() implies #[trigger] self@.tasks[i].id
            == nth_task_id((i + 1) as nat) by {
            assert(self@.tasks[i] == old_view.tasks[i]);
        }
        assert forall|i: int| 0 <= i < self@.users.len() implies #[trigger] self@.users[i].id
            == nth_user_id((i + 1) as nat) by {
            if i < before.len() {
                assert(self@.users[i] == users_view(before)[i]);
            }
        }
        r
    }

    fn push_project(
        &mut self,
        title: String,
        description: String,
        status: String,
        owner_id: String,
        technologies: Vec<String>,
        progress: u32,
        created_at: u64,
    ) -> (r: Project)
        requires
            old(self).wf(),
            old(self)@.projects.len() < usize::MAX,
        ensures
            final(self).wf(),
            r@ == (ProjectView {
                id: nth_project_id(old(self)@.projects.len() + 1),
                title: title@,
                description: description@,
                status: status@,
                owner_id: owner_id@,
                created_at,
                technologies: crate::model::texts_view(technologies@),
                progress,
            }),
            final(self)@.users == old(self)@.users,
            final(self)@.projects == old(self)@.projects.push(r@),
            final(self)@.tasks == old(self)@.tasks,
    {
        let k = self.projects.len() as u64 + 1;
        let project = Project {
            id: make_id("project_", k),
            title,
            description,
            status,
            owner_id,
            created_at,
            technologies,
            progress,
        };
        let r = project.copy();
        let ghost before = self.projects@;
        let ghost old_view = self@;
        self.projects.push(project);
        assert(projects_view(self.projects@) =~= projects_view(before).push(r@));
        assert forall|i: int| 0 <= i < self@.users.len() implies #[trigger] self@.users[i].id
            == nth_user_id((i + 1) as nat) by {
            assert(self@.users[i] == old_view.users[i]);
        }
        assert forall|i: int| 0 <= i < self@.tasks.len() implies #[trigger] self@.tasks[i].id
            == nth_task_id((i + 1) as nat) by {
            assert(self@.tasks[i] == old_view.tasks[i]);
        }
        assert forall|i: int| 0 <= i < self@.projects.len() implies #[trigger] self@.projects[i].id
            == nth_project_id((i + 1) as nat) by {
            if i < before.len() {
                assert(self@.projects[i] == projects_view(before)[i]);
            }
        }
        r
    }

    fn push_task(
        &mut self,
        project_id: String,
        title: String,
        description: String,
        status: String,
        priority: String,
        assigned_to: Option<String>,
        created_at: u64,
        due_date: Option<u64>,
    ) -> (r: Task)
        requires
            old(self).wf(),
            old(self)@.tasks.len() < usize::MAX,
        ensures
            final(self).wf(),
            r@ == (TaskView {
                id: nth_task_id(old(self)@.tasks.len() + 1),
                project_id: project_id@,
                title: title@,
                description: description@,
                status: status@,
                priority: priority@,
                assigned_to: crate::model::opt_text_view(assigned_to),
                created_at,
                due_date,
            }),
            final(self)@.users == old(self)@.users,
            final(self)@.projects == old(self)@.projects,
            final(self)@.tasks == old(self)@.tasks.push(r@),
    {
        let k = self.tasks.len() as u64 + 1;
        let task = Task {
            id: make_id("task_", k),
            project_id,
            title,
            description,
            status,
            priority,
            assigned_to,
            created_at,
            due_date,
        };
        let r = task.copy();
        let ghost before = self.tasks@;
        let ghost old_view = self@;
        self.tasks.push(task);
        assert(tasks_view(self.tasks@) =~= tasks_view(before).push(r@));
        assert forall|i: int| 0 <= i < self@.users.len() implies #[trigger] self@.users[i].id
            == nth_user_id((i + 1) as nat) by {
            assert(self@.users[i] == old_view.users[i]);
        }
        assert forall|i: int| 0 <= i < self@.projects.len() implies #[trigger] self@.projects[i].id
            == nth_project_id((i + 1) as nat) by {
            assert(self@.projects[i] == old_view.projects[i]);
        }
        assert forall|i: int| 0 <= i < self@.tasks.len() implies #[trigger] self@.tasks[i].id
            == nth_task_id((i + 1) as nat) by {
            if i < before.len() {
                assert(self@.tasks[i] == tasks_view(before)[i]);
            }
        }
        r
    }

    /// Adds a user made from `req` at time `now`: the next user id, active.
    pub fn create_user(&mut self, req: CreateUserRequest, now: u64) -> (r: User)
        requires
            old(self).wf(),
            old(self)@.users.len() < usize::MAX,
        ensures
            final(self).wf(),
            r@ == old(self)@.new_user(req@, now),
            final(self)@ == old(self)@.after_user_request(req@, now),
            r@.id.len() > 0,
            forall|i: int| 0 <= i < old(self)@.users.len() ==> old(self)@.users[i].id != r@.id,
    {
        let r = self.push_user(req.name, req.email, req.role, now, true);
        proof {
            crate::text::lemma_decimal_len((old(self)@.users.len() + 1) as nat);
            assert forall|i: int| 0 <= i < old(self)@.users.len() implies old(self)@.users[i].id
                != r@.id by {
                if old(self)@.users[i].id == r@.id {
                    lemma_entity_id_injective(
                        "user_"@,
                        (i + 1) as nat,
                        (old(self)@.users.len() + 1) as nat,
                    );
                }
            }
        }
        r
    }

    /// Adds a project made from `req` at time `now`: the next project id, status
    /// "Planning" and progress 0, whatever the request holds.
    pub fn create_project(&mut self, req: CreateProjectRequest, now: u64) -> (r: Project)
        requires
            old(self).wf(),
            old(self)@.projects.len() < usize::MAX,
        ensures
            final(self).wf(),
            r@ == old(self)@.new_project(req@, now),
            final(self)@ == old(self)@.after_project_request(req@, now),
            r@.id.len() > 0,
            forall|i: int|
                0 <= i < old(self)@.projects.len() ==> old(self)@.projects[i].id != r@.id,
    {
        let r = self.push_project(
            req.title,
            req.description,
            String::from_str("Planning"),
            req.owner_id,
            req.technologies,
            0,
            now,
        );
        proof {
            crate::text::lemma_decimal_len((old(self)@.projects.len() + 1) as nat);
            assert forall|i: int| 0 <= i < old(self)@.projects.len() implies old(
                self,
            )@.projects[i].id != r@.id by {
                if old(self)@.projects[i].id == r@.id {
                    lemma_entity_id_injective(
                        "project_"@,
                        (i + 1) as nat,
                        (old(self)@.projects.len() + 1) as nat,
                    );
                }
            }
        }
        r
    }

    /// Adds a task made from `req` at time `now`: the next task id, status "Todo".
    pub fn create_task(&mut self, req: CreateTaskRequest, now: u64) -> (r: Task)
        requires
            old(self).wf(),
            old(self)@.tasks.len() < usize::MAX,
        ensures
            final(self).wf(),
            r@ == old(self)@.new_task(req@, now),
            final(self)@ == old(self)@.after_task_request(req@, now),
            r@.id.len() > 0,
            forall|i: int| 0 <= i < old(self)@.tasks.len() ==> old(self)@.tasks[i].id != r@.id,
    {
        let r = self.push_task(
            req.project_id,
            req.title,
            req.description,
            String::from_str("Todo"),
            req.priority,
            req.assigned_to,
            now,
            req.due_date,
        );
        proof {
            crate::text::lemma_decimal_len((old(self)@.tasks.len() + 1) as nat);
            assert forall|i: int| 0 <= i < old(self)@.tasks.len() implies old(self)@.tasks[i].id
                != r@.id by {
                if old(self)@.tasks[i].id == r@.id {
                    lemma_entity_id_injective(
                        "task_"@,
                        (i + 1) as nat,
                        (old(self)@.tasks.len() + 1) as nat,
                    );
                }
            }
        }
        r
    }

    /// A copy of every user, in order of creation.
    pub fn list_users(&self) -> (r: Vec<User>)
        ensures
            users_view(r@) == self@.users,
    {
        let mut r: Vec<User> = Vec::new();
        let mut i: usize = 0;
        while i < self.users.len()
            invariant
                i <= self.users@.len(),
                r@.len() == i,
                users_view(r@) == users_view(self.users@.take(i as int)),
            decreases self.users@.len() - i,
        {
            let item = self.users[i].copy();
            let ghost before = r@;
            r.push(item);
            assert(r@ == before.push(item));
            assert(item@ == self.users@[i as int]@);
            i = i + 1;
            assert(users_view(r@) =~= users_view(self.users@.take(i as int))) by {
                assert(users_view(before) =~= users_view(self.users@.take(i - 1)));
                assert forall|k: int| 0 <= k < i implies #[trigger] users_view(r@)[k]
                    == users_view(self.users@.take(i as int))[k] by {
                    if k < i - 1 {
                        assert(users_view(before)[k] == users_view(self.users@.take(i - 1))[k]);
                    } else {
                        assert(r@[k] == item);
                        assert(users_view(r@)[k] == item@);
                        assert(self.users@.take(i as int)[k] == self.users@[k]);
                    }
                }
            }
        }
        assert(self.users@.take(i as int) =~= self.users@);
        r
    }

    /// A copy of every project, in order of creation.
    pub fn list_projects(&self) -> (r: Vec<Project>)
        ensures
            projects_view(r@) == self@.projects,
    {
        let mut r: Vec<Project> = Vec::new();
        let mut i: usize = 0;
        while i < self.projects.len()
            invariant
                i <= self.projects@.len(),
                r@.len() == i,
                projects_view(r@) == projects_view(self.projects@.take(i as int)),
            decreases self.projects@.len() - i,
        {
            let p = self.projects[i].copy();
            let ghost before = r@;
            r.push(p);
            assert(r@ == before.push(p));
            assert(p@ == self.projects@[i as int]@);
            i = i + 1;
            assert(projects_view(r@) =~= projects_view(self.projects@.take(i as int))) by {
                assert(projects_view(before) =~= projects_view(self.projects@.take(i - 1)));
                assert forall|k: int| 0 <= k < i implies #[trigger] projects_view(r@)[k]
                    == projects_view(self.projects@.take(i as int))[k] by {
                    if k < i - 1 {
                        assert(projects_view(before)[k] == projects_view(
                            self.projects@.take(i - 1),
                        )[k]);
                    } else {
                        assert(r@[k] == p);
                        assert(projects_view(r@)[k] == p@);
                        assert(self.projects@.take(i as int)[k] == self.projects@[k]);
                    }
                }
            }
        }
        assert(self.projects@.take(i as int) =~= self.projects@);
        r
    }

    /// A copy of every task, in order of creation.
    pub fn list_tasks(&self) -> (r: Vec<Task>)
        ensures
            tasks_view(r@) == self@.tasks,
    {
        let mut r: Vec<Task> = Vec::new();
        let mut i: usize = 0;
        while i < self.tasks.len()
            invariant
                i <= self.tasks@.len(),
                r@.len() == i,
                tasks_view(r@) == tasks_view(self.tasks@.take(i as int)),
            decreases self.tasks@.len() - i,
        {
            let t = self.tasks[i].copy();
            let ghost before = r@;
            r.push(t);
            assert(r@ == before.push(t));
            assert(t@ == self.tasks@[i as int]@);
            i = i + 1;
            assert(tasks_view(r@) =~= tasks_view(self.tasks@.take(i as int))) by {
                assert(tasks_view(before) =~= tasks_view(self.tasks@.take(i - 1)));
                assert forall|k: int| 0 <= k < i implies #[trigger] tasks_view(r@)[k]
                    == tasks_view(self.tasks@.take(i as int))[k] by {
                    if k < i - 1 {
                        assert(tasks_view(before)[k] == tasks_view(self.tasks@.take(i - 1))[k]);
                    } else {
                        assert(r@[k] == t);
                        assert(tasks_view(r@)[k] == t@);
                        assert(self.tasks@.take(i as int)[k] == self.tasks@[k]);
                    }
                }
            }
        }
        assert(self.tasks@.take(i as int) =~= self.tasks@);
        r
    }

    /// The summary of all three collections at this moment.
    pub fn stats(&self) -> (r: Stats)
        ensures
            r.describes(self@),
    {
        Stats {
            users: user_stats(&self.users),
            projects: project_stats(&self.projects),
            tasks: task_stats(&self.tasks),
        }
    }

    /// The store as it starts: five users, three projects and three tasks,
    /// all created at time `now`.
    pub fn seeded(now: u64) -> (r: Store)
        ensures
            r.wf(),
            r@.users.len() == 5,
            r@.projects.len() == 3,
            r@.tasks.len() == 3,
    {
        let mut s = Store::new();
        s.push_user(
            String::from_str("Alice Johnson"),
            String::from_str("alice@example.com"),
            String::from_str("Senior Full Stack Developer"),
            now,
            true,
        );
        s.push_user(
            String::from_str("Bob Smith"),
            String::from_str("bob@example.com"),
            String::from_str("UI/UX Designer"),
            now,
            true,
        );
        s.push_user(
            String::from_str("Carol Williams"),
            String::from_str("carol@example.com"),
            String::from_str("Project Manager"),
            now,
            true,
        );
        s.push_user(
            String::from_str("David Brown"),
            String::from_str("david@example.com"),
            String::from_str("Backend Developer"),
            now,
            true,
        );
        s.push_user(
            String::from_str("Eve Davis"),
            String::from_str("eve@example.com"),
            String::from_str("DevOps Engineer"),
            now,
            false,
        );
        s.push_project(
            String::from_str("Customer Portal"),
            String::from_str("Self-service portal for customer accounts"),
            String::from_str("In Progress"),
            String::from_str("user_1"),
            vec![String::from_str("Rust"), String::from_str("TypeScript")],
            65,
            now,
        );
        s.push_project(
            String::from_str("Design System"),
            String::from_str("Shared components and style guide"),
            String::from_str("Completed"),
            String::from_str("user_2"),
            vec![String::from_str("Figma"), String::from_str("CSS")],
            100,
            now,
        );
        s.push_project(
            String::from_str("Analytics Pipeline"),
            String::from_str("Event ingestion and reporting"),
            String::from_str("Planning"),
            String::from_str("user_3"),
            vec![String::from_str("Rust"), String::from_str("PostgreSQL")],
            10,
            now,
        );
        s.push_task(
            String::from_str("project_1"),
            String::from_str("Implement login flow"),
            String::from_str("Sign-in with email and password"),
            String::from_str("In Progress"),
            String::from_str("High"),
            Some(String::from_str("user_1")),
            now,
            None,
        );
        s.push_task(
            String::from_str("project_2"),
            String::from_str("Publish component library"),
            String::from_str("Release the first stable version"),
            String::from_str("Completed"),
            String::from_str("Medium"),
            Some(String::from_str("user_2")),
            now,
            None,
        );
        s.push_task(
            String::from_str("project_3"),
            String::from_str("Define event schema"),
            String::from_str("Agree on the tracked events and their fields"),
            String::from_str("Todo"),
            String::from_str("High"),
            None,
            now,
            None,
        );
        s
    }
}

/// In a well-formed store no two entities of one kind share an id.
pub proof fn lemma_ids_unique(s: StoreView)
    requires
        s.wf(),
    ensures
        forall|i: int, j: int|
            0 <= i < s.users.len() && 0 <= j < s.users.len() && i != j ==> s.users[i].id
                != s.users[j].id,
        forall|i: int, j: int|
            0 <= i < s.projects.len() && 0 <= j < s.projects.len() && i != j ==> s.projects[i].id
                != s.projects[j].id,
        forall|i: int, j: int|
            0 <= i < s.tasks.len() && 0 <= j < s.tasks.len() && i != j ==> s.tasks[i].id
                != s.tasks[j].id,
{
    assert forall|i: int, j: int|
        0 <= i < s.users.len() && 0 <= j < s.users.len() && i != j implies s.users[i].id
        != s.users[j].id by {
        if s.users[i].id == s.users[j].id {
            lemma_entity_id_injective("user_"@, (i + 1) as nat, (j + 1) as nat);
        }
    }
    assert forall|i: int, j: int|
        0 <= i < s.projects.len() && 0 <= j < s.projects.len() && i != j implies s.projects[i].id
        != s.projects[j].id by {
        if s.projects[i].id == s.projects[j].id {
            lemma_entity_id_injective("project_"@, (i + 1) as nat, (j + 1) as nat);
        }
    }
    assert forall|i: int, j: int|
        0 <= i < s.tasks.len() && 0 <= j < s.tasks.len() && i != j implies s.tasks[i].id
        != s.tasks[j].id by {
        if s.tasks[i].id == s.tasks[j].id {
            lemma_entity_id_injective("task_"@, (i + 1) as nat, (j + 1) as nat);
        }
    }
}

/// A created user is the last entry of the listing and the only one with its id.
pub proof fn lemma_created_user_listed_once(s: StoreView, req: CreateUserRequestView, now: u64)
    requires
        s.wf(),
    ensures
        s.after_user_request(req, now).users.last() == s.new_user(req, now),
        forall|i: int|
            0 <= i < s.after_user_request(req, now).users.len() && #[trigger] s.after_user_request(
                req,
                now,
            ).users[i].id == s.new_user(req, now).id ==> i == s.users.len(),
{
    let t = s.after_user_request(req, now);
    assert forall|i: int| 0 <= i < t.users.len() && #[trigger] t.users[i].id == s.new_user(req, now).id
        implies i == s.users.len() by {
        if i < s.users.len() {
            assert(t.users[i] == s.users[i]);
            lemma_entity_id_injective("user_"@, (i + 1) as nat, (s.users.len() + 1) as nat);
        }
    }
}

/// The store after the user requests `reqs` are served one after another,
/// each with its own time.
pub open spec fn after_user_requests(s: StoreView, reqs: Seq<(CreateUserRequestView, u64)>) -> StoreView
    decreases reqs.len(),
{
    if reqs.len() == 0 {
        s
    } else {
        after_user_requests(s, reqs.drop_last()).after_user_request(reqs.last().0, reqs.last().1)
    }
}

/// Serving user requests in any serial order (as the store's single lock imposes)
/// loses none: the users grow by exactly one per request, the earlier users stay,
/// the other collections are untouched, and all user ids remain distinct.
pub proof fn lemma_user_requests_all_land(s: StoreView, reqs: Seq<(CreateUserRequestView, u64)>)
    requires
        s.wf(),
    ensures
        after_user_requests(s, reqs).wf(),
        after_user_requests(s, reqs).users.len() == s.users.len() + reqs.len(),
        after_user_requests(s, reqs).users.take(s.users.len() as int) == s.users,
        after_user_requests(s, reqs).projects == s.projects,
        after_user_requests(s, reqs).tasks == s.tasks,
        forall|i: int, j: int|
            0 <= i < after_user_requests(s, reqs).users.len() && 0 <= j < after_user_requests(
                s,
                reqs,
            ).users.len() && i != j ==> after_user_requests(s, reqs).users[i].id
                != after_user_requests(s, reqs).users[j].id,
    decreases reqs.len(),
{
    if reqs.len() > 0 {
        let prev = after_user_requests(s, reqs.drop_last());
        lemma_user_requests_all_land(s, reqs.drop_last());
        let next = prev.after_user_request(reqs.last().0, reqs.last().1);
        assert forall|i: int| 0 <= i < next.users.len() implies #[trigger] next.users[i].id
            == nth_user_id((i + 1) as nat) by {
            if i < prev.users.len() {
                assert(next.users[i] == prev.users[i]);
            }
        }
        assert(next.users.take(s.users.len() as int) =~= prev.users.take(s.users.len() as int));
    } else {
        assert(s.users.take(s.users.len() as int) =~= s.users);
    }
    lemma_ids_unique(after_user_requests(s, reqs));
}

} // verus!
