use vstd::prelude::*;
use crate::model::{Project, ProjectView, Task, TaskView, User, UserView, projects_view, tasks_view, users_view};
use crate::store::StoreView;
use crate::text::{contains_text, has_substring};

verus! {

/// How many users' roles mention each of the three role families.
#[derive(Debug, Clone, Copy, PartialEq, Eq, Structural)]
pub struct RoleStats {
    pub developers: usize,
    pub designers: usize,
    pub managers: usize,
}

#[derive(Debug, Clone, Copy, PartialEq, Eq, Structural)]
pub struct UserStats {
    pub total: usize,
    pub active: usize,
    pub roles: RoleStats,
}

#[derive(Debug, Clone, Copy, PartialEq, Eq, Structural)]
pub struct ProjectStats {
    pub total: usize,
    pub in_progress: usize,
    pub completed: usize,
    pub planning: usize,
}

#[derive(Debug, Clone, Copy, PartialEq, Eq, Structural)]
pub struct TaskStats {
    pub total: usize,
    pub completed: usize,
    pub in_progress: usize,
    pub todo: usize,
}

/// The summary of a store's three collections.
#[derive(Debug, Clone, Copy, PartialEq, Eq, Structural)]
pub struct Stats {
    pub users: UserStats,
    pub projects: ProjectStats,
    pub tasks: TaskStats,
}

/// The number of active users in `us`.
pub open spec fn count_active(us: Seq<UserView>) -> nat
    decreases us.len(),
{
    if us.len() == 0 {
        0
    } else {
        count_active(us.drop_last()) + if us.last().is_active {
            1nat
        } else {
            0nat
        }
    }
}

/// The number of users in `us` whose role contains `word`.
pub open spec fn count_role(us: Seq<UserView>, word: Seq<char>) -> nat
    decreases us.len(),
{
    if us.len() == 0 {
        0
    } else {
        count_role(us.drop_last(), word) + if has_substring(us.last().role, word) {
            1nat
        } else {
            0nat
        }
    }
}

/// The number of projects in `ps` whose status is exactly `status`.
pub open spec fn count_project_status(ps: Seq<ProjectView>, status: Seq<char>) -> nat
    decreases ps.len(),
{
    if ps.len() == 0 {
        0
    } else {
        count_project_status(ps.drop_last(), status) + if ps.last().status == status {
            1nat
        } else {
            0nat
        }
    }
}

/// The number of tasks in `ts` whose status is exactly `status`.
pub open spec fn count_task_status(ts: Seq<TaskView>, status: Seq<char>) -> nat
    decreases ts.len(),
{
    if ts.len() == 0 {
        0
    } else {
        count_task_status(ts.drop_last(), status) + if ts.last().status == status {
            1nat
        } else {
            0nat
        }
    }
}

impl Stats {
    /// Every counter of `self` is the corresponding count over `s`.
    pub open spec fn describes(self, s: StoreView) -> bool {
        &&& self.users.total == s.users.len()
        &&& self.users.active == count_active(s.users)
        &&& self.users.roles.developers == count_role(s.users, "Developer"@)
        &&& self.users.roles.designers == count_role(s.users, "Designer"@)
        &&& self.users.roles.managers == count_role(s.users, "Manager"@)
        &&& self.projects.total == s.projects.len()
        &&& self.projects.in_progress == count_project_status(s.projects, "In Progress"@)
        &&& self.projects.completed == count_project_status(s.projects, "Completed"@)
        &&& self.projects.planning == count_project_status(s.projects, "Planning"@)
        &&& self.tasks.total == s.tasks.len()
        &&& self.tasks.completed == count_task_status(s.tasks, "Completed"@)
        &&& self.tasks.in_progress == count_task_status(s.tasks, "In Progress"@)
        &&& self.tasks.todo == count_task_status(s.tasks, "Todo"@)
    }
}

/// The user part of the summary.
pub fn user_stats(users: &Vec<User>) -> (r: UserStats)
    ensures
        r.total == users@.len(),
        r.active == count_active(users_view(users@)),
        r.roles.developers == count_role(users_view(users@), "Developer"@),
        r.roles.designers == count_role(users_view(users@), "Designer"@),
        r.roles.managers == count_role(users_view(users@), "Manager"@),
{
    let ghost all = users_view(users@);
    let mut active: usize = 0;
    let mut developers: usize = 0;
    let mut designers: usize = 0;
    let mut managers: usize = 0;
    let mut i: usize = 0;
    while i < users.len()
        invariant
            all == users_view(users@),
            i <= users@.len(),
            active <= i && developers <= i && designers <= i && managers <= i,
            active == count_active(all.take(i as int)),
            developers == count_role(all.take(i as int), "Developer"@),
            designers == count_role(all.take(i as int), "Designer"@),
            managers == count_role(all.take(i as int), "Manager"@),
        decreases users@.len() - i,
    {
        let u = &users[i];
        assert(all.take(i + 1).drop_last() =~= all.take(i as int));
        assert(all.take(i + 1).last() == u@);
        if u.is_active {
            active = active + 1;
        }
        if contains_text(u.role.as_str(), "Developer") {
            developers = developers + 1;
        }
        if contains_text(u.role.as_str(), "Designer") {
            designers = designers + 1;
        }
        if contains_text(u.role.as_str(), "Manager") {
            managers = managers + 1;
        }
        i = i + 1;
    }
    assert(all.take(i as int) =~= all);
    UserStats { total: users.len(), active, roles: RoleStats { developers, designers, managers } }
}

/// The project part of the summary.
pub fn project_stats(projects: &Vec<Project>) -> (r: ProjectStats)
    ensures
        r.total == projects@.len(),
        r.in_progress == count_project_status(projects_view(projects@), "In Progress"@),
        r.completed == count_project_status(projects_view(projects@), "Completed"@),
        r.planning == count_project_status(projects_view(projects@), "Planning"@),
{
    let ghost all = projects_view(projects@);
    let in_progress_text = String::from_str("In Progress");
    let completed_text = String::from_str("Completed");
    let planning_text = String::from_str("Planning");
    let mut in_progress: usize = 0;
    let mut completed: usize = 0;
    let mut planning: usize = 0;
    let mut i: usize = 0;
    while i < projects.len()
        invariant
            all == projects_view(projects@),
            in_progress_text@ == "In Progress"@,
            completed_text@ == "Completed"@,
            planning_text@ == "Planning"@,
            i <= projects@.len(),
            in_progress <= i && completed <= i && planning <= i,
            in_progress == count_project_status(all.take(i as int), "In Progress"@),
            completed == count_project_status(all.take(i as int), "Completed"@),
            planning == count_project_status(all.take(i as int), "Planning"@),
        decreases projects@.len() - i,
    {
        let p = &projects[i];
        assert(all.take(i + 1).drop_last() =~= all.take(i as int));
        assert(all.take(i + 1).last() == p@);
        if p.status == in_progress_text {
            in_progress = in_progress + 1;
        }
        if p.status == completed_text {
            completed = completed + 1;
        }
        if p.status == planning_text {
            planning = planning + 1;
        }
        i = i + 1;
    }
    assert(all.take(i as int) =~= all);
    ProjectStats { total: projects.len(), in_progress, completed, planning }
}

/// The task part of the summary.
pub fn task_stats(tasks: &Vec<Task>) -> (r: TaskStats)
    ensures
        r.total == tasks@.len(),
        r.completed == count_task_status(tasks_view(tasks@), "Completed"@),
        r.in_progress == count_task_status(tasks_view(tasks@), "In Progress"@),
        r.todo == count_task_status(tasks_view(tasks@), "Todo"@),
{
    let ghost all = tasks_view(tasks@);
    let completed_text = String::from_str("Completed");
    let in_progress_text = String::from_str("In Progress");
    let todo_text = String::from_str("Todo");
    let mut completed: usize = 0;
    let mut in_progress: usize = 0;
    let mut todo: usize = 0;
    let mut i: usize = 0;
    while i < tasks.len()
        invariant
            all == tasks_view(tasks@),
            completed_text@ == "Completed"@,
            in_progress_text@ == "In Progress"@,
            todo_text@ == "Todo"@,
            i <= tasks@.len(),
            completed <= i && in_progress <= i && todo <= i,
            completed == count_task_status(all.take(i as int), "Completed"@),
            in_progress == count_task_status(all.take(i as int), "In Progress"@),
            todo == count_task_status(all.take(i as int), "Todo"@),
        decreases tasks@.len() - i,
    {
        let t = &tasks[i];
        assert(all.take(i + 1).drop_last() =~= all.take(i as int));
        assert(all.take(i + 1).last() == t@);
        if t.status == completed_text {
            completed = completed + 1;
        }
        if t.status == in_progress_text {
            in_progress = in_progress + 1;
        }
        if t.status == todo_text {
            todo = todo + 1;
        }
        i = i + 1;
    }
    assert(all.take(i as int) =~= all);
    TaskStats { total: tasks.len(), completed, in_progress, todo }
}

/// Two summaries of the same store agree in every counter.
pub proof fn lemma_stats_determined(a: Stats, b: Stats, s: StoreView)
    requires
        a.describes(s),
        b.describes(s),
    ensures
        a == b,
{
}

} // verus!
