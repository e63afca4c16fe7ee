//! The store as a mathematical value: its tables as sequences of rows, the
//! rules that hold of them, and the changes the engine makes to them.

use crate::models::growth_template::GrowthTemplateView;
use crate::models::project::ProjectView;
use crate::models::raci_assignment::RaciAssignment;
use crate::models::raci_role::RaciRole;
use crate::models::task::TaskView;
use crate::models::task_status::TaskStatus;
use crate::models::user::UserView;
use crate::models::workflow_step::WorkflowStepView;
use crate::models::workflow_template::WorkflowTemplateView;
use crate::store::order::{
    ascending, by_email, by_name, in_order, in_step_order, lemma_in_order, lemma_orders,
};
use vstd::prelude::*;
use vstd::seq_lib::lemma_seq_contains_after_push;

verus! {

/// The views of a sequence of rows.
pub open spec fn views<T: View>(rows: Seq<T>) -> Seq<T::V> {
    rows.map_values(|row: T| row@)
}

/// Identifiers as the store issues them: above zero, below the next one to be
/// issued, each larger than the one before.
pub open spec fn issued(ids: Seq<u128>, next_id: u128) -> bool {
    &&& forall|i: int| 0 <= i < ids.len() ==> 0 < #[trigger] ids[i] < next_id
    &&& forall|i: int, j: int| 0 <= i < j < ids.len() ==> ids[i] < ids[j]
}

/// The tasks of one project.
pub open spec fn in_project(project_id: u128) -> spec_fn(TaskView) -> bool {
    |row: TaskView| row.project_id == project_id
}

/// The projects of one owner.
pub open spec fn owned_by(owner_id: u128) -> spec_fn(ProjectView) -> bool {
    |row: ProjectView| row.owner_id == owner_id
}

/// The assignments for one task.
pub open spec fn for_task(task_id: u128) -> spec_fn(RaciAssignment) -> bool {
    |row: RaciAssignment| row.task_id == task_id
}

/// The assignments of one user for one task.
pub open spec fn of_pair(user_id: u128, task_id: u128) -> spec_fn(RaciAssignment) -> bool {
    |row: RaciAssignment| row.pairs(user_id, task_id)
}

/// The steps of one template.
pub open spec fn in_template(template_id: u128) -> spec_fn(WorkflowStepView) -> bool {
    |row: WorkflowStepView| row.template_id == template_id
}

/// The names of steps, in their order.
pub open spec fn step_names(steps: Seq<WorkflowStepView>) -> Seq<Seq<char>> {
    steps.map_values(|row: WorkflowStepView| row.step_name)
}

/// The tasks that the store makes of `titles` for one project, when the
/// first of them gets the identifier `first_id`.
pub open spec fn tasks_created(first_id: u128, titles: Seq<Seq<char>>, project_id: u128) -> Seq<
    TaskView,
> {
    Seq::new(
        titles.len(),
        |i: int| TaskView::created((first_id + i) as u128, titles[i], project_id),
    )
}

/// What the store holds. Rows stand in the order in which they were written.
pub struct StoreView {
    pub users: Seq<UserView>,
    /// The password hash of each user, in the order of `users`.
    pub password_hashes: Seq<Seq<char>>,
    pub projects: Seq<ProjectView>,
    pub tasks: Seq<TaskView>,
    pub assignments: Seq<RaciAssignment>,
    pub templates: Seq<WorkflowTemplateView>,
    pub steps: Seq<WorkflowStepView>,
    pub growth_templates: Seq<GrowthTemplateView>,
    /// The identifier that the next new row gets.
    pub next_id: u128,
}

impl StoreView {
    /// The store without rows; the first identifier is 1.
    pub open spec fn empty() -> StoreView {
        StoreView {
            users: Seq::empty(),
            password_hashes: Seq::empty(),
            projects: Seq::empty(),
            tasks: Seq::empty(),
            assignments: Seq::empty(),
            templates: Seq::empty(),
            steps: Seq::empty(),
            growth_templates: Seq::empty(),
            next_id: 1,
        }
    }

    /// The identifiers of each table, in the order of its rows.
    pub open spec fn user_ids(self) -> Seq<u128> {
        self.users.map_values(|row: UserView| row.id)
    }

    pub open spec fn project_ids(self) -> Seq<u128> {
        self.projects.map_values(|row: ProjectView| row.id)
    }

    pub open spec fn task_ids(self) -> Seq<u128> {
        self.tasks.map_values(|row: TaskView| row.id)
    }

    pub open spec fn template_ids(self) -> Seq<u128> {
        self.templates.map_values(|row: WorkflowTemplateView| row.id)
    }

    pub open spec fn step_ids(self) -> Seq<u128> {
        self.steps.map_values(|row: WorkflowStepView| row.id)
    }

    pub open spec fn growth_template_ids(self) -> Seq<u128> {
        self.growth_templates.map_values(|row: GrowthTemplateView| row.id)
    }

    /// The emails of the users, in the order of the rows.
    pub open spec fn emails(self) -> Seq<Seq<char>> {
        self.users.map_values(|row: UserView| row.email)
    }

    /// Whether a table has a row with this identifier.
    pub open spec fn has_user(self, id: u128) -> bool {
        self.user_ids().contains(id)
    }

    pub open spec fn has_project(self, id: u128) -> bool {
        self.project_ids().contains(id)
    }

    pub open spec fn has_task(self, id: u128) -> bool {
        self.task_ids().contains(id)
    }

    pub open spec fn has_template(self, id: u128) -> bool {
        self.template_ids().contains(id)
    }

    pub open spec fn has_step(self, id: u128) -> bool {
        self.step_ids().contains(id)
    }

    /// Whether a user has this email, as it stands.
    pub open spec fn has_email(self, email: Seq<char>) -> bool {
        self.emails().contains(email)
    }

    /// Whether a reference that may be absent names a user.
    pub open spec fn names_user(self, reference: Option<u128>) -> bool {
        reference matches Some(id) ==> self.has_user(id)
    }

    /// Whether a reference that may be absent names a step.
    pub open spec fn names_step(self, reference: Option<u128>) -> bool {
        reference matches Some(id) ==> self.has_step(id)
    }

    /// The user with this identifier, where there is one.
    pub open spec fn user(self, id: u128) -> UserView {
        self.users[self.user_ids().index_of(id)]
    }

    /// The password hash of the user with this identifier, where there is
    /// one.
    pub open spec fn password_hash(self, id: u128) -> Seq<char> {
        self.password_hashes[self.user_ids().index_of(id)]
    }

    /// The project with this identifier, where there is one.
    pub open spec fn project(self, id: u128) -> ProjectView {
        self.projects[self.project_ids().index_of(id)]
    }

    /// The task with this identifier, where there is one.
    pub open spec fn task(self, id: u128) -> TaskView {
        self.tasks[self.task_ids().index_of(id)]
    }

    /// The template with this identifier, where there is one.
    pub open spec fn template(self, id: u128) -> WorkflowTemplateView {
        self.templates[self.template_ids().index_of(id)]
    }

    /// Whether `user_id` holds a role for `task_id`.
    pub open spec fn has_assignment(self, user_id: u128, task_id: u128) -> bool {
        exists|i: int|
            0 <= i < self.assignments.len() && (#[trigger] self.assignments[i]).pairs(
                user_id,
                task_id,
            )
    }

    /// Where the assignment of `user_id` for `task_id` stands, where there
    /// is one.
    pub open spec fn assignment_index(self, user_id: u128, task_id: u128) -> int {
        choose|i: int|
            0 <= i < self.assignments.len() && (#[trigger] self.assignments[i]).pairs(
                user_id,
                task_id,
            )
    }

    /// The tasks of a project, in the order in which they were written.
    pub open spec fn tasks_of(self, project_id: u128) -> Seq<TaskView> {
        self.tasks.filter(in_project(project_id))
    }

    /// The projects of an owner, in the order in which they were written.
    pub open spec fn projects_of(self, owner_id: u128) -> Seq<ProjectView> {
        self.projects.filter(owned_by(owner_id))
    }

    /// The assignments of a user for a task.
    pub open spec fn assignments_of_pair(self, user_id: u128, task_id: u128) -> Seq<
        RaciAssignment,
    > {
        self.assignments.filter(of_pair(user_id, task_id))
    }

    /// The assignments for a task, in the order in which they were written.
    pub open spec fn assignments_of(self, task_id: u128) -> Seq<RaciAssignment> {
        self.assignments.filter(for_task(task_id))
    }

    /// The steps of a template, in step order.
    pub open spec fn steps_of(self, template_id: u128) -> Seq<WorkflowStepView> {
        in_step_order(self.steps.filter(in_template(template_id)))
    }

    /// All users, ascending by email.
    pub open spec fn users_by_email(self) -> Seq<UserView> {
        in_order(self.users, by_email())
    }

    /// All templates, ascending by name; templates of one name in the order
    /// in which they were written.
    pub open spec fn templates_by_name(self) -> Seq<WorkflowTemplateView> {
        in_order(self.templates, by_name())
    }

    /// The titles of the tasks that a template stands for: the names of its
    /// steps, in step order.
    pub open spec fn titles_of(self, template_id: u128) -> Seq<Seq<char>> {
        step_names(self.steps_of(template_id))
    }

    /// The number of rows that carry an identifier of their own.
    pub open spec fn identified_rows(self) -> nat {
        self.users.len() + self.projects.len() + self.tasks.len() + self.templates.len()
            + self.steps.len() + self.growth_templates.len()
    }

    /// Every identifier was issued once, in order, and one was issued for
    /// every row that carries one.
    pub open spec fn keys_wf(self) -> bool {
        &&& issued(self.user_ids(), self.next_id)
        &&& issued(self.project_ids(), self.next_id)
        &&& issued(self.task_ids(), self.next_id)
        &&& issued(self.template_ids(), self.next_id)
        &&& issued(self.step_ids(), self.next_id)
        &&& issued(self.growth_template_ids(), self.next_id)
        &&& self.next_id == 1 + self.identified_rows()
    }

    /// Every reference names a row that exists.
    pub open spec fn references_wf(self) -> bool {
        &&& forall|i: int|
            0 <= i < self.projects.len() ==> self.has_user((#[trigger] self.projects[i]).owner_id)
        &&& forall|i: int|
            0 <= i < self.tasks.len() ==> self.has_project((#[trigger] self.tasks[i]).project_id)
        &&& forall|i: int|
            0 <= i < self.tasks.len() ==> self.names_user((#[trigger] self.tasks[i]).assigned_to_id)
        &&& forall|i: int|
            0 <= i < self.assignments.len() ==> self.has_user(
                (#[trigger] self.assignments[i]).user_id,
            )
        &&& forall|i: int|
            0 <= i < self.assignments.len() ==> self.has_task(
                (#[trigger] self.assignments[i]).task_id,
            )
        &&& forall|i: int|
            0 <= i < self.templates.len() ==> self.has_user(
                (#[trigger] self.templates[i]).created_by_id,
            )
        &&& forall|i: int|
            0 <= i < self.steps.len() ==> self.has_template((#[trigger] self.steps[i]).template_id)
        &&& forall|i: int|
            0 <= i < self.steps.len() ==> self.names_step(
                (#[trigger] self.steps[i]).depends_on_step_id,
            )
        &&& forall|i: int|
            0 <= i < self.growth_templates.len() ==> self.has_user(
                (#[trigger] self.growth_templates[i]).user_id,
            )
    }

    /// No email belongs to two users, and no pair of user and task has two
    /// assignments.
    pub open spec fn unique_wf(self) -> bool {
        &&& self.password_hashes.len() == self.users.len()
        &&& forall|i: int, j: int|
            0 <= i < j < self.users.len() ==> (#[trigger] self.users[i]).email != (
            #[trigger] self.users[j]).email
        &&& forall|i: int, j: int|
            0 <= i < j < self.assignments.len() ==> !(#[trigger] self.assignments[i]).pairs(
                (#[trigger] self.assignments[j]).user_id,
                self.assignments[j].task_id,
            )
    }

    /// The rules of the store: keys, references and uniqueness.
    pub open spec fn wf(self) -> bool {
        &&& self.keys_wf()
        &&& self.references_wf()
        &&& self.unique_wf()
    }

    /// The identifier after the next one.
    pub open spec fn following_id(self) -> u128 {
        (self.next_id + 1) as u128
    }

    /// The store after a user was written.
    pub open spec fn with_user(self, email: Seq<char>, password_hash: Seq<char>) -> StoreView {
        StoreView {
            users: self.users.push(UserView { id: self.next_id, email }),
            password_hashes: self.password_hashes.push(password_hash),
            next_id: self.following_id(),
            ..self
        }
    }

    /// The store after a project was written.
    pub open spec fn with_project(
        self,
        name: Seq<char>,
        description: Option<Seq<char>>,
        owner_id: u128,
    ) -> StoreView {
        StoreView {
            projects: self.projects.push(
                ProjectView::created(self.next_id, name, description, owner_id),
            ),
            next_id: self.following_id(),
            ..self
        }
    }

    /// The store after a task was written.
    pub open spec fn with_task(self, title: Seq<char>, project_id: u128) -> StoreView {
        StoreView {
            tasks: self.tasks.push(TaskView::created(self.next_id, title, project_id)),
            next_id: self.following_id(),
            ..self
        }
    }

    /// The store after `user_id` was given each of `roles` for `task_id`,
    /// one after the other.
    pub open spec fn with_roles(
        self,
        user_id: u128,
        task_id: u128,
        roles: Seq<RaciRole>,
    ) -> StoreView
        decreases roles.len(),
    {
        if roles.len() == 0 {
            self
        } else {
            self.with_roles(user_id, task_id, roles.drop_last()).with_role(
                user_id,
                task_id,
                roles.last(),
            )
        }
    }

    /// The store after one task for each of `titles` was written, in their
    /// order.
    pub open spec fn with_tasks(self, titles: Seq<Seq<char>>, project_id: u128) -> StoreView
        decreases titles.len(),
    {
        if titles.len() == 0 {
            self
        } else {
            self.with_tasks(titles.drop_last(), project_id).with_task(titles.last(), project_id)
        }
    }

    /// The store after a workflow template was written.
    pub open spec fn with_template(
        self,
        name: Seq<char>,
        description: Option<Seq<char>>,
        created_by_id: u128,
    ) -> StoreView {
        StoreView {
            templates: self.templates.push(
                WorkflowTemplateView { id: self.next_id, name, description, created_by_id },
            ),
            next_id: self.following_id(),
            ..self
        }
    }

    /// The store after a workflow step was written.
    pub open spec fn with_step(
        self,
        template_id: u128,
        step_name: Seq<char>,
        step_order: i32,
        role: Option<Seq<char>>,
    ) -> StoreView {
        StoreView {
            steps: self.steps.push(
                WorkflowStepView::created(self.next_id, template_id, step_name, step_order, role),
            ),
            next_id: self.following_id(),
            ..self
        }
    }

    /// The store after a growth template was written.
    pub open spec fn with_growth_template(
        self,
        user_id: u128,
        core_competencies: Seq<char>,
        developing_skills: Seq<char>,
        recent_achievements: Seq<char>,
        how_to_contribute: Seq<char>,
    ) -> StoreView {
        StoreView {
            growth_templates: self.growth_templates.push(
                GrowthTemplateView {
                    id: self.next_id,
                    user_id,
                    core_competencies,
                    developing_skills,
                    recent_achievements,
                    how_to_contribute,
                },
            ),
            next_id: self.following_id(),
            ..self
        }
    }

    /// The store with `row` in the place of the task `id`.
    pub open spec fn with_task_row(self, id: u128, row: TaskView) -> StoreView {
        StoreView { tasks: self.tasks.update(self.task_ids().index_of(id), row), ..self }
    }

    /// The store after the task `id` was given a status.
    pub open spec fn with_status(self, id: u128, status: TaskStatus) -> StoreView {
        self.with_task_row(id, self.task(id).with_status(status))
    }

    /// The store after the task `id` was linked to a ticket.
    pub open spec fn with_ticket(self, id: u128, ticket: Seq<char>) -> StoreView {
        self.with_task_row(id, self.task(id).with_ticket(ticket))
    }

    /// The store after `user_id` was given `role` for `task_id`: the role of
    /// an assignment that exists is overwritten, else one is written.
    pub open spec fn with_role(self, user_id: u128, task_id: u128, role: RaciRole) -> StoreView {
        let row = RaciAssignment { user_id, task_id, role };
        if self.has_assignment(user_id, task_id) {
            StoreView {
                assignments: self.assignments.update(
                    self.assignment_index(user_id, task_id),
                    row,
                ),
                ..self
            }
        } else {
            StoreView { assignments: self.assignments.push(row), ..self }
        }
    }
}

/// The next identifier is new to identifiers that were issued, and issuing it
/// keeps them in order.
pub proof fn lemma_issue(ids: Seq<u128>, next_id: u128)
    requires
        issued(ids, next_id),
        0 < next_id < u128::MAX,
    ensures
        !ids.contains(next_id),
        issued(ids, (next_id + 1) as u128),
        issued(ids.push(next_id), (next_id + 1) as u128),
{
    let grown = ids.push(next_id);
    assert forall|i: int, j: int| 0 <= i < j < grown.len() implies grown[i] < grown[j] by {
        assert(grown[i] == ids[i]);
        if j < ids.len() {
            assert(grown[j] == ids[j]);
        }
    }
    assert forall|i: int| 0 <= i < grown.len() implies 0 < #[trigger] grown[i] < next_id + 1 by {
        if i < ids.len() {
            assert(grown[i] == ids[i]);
        }
    }
}

/// Among rows of which no two are of one pair, the rows of a pair are the one
/// row that stands at `at`, or none where `at` is `None`.
pub proof fn lemma_rows_of_pair(
    rows: Seq<RaciAssignment>,
    user_id: u128,
    task_id: u128,
    at: Option<int>,
)
    requires
        match at {
            Some(i) => {
                &&& 0 <= i < rows.len()
                &&& rows[i].pairs(user_id, task_id)
                &&& forall|j: int|
                    0 <= j < rows.len() && j != i ==> !(#[trigger] rows[j]).pairs(user_id, task_id)
            },
            None => forall|j: int|
                0 <= j < rows.len() ==> !(#[trigger] rows[j]).pairs(user_id, task_id),
        },
    ensures
        rows.filter(of_pair(user_id, task_id)) == match at {
            Some(i) => seq![rows[i]],
            None => Seq::<RaciAssignment>::empty(),
        },
    decreases rows.len(),
{
    reveal(Seq::filter);
    if rows.len() > 0 {
        let front = rows.drop_last();
        let last = rows.len() - 1;
        assert forall|j: int| 0 <= j < front.len() implies front[j] == rows[j] by {}
        if at == Some(last) {
            lemma_rows_of_pair(front, user_id, task_id, None);
            assert(rows.filter(of_pair(user_id, task_id)) =~= seq![rows[last]]);
        } else {
            lemma_rows_of_pair(front, user_id, task_id, at);
            assert(!rows[last].pairs(user_id, task_id));
        }
    }
}

/// An identifier stands at one place only among identifiers that were
/// issued.
pub proof fn lemma_issued_once(ids: Seq<u128>, next_id: u128, i: int)
    requires
        issued(ids, next_id),
        0 <= i < ids.len(),
    ensures
        ids.contains(ids[i]),
        ids.index_of(ids[i]) == i,
{
    let j = ids.index_of(ids[i]);
    if j < i {
        assert(ids[j] < ids[i]);
    } else if i < j {
        assert(ids[i] < ids[j]);
    }
}

impl StoreView {
    /// The empty store keeps the rules.
    pub proof fn lemma_empty_wf()
        ensures
            StoreView::empty().wf(),
    {
    }

    /// Writing a user with a new email keeps the rules, and every row that
    /// was there stays.
    pub proof fn lemma_with_user(self, email: Seq<char>, password_hash: Seq<char>)
        requires
            self.wf(),
            !self.has_email(email),
            self.next_id < u128::MAX,
        ensures
            self.with_user(email, password_hash).wf(),
            self.with_user(email, password_hash).has_user(self.next_id),
            self.with_user(email, password_hash).has_email(email),
            !self.has_user(self.next_id),
            forall|id: u128|
                self.has_user(id) ==> #[trigger] self.with_user(email, password_hash).has_user(id),
    {
        broadcast use lemma_seq_contains_after_push;

        let after = self.with_user(email, password_hash);
        lemma_issue(self.user_ids(), self.next_id);
        lemma_issue(self.project_ids(), self.next_id);
        lemma_issue(self.task_ids(), self.next_id);
        lemma_issue(self.template_ids(), self.next_id);
        lemma_issue(self.step_ids(), self.next_id);
        lemma_issue(self.growth_template_ids(), self.next_id);
        assert(after.user_ids() =~= self.user_ids().push(self.next_id));
        assert(after.emails() =~= self.emails().push(email));
        assert(after.keys_wf());
        assert(after.references_wf());
        assert forall|i: int, j: int| 0 <= i < j < after.users.len() implies (
        #[trigger] after.users[i]).email != (#[trigger] after.users[j]).email by {
            if j == self.users.len() {
                assert(self.emails()[i] == self.users[i].email);
            }
        }
    }

    /// Writing a project for a user who exists keeps the rules.
    pub proof fn lemma_with_project(
        self,
        name: Seq<char>,
        description: Option<Seq<char>>,
        owner_id: u128,
    )
        requires
            self.wf(),
            self.has_user(owner_id),
            self.next_id < u128::MAX,
        ensures
            self.with_project(name, description, owner_id).wf(),
            self.with_project(name, description, owner_id).has_project(self.next_id),
            !self.has_project(self.next_id),
            forall|id: u128|
                self.has_project(id) ==> #[trigger] self.with_project(
                    name,
                    description,
                    owner_id,
                ).has_project(id),
    {
        broadcast use lemma_seq_contains_after_push;

        let after = self.with_project(name, description, owner_id);
        lemma_issue(self.user_ids(), self.next_id);
        lemma_issue(self.project_ids(), self.next_id);
        lemma_issue(self.task_ids(), self.next_id);
        lemma_issue(self.template_ids(), self.next_id);
        lemma_issue(self.step_ids(), self.next_id);
        lemma_issue(self.growth_template_ids(), self.next_id);
        assert(after.project_ids() =~= self.project_ids().push(self.next_id));
        assert(after.keys_wf());
        assert(after.references_wf());
    }

    /// Writing a task for a project that exists keeps the rules.
    pub proof fn lemma_with_task(self, title: Seq<char>, project_id: u128)
        requires
            self.wf(),
            self.has_project(project_id),
            self.next_id < u128::MAX,
        ensures
            self.with_task(title, project_id).wf(),
            self.with_task(title, project_id).has_task(self.next_id),
            !self.has_task(self.next_id),
            forall|id: u128|
                self.has_task(id) ==> #[trigger] self.with_task(title, project_id).has_task(id),
    {
        broadcast use lemma_seq_contains_after_push;

        let after = self.with_task(title, project_id);
        lemma_issue(self.user_ids(), self.next_id);
        lemma_issue(self.project_ids(), self.next_id);
        lemma_issue(self.task_ids(), self.next_id);
        lemma_issue(self.template_ids(), self.next_id);
        lemma_issue(self.step_ids(), self.next_id);
        lemma_issue(self.growth_template_ids(), self.next_id);
        assert(after.task_ids() =~= self.task_ids().push(self.next_id));
        assert(after.keys_wf());
        assert(after.references_wf());
    }

    /// Writing tasks for a project that exists keeps the rules; the tasks
    /// stand behind those that were there, numbered from the next identifier
    /// on, and nothing else changes.
    pub proof fn lemma_with_tasks(self, titles: Seq<Seq<char>>, project_id: u128)
        requires
            self.wf(),
            self.has_project(project_id),
            self.next_id + titles.len() <= u128::MAX,
        ensures
            self.with_tasks(titles, project_id).wf(),
            self.with_tasks(titles, project_id).has_project(project_id),
            self.with_tasks(titles, project_id) == (StoreView {
                tasks: self.tasks + tasks_created(self.next_id, titles, project_id),
                next_id: (self.next_id + titles.len()) as u128,
                ..self
            }),
        decreases titles.len(),
    {
        let after = self.with_tasks(titles, project_id);
        if titles.len() == 0 {
            assert(self.tasks + tasks_created(self.next_id, titles, project_id) =~= self.tasks);
        } else {
            let before = self.with_tasks(titles.drop_last(), project_id);
            self.lemma_with_tasks(titles.drop_last(), project_id);
            before.lemma_with_task(titles.last(), project_id);
            assert(after.tasks =~= self.tasks + tasks_created(self.next_id, titles, project_id));
        }
    }

    /// Writing a template for a user who exists keeps the rules.
    pub proof fn lemma_with_template(
        self,
        name: Seq<char>,
        description: Option<Seq<char>>,
        created_by_id: u128,
    )
        requires
            self.wf(),
            self.has_user(created_by_id),
            self.next_id < u128::MAX,
        ensures
            self.with_template(name, description, created_by_id).wf(),
            self.with_template(name, description, created_by_id).has_template(self.next_id),
            !self.has_template(self.next_id),
            forall|id: u128|
                self.has_template(id) ==> #[trigger] self.with_template(
                    name,
                    description,
                    created_by_id,
                ).has_template(id),
    {
        broadcast use lemma_seq_contains_after_push;

        let after = self.with_template(name, description, created_by_id);
        lemma_issue(self.user_ids(), self.next_id);
        lemma_issue(self.project_ids(), self.next_id);
        lemma_issue(self.task_ids(), self.next_id);
        lemma_issue(self.template_ids(), self.next_id);
        lemma_issue(self.step_ids(), self.next_id);
        lemma_issue(self.growth_template_ids(), self.next_id);
        assert(after.template_ids() =~= self.template_ids().push(self.next_id));
        assert(after.keys_wf());
        assert(after.references_wf());
    }

    /// Writing a step for a template that exists keeps the rules.
    pub proof fn lemma_with_step(
        self,
        template_id: u128,
        step_name: Seq<char>,
        step_order: i32,
        role: Option<Seq<char>>,
    )
        requires
            self.wf(),
            self.has_template(template_id),
            self.next_id < u128::MAX,
        ensures
            self.with_step(template_id, step_name, step_order, role).wf(),
            self.with_step(template_id, step_name, step_order, role).has_step(self.next_id),
            !self.has_step(self.next_id),
    {
        broadcast use lemma_seq_contains_after_push;

        let after = self.with_step(template_id, step_name, step_order, role);
        lemma_issue(self.user_ids(), self.next_id);
        lemma_issue(self.project_ids(), self.next_id);
        lemma_issue(self.task_ids(), self.next_id);
        lemma_issue(self.template_ids(), self.next_id);
        lemma_issue(self.step_ids(), self.next_id);
        lemma_issue(self.growth_template_ids(), self.next_id);
        assert(after.step_ids() =~= self.step_ids().push(self.next_id));
        assert(after.keys_wf());
        assert(after.references_wf());
    }

    /// Writing a growth template for a user who exists keeps the rules.
    pub proof fn lemma_with_growth_template(
        self,
        user_id: u128,
        core_competencies: Seq<char>,
        developing_skills: Seq<char>,
        recent_achievements: Seq<char>,
        how_to_contribute: Seq<char>,
    )
        requires
            self.wf(),
            self.has_user(user_id),
            self.next_id < u128::MAX,
        ensures
            self.with_growth_template(
                user_id,
                core_competencies,
                developing_skills,
                recent_achievements,
                how_to_contribute,
            ).wf(),
    {
        broadcast use lemma_seq_contains_after_push;

        let after = self.with_growth_template(
            user_id,
            core_competencies,
            developing_skills,
            recent_achievements,
            how_to_contribute,
        );
        lemma_issue(self.user_ids(), self.next_id);
        lemma_issue(self.project_ids(), self.next_id);
        lemma_issue(self.task_ids(), self.next_id);
        lemma_issue(self.template_ids(), self.next_id);
        lemma_issue(self.step_ids(), self.next_id);
        lemma_issue(self.growth_template_ids(), self.next_id);
        assert(after.growth_template_ids() =~= self.growth_template_ids().push(self.next_id));
        assert(after.keys_wf());
        assert(after.references_wf());
    }

    /// A task that the store has stands where its identifier is found.
    pub proof fn lemma_task_found(self, id: u128)
        requires
            self.has_task(id),
        ensures
            0 <= self.task_ids().index_of(id) < self.tasks.len(),
            self.task(id).id == id,
    {
    }

    /// Putting another row with the same identifier, project and assignee in
    /// the place of a task keeps the rules and the tasks that the store has.
    pub proof fn lemma_task_replaced(self, id: u128, row: TaskView)
        requires
            self.wf(),
            self.has_task(id),
            row.id == id,
            row.project_id == self.task(id).project_id,
            row.assigned_to_id == self.task(id).assigned_to_id,
        ensures
            self.with_task_row(id, row).wf(),
            self.with_task_row(id, row).task_ids() == self.task_ids(),
            self.with_task_row(id, row).task(id) == row,
    {
        let at = self.task_ids().index_of(id);
        let after = self.with_task_row(id, row);
        assert(after.task_ids() =~= self.task_ids());
        assert(after.keys_wf());
        assert forall|i: int| 0 <= i < after.tasks.len() implies after.has_project(
            (#[trigger] after.tasks[i]).project_id,
        ) by {
            if i != at {
                assert(after.tasks[i] == self.tasks[i]);
            }
        }
        assert forall|i: int| 0 <= i < after.tasks.len() implies after.names_user(
            (#[trigger] after.tasks[i]).assigned_to_id,
        ) by {
            if i != at {
                assert(after.tasks[i] == self.tasks[i]);
            }
        }
        assert(after.references_wf());
    }

    /// Giving a task a status keeps the rules; the task then has that status
    /// and is otherwise as it was, and every other task is untouched.
    pub proof fn lemma_with_status(self, id: u128, status: TaskStatus)
        requires
            self.wf(),
            self.has_task(id),
        ensures
            self.with_status(id, status).wf(),
            self.with_status(id, status).task_ids() == self.task_ids(),
            self.with_status(id, status).task(id) == self.task(id).with_status(status),
    {
        self.lemma_task_found(id);
        self.lemma_task_replaced(id, self.task(id).with_status(status));
    }

    /// Linking a task to a ticket keeps the rules; the task then has that
    /// ticket and is otherwise as it was.
    pub proof fn lemma_with_ticket(self, id: u128, ticket: Seq<char>)
        requires
            self.wf(),
            self.has_task(id),
        ensures
            self.with_ticket(id, ticket).wf(),
            self.with_ticket(id, ticket).task_ids() == self.task_ids(),
            self.with_ticket(id, ticket).task(id) == self.task(id).with_ticket(ticket),
    {
        self.lemma_task_found(id);
        self.lemma_task_replaced(id, self.task(id).with_ticket(ticket));
    }

    /// A pair of user and task has one assignment at most, and it is the one
    /// that is found for the pair.
    pub proof fn lemma_one_role(self, user_id: u128, task_id: u128)
        requires
            self.unique_wf(),
        ensures
            self.assignments_of_pair(user_id, task_id) == if self.has_assignment(
                user_id,
                task_id,
            ) {
                seq![self.assignments[self.assignment_index(user_id, task_id)]]
            } else {
                Seq::<RaciAssignment>::empty()
            },
    {
        if self.has_assignment(user_id, task_id) {
            let at = self.assignment_index(user_id, task_id);
            assert forall|j: int| 0 <= j < self.assignments.len() && j != at implies !(
            #[trigger] self.assignments[j]).pairs(user_id, task_id) by {
                if self.assignments[j].pairs(user_id, task_id) {
                    self.lemma_assignment_once(user_id, task_id, j);
                }
            }
            lemma_rows_of_pair(self.assignments, user_id, task_id, Some(at));
        } else {
            lemma_rows_of_pair(self.assignments, user_id, task_id, None);
        }
    }

    /// After a user was given a role for a task, the pair has exactly one
    /// assignment, and its role is the one given.
    pub proof fn lemma_role_stands(self, user_id: u128, task_id: u128, role: RaciRole)
        requires
            self.wf(),
            self.has_user(user_id),
            self.has_task(task_id),
        ensures
            self.with_role(user_id, task_id, role).wf(),
            self.with_role(user_id, task_id, role).assignments_of_pair(user_id, task_id)
                == seq![RaciAssignment { user_id, task_id, role }],
            self.with_role(user_id, task_id, role).has_user(user_id),
            self.with_role(user_id, task_id, role).has_task(task_id),
    {
        self.lemma_with_role(user_id, task_id, role);
        self.with_role(user_id, task_id, role).lemma_one_role(user_id, task_id);
    }

    /// A role given to a pair overwrites the role given to it before: the
    /// store is as if only the later role had been given.
    pub proof fn lemma_later_role_overwrites(
        self,
        user_id: u128,
        task_id: u128,
        earlier: RaciRole,
        later: RaciRole,
    )
        requires
            self.wf(),
            self.has_user(user_id),
            self.has_task(task_id),
        ensures
            self.with_role(user_id, task_id, earlier).with_role(user_id, task_id, later)
                == self.with_role(user_id, task_id, later),
    {
        let between = self.with_role(user_id, task_id, earlier);
        let after = between.with_role(user_id, task_id, later);
        self.lemma_with_role(user_id, task_id, earlier);
        if self.has_assignment(user_id, task_id) {
            let at = self.assignment_index(user_id, task_id);
            between.lemma_assignment_once(user_id, task_id, at);
            assert(after.assignments =~= self.with_role(user_id, task_id, later).assignments);
        } else {
            let at = self.assignments.len() as int;
            between.lemma_assignment_once(user_id, task_id, at);
            assert(after.assignments =~= self.with_role(user_id, task_id, later).assignments);
        }
    }

    /// However often a user is given a role for a task, and whichever roles,
    /// the pair is left with exactly one assignment, and its role is the one
    /// given last.
    pub proof fn lemma_last_role_stands(self, user_id: u128, task_id: u128, roles: Seq<RaciRole>)
        requires
            self.wf(),
            self.has_user(user_id),
            self.has_task(task_id),
            roles.len() > 0,
        ensures
            self.with_roles(user_id, task_id, roles).wf(),
            self.with_roles(user_id, task_id, roles) == self.with_role(
                user_id,
                task_id,
                roles.last(),
            ),
            self.with_roles(user_id, task_id, roles).assignments_of_pair(user_id, task_id)
                == seq![RaciAssignment { user_id, task_id, role: roles.last() }],
        decreases roles.len(),
    {
        let front = roles.drop_last();
        if front.len() > 0 {
            self.lemma_last_role_stands(user_id, task_id, front);
            self.lemma_later_role_overwrites(user_id, task_id, front.last(), roles.last());
        } else {
            assert(self.with_roles(user_id, task_id, front) == self);
        }
        self.lemma_role_stands(user_id, task_id, roles.last());
    }

    /// A task stays in its project: neither a new status nor a ticket, for
    /// the task itself or for another, moves it.
    pub proof fn lemma_project_is_kept(
        self,
        id: u128,
        changed: u128,
        status: TaskStatus,
        ticket: Seq<char>,
    )
        requires
            self.wf(),
            self.has_task(id),
            self.has_task(changed),
        ensures
            self.with_status(changed, status).task(id).project_id == self.task(id).project_id,
            self.with_ticket(changed, ticket).task(id).project_id == self.task(id).project_id,
    {
        self.lemma_with_status(changed, status);
        self.lemma_with_ticket(changed, ticket);
        self.lemma_task_found(id);
        self.lemma_task_found(changed);
    }

    /// A task may be given any status, whichever it has: it then has that
    /// status, and giving it the status that it has changes nothing.
    pub proof fn lemma_any_status(self, id: u128, status: TaskStatus)
        requires
            self.wf(),
            self.has_task(id),
        ensures
            self.with_status(id, status).wf(),
            self.with_status(id, status).has_task(id),
            self.with_status(id, status).task(id).status == status,
            self.task(id).status == status ==> self.with_status(id, status) == self,
    {
        self.lemma_with_status(id, status);
        self.lemma_task_found(id);
        if self.task(id).status == status {
            assert(self.with_status(id, status).tasks =~= self.tasks);
        }
    }

    /// The listings of users and of templates hold every row once, users
    /// ascending by email and templates ascending by name.
    pub proof fn lemma_listings(self)
        ensures
            ascending(self.users_by_email(), by_email()),
            self.users_by_email().to_multiset() == self.users.to_multiset(),
            ascending(self.templates_by_name(), by_name()),
            self.templates_by_name().to_multiset() == self.templates.to_multiset(),
    {
        lemma_orders();
        lemma_in_order(self.users, by_email());
        lemma_in_order(self.templates, by_name());
    }

    /// Where an assignment of a pair stands, no other assignment of the pair
    /// stands anywhere.
    pub proof fn lemma_assignment_once(self, user_id: u128, task_id: u128, i: int)
        requires
            self.unique_wf(),
            0 <= i < self.assignments.len(),
            self.assignments[i].pairs(user_id, task_id),
        ensures
            self.has_assignment(user_id, task_id),
            self.assignment_index(user_id, task_id) == i,
    {
        let j = self.assignment_index(user_id, task_id);
        if j < i {
            assert(!self.assignments[j].pairs(
                self.assignments[i].user_id,
                self.assignments[i].task_id,
            ));
        } else if i < j {
            assert(!self.assignments[i].pairs(
                self.assignments[j].user_id,
                self.assignments[j].task_id,
            ));
        }
    }

    /// Giving a user who exists a role for a task that exists keeps the
    /// rules.
    pub proof fn lemma_with_role(self, user_id: u128, task_id: u128, role: RaciRole)
        requires
            self.wf(),
            self.has_user(user_id),
            self.has_task(task_id),
        ensures
            self.with_role(user_id, task_id, role).wf(),
            self.with_role(user_id, task_id, role).has_assignment(user_id, task_id),
            self.with_role(user_id, task_id, role).assignments[self.with_role(
                user_id,
                task_id,
                role,
            ).assignment_index(user_id, task_id)] == (RaciAssignment { user_id, task_id, role }),
    {
        let after = self.with_role(user_id, task_id, role);
        let row = RaciAssignment { user_id, task_id, role };
        if self.has_assignment(user_id, task_id) {
            let at = self.assignment_index(user_id, task_id);
            assert(after.assignments[at] == row);
            assert forall|i: int, j: int| 0 <= i < j < after.assignments.len() implies !(
            #[trigger] after.assignments[i]).pairs(
                (#[trigger] after.assignments[j]).user_id,
                after.assignments[j].task_id,
            ) by {
                assert(!self.assignments[i].pairs(
                    self.assignments[j].user_id,
                    self.assignments[j].task_id,
                ));
            }
            assert(after.unique_wf());
            assert(after.references_wf());
            after.lemma_assignment_once(user_id, task_id, at);
        } else {
            let at = self.assignments.len() as int;
            assert(after.assignments[at] == row);
            assert forall|i: int, j: int| 0 <= i < j < after.assignments.len() implies !(
            #[trigger] after.assignments[i]).pairs(
                (#[trigger] after.assignments[j]).user_id,
                after.assignments[j].task_id,
            ) by {
                if j == at {
                    assert(!self.assignments[i].pairs(user_id, task_id));
                } else {
                    assert(!self.assignments[i].pairs(
                        self.assignments[j].user_id,
                        self.assignments[j].task_id,
                    ));
                }
            }
            assert(after.unique_wf());
            assert(after.references_wf());
            after.lemma_assignment_once(user_id, task_id, at);
        }
    }
}

} // verus!
