//! The sequence of one playbook's tasks on one host: which task runs next,
//! and what its result leaves in the host's variables.

use vstd::prelude::*;
use crate::context::{context_vars, empty_context, set_var, Vars};
use crate::executor::TaskRun;
use crate::playbook::{GlobalConfig, Host, HostConfig, Playbook};
use crate::task::{copy_opt_strings, strings_view, Task, TaskResult};

verus! {

/// The first task from index `from` on that runs over `vars` under the
/// requested tag filter.
pub open spec fn first_runnable(
    tasks: Seq<Task>,
    vars: Vars,
    requested: Option<Vec<String>>,
    from: int,
) -> Option<int>
    decreases tasks.len() - from,
{
    if from < 0 || from >= tasks.len() {
        None
    } else if tasks[from].runs(vars, requested) {
        Some(from)
    } else {
        first_runnable(tasks, vars, requested, from + 1)
    }
}

/// The variables after a task's result is registered: its register key, if
/// it has one, maps to the result's tag.
pub open spec fn registered(vars: Vars, t: Task, r: TaskResult) -> Vars {
    match t.register_of() {
        Some(k) => vars.insert(k@, r.tag()),
        None => vars,
    }
}

/// The variables after each task and result of `steps` is registered in turn.
pub open spec fn registered_all(vars: Vars, steps: Seq<(Task, TaskResult)>) -> Vars
    decreases steps.len(),
{
    if steps.len() == 0 {
        vars
    } else {
        registered(registered_all(vars, steps.drop_last()), steps.last().0, steps.last().1)
    }
}

/// After a task with a register key runs, the key holds the tag of its
/// result, and keeps it through every later task that registers under
/// another key.
pub proof fn lemma_register_visible(
    vars: Vars,
    t: Task,
    r: TaskResult,
    later: Seq<(Task, TaskResult)>,
)
    requires
        t.register_of() is Some,
        forall|i: int|
            0 <= i < later.len() ==> (#[trigger] later[i]).0.register_of() is None
                || later[i].0.register_of()->Some_0@ != t.register_of()->Some_0@,
    ensures
        registered(vars, t, r)[t.register_of()->Some_0@] == r.tag(),
        registered_all(registered(vars, t, r), later).contains_key(t.register_of()->Some_0@),
        registered_all(registered(vars, t, r), later)[t.register_of()->Some_0@] == r.tag(),
    decreases later.len(),
{
    if later.len() > 0 {
        let rest = later.drop_last();
        assert forall|i: int| 0 <= i < rest.len() implies (#[trigger] rest[i]).0.register_of() is None
            || rest[i].0.register_of()->Some_0@ != t.register_of()->Some_0@ by {
            assert(rest[i] == later[i]);
        }
        lemma_register_visible(vars, t, r, rest);
        assert(later.last() == later[later.len() - 1]);
    }
}

/// The run of one playbook's tasks on one host, in their order.
pub struct HostRun {
    host: Host,
    vars: tera::Context,
    tasks: Vec<Task>,
    requested: Option<Vec<String>>,
    next: usize,
}

impl HostRun {
    pub closed spec fn host_of(&self) -> Host {
        self.host
    }

    pub closed spec fn vars_of(&self) -> Vars {
        context_vars(self.vars)
    }

    pub closed spec fn tasks_of(&self) -> Seq<Task> {
        self.tasks@
    }

    pub closed spec fn requested_of(&self) -> Option<Vec<String>> {
        self.requested
    }

    /// The index of the first task not yet considered.
    pub closed spec fn next_of(&self) -> int {
        self.next as int
    }

    pub open spec fn wf(&self) -> bool {
        0 <= self.next_of() <= self.tasks_of().len()
    }

    /// A run of `tasks` on `host`, with no variables yet.
    pub fn new(host: Host, tasks: Vec<Task>, requested: Option<Vec<String>>) -> (r: HostRun)
        ensures
            r.wf(),
            r.host_of() == host,
            r.tasks_of() == tasks@,
            r.requested_of() == requested,
            r.vars_of() == Vars::empty(),
            r.next_of() == 0,
    {
        HostRun { host, vars: empty_context(), tasks, requested, next: 0 }
    }

    pub fn host(&self) -> (r: &Host)
        ensures
            *r == self.host_of(),
    {
        &self.host
    }

    pub fn vars(&self) -> (r: &tera::Context)
        ensures
            context_vars(*r) == self.vars_of(),
    {
        &self.vars
    }

    pub fn task(&self, i: usize) -> (r: &Task)
        requires
            i < self.tasks_of().len(),
        ensures
            *r == self.tasks_of()[i as int],
    {
        &self.tasks[i]
    }

    /// The index of the next task to run, skipping those whose condition
    /// fails or whose tags do not pass; `None` once none is left.
    pub fn next_task(&mut self) -> (r: Option<usize>)
        requires
            old(self).wf(),
        ensures
            final(self).wf(),
            final(self).host_of() == old(self).host_of(),
            final(self).vars_of() == old(self).vars_of(),
            final(self).tasks_of() == old(self).tasks_of(),
            final(self).requested_of() == old(self).requested_of(),
            r is None <==> first_runnable(
                old(self).tasks_of(),
                old(self).vars_of(),
                old(self).requested_of(),
                old(self).next_of(),
            ) is None,
            r is Some ==> first_runnable(
                old(self).tasks_of(),
                old(self).vars_of(),
                old(self).requested_of(),
                old(self).next_of(),
            ) == Some(r->Some_0 as int) && final(self).next_of() == r->Some_0 + 1,
            r is None ==> final(self).next_of() == final(self).tasks_of().len(),
    {
        while self.next < self.tasks.len()
            invariant
                self.host_of() == old(self).host_of(),
                self.vars_of() == old(self).vars_of(),
                self.tasks_of() == old(self).tasks_of(),
                self.requested_of() == old(self).requested_of(),
                old(self).next_of() <= self.next_of() <= self.tasks_of().len(),
                first_runnable(
                    old(self).tasks_of(),
                    old(self).vars_of(),
                    old(self).requested_of(),
                    old(self).next_of(),
                ) == first_runnable(
                    self.tasks_of(),
                    self.vars_of(),
                    self.requested_of(),
                    self.next_of(),
                ),
            decreases self.tasks_of().len() - self.next_of(),
        {
            let i = self.next;
            if self.tasks[i].should_run(&self.vars, &self.requested) {
                self.next = i + 1;
                return Some(i);
            }
            self.next = i + 1;
        }
        None
    }

    /// Registers the result of task `i` in the host's variables.
    pub fn record(&mut self, i: usize, result: &TaskResult)
        requires
            old(self).wf(),
            i < old(self).tasks_of().len(),
        ensures
            final(self).wf(),
            final(self).host_of() == old(self).host_of(),
            final(self).tasks_of() == old(self).tasks_of(),
            final(self).requested_of() == old(self).requested_of(),
            final(self).next_of() == old(self).next_of(),
            final(self).vars_of() == registered(
                old(self).vars_of(),
                old(self).tasks_of()[i as int],
                *result,
            ),
    {
        match self.tasks[i].register() {
            Some(key) => {
                let value = result.register_value();
                set_var(&mut self.vars, key.as_str(), value.as_str());
            },
            None => {},
        }
    }

    /// Records that task `i` failed, and ends the host's sequence: no later
    /// task runs on it. Returns the failed result.
    pub fn fail(&mut self, i: usize) -> (r: TaskResult)
        requires
            old(self).wf(),
            i < old(self).tasks_of().len(),
        ensures
            final(self).wf(),
            r is Failed,
            final(self).host_of() == old(self).host_of(),
            final(self).tasks_of() == old(self).tasks_of(),
            final(self).requested_of() == old(self).requested_of(),
            final(self).next_of() == final(self).tasks_of().len(),
            final(self).vars_of() == registered(
                old(self).vars_of(),
                old(self).tasks_of()[i as int],
                r,
            ),
    {
        let kind = self.tasks[i].kind_ref().duplicate();
        let result = TaskResult::Failed(self.host.duplicate(), kind);
        self.record(i, &result);
        self.next = self.tasks.len();
        result
    }

    /// The run of task `i` on this host, over the host's variables, with
    /// the host's credentials or else those of `global`.
    pub fn start(&self, i: usize, global: &GlobalConfig, local: Option<&GlobalConfig>) -> (r:
        TaskRun)
        requires
            i < self.tasks_of().len(),
        ensures
            r.wf(),
            r.host_of() == self.host_of(),
            r.kind_of().same(self.tasks_of()[i as int].kind_of()),
            r.vars_of() == self.vars_of(),
            r.user_of() == crate::executor::user_for(self.host_of(), *global),
            r.key_of() == crate::executor::key_for(self.host_of(), *global),
            r.stage_of() == crate::executor::Stage::Start,
    {
        TaskRun::new(self.tasks[i].kind_ref().duplicate(), &self.host, &self.vars, global, local)
    }
}

/// A copy of a list of tasks.
pub fn copy_tasks(v: &Vec<Task>) -> (r: Vec<Task>)
    ensures
        r@.len() == v@.len(),
        forall|i: int| 0 <= i < v@.len() ==> (#[trigger] r@[i]).same(v@[i]),
{
    let mut r: Vec<Task> = Vec::new();
    let mut i: usize = 0;
    while i < v.len()
        invariant
            i <= v@.len(),
            r@.len() == i,
            forall|k: int| 0 <= k < i ==> (#[trigger] r@[k]).same(v@[k]),
        decreases v@.len() - i,
    {
        r.push(v[i].duplicate());
        i = i + 1;
    }
    r
}

/// One run per host of `inventory` that the playbook applies to, in the
/// inventory's order: each with the playbook's tasks, the requested tag
/// filter and no variables yet. Hosts that the playbook does not list get
/// none.
pub fn host_runs(p: &Playbook, inventory: &HostConfig, requested: &Option<Vec<String>>) -> (r: Vec<
    HostRun,
>)
    ensures
        r@.len() == p.matches(*inventory).len(),
        forall|i: int|
            0 <= i < r@.len() ==> {
                &&& (#[trigger] r@[i]).wf()
                &&& r@[i].host_of() == p.matches(*inventory)[i]
                &&& r@[i].next_of() == 0
                &&& r@[i].vars_of() == Vars::empty()
                &&& strings_view(r@[i].requested_of()) == strings_view(*requested)
                &&& r@[i].tasks_of().len() == p.tasks_of().len()
                &&& forall|j: int|
                    0 <= j < p.tasks_of().len() ==> (#[trigger] r@[i].tasks_of()[j]).same(
                        p.tasks_of()[j],
                    )
            },
{
    let hosts = p.matching_hosts(inventory);
    let mut r: Vec<HostRun> = Vec::new();
    let mut i: usize = 0;
    while i < hosts.len()
        invariant
            i <= hosts@.len(),
            hosts@ == p.matches(*inventory),
            r@.len() == i,
            forall|k: int|
                0 <= k < i ==> {
                    &&& (#[trigger] r@[k]).wf()
                    &&& r@[k].host_of() == hosts@[k]
                    &&& r@[k].next_of() == 0
                    &&& r@[k].vars_of() == Vars::empty()
                    &&& strings_view(r@[k].requested_of()) == strings_view(*requested)
                    &&& r@[k].tasks_of().len() == p.tasks_of().len()
                    &&& forall|j: int|
                        0 <= j < p.tasks_of().len() ==> (#[trigger] r@[k].tasks_of()[j]).same(
                            p.tasks_of()[j],
                        )
                },
        decreases hosts@.len() - i,
    {
        let tasks = copy_tasks(p.tasks());
        let run = HostRun::new(hosts[i].duplicate(), tasks, copy_opt_strings(requested));
        r.push(run);
        i = i + 1;
    }
    r
}

} // verus!
