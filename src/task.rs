//! Tasks, what they do, and what running one reports.

use vstd::prelude::*;
use crate::context::{context_vars, Vars};
use crate::playbook::Host;

verus! {

/// One operation of a playbook, by kind. `result` holds what the run of a
/// `Shell` task printed; the other kinds leave it as it came.
#[derive(Clone)]
pub enum TaskKind {
    Shell { name: String, command: String, result: String },
    Copy { name: String, src: String, dest: String, remote_src: Option<bool>, result: String },
    Template {
        name: String,
        src: String,
        dest: String,
        variables: Vec<(String, String)>,
        result: String,
    },
    SearchReplace { name: String, path: String, search: String, replace: String, result: String },
}

impl TaskKind {
    /// The label of the task, for the log.
    pub open spec fn label(&self) -> Seq<char> {
        match self {
            TaskKind::Shell { name, .. } => name@,
            TaskKind::Copy { name, .. } => name@,
            TaskKind::Template { name, .. } => name@,
            TaskKind::SearchReplace { name, .. } => name@,
        }
    }

    pub fn name(&self) -> (r: &String)
        ensures
            r@ == self.label(),
    {
        match self {
            TaskKind::Shell { name, .. } => name,
            TaskKind::Copy { name, .. } => name,
            TaskKind::Template { name, .. } => name,
            TaskKind::SearchReplace { name, .. } => name,
        }
    }

    /// Whether two task kinds are the same kind with the same field values.
    pub open spec fn same(&self, o: TaskKind) -> bool {
        match (*self, o) {
            (
                TaskKind::Shell { name: n1, command: c1, result: r1 },
                TaskKind::Shell { name: n2, command: c2, result: r2 },
            ) => n1@ == n2@ && c1@ == c2@ && r1@ == r2@,
            (
                TaskKind::Copy { name: n1, src: s1, dest: d1, remote_src: m1, result: r1 },
                TaskKind::Copy { name: n2, src: s2, dest: d2, remote_src: m2, result: r2 },
            ) => n1@ == n2@ && s1@ == s2@ && d1@ == d2@ && m1 == m2 && r1@ == r2@,
            (
                TaskKind::Template { name: n1, src: s1, dest: d1, variables: v1, result: r1 },
                TaskKind::Template { name: n2, src: s2, dest: d2, variables: v2, result: r2 },
            ) => n1@ == n2@ && s1@ == s2@ && d1@ == d2@ && v1@ == v2@ && r1@ == r2@,
            (
                TaskKind::SearchReplace { name: n1, path: p1, search: s1, replace: e1, result: r1 },
                TaskKind::SearchReplace { name: n2, path: p2, search: s2, replace: e2, result: r2 },
            ) => n1@ == n2@ && p1@ == p2@ && s1@ == s2@ && e1@ == e2@ && r1@ == r2@,
            _ => false,
        }
    }

    /// The line logged before the task runs on `host`.
    pub fn start_line(&self, host: &Host) -> (r: String)
        ensures
            r@ == start_text(self.label(), host.address@),
    {
        let mut r = self.name().clone();
        append(&mut r, ": ");
        append(&mut r, host.address.as_str());
        append(&mut r, " - START");
        r
    }

    /// Records what a `Shell` task printed; other kinds are left as they are.
    pub fn set_output(&mut self, out: String)
        ensures
            *old(self) is Shell ==> *final(self) == (TaskKind::Shell {
                name: old(self)->Shell_name,
                command: old(self)->Shell_command,
                result: out,
            }),
            !(*old(self) is Shell) ==> *final(self) == *old(self),
    {
        match self {
            TaskKind::Shell { result, .. } => {
                *result = out;
            },
            _ => {},
        }
    }

    /// A copy with the same field values.
    pub fn duplicate(&self) -> (r: TaskKind)
        ensures
            r.same(*self),
    {
        match self {
            TaskKind::Shell { name, command, result } => TaskKind::Shell {
                name: name.clone(),
                command: command.clone(),
                result: result.clone(),
            },
            TaskKind::Copy { name, src, dest, remote_src, result } => TaskKind::Copy {
                name: name.clone(),
                src: src.clone(),
                dest: dest.clone(),
                remote_src: *remote_src,
                result: result.clone(),
            },
            TaskKind::Template { name, src, dest, variables, result } => TaskKind::Template {
                name: name.clone(),
                src: src.clone(),
                dest: dest.clone(),
                variables: copy_pairs(variables),
                result: result.clone(),
            },
            TaskKind::SearchReplace { name, path, search, replace, result } =>
                TaskKind::SearchReplace {
                name: name.clone(),
                path: path.clone(),
                search: search.clone(),
                replace: replace.clone(),
                result: result.clone(),
            },
        }
    }
}

/// Relies on `String::push_str`: the text is appended to the string.
#[verifier::external_body]
fn append(s: &mut String, t: &str)
    ensures
        final(s)@ == old(s)@ + t@,
{
    s.push_str(t)
}

/// The log line printed before a task runs on a host.
pub open spec fn start_text(label: Seq<char>, address: Seq<char>) -> Seq<char> {
    label + ": "@ + address + " - START"@
}

/// The log line printed when a task is done on a host.
pub open spec fn summary_text(label: Seq<char>, address: Seq<char>, status: Seq<char>) -> Seq<char> {
    label + ": "@ + address + " - "@ + status
}

/// A copy of a list of name and value pairs.
pub fn copy_pairs(v: &Vec<(String, String)>) -> (r: Vec<(String, String)>)
    ensures
        r@ == v@,
{
    let mut r: Vec<(String, String)> = Vec::new();
    let mut i: usize = 0;
    while i < v.len()
        invariant
            i <= v@.len(),
            r@ == v@.subrange(0, i as int),
        decreases v@.len() - i,
    {
        r.push((v[i].0.clone(), v[i].1.clone()));
        assert(v@.subrange(0, i as int + 1) =~= v@.subrange(0, i as int).push(v@[i as int]));
        i = i + 1;
    }
    assert(v@.subrange(0, v@.len() as int) =~= v@);
    r
}

/// A copy of a list of strings.
pub fn copy_strings(v: &Vec<String>) -> (r: Vec<String>)
    ensures
        r@ == v@,
{
    let mut r: Vec<String> = Vec::new();
    let mut i: usize = 0;
    while i < v.len()
        invariant
            i <= v@.len(),
            r@ == v@.subrange(0, i as int),
        decreases v@.len() - i,
    {
        r.push(v[i].clone());
        assert(v@.subrange(0, i as int + 1) =~= v@.subrange(0, i as int).push(v@[i as int]));
        i = i + 1;
    }
    assert(v@.subrange(0, v@.len() as int) =~= v@);
    r
}

/// What running a task on a host came to, with the host and the task kind.
pub enum TaskResult {
    Changed(Host, TaskKind),
    Unchanged(Host, TaskKind),
    Failed(Host, TaskKind),
}

impl TaskResult {
    /// The text stored under a task's register key.
    pub open spec fn tag(&self) -> Seq<char> {
        match self {
            TaskResult::Changed(..) => "changed"@,
            TaskResult::Unchanged(..) => "unchanged"@,
            TaskResult::Failed(..) => "failed"@,
        }
    }

    /// The word logged for the result.
    pub open spec fn status(&self) -> Seq<char> {
        match self {
            TaskResult::Changed(..) => "CHANGED"@,
            TaskResult::Unchanged(..) => "UNCHANGED"@,
            TaskResult::Failed(..) => "FAILED"@,
        }
    }

    pub open spec fn host_of(&self) -> Host {
        match self {
            TaskResult::Changed(h, _) => *h,
            TaskResult::Unchanged(h, _) => *h,
            TaskResult::Failed(h, _) => *h,
        }
    }

    pub open spec fn kind_of(&self) -> TaskKind {
        match self {
            TaskResult::Changed(_, k) => *k,
            TaskResult::Unchanged(_, k) => *k,
            TaskResult::Failed(_, k) => *k,
        }
    }

    /// The line logged when the task is done.
    pub fn summary_line(&self) -> (r: String)
        ensures
            r@ == summary_text(self.kind_of().label(), self.host_of().address@, self.status()),
    {
        let (host, kind, status) = match self {
            TaskResult::Changed(h, k) => (h, k, "CHANGED"),
            TaskResult::Unchanged(h, k) => (h, k, "UNCHANGED"),
            TaskResult::Failed(h, k) => (h, k, "FAILED"),
        };
        let mut r = kind.name().clone();
        append(&mut r, ": ");
        append(&mut r, host.address.as_str());
        append(&mut r, " - ");
        append(&mut r, status);
        r
    }

    pub fn register_value(&self) -> (r: String)
        ensures
            r@ == self.tag(),
    {
        match self {
            TaskResult::Changed(_, _) => "changed".to_owned(),
            TaskResult::Unchanged(_, _) => "unchanged".to_owned(),
            TaskResult::Failed(_, _) => "failed".to_owned(),
        }
    }
}

/// A task of a playbook: what to do, with its tags, its register key and its
/// condition.
#[derive(Clone)]
pub struct Task {
    kind: TaskKind,
    tags: Option<Vec<String>>,
    register: Option<String>,
    when: Option<String>,
}

/// Whether `s` is one of `list`.
pub open spec fn listed(list: Seq<String>, s: Seq<char>) -> bool {
    exists|j: int| 0 <= j < list.len() && (#[trigger] list[j])@ == s
}

/// Whether one of `tags` is one of `requested`.
pub open spec fn shares_tag(tags: Seq<String>, requested: Seq<String>) -> bool {
    exists|i: int| 0 <= i < tags.len() && #[trigger] listed(requested, tags[i]@)
}

/// Whether tags pass the requested tag filter: every task passes where no
/// filter is given; otherwise a task needs tags, one of them requested.
pub open spec fn tags_pass(tags: Option<Vec<String>>, requested: Option<Vec<String>>) -> bool {
    match requested {
        None => true,
        Some(req) => match tags {
            None => false,
            Some(ts) => shares_tag(ts@, req@),
        },
    }
}

/// Whether `s` is one of `list`.
pub fn is_listed(list: &Vec<String>, s: &String) -> (r: bool)
    ensures
        r == listed(list@, s@),
{
    let mut j: usize = 0;
    while j < list.len()
        invariant
            j <= list@.len(),
            forall|k: int| 0 <= k < j ==> (#[trigger] list@[k])@ != s@,
        decreases list@.len() - j,
    {
        if list[j] == *s {
            return true;
        }
        j = j + 1;
    }
    false
}

/// Whether a task with `tags` passes the requested tag filter.
pub fn tags_allow(tags: &Option<Vec<String>>, requested: &Option<Vec<String>>) -> (r: bool)
    ensures
        r == tags_pass(*tags, *requested),
{
    match requested {
        None => true,
        Some(req) => match tags {
            None => false,
            Some(ts) => {
                let mut i: usize = 0;
                while i < ts.len()
                    invariant
                        i <= ts@.len(),
                        *tags == Some(*ts),
                        *requested == Some(*req),
                        forall|k: int| 0 <= k < i ==> !#[trigger] listed(req@, ts@[k]@),
                    decreases ts@.len() - i,
                {
                    if is_listed(req, &ts[i]) {
                        let ghost k = i as int;
                        assert(0 <= k < ts@.len() && listed(req@, ts@[k]@));
                        return true;
                    }
                    i = i + 1;
                }
                false
            },
        },
    }
}

impl Task {
    pub closed spec fn kind_of(&self) -> TaskKind {
        self.kind
    }

    pub closed spec fn tags_of(&self) -> Option<Vec<String>> {
        self.tags
    }

    pub closed spec fn register_of(&self) -> Option<String> {
        self.register
    }

    pub closed spec fn when_of(&self) -> Option<String> {
        self.when
    }

    /// Whether the task runs on a host where `vars` holds the host's
    /// variables, under the requested tag filter: its condition holds and its
    /// tags pass.
    pub open spec fn runs(&self, vars: Vars, requested: Option<Vec<String>>) -> bool {
        condition_holds(self.when_of(), vars) && tags_pass(self.tags_of(), requested)
    }

    pub fn new(
        kind: TaskKind,
        tags: Option<Vec<String>>,
        register: Option<String>,
        when: Option<String>,
    ) -> (r: Task)
        ensures
            r.kind_of() == kind,
            r.tags_of() == tags,
            r.register_of() == register,
            r.when_of() == when,
    {
        Task { kind, tags, register, when }
    }

    /// Whether the task's condition holds over the host's variables.
    pub fn when(&self, vars: &tera::Context) -> (r: bool)
        ensures
            r == condition_holds(self.when_of(), context_vars(*vars)),
    {
        true
    }

    pub fn tags(&self) -> (r: Option<&Vec<String>>)
        ensures
            r is Some <==> self.tags_of() is Some,
            r is Some ==> *r->Some_0 == self.tags_of()->Some_0,
    {
        self.tags.as_ref()
    }

    pub fn kind(&mut self) -> (r: &mut TaskKind)
        ensures
            *r == old(self).kind_of(),
            final(self).kind_of() == *final(r),
            final(self).tags_of() == old(self).tags_of(),
            final(self).register_of() == old(self).register_of(),
            final(self).when_of() == old(self).when_of(),
    {
        &mut self.kind
    }

    pub fn kind_ref(&self) -> (r: &TaskKind)
        ensures
            *r == self.kind_of(),
    {
        &self.kind
    }

    pub fn register(&self) -> (r: Option<&String>)
        ensures
            r is Some <==> self.register_of() is Some,
            r is Some ==> *r->Some_0 == self.register_of()->Some_0,
    {
        self.register.as_ref()
    }

    /// Whether two tasks have the same fields.
    pub open spec fn same(&self, o: Task) -> bool {
        &&& self.kind_of().same(o.kind_of())
        &&& strings_view(self.tags_of()) == strings_view(o.tags_of())
        &&& self.register_of() == o.register_of()
        &&& self.when_of() == o.when_of()
    }

    /// A copy with the same fields.
    pub fn duplicate(&self) -> (r: Task)
        ensures
            r.same(*self),
    {
        let register = match &self.register {
            None => None,
            Some(k) => Some(k.clone()),
        };
        let when = match &self.when {
            None => None,
            Some(w) => Some(w.clone()),
        };
        Task {
            kind: self.kind.duplicate(),
            tags: copy_opt_strings(&self.tags),
            register,
            when,
        }
    }

    /// Whether the task runs under the host's variables and the requested tag
    /// filter.
    pub fn should_run(&self, vars: &tera::Context, requested: &Option<Vec<String>>) -> (r: bool)
        ensures
            r == self.runs(context_vars(*vars), *requested),
    {
        self.when(vars) && tags_allow(&self.tags, requested)
    }
}

/// The views of an optional list of strings.
pub open spec fn strings_view(o: Option<Vec<String>>) -> Option<Seq<String>> {
    match o {
        Some(v) => Some(v@),
        None => None,
    }
}

/// A copy of an optional list of strings.
pub fn copy_opt_strings(o: &Option<Vec<String>>) -> (r: Option<Vec<String>>)
    ensures
        strings_view(r) == strings_view(*o),
{
    match o {
        None => None,
        Some(v) => Some(copy_strings(v)),
    }
}

/// Whether a task's condition holds over the variables. Conditions are not
/// evaluated yet: every condition holds.
pub open spec fn condition_holds(when: Option<String>, vars: Vars) -> bool {
    true
}

/// A task without tags never runs under a tag filter.
pub proof fn lemma_untagged_task_skipped(t: Task, vars: Vars, requested: Vec<String>)
    requires
        t.tags_of() is None || t.tags_of()->Some_0@.len() == 0,
    ensures
        !t.runs(vars, Some(requested)),
{
}

} // verus!
