//! Running one task on one host, as a machine that asks for each remote or
//! local operation in turn and decides from what came back.

use vstd::prelude::*;
use crate::context::{context_vars, copy_context, overlaid, overlay, Vars};
use crate::outside::{regex_replaced, render_template, replace_matches};
use crate::playbook::{GlobalConfig, Host};
use crate::task::{TaskKind, TaskResult};

verus! {

/// The port that sessions connect to.
pub const SSH_PORT: u16 = 22;

/// Why running a task failed.
pub enum ExecError {
    /// Neither the agent nor the key file authenticated the user.
    Auth,
    /// A connection, channel or file operation failed, with its message.
    Transport(String),
    /// The template did not parse or did not render.
    Render(tera::Error),
    /// The search pattern is not a valid regular expression.
    Pattern(regex::Error),
    /// An event came that the current stage does not wait for.
    Unexpected,
}

/// What the driver of a run reports back after each action.
pub enum Event {
    /// The run may start.
    Begin,
    /// The connection and handshake are done.
    Connected,
    /// Whether the session is authenticated after the last attempt.
    AuthChecked(bool),
    /// What a command printed on standard output.
    Output(String),
    /// The bytes of a file that was read.
    Bytes(Vec<u8>),
    /// The text of a file that was read.
    Text(String),
    /// A file was written.
    Written,
    /// The last action failed, with its message.
    Failed(String),
}

/// What the driver of a run is asked to do next.
pub enum Action {
    Connect { address: String, port: u16 },
    AgentAuth { user: String },
    KeyAuth { user: String, key: String },
    RunCommand { command: String },
    ReadLocalBytes { path: String },
    ReadRemoteBytes { path: String },
    ReadLocalText { path: String },
    ReadRemoteText { path: String },
    WriteRemoteBytes { path: String, contents: Vec<u8> },
    WriteRemoteText { path: String, contents: String },
    /// The task is done, with its result.
    Finish(TaskResult),
    /// The task failed.
    Abort(ExecError),
}

/// Where a run stands.
#[derive(Clone, Copy, PartialEq, Eq, Structural)]
pub enum Stage {
    Start,
    Connecting,
    AgentAuth,
    KeyAuth,
    AwaitOutput,
    AwaitSource,
    AwaitTemplate,
    AwaitTarget,
    /// A write is under way; the result reports a change where the flag is set.
    AwaitWrite(bool),
    Done,
}

/// The user a host logs in as: its own, else the inventory's.
pub open spec fn user_for(host: Host, global: GlobalConfig) -> Seq<char> {
    match host.user {
        Some(u) => u@,
        None => global.user@,
    }
}

/// The key file a host authenticates with: its own, else the inventory's.
pub open spec fn key_for(host: Host, global: GlobalConfig) -> Seq<char> {
    match host.key {
        Some(k) => k@,
        None => global.key@,
    }
}

/// The first action of a task's own work, and the stage that waits for its
/// answer.
pub open spec fn opens_work(kind: TaskKind, a: Action, s: Stage) -> bool {
    match kind {
        TaskKind::Shell { command, .. } => s == Stage::AwaitOutput && match a {
            Action::RunCommand { command: c } => c@ == command@,
            _ => false,
        },
        TaskKind::Copy { src, remote_src, .. } => s == Stage::AwaitSource && if remote_src
            == Some(true) {
            match a {
                Action::ReadRemoteBytes { path } => path@ == src@,
                _ => false,
            }
        } else {
            match a {
                Action::ReadLocalBytes { path } => path@ == src@,
                _ => false,
            }
        },
        TaskKind::Template { src, .. } => s == Stage::AwaitTemplate && match a {
            Action::ReadLocalText { path } => path@ == src@,
            _ => false,
        },
        TaskKind::SearchReplace { path, .. } => s == Stage::AwaitTarget && match a {
            Action::ReadRemoteText { path: p } => p@ == path@,
            _ => false,
        },
    }
}

/// Whether `a` finishes with a result of the given change flag, for `host`
/// and a task kind with the same fields as `kind`.
pub open spec fn finishes(a: Action, changed: bool, host: Host, kind: TaskKind) -> bool {
    match a {
        Action::Finish(TaskResult::Changed(h, k)) => changed && h == host && k.same(kind),
        Action::Finish(TaskResult::Unchanged(h, k)) => !changed && h == host && k.same(kind),
        _ => false,
    }
}

/// The variables that a template renders over: the host's variables with
/// the task's own variables set on top.
pub open spec fn template_vars(kind: TaskKind, vars: Vars) -> Vars {
    match kind {
        TaskKind::Template { variables, .. } => overlay(vars, variables@),
        _ => vars,
    }
}

/// The remote file that a task writes: the destination of a copy or a
/// template, the file of a search and replace.
pub open spec fn target_of(kind: TaskKind) -> Seq<char> {
    match kind {
        TaskKind::Shell { .. } => Seq::empty(),
        TaskKind::Copy { dest, .. } => dest@,
        TaskKind::Template { dest, .. } => dest@,
        TaskKind::SearchReplace { path, .. } => path@,
    }
}

/// The text that a search and replace writes over the file text `text`.
pub open spec fn replaced_text(kind: TaskKind, text: Seq<char>) -> Option<Seq<char>> {
    match kind {
        TaskKind::SearchReplace { search, replace, .. } => regex_replaced(search@, text, replace@),
        _ => None,
    }
}

/// Whether `a` writes `contents` as text to `path`.
pub open spec fn writes_text(a: Action, path: Seq<char>, contents: Seq<char>) -> bool {
    match a {
        Action::WriteRemoteText { path: p, contents: c } => p@ == path && c@ == contents,
        _ => false,
    }
}

/// Whether `a` writes the bytes `contents` to `path`.
pub open spec fn writes_bytes(a: Action, path: Seq<char>, contents: Seq<u8>) -> bool {
    match a {
        Action::WriteRemoteBytes { path: p, contents: c } => p@ == path && c@ == contents,
        _ => false,
    }
}

/// Whether the stage fits the task kind: each kind waits only in its own
/// stages.
pub open spec fn stage_fits(kind: TaskKind, s: Stage) -> bool {
    match s {
        Stage::AwaitOutput => kind is Shell,
        Stage::AwaitSource => kind is Copy,
        Stage::AwaitTemplate => kind is Template,
        Stage::AwaitTarget => kind is SearchReplace,
        Stage::AwaitWrite(_) => !(kind is Shell),
        _ => true,
    }
}

/// The run of one task on one host.
pub struct TaskRun {
    host: Host,
    kind: TaskKind,
    vars: tera::Context,
    user: String,
    key: String,
    stage: Stage,
}

impl TaskRun {
    pub closed spec fn host_of(&self) -> Host {
        self.host
    }

    pub closed spec fn kind_of(&self) -> TaskKind {
        self.kind
    }

    pub closed spec fn vars_of(&self) -> Vars {
        context_vars(self.vars)
    }

    pub closed spec fn user_of(&self) -> Seq<char> {
        self.user@
    }

    pub closed spec fn key_of(&self) -> Seq<char> {
        self.key@
    }

    pub closed spec fn stage_of(&self) -> Stage {
        self.stage
    }

    /// The stage fits the task kind.
    pub open spec fn wf(&self) -> bool {
        stage_fits(self.kind_of(), self.stage_of())
    }

    /// A run of `kind` on `host` over the host's variables, with the
    /// credentials that the host or else `global` gives. `_local` is kept as
    /// a place for a playbook's own credentials; it is not applied.
    pub fn new(
        kind: TaskKind,
        host: &Host,
        vars: &tera::Context,
        global: &GlobalConfig,
        _local: Option<&GlobalConfig>,
    ) -> (r: TaskRun)
        ensures
            r.host_of() == *host,
            r.kind_of() == kind,
            r.vars_of() == context_vars(*vars),
            r.user_of() == user_for(*host, *global),
            r.key_of() == key_for(*host, *global),
            r.stage_of() == Stage::Start,
            r.wf(),
    {
        let user = match &host.user {
            Some(u) => u.clone(),
            None => global.user.clone(),
        };
        let key = match &host.key {
            Some(k) => k.clone(),
            None => global.key.clone(),
        };
        TaskRun {
            host: host.duplicate(),
            kind,
            vars: copy_context(vars),
            user,
            key,
            stage: Stage::Start,
        }
    }

    pub fn stage(&self) -> (r: Stage)
        ensures
            r == self.stage_of(),
    {
        self.stage
    }

    /// The task kind, with what a `Shell` task printed once it has run.
    pub fn kind(&self) -> (r: &TaskKind)
        ensures
            *r == self.kind_of(),
    {
        &self.kind
    }

    /// The variables that the template of a `Template` task renders over.
    pub fn render_vars(&self) -> (r: tera::Context)
        ensures
            context_vars(r) == template_vars(self.kind_of(), self.vars_of()),
    {
        match &self.kind {
            TaskKind::Template { variables, .. } => overlaid(&self.vars, variables),
            _ => copy_context(&self.vars),
        }
    }

    /// Takes what rendering the template gave: the rendered text is written
    /// to the destination, and a rendering error ends the run.
    pub fn finish_render(&mut self, rendered: Result<String, tera::Error>) -> (r: Action)
        requires
            old(self).wf(),
            old(self).stage_of() == Stage::AwaitTemplate,
        ensures
            final(self).wf(),
            final(self).host_of() == old(self).host_of(),
            final(self).kind_of() == old(self).kind_of(),
            final(self).vars_of() == old(self).vars_of(),
            final(self).user_of() == old(self).user_of(),
            final(self).key_of() == old(self).key_of(),
            rendered is Ok ==> final(self).stage_of() == Stage::AwaitWrite(true) && writes_text(
                r,
                target_of(old(self).kind_of()),
                rendered->Ok_0@,
            ),
            rendered is Err ==> final(self).stage_of() == Stage::Done && r matches Action::Abort(
                ExecError::Render(_),
            ),
    {
        match rendered {
            Ok(out) => {
                let path = match &self.kind {
                    TaskKind::Template { dest, .. } => dest.clone(),
                    _ => String::new(),
                };
                self.stage = Stage::AwaitWrite(true);
                Action::WriteRemoteText { path, contents: out }
            },
            Err(e) => {
                self.stage = Stage::Done;
                Action::Abort(ExecError::Render(e))
            },
        }
    }

    /// The first action of the task's own work, once the session is
    /// authenticated.
    fn open_work(&mut self) -> (r: Action)
        ensures
            opens_work(old(self).kind_of(), r, final(self).stage_of()),
            stage_fits(final(self).kind_of(), final(self).stage_of()),
            final(self).host_of() == old(self).host_of(),
            final(self).kind_of() == old(self).kind_of(),
            final(self).vars_of() == old(self).vars_of(),
            final(self).user_of() == old(self).user_of(),
            final(self).key_of() == old(self).key_of(),
    {
        match &self.kind {
            TaskKind::Shell { command, .. } => {
                self.stage = Stage::AwaitOutput;
                Action::RunCommand { command: command.clone() }
            },
            TaskKind::Copy { src, remote_src, .. } => {
                self.stage = Stage::AwaitSource;
                if *remote_src == Some(true) {
                    Action::ReadRemoteBytes { path: src.clone() }
                } else {
                    Action::ReadLocalBytes { path: src.clone() }
                }
            },
            TaskKind::Template { src, .. } => {
                self.stage = Stage::AwaitTemplate;
                Action::ReadLocalText { path: src.clone() }
            },
            TaskKind::SearchReplace { path, .. } => {
                self.stage = Stage::AwaitTarget;
                Action::ReadRemoteText { path: path.clone() }
            },
        }
    }

    /// Takes the answer to the last action and returns the next action.
    /// Before the session is authenticated the run connects, tries the
    /// agent, then the key file; after it, each kind reads, computes and
    /// writes as its stages say. A failure ends the run with a transport
    /// error; an event that the stage does not wait for ends it too.
    pub fn step(&mut self, event: Event) -> (r: Action)
        requires
            old(self).wf(),
        ensures
            final(self).wf(),
            final(self).host_of() == old(self).host_of(),
            final(self).vars_of() == old(self).vars_of(),
            final(self).user_of() == old(self).user_of(),
            final(self).key_of() == old(self).key_of(),
            !(old(self).stage_of() == Stage::AwaitOutput && event is Output) ==> final(self).kind_of()
                == old(self).kind_of(),
            event is Failed && old(self).stage_of() != Stage::Done ==> final(self).stage_of()
                == Stage::Done && (match r {
                Action::Abort(ExecError::Transport(m)) => m@ == event->Failed_0@,
                _ => false,
            }),
            old(self).stage_of() == Stage::Start && event is Begin ==> final(self).stage_of()
                == Stage::Connecting && (match r {
                Action::Connect { address, port } => address@ == old(self).host_of().address@
                    && port == SSH_PORT,
                _ => false,
            }),
            old(self).stage_of() == Stage::Connecting && event is Connected ==> final(self).stage_of() == Stage::AgentAuth && (match r {
                Action::AgentAuth { user } => user@ == old(self).user_of(),
                _ => false,
            }),
            (old(self).stage_of() == Stage::AgentAuth || old(self).stage_of() == Stage::KeyAuth)
                && event == Event::AuthChecked(true) ==> opens_work(
                old(self).kind_of(),
                r,
                final(self).stage_of(),
            ),
            old(self).stage_of() == Stage::AgentAuth && event == Event::AuthChecked(false)
                ==> final(self).stage_of() == Stage::KeyAuth && (match r {
                Action::KeyAuth { user, key } => user@ == old(self).user_of() && key@ == old(self).key_of(),
                _ => false,
            }),
            old(self).stage_of() == Stage::KeyAuth && event == Event::AuthChecked(false)
                ==> final(self).stage_of() == Stage::Done && r matches Action::Abort(ExecError::Auth),
            old(self).stage_of() == Stage::AwaitOutput && event is Output ==> {
                &&& final(self).stage_of() == Stage::Done
                &&& final(self).kind_of() == (TaskKind::Shell {
                    name: old(self).kind_of()->Shell_name,
                    command: old(self).kind_of()->Shell_command,
                    result: event->Output_0,
                })
                &&& finishes(r, true, old(self).host_of(), final(self).kind_of())
            },
            old(self).stage_of() == Stage::AwaitSource && event is Bytes ==> final(self).stage_of()
                == Stage::AwaitWrite(true) && writes_bytes(
                r,
                target_of(old(self).kind_of()),
                event->Bytes_0@,
            ),
            old(self).stage_of() == Stage::AwaitTemplate && event is Text ==> (match r {
                Action::WriteRemoteText { path, .. } => path@ == target_of(old(self).kind_of())
                    && final(self).stage_of() == Stage::AwaitWrite(true),
                Action::Abort(ExecError::Render(_)) => final(self).stage_of() == Stage::Done,
                _ => false,
            }),
            old(self).stage_of() == Stage::AwaitTarget && event is Text ==> (match replaced_text(
                old(self).kind_of(),
                event->Text_0@,
            ) {
                Some(out) => final(self).stage_of() == Stage::AwaitWrite(out != event->Text_0@)
                    && writes_text(r, target_of(old(self).kind_of()), out),
                None => final(self).stage_of() == Stage::Done && r matches Action::Abort(
                    ExecError::Pattern(_),
                ),
            }),
            old(self).stage_of() == Stage::AwaitTarget && event is Text && replaced_text(
                old(self).kind_of(),
                event->Text_0@,
            ) == Some(event->Text_0@) ==> final(self).stage_of() == Stage::AwaitWrite(false)
                && writes_text(r, target_of(old(self).kind_of()), event->Text_0@),
            old(self).stage_of() is AwaitWrite && event is Written ==> final(self).stage_of()
                == Stage::Done && finishes(
                r,
                old(self).stage_of()->AwaitWrite_0,
                old(self).host_of(),
                old(self).kind_of(),
            ),
            !(event is Failed) && !expected(old(self).stage_of(), event) ==> final(self).stage_of() == Stage::Done && r matches Action::Abort(ExecError::Unexpected),
    {
        let stage = self.stage;
        match (stage, event) {
            (Stage::Done, _) => Action::Abort(ExecError::Unexpected),
            (_, Event::Failed(m)) => {
                self.stage = Stage::Done;
                Action::Abort(ExecError::Transport(m))
            },
            (Stage::Start, Event::Begin) => {
                self.stage = Stage::Connecting;
                Action::Connect { address: self.host.address.clone(), port: SSH_PORT }
            },
            (Stage::Connecting, Event::Connected) => {
                self.stage = Stage::AgentAuth;
                Action::AgentAuth { user: self.user.clone() }
            },
            (Stage::AgentAuth, Event::AuthChecked(true)) => self.open_work(),
            (Stage::KeyAuth, Event::AuthChecked(true)) => self.open_work(),
            (Stage::AgentAuth, Event::AuthChecked(false)) => {
                self.stage = Stage::KeyAuth;
                Action::KeyAuth { user: self.user.clone(), key: self.key.clone() }
            },
            (Stage::KeyAuth, Event::AuthChecked(false)) => {
                self.stage = Stage::Done;
                Action::Abort(ExecError::Auth)
            },
            (Stage::AwaitOutput, Event::Output(out)) => {
                self.kind.set_output(out);
                self.stage = Stage::Done;
                Action::Finish(TaskResult::Changed(self.host.duplicate(), self.kind.duplicate()))
            },
            (Stage::AwaitSource, Event::Bytes(bytes)) => match &self.kind {
                TaskKind::Copy { dest, .. } => {
                    self.stage = Stage::AwaitWrite(true);
                    Action::WriteRemoteBytes { path: dest.clone(), contents: bytes }
                },
                _ => {
                    self.stage = Stage::Done;
                    Action::Abort(ExecError::Unexpected)
                },
            },
            (Stage::AwaitTemplate, Event::Text(template)) => match &self.kind {
                TaskKind::Template { .. } => {
                    let vars = self.render_vars();
                    let out = render_template(template.as_str(), &vars);
                    self.finish_render(out)
                },
                _ => {
                    self.stage = Stage::Done;
                    Action::Abort(ExecError::Unexpected)
                },
            },
            (Stage::AwaitTarget, Event::Text(text)) => match &self.kind {
                TaskKind::SearchReplace { path, search, replace, .. } => {
                    match replace_matches(search.as_str(), text.as_str(), replace.as_str()) {
                        Ok(out) => {
                            let changed = out != text;
                            self.stage = Stage::AwaitWrite(changed);
                            Action::WriteRemoteText { path: path.clone(), contents: out }
                        },
                        Err(e) => {
                            self.stage = Stage::Done;
                            Action::Abort(ExecError::Pattern(e))
                        },
                    }
                },
                _ => {
                    self.stage = Stage::Done;
                    Action::Abort(ExecError::Unexpected)
                },
            },
            (Stage::AwaitWrite(changed), Event::Written) => {
                self.stage = Stage::Done;
                let host = self.host.duplicate();
                let kind = self.kind.duplicate();
                if changed {
                    Action::Finish(TaskResult::Changed(host, kind))
                } else {
                    Action::Finish(TaskResult::Unchanged(host, kind))
                }
            },
            _ => {
                self.stage = Stage::Done;
                Action::Abort(ExecError::Unexpected)
            },
        }
    }
}

/// Whether a stage waits for the event: the events that `step` answers with
/// more than an `Unexpected` error.
pub open spec fn expected(s: Stage, e: Event) -> bool {
    match (s, e) {
        (Stage::Start, Event::Begin) => true,
        (Stage::Connecting, Event::Connected) => true,
        (Stage::AgentAuth, Event::AuthChecked(_)) => true,
        (Stage::KeyAuth, Event::AuthChecked(_)) => true,
        (Stage::AwaitOutput, Event::Output(_)) => true,
        (Stage::AwaitSource, Event::Bytes(_)) => true,
        (Stage::AwaitTemplate, Event::Text(_)) => true,
        (Stage::AwaitTarget, Event::Text(_)) => true,
        (Stage::AwaitWrite(_), Event::Written) => true,
        _ => false,
    }
}

} // verus!
