//! Inventories and playbooks, and which hosts a playbook applies to.

use vstd::prelude::*;
use crate::task::{listed, Task};

verus! {

/// A managed host: its address, with optional overrides of the user and key.
#[derive(Clone)]
pub struct Host {
    pub address: String,
    pub user: Option<String>,
    pub key: Option<String>,
}

/// The user and key that hosts use where they do not override them.
#[derive(Clone)]
pub struct GlobalConfig {
    pub user: String,
    pub key: String,
}

/// The inventory: default credentials and the hosts, in order.
#[derive(Clone)]
pub struct HostConfig {
    pub global_config: GlobalConfig,
    pub hosts: Vec<Host>,
}

/// A playbook that another one runs first, with the tags and condition that
/// were written beside it.
#[derive(Clone)]
pub struct Include {
    pub file: String,
    pub tags: Option<Vec<String>>,
    pub when: Option<String>,
}

/// A set of tasks for the hosts that it names, after the playbooks it
/// includes.
#[derive(Clone)]
pub struct Playbook {
    name: Option<String>,
    included: Option<Vec<Include>>,
    hosts: Vec<String>,
    local_config: Option<GlobalConfig>,
    tasks: Vec<Task>,
}

/// A copy of an optional string.
fn copy_opt(s: &Option<String>) -> (r: Option<String>)
    ensures
        r == *s,
{
    match s {
        None => None,
        Some(v) => Some(v.clone()),
    }
}

impl Host {
    /// A copy with equal fields.
    pub fn duplicate(&self) -> (r: Host)
        ensures
            r == *self,
    {
        Host { address: self.address.clone(), user: copy_opt(&self.user), key: copy_opt(&self.key) }
    }
}

/// The hosts among the first `n` of `hosts` whose address `wanted` lists, in
/// their order.
pub open spec fn matched(hosts: Seq<Host>, wanted: Seq<String>, n: nat) -> Seq<Host>
    decreases n,
{
    if n == 0 {
        Seq::empty()
    } else {
        let before = matched(hosts, wanted, (n - 1) as nat);
        if listed(wanted, hosts[n - 1].address@) {
            before.push(hosts[n - 1])
        } else {
            before
        }
    }
}

/// Every host that `matched` yields is one of `hosts` whose address `wanted`
/// lists.
pub proof fn lemma_matched_listed(hosts: Seq<Host>, wanted: Seq<String>, n: nat)
    requires
        n <= hosts.len(),
    ensures
        forall|i: int|
            0 <= i < matched(hosts, wanted, n).len() ==> listed(
                wanted,
                (#[trigger] matched(hosts, wanted, n)[i]).address@,
            ) && hosts.contains(matched(hosts, wanted, n)[i]),
    decreases n,
{
    if n > 0 {
        lemma_matched_listed(hosts, wanted, (n - 1) as nat);
        let before = matched(hosts, wanted, (n - 1) as nat);
        assert forall|i: int| 0 <= i < matched(hosts, wanted, n).len() implies listed(
            wanted,
            (#[trigger] matched(hosts, wanted, n)[i]).address@,
        ) && hosts.contains(matched(hosts, wanted, n)[i]) by {
            if i < before.len() {
                assert(matched(hosts, wanted, n)[i] == before[i]);
            } else {
                assert(matched(hosts, wanted, n)[i] == hosts[n - 1]);
            }
        }
    }
}

/// A host whose address a playbook does not list is never among the hosts
/// that the playbook runs on, so none of its tasks runs there.
pub proof fn lemma_unlisted_host_not_matched(p: Playbook, inventory: HostConfig, h: Host)
    requires
        !listed(p.hosts_of(), h.address@),
    ensures
        !p.matches(inventory).contains(h),
{
    lemma_matched_listed(inventory.hosts@, p.hosts_of(), inventory.hosts@.len());
    if p.matches(inventory).contains(h) {
        let i = choose|i: int| 0 <= i < p.matches(inventory).len() && p.matches(inventory)[i] == h;
        assert(listed(p.hosts_of(), p.matches(inventory)[i].address@));
    }
}

impl Playbook {
    pub closed spec fn hosts_of(&self) -> Seq<String> {
        self.hosts@
    }

    pub closed spec fn name_of(&self) -> Option<String> {
        self.name
    }

    pub closed spec fn local_config_of(&self) -> Option<GlobalConfig> {
        self.local_config
    }

    pub closed spec fn tasks_of(&self) -> Seq<Task> {
        self.tasks@
    }

    pub closed spec fn includes_of(&self) -> Seq<Include> {
        match self.included {
            None => Seq::empty(),
            Some(v) => v@,
        }
    }

    /// The hosts of `inventory` that the playbook runs on, in the
    /// inventory's order.
    pub open spec fn matches(&self, inventory: HostConfig) -> Seq<Host> {
        matched(inventory.hosts@, self.hosts_of(), inventory.hosts@.len())
    }

    pub fn new(
        name: Option<String>,
        included: Option<Vec<Include>>,
        hosts: Vec<String>,
        local_config: Option<GlobalConfig>,
        tasks: Vec<Task>,
    ) -> (r: Playbook)
        ensures
            r.hosts_of() == hosts@,
            r.tasks_of() == tasks@,
            r.name_of() == name,
            r.local_config_of() == local_config,
            included is None ==> r.includes_of() == Seq::<Include>::empty(),
            included is Some ==> r.includes_of() == included->Some_0@,
    {
        Playbook { name, included, hosts, local_config, tasks }
    }

    pub fn name(&self) -> (r: &Option<String>)
        ensures
            *r == self.name_of(),
    {
        &self.name
    }

    pub fn hosts(&self) -> (r: &Vec<String>)
        ensures
            r@ == self.hosts_of(),
    {
        &self.hosts
    }

    pub fn tasks(&self) -> (r: &Vec<Task>)
        ensures
            r@ == self.tasks_of(),
    {
        &self.tasks
    }

    pub fn local_config(&self) -> (r: &Option<GlobalConfig>)
        ensures
            *r == self.local_config_of(),
    {
        &self.local_config
    }

    pub fn included(&self) -> (r: &Option<Vec<Include>>)
        ensures
            r is None ==> self.includes_of() == Seq::<Include>::empty(),
            r is Some ==> self.includes_of() == r->Some_0@,
    {
        &self.included
    }

    /// The files of the playbooks that run, each to its end, before this
    /// one's tasks, in order. Their tags and conditions are not applied.
    pub fn include_files(&self) -> (r: Vec<String>)
        ensures
            r@.len() == self.includes_of().len(),
            forall|i: int| 0 <= i < r@.len() ==> (#[trigger] r@[i])@ == self.includes_of()[i].file@,
    {
        let mut r: Vec<String> = Vec::new();
        match &self.included {
            None => {},
            Some(v) => {
                let mut i: usize = 0;
                while i < v.len()
                    invariant
                        self.included == Some(*v),
                        i <= v@.len(),
                        r@.len() == i,
                        forall|k: int| 0 <= k < i ==> (#[trigger] r@[k])@ == v@[k].file@,
                    decreases v@.len() - i,
                {
                    r.push(v[i].file.clone());
                    i = i + 1;
                }
            },
        }
        r
    }

    /// The files of the included playbooks, for a playbook reached through
    /// the files of `chain`. Fails with the first included file that is
    /// already on the chain: running it would never end.
    pub fn includes_to_load(&self, chain: &Vec<String>) -> (r: Result<Vec<String>, String>)
        ensures
            r is Ok <==> forall|i: int|
                0 <= i < self.includes_of().len() ==> !listed(
                    chain@,
                    (#[trigger] self.includes_of()[i]).file@,
                ),
            r is Ok ==> r->Ok_0@.len() == self.includes_of().len() && forall|i: int|
                0 <= i < r->Ok_0@.len() ==> (#[trigger] r->Ok_0@[i])@ == self.includes_of()[i].file@,
            r is Err ==> listed(chain@, r->Err_0@) && exists|i: int|
                0 <= i < self.includes_of().len() && (#[trigger] self.includes_of()[i]).file@
                    == r->Err_0@,
    {
        let files = self.include_files();
        let mut i: usize = 0;
        while i < files.len()
            invariant
                i <= files@.len(),
                files@.len() == self.includes_of().len(),
                forall|k: int| 0 <= k < files@.len() ==> (#[trigger] files@[k])@ == self.includes_of()[k].file@,
                forall|k: int| 0 <= k < i ==> !listed(chain@, (#[trigger] self.includes_of()[k]).file@),
            decreases files@.len() - i,
        {
            if crate::task::is_listed(chain, &files[i]) {
                let ghost k = i as int;
                assert(self.includes_of()[k].file@ == files@[k]@);
                return Err(files[i].clone());
            }
            assert(files@[i as int]@ == self.includes_of()[i as int].file@);
            i = i + 1;
        }
        Ok(files)
    }

    /// The hosts of `inventory` whose address the playbook lists, in the
    /// inventory's order.
    pub fn matching_hosts(&self, inventory: &HostConfig) -> (r: Vec<Host>)
        ensures
            r@ == self.matches(*inventory),
    {
        let mut r: Vec<Host> = Vec::new();
        let mut i: usize = 0;
        while i < inventory.hosts.len()
            invariant
                i <= inventory.hosts@.len(),
                r@ == matched(inventory.hosts@, self.hosts_of(), i as nat),
            decreases inventory.hosts@.len() - i,
        {
            if crate::task::is_listed(&self.hosts, &inventory.hosts[i].address) {
                r.push(inventory.hosts[i].duplicate());
            }
            i = i + 1;
        }
        r
    }
}

} // verus!
