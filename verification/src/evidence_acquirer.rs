//! Acquiring quick evidence: firewall state, network state, logged users,
//! running processes and network connections.

use vstd::prelude::*;
use crate::text::{views, owned, concat3, push_str};
use crate::winpath::path_joined;
use crate::remote::connector::{Computer, Connector, Invocation, report_name, report_path_for};
use crate::remote::psexec::PsExec;
use crate::remote::psremote::PsRemote;
use crate::remote::rdp::Rdp;
use crate::remote::ssh::Ssh;
use crate::remote::wmi::Wmi;
use crate::remote::local::Local;

verus! {

/// One piece of quick evidence: the command to run and the prefix of its report.
pub struct EvidenceStep {
    pub command: Vec<String>,
    pub report_prefix: String,
}

/// The content of a step: its command and report prefix.
pub open spec fn step_view(s: EvidenceStep) -> (Seq<Seq<char>>, Seq<char>) {
    (views(s.command@), s.report_prefix@)
}

/// The step of an optional command: none when it is missing or empty.
pub open spec fn step_of(command: Option<Vec<String>>, prefix: Seq<char>) -> Seq<(Seq<Seq<char>>, Seq<char>)> {
    match command {
        Some(c) => if c@.len() > 0 {
            seq![(views(c@), prefix)]
        } else {
            Seq::empty()
        },
        None => Seq::empty(),
    }
}

/// The Windows commands of quick evidence.
pub open spec fn windows_firewall() -> Seq<Seq<char>> {
    seq!["netsh"@, "advfirewall"@, "show"@, "allprofiles"@, "state"@]
}

/// Quick evidence from a computer, each command's output stored as a report.
pub struct EvidenceAcquirer<C: Connector> {
    pub store_directory: String,
    pub connector: C,
    pub firewall_state_command: Option<Vec<String>>,
    pub network_state_command: Option<Vec<String>>,
    pub logged_users_command: Option<Vec<String>>,
    pub running_processes_command: Option<Vec<String>>,
    pub active_network_connections_command: Option<Vec<String>>,
}

/// The view of an optional command.
pub open spec fn opt_command(c: Option<Vec<String>>) -> Option<Seq<Seq<char>>> {
    match c {
        Some(v) => Some(views(v@)),
        None => None,
    }
}

fn words1(a: &str) -> (res: Vec<String>)
    ensures
        views(res@) == seq![a@],
{
    let mut res: Vec<String> = Vec::new();
    push_str(&mut res, a);
    res
}

fn words2(a: &str, b: &str) -> (res: Vec<String>)
    ensures
        views(res@) == seq![a@, b@],
{
    let mut res: Vec<String> = Vec::new();
    push_str(&mut res, a);
    push_str(&mut res, b);
    res
}

fn step(command: &Option<Vec<String>>, prefix: &str) -> (res: Option<EvidenceStep>)
    ensures
        match res {
            Some(s) => step_of(*command, prefix@) == seq![step_view(s)],
            None => step_of(*command, prefix@) == Seq::<(Seq<Seq<char>>, Seq<char>)>::empty(),
        },
{
    match command {
        Some(c) => {
            if c.len() > 0 {
                let mut copy: Vec<String> = Vec::new();
                let mut i: usize = 0;
                while i < c.len()
                    invariant
                        i <= c.len(),
                        views(copy@) == views(c@).take(i as int),
                    decreases c.len() - i,
                {
                    push_str(&mut copy, c[i].as_str());
                    assert(views(c@).take(i + 1) =~= views(c@).take(i as int).push(c@[i as int]@));
                    i = i + 1;
                }
                assert(views(c@).take(c.len() as int) =~= views(c@));
                Some(EvidenceStep { command: copy, report_prefix: owned(prefix) })
            } else {
                None
            }
        },
        None => None,
    }
}

impl<C: Connector> EvidenceAcquirer<C> {
    /// An acquirer through `connector` with the Windows commands: `netsh
    /// advfirewall show allprofiles state`, `ipconfig /all`, `query user`,
    /// `tasklist` and `netstat -ano`.
    pub fn new(store_directory: String, connector: C) -> (res: Self)
        ensures
            res.store_directory == store_directory,
            res.connector == connector,
            opt_command(res.firewall_state_command) == Some(windows_firewall()),
            opt_command(res.network_state_command) == Some(seq!["ipconfig"@, "/all"@]),
            opt_command(res.logged_users_command) == Some(seq!["query"@, "user"@]),
            opt_command(res.running_processes_command) == Some(seq!["tasklist"@]),
            opt_command(res.active_network_connections_command) == Some(seq!["netstat"@, "-ano"@]),
    {
        let mut firewall: Vec<String> = Vec::new();
        push_str(&mut firewall, "netsh");
        push_str(&mut firewall, "advfirewall");
        push_str(&mut firewall, "show");
        push_str(&mut firewall, "allprofiles");
        push_str(&mut firewall, "state");
        EvidenceAcquirer {
            store_directory,
            connector,
            firewall_state_command: Some(firewall),
            network_state_command: Some(words2("ipconfig", "/all")),
            logged_users_command: Some(words2("query", "user")),
            running_processes_command: Some(words1("tasklist")),
            active_network_connections_command: Some(words2("netstat", "-ano")),
        }
    }

    /// The steps in the order they run: firewall state, network state,
    /// active network connections, running processes, logged users; those
    /// whose command is missing or empty are left out.
    pub open spec fn steps(&self) -> Seq<(Seq<Seq<char>>, Seq<char>)> {
        step_of(self.firewall_state_command, "firewall-status"@)
            + step_of(self.network_state_command, "network-status"@)
            + step_of(self.active_network_connections_command, "active-network-connections"@)
            + step_of(self.running_processes_command, "running-processes"@)
            + step_of(self.logged_users_command, "logged-users"@)
    }

    /// The firewall state step, if it has a command.
    pub fn firewall_state(&self) -> (res: Option<EvidenceStep>)
        ensures
            match res {
                Some(s) => step_of(self.firewall_state_command, "firewall-status"@) == seq![step_view(s)],
                None => step_of(self.firewall_state_command, "firewall-status"@).len() == 0,
            },
    {
        step(&self.firewall_state_command, "firewall-status")
    }

    /// The network state step, if it has a command.
    pub fn network_state(&self) -> (res: Option<EvidenceStep>)
        ensures
            match res {
                Some(s) => step_of(self.network_state_command, "network-status"@) == seq![step_view(s)],
                None => step_of(self.network_state_command, "network-status"@).len() == 0,
            },
    {
        step(&self.network_state_command, "network-status")
    }

    /// The logged users step, if it has a command.
    pub fn logged_users(&self) -> (res: Option<EvidenceStep>)
        ensures
            match res {
                Some(s) => step_of(self.logged_users_command, "logged-users"@) == seq![step_view(s)],
                None => step_of(self.logged_users_command, "logged-users"@).len() == 0,
            },
    {
        step(&self.logged_users_command, "logged-users")
    }

    /// The running processes step, if it has a command.
    pub fn running_processes(&self) -> (res: Option<EvidenceStep>)
        ensures
            match res {
                Some(s) => step_of(self.running_processes_command, "running-processes"@) == seq![step_view(s)],
                None => step_of(self.running_processes_command, "running-processes"@).len() == 0,
            },
    {
        step(&self.running_processes_command, "running-processes")
    }

    /// The active network connections step, if it has a command.
    pub fn active_network_connections(&self) -> (res: Option<EvidenceStep>)
        ensures
            match res {
                Some(s) => step_of(self.active_network_connections_command, "active-network-connections"@) == seq![step_view(s)],
                None => step_of(self.active_network_connections_command, "active-network-connections"@).len() == 0,
            },
    {
        step(&self.active_network_connections_command, "active-network-connections")
    }

    /// All steps, in the order of `steps`.
    pub fn run_all(&self) -> (res: Vec<EvidenceStep>)
        ensures
            res@.map_values(|s: EvidenceStep| step_view(s)) == self.steps(),
    {
        let mut res: Vec<EvidenceStep> = Vec::new();
        let parts = [
            self.firewall_state(),
            self.network_state(),
            self.active_network_connections(),
            self.running_processes(),
            self.logged_users(),
        ];
        let ghost p0 = step_of(self.firewall_state_command, "firewall-status"@);
        let ghost p1 = step_of(self.network_state_command, "network-status"@);
        let ghost p2 = step_of(self.active_network_connections_command, "active-network-connections"@);
        let ghost p3 = step_of(self.running_processes_command, "running-processes"@);
        let ghost p4 = step_of(self.logged_users_command, "logged-users"@);
        let ghost all = seq![p0, p1, p2, p3, p4];
        let mut i: usize = 0;
        while i < 5
            invariant
                i <= 5,
                parts@.len() == 5,
                all.len() == 5,
                forall|k: int| 0 <= k < 5 ==> match #[trigger] parts@[k] {
                    Some(s) => all[k] == seq![step_view(s)],
                    None => all[k].len() == 0,
                },
                res@.map_values(|s: EvidenceStep| step_view(s)) == all.take(i as int).fold_left(Seq::empty(), |acc: Seq<(Seq<Seq<char>>, Seq<char>)>, x: Seq<(Seq<Seq<char>>, Seq<char>)>| acc + x),
            decreases 5 - i,
        {
            let ghost before = res@;
            let ghost acc = all.take(i as int).fold_left(Seq::empty(), |acc: Seq<(Seq<Seq<char>>, Seq<char>)>, x: Seq<(Seq<Seq<char>>, Seq<char>)>| acc + x);
            assert(all.take(i + 1).drop_last() =~= all.take(i as int));
            match &parts[i] {
                Some(s) => {
                    let copy = EvidenceStep { command: clone_words(&s.command), report_prefix: s.report_prefix.clone() };
                    let ghost cv = step_view(copy);
                    assert(cv == step_view(*s));
                    res.push(copy);
                    assert(res@.map_values(|s: EvidenceStep| step_view(s)) =~= before.map_values(|s: EvidenceStep| step_view(s)).push(cv));
                    assert(acc + all[i as int] =~= acc.push(cv));
                },
                None => {
                    assert(acc + all[i as int] =~= acc);
                },
            }
            i = i + 1;
        }
        proof {
            assert(all.take(5) =~= all);
            reveal_with_fuel(Seq::fold_left, 6);
            assert(all.fold_left(Seq::empty(), |acc: Seq<(Seq<Seq<char>>, Seq<char>)>, x: Seq<(Seq<Seq<char>>, Seq<char>)>| acc + x)
                =~= p0 + p1 + p2 + p3 + p4);
        }
        res
    }

    /// The report file of the step with report prefix `prefix`.
    pub fn report_path(&self, prefix: &str) -> (res: String)
        ensures
            res@ == path_joined(
                self.store_directory@,
                report_name(self.connector.target(), prefix@, self.connector.method_name_view(), "txt"@),
            ),
    {
        report_path_for(&self.connector, self.store_directory.as_str(), prefix, "txt")
    }

    /// The process that runs a step's command elevated, its output going to `report`.
    pub fn run_plan(&self, command: Vec<String>, report: &str) -> (res: Invocation)
        ensures
            res@ == self.connector.run_plan_view(views(command@), Some(report@), true, None),
    {
        self.connector.run_plan(command, Some(report), true, None)
    }
}

/// A copy of a list of words.
fn clone_words(v: &Vec<String>) -> (res: Vec<String>)
    ensures
        views(res@) == views(v@),
{
    let mut copy: Vec<String> = Vec::new();
    let mut i: usize = 0;
    while i < v.len()
        invariant
            i <= v.len(),
            views(copy@) == views(v@).take(i as int),
        decreases v.len() - i,
    {
        push_str(&mut copy, v[i].as_str());
        assert(views(v@).take(i + 1) =~= views(v@).take(i as int).push(v@[i as int]@));
        i = i + 1;
    }
    assert(views(v@).take(v.len() as int) =~= views(v@));
    copy
}

impl EvidenceAcquirer<Local> {
    /// Quick evidence from this computer.
    pub fn local(username: String, store_directory: String, temp_storage: String) -> (res: Self)
        ensures
            res.store_directory == store_directory,
            res.connector.localhost.username == username,
            res.connector.temp_storage == temp_storage,
            opt_command(res.firewall_state_command) == Some(windows_firewall()),
    {
        EvidenceAcquirer::new(store_directory, Local::new(username, temp_storage))
    }
}

impl EvidenceAcquirer<PsExec> {
    /// Quick evidence through PAExec.
    pub fn psexec(remote_computer: Computer, store_directory: String, remote_temp_storage: String, custom_share_folder: Option<String>) -> (res: Self)
        ensures
            res.store_directory == store_directory,
            res.connector.psexec_name@ == "paexec.exe"@,
            res.connector.remote_temp_storage == remote_temp_storage,
            opt_command(res.firewall_state_command) == Some(windows_firewall()),
    {
        EvidenceAcquirer::new(store_directory, PsExec::paexec(remote_computer, remote_temp_storage, custom_share_folder))
    }
}

impl EvidenceAcquirer<PsRemote> {
    /// Quick evidence through PowerShell remoting.
    pub fn psremote(remote_computer: Computer, store_directory: String, remote_temp_storage: String, custom_share_folder: Option<String>) -> (res: Self)
        ensures
            res.store_directory == store_directory,
            res.connector.remote_temp_storage == remote_temp_storage,
            opt_command(res.firewall_state_command) == Some(windows_firewall()),
    {
        EvidenceAcquirer::new(store_directory, PsRemote::new(remote_computer, remote_temp_storage, custom_share_folder))
    }
}

impl EvidenceAcquirer<Wmi> {
    /// Quick evidence through WMI.
    pub fn wmi(remote_computer: Computer, store_directory: String, remote_temp_storage: String) -> (res: Self)
        ensures
            res.store_directory == store_directory,
            res.connector.computer == remote_computer,
            res.connector.remote_temp_storage == remote_temp_storage,
            opt_command(res.firewall_state_command) == Some(windows_firewall()),
    {
        EvidenceAcquirer::new(store_directory, Wmi { computer: remote_computer, remote_temp_storage })
    }
}

impl EvidenceAcquirer<Rdp> {
    /// Quick evidence through remote desktop.
    pub fn rdp(remote_computer: Computer, store_directory: String, nla: bool, remote_temp_storage: String) -> (res: Self)
        ensures
            res.store_directory == store_directory,
            res.connector.computer == remote_computer,
            res.connector.nla == nla,
            res.connector.remote_temp_storage == remote_temp_storage,
            opt_command(res.firewall_state_command) == Some(windows_firewall()),
    {
        EvidenceAcquirer::new(store_directory, Rdp { nla, computer: remote_computer, remote_temp_storage })
    }
}

/// The password that a Linux command is fed with: the computer's, or nothing.
pub open spec fn password_or_empty(c: Computer) -> Seq<char> {
    match c.password {
        Some(p) => p@,
        None => Seq::empty(),
    }
}

impl EvidenceAcquirer<Ssh> {
    /// Quick evidence from a Linux computer through SSH: `iptables -L` run
    /// with `sudo` fed the password, `ifconfig`, `who`, `ps aux` and `netstat -natp`.
    pub fn ssh(remote_computer: Computer, store_directory: String, key_file: Option<String>) -> (res: Self)
        ensures
            res.store_directory == store_directory,
            computer_matches(res.connector.computer, remote_computer),
            res.connector.key_file == key_file,
            opt_command(res.firewall_state_command) == Some(seq![
                "echo "@ + password_or_empty(remote_computer) + " | sudo -S iptables -L"@,
            ]),
            opt_command(res.network_state_command) == Some(seq!["ifconfig"@]),
            opt_command(res.logged_users_command) == Some(seq!["who"@]),
            opt_command(res.running_processes_command) == Some(seq!["ps aux"@]),
            opt_command(res.active_network_connections_command) == Some(seq!["netstat -natp"@]),
    {
        let password = match &remote_computer.password {
            Some(p) => p.clone(),
            None => String::new(),
        };
        let firewall = concat3("echo ", password.as_str(), " | sudo -S iptables -L");
        let connector = Ssh { key_file, computer: remote_computer.duplicate() };
        EvidenceAcquirer {
            store_directory,
            connector,
            firewall_state_command: Some(words1(firewall.as_str())),
            network_state_command: Some(words1("ifconfig")),
            logged_users_command: Some(words1("who")),
            running_processes_command: Some(words1("ps aux")),
            active_network_connections_command: Some(words1("netstat -natp")),
        }
    }
}

/// Whether two computers have the same address and credentials.
pub open spec fn computer_matches(a: Computer, b: Computer) -> bool {
    crate::remote::connector::computer_view(a) == crate::remote::connector::computer_view(b)
}

} // verus!
