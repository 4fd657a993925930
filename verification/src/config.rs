//! The local record of a project: where it is kept, and which programs it has deployed.
//!
//! The record is read before an action and written only after the ledger has confirmed
//! the action, so it never claims what the ledger has not confirmed. Records of deployed
//! programs are only ever added or stamped with a later upgrade, never removed.

use crate::error::ProtocolError;
use vstd::prelude::*;
use vstd::string::StringExecFns;

verus! {

/// One program that this project has deployed.
#[derive(Clone, Debug, PartialEq, Eq)]
pub struct DeployedProgram {
    /// The program's address as base-58 text.
    pub program_id: String,
    /// When the program was first deployed, in seconds since the epoch.
    pub deployed_at: i64,
    /// When the program's code was last replaced, if it ever was.
    pub last_upgraded: Option<i64>,
}

/// What a record of a deployed program holds.
pub ghost struct DeployedProgramView {
    pub program_id: Seq<char>,
    pub deployed_at: i64,
    pub last_upgraded: Option<i64>,
}

impl View for DeployedProgram {
    type V = DeployedProgramView;

    open spec fn view(&self) -> DeployedProgramView {
        DeployedProgramView {
            program_id: self.program_id@,
            deployed_at: self.deployed_at,
            last_upgraded: self.last_upgraded,
        }
    }
}

/// What this project knows of itself.
#[derive(Clone, Debug, PartialEq, Eq)]
pub struct ProjectState {
    /// The network that the project was set up on.
    pub network: String,
    /// The programs deployed so far, oldest first.
    pub deployed_programs: Vec<DeployedProgram>,
    /// The controller's balance when it was last looked at, in lamports.
    pub last_balance: u64,
}

/// What a project state holds.
pub ghost struct ProjectStateView {
    pub network: Seq<char>,
    pub deployed_programs: Seq<DeployedProgramView>,
    pub last_balance: u64,
}

/// What each record of a list holds.
pub open spec fn program_views(list: Seq<DeployedProgram>) -> Seq<DeployedProgramView> {
    Seq::new(list.len(), |i: int| list[i]@)
}

/// The program identifiers of a list of records, in order.
pub open spec fn program_id_views(list: Seq<DeployedProgramView>) -> Seq<Seq<char>> {
    Seq::new(list.len(), |i: int| list[i].program_id)
}

/// The texts of a list of strings, in order.
pub open spec fn text_views(list: Seq<String>) -> Seq<Seq<char>> {
    Seq::new(list.len(), |i: int| list[i]@)
}

impl View for ProjectState {
    type V = ProjectStateView;

    open spec fn view(&self) -> ProjectStateView {
        ProjectStateView {
            network: self.network@,
            deployed_programs: program_views(self.deployed_programs@),
            last_balance: self.last_balance,
        }
    }
}

impl ProjectStateView {
    /// The state after a first deployment of `program_id` at `deployed_at`.
    pub open spec fn with_deployment(self, program_id: Seq<char>, deployed_at: i64, balance: u64) -> ProjectStateView {
        ProjectStateView {
            network: self.network,
            deployed_programs: self.deployed_programs.push(
                DeployedProgramView { program_id, deployed_at, last_upgraded: None },
            ),
            last_balance: balance,
        }
    }

    /// The state after the newest program was upgraded at `upgraded_at`.
    pub open spec fn with_upgrade(self, upgraded_at: i64, balance: u64) -> ProjectStateView
        recommends
            self.deployed_programs.len() > 0,
    {
        let last = self.deployed_programs.len() - 1;
        ProjectStateView {
            network: self.network,
            deployed_programs: self.deployed_programs.update(
                last,
                DeployedProgramView {
                    program_id: self.deployed_programs[last].program_id,
                    deployed_at: self.deployed_programs[last].deployed_at,
                    last_upgraded: Some(upgraded_at),
                },
            ),
            last_balance: balance,
        }
    }

    /// Tells whether a program with this identifier is on record.
    pub open spec fn tracks(self, program_id: Seq<char>) -> bool {
        exists|i: int|
            0 <= i < self.deployed_programs.len() && (
            #[trigger] self.deployed_programs[i]).program_id == program_id
    }

    /// Tells whether `later` keeps every program that `self` has on record, in place,
    /// with its identifier and its deployment time.
    pub open spec fn kept_by(self, later: ProjectStateView) -> bool {
        &&& self.deployed_programs.len() <= later.deployed_programs.len()
        &&& forall|i: int|
            0 <= i < self.deployed_programs.len() ==> (
            #[trigger] later.deployed_programs[i]).program_id
                == self.deployed_programs[i].program_id && later.deployed_programs[i].deployed_at
                == self.deployed_programs[i].deployed_at
    }
}

impl Default for ProjectState {
    /// The state of a project that has not been set up: no network, no program, no
    /// balance.
    fn default() -> (r: ProjectState)
        ensures
            r@ == (ProjectStateView {
                network: Seq::empty(),
                deployed_programs: Seq::empty(),
                last_balance: 0,
            }),
    {
        let r = ProjectState {
            network: String::new(),
            deployed_programs: Vec::new(),
            last_balance: 0,
        };
        assert(program_views(r.deployed_programs@) =~= Seq::empty());
        r
    }
}

impl ProjectState {
    /// The state of a project that was just set up on `network`.
    pub fn new(network: String) -> (r: ProjectState)
        ensures
            r@ == (ProjectStateView {
                network: network@,
                deployed_programs: Seq::empty(),
                last_balance: 0,
            }),
    {
        let r = ProjectState { network, deployed_programs: Vec::new(), last_balance: 0 };
        assert(program_views(r.deployed_programs@) =~= Seq::empty());
        r
    }

    /// Records a first deployment that the ledger has confirmed.
    pub fn record_deployment(&mut self, program_id: String, deployed_at: i64, balance: u64)
        ensures
            final(self)@ == old(self)@.with_deployment(program_id@, deployed_at, balance),
            old(self)@.kept_by(final(self)@),
    {
        let record = DeployedProgram { program_id, deployed_at, last_upgraded: None };
        self.deployed_programs.push(record);
        self.last_balance = balance;
        assert(program_views(self.deployed_programs@) =~= program_views(
            old(self).deployed_programs@,
        ).push(record@));
    }

    /// Records an upgrade of the newest program that the ledger has confirmed. Fails,
    /// and changes nothing, where no program is on record.
    pub fn record_upgrade(&mut self, upgraded_at: i64, balance: u64) -> (r: Result<
        (),
        ProtocolError,
    >)
        ensures
            old(self)@.deployed_programs.len() == 0 ==> r == Err::<(), ProtocolError>(
                ProtocolError::NoDeployedProgram,
            ) && final(self)@ == old(self)@,
            old(self)@.deployed_programs.len() > 0 ==> r is Ok && final(self)@ == old(
                self,
            )@.with_upgrade(upgraded_at, balance),
            old(self)@.kept_by(final(self)@),
    {
        match self.deployed_programs.pop() {
            None => {
                assert(self.deployed_programs@ =~= old(self).deployed_programs@);
                Err(ProtocolError::NoDeployedProgram)
            },
            Some(newest) => {
                let stamped = DeployedProgram {
                    program_id: newest.program_id,
                    deployed_at: newest.deployed_at,
                    last_upgraded: Some(upgraded_at),
                };
                self.deployed_programs.push(stamped);
                self.last_balance = balance;
                assert(program_views(self.deployed_programs@) =~= program_views(
                    old(self).deployed_programs@,
                ).update(old(self).deployed_programs@.len() - 1, stamped@));
                Ok(())
            },
        }
    }

    /// The identifier of the newest program on record, which an upgrade replaces.
    pub fn latest_program_id(&self) -> (r: Option<String>)
        ensures
            self@.deployed_programs.len() == 0 ==> r is None,
            self@.deployed_programs.len() > 0 ==> r is Some && r.unwrap()@
                == self@.deployed_programs.last().program_id,
    {
        let count = self.deployed_programs.len();
        if count == 0 {
            None
        } else {
            Some(self.deployed_programs[count - 1].program_id.clone())
        }
    }

    /// Tells whether a program with this identifier is on record.
    pub fn tracks(&self, program_id: &str) -> (r: bool)
        ensures
            r == self@.tracks(program_id@),
    {
        let wanted = String::from_str(program_id);
        let mut i: usize = 0;
        while i < self.deployed_programs.len()
            invariant
                i <= self.deployed_programs@.len(),
                wanted@ == program_id@,
                forall|j: int| 0 <= j < i ==> self.deployed_programs@[j].program_id@ != wanted@,
            decreases self.deployed_programs@.len() - i,
        {
            if self.deployed_programs[i].program_id == wanted {
                assert(self@.deployed_programs[i as int].program_id == program_id@);
                return true;
            }
            i = i + 1;
        }
        false
    }

    /// The identifiers of all programs on record, oldest first.
    pub fn program_ids(&self) -> (r: Vec<String>)
        ensures
            text_views(r@) == program_id_views(self@.deployed_programs),
    {
        let mut ids: Vec<String> = Vec::new();
        let mut i: usize = 0;
        while i < self.deployed_programs.len()
            invariant
                i <= self.deployed_programs@.len(),
                ids@.len() == i,
                forall|j: int| 0 <= j < i ==> (#[trigger] ids@[j])@ == self.deployed_programs@[j].program_id@,
            decreases self.deployed_programs@.len() - i,
        {
            ids.push(self.deployed_programs[i].program_id.clone());
            i = i + 1;
        }
        assert(text_views(ids@) =~= program_id_views(self@.deployed_programs));
        ids
    }
}

/// Where the project's local files are kept.
#[derive(Clone, Debug, PartialEq, Eq)]
pub struct Config {
    shield_dir: String,
}

impl View for Config {
    type V = Seq<char>;

    closed spec fn view(&self) -> Seq<char> {
        self.shield_dir@
    }
}

impl Config {
    /// The configuration of a project whose files are kept in `.shield`, below the
    /// directory that the tool is run in. It never fails.
    pub fn new() -> (r: Result<Config, ProtocolError>)
        ensures
            r is Ok,
            r.unwrap()@ == ".shield"@,
    {
        Ok(Config { shield_dir: String::from_str(".shield") })
    }

    /// The directory that holds the project's files.
    pub fn shield_dir(&self) -> (r: String)
        ensures
            r@ == self@,
    {
        self.shield_dir.clone()
    }

    /// Path of the file that holds the controlling keypair: `deployer.json` in the
    /// project's directory, the two joined by `/`.
    pub fn deployer_path(&self) -> (r: String)
        ensures
            r@ == self@ + "/"@ + "deployer.json"@,
    {
        self.shield_dir.clone().concat("/").concat("deployer.json")
    }

    /// Path of the file that holds the project state: `state.json` in the project's
    /// directory, the two joined by `/`.
    pub fn state_path(&self) -> (r: String)
        ensures
            r@ == self@ + "/"@ + "state.json"@,
    {
        self.shield_dir.clone().concat("/").concat("state.json")
    }
}

} // verus!
