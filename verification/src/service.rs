//! The gateway registry: projects, accounts and custom domains.
//!
//! Models the store's three tables as collections with unique keys.  The
//! admin surface and the worker act through it; outside, each row's state
//! travels as its canonical encoding.  Uniqueness of the project name is
//! what makes two racing creates resolve to exactly one project: per-name
//! task serialisation orders the two inserts, and the second is refused.

use vstd::prelude::*;
use vstd::slice::*;

use crate::error::{Error, ErrorKind};
use crate::name::{str_eq, AccountName, ProjectName};
use crate::state::{apply_task, spec_apply_task, ProjectState, TaskPayload};

verus! {

/// Seconds before expiry at which the renewal sweep re-orders a
/// certificate (thirty days).
pub const RENEWAL_WINDOW_SECS: u64 = 2592000;

/// One project row: name, owner, lifecycle state.
pub struct ProjectEntry {
    pub name: ProjectName,
    pub owner: AccountName,
    pub state: ProjectState,
}

/// One account row.
pub struct AccountEntry {
    pub name: AccountName,
    /// Hash of the account's API key; the key itself is never stored.
    pub key_hash: Vec<u8>,
    pub is_super: bool,
}

/// One custom-domain row: a user-provided FQDN bound to one project,
/// with its certificate.
pub struct DomainEntry {
    pub fqdn: String,
    pub project: ProjectName,
    /// PEM certificate chain.
    pub cert_chain: Vec<u8>,
    /// PEM private key.
    pub cert_key: Vec<u8>,
    /// Expiry, in seconds since the epoch.
    pub not_after: u64,
}

/// Does the table hold a project of this name?
pub open spec fn has_project(entries: Seq<ProjectEntry>, n: Seq<char>) -> bool {
    exists|k: int| 0 <= k < entries.len() && (#[trigger] entries[k]).name@ == n
}

/// Does the table hold an account of this name?
pub open spec fn has_account(entries: Seq<AccountEntry>, n: Seq<char>) -> bool {
    exists|k: int| 0 <= k < entries.len() && (#[trigger] entries[k]).name@ == n
}

/// Does the table hold this FQDN?
pub open spec fn has_domain(entries: Seq<DomainEntry>, fqdn: Seq<char>) -> bool {
    exists|k: int| 0 <= k < entries.len() && (#[trigger] entries[k]).fqdn@ == fqdn
}

/// What creating a project does to its table: refused when the name is
/// taken, else exactly one row appended.
pub open spec fn spec_create_project(entries: Seq<ProjectEntry>, e: ProjectEntry) -> (
    Seq<ProjectEntry>,
    bool,
) {
    if has_project(entries, e.name@) {
        (entries, false)
    } else {
        (entries.push(e), true)
    }
}

/// Two creates for one name yield exactly one project: after a create
/// that succeeded, a second create of the same name is refused and
/// leaves the table unchanged.
pub proof fn lemma_create_project_exclusive(
    entries: Seq<ProjectEntry>,
    e1: ProjectEntry,
    e2: ProjectEntry,
)
    requires
        e1.name@ == e2.name@,
        spec_create_project(entries, e1).1,
    ensures
        !spec_create_project(spec_create_project(entries, e1).0, e2).1,
        spec_create_project(spec_create_project(entries, e1).0, e2).0 == spec_create_project(
            entries,
            e1,
        ).0,
{
    let after = spec_create_project(entries, e1).0;
    assert(after[entries.len() as int] == e1);
    assert(has_project(after, e2.name@));
}

/// A project's identity, as the admin surface reports it.
pub struct ProjectDetails {
    pub project_name: ProjectName,
    pub account_name: AccountName,
}

/// The registry.  Every project name, account name and FQDN keys at most
/// one row.
pub struct GatewayService {
    projects: Vec<ProjectEntry>,
    accounts: Vec<AccountEntry>,
    domains: Vec<DomainEntry>,
}

impl GatewayService {
    pub closed spec fn spec_projects(&self) -> Seq<ProjectEntry> {
        self.projects@
    }

    pub closed spec fn spec_accounts(&self) -> Seq<AccountEntry> {
        self.accounts@
    }

    pub closed spec fn spec_domains(&self) -> Seq<DomainEntry> {
        self.domains@
    }

    /// Keys are unique within each table.
    pub open spec fn wf(&self) -> bool {
        &&& (forall|k1: int, k2: int|
            0 <= k1 < k2 < self.spec_projects().len() ==> (#[trigger] self.spec_projects()[k1]).name@
                != (#[trigger] self.spec_projects()[k2]).name@)
        &&& (forall|k1: int, k2: int|
            0 <= k1 < k2 < self.spec_accounts().len() ==> (#[trigger] self.spec_accounts()[k1]).name@
                != (#[trigger] self.spec_accounts()[k2]).name@)
        &&& (forall|k1: int, k2: int|
            0 <= k1 < k2 < self.spec_domains().len() ==> (#[trigger] self.spec_domains()[k1]).fqdn@
                != (#[trigger] self.spec_domains()[k2]).fqdn@)
    }

    pub fn new() -> (s: GatewayService)
        ensures
            s.wf(),
            s.spec_projects() =~= Seq::<ProjectEntry>::empty(),
            s.spec_accounts() =~= Seq::<AccountEntry>::empty(),
            s.spec_domains() =~= Seq::<DomainEntry>::empty(),
    {
        GatewayService { projects: Vec::new(), accounts: Vec::new(), domains: Vec::new() }
    }

    /// The row index of this project name, if present.
    fn find_project_index(&self, name: &ProjectName) -> (r: Option<usize>)
        ensures
            match r {
                Some(k) => k < self.spec_projects().len() && self.spec_projects()[k as int].name@
                    == name@,
                None => !has_project(self.spec_projects(), name@),
            },
    {
        let n = self.projects.len();
        let mut i: usize = 0;
        while i < n
            invariant
                i <= n,
                n == self.spec_projects().len(),
                forall|j: int| 0 <= j < i ==> (#[trigger] self.spec_projects()[j]).name@ != name@,
            decreases n - i,
        {
            let e = slice_index_get(self.projects.as_slice(), i);
            if e.name.eq_name(name) {
                return Some(i);
            }
            i = i + 1;
        }
        None
    }

    /// Registers a project in state `Creating`.  Refused with
    /// `ProjectAlreadyExists` when the name is taken.
    pub fn create_project(&mut self, name: ProjectName, owner: AccountName) -> (r: Result<
        (),
        Error,
    >)
        requires
            old(self).wf(),
        ensures
            final(self).wf(),
            final(self).spec_accounts() == old(self).spec_accounts(),
            final(self).spec_domains() == old(self).spec_domains(),
            ({
                let entry = ProjectEntry {
                    name,
                    owner,
                    state: ProjectState::Creating { recreate_count: 0 },
                };
                &&& final(self).spec_projects() == spec_create_project(
                    old(self).spec_projects(),
                    entry,
                ).0
                &&& (r is Ok <==> spec_create_project(old(self).spec_projects(), entry).1)
                &&& (r matches Err(e) ==> e.spec_kind() == ErrorKind::ProjectAlreadyExists)
            }),
    {
        match self.find_project_index(&name) {
            Some(_) => Err(Error::from_kind(ErrorKind::ProjectAlreadyExists)),
            None => {
                let entry = ProjectEntry {
                    name,
                    owner,
                    state: ProjectState::Creating { recreate_count: 0 },
                };
                self.projects.push(entry);
                proof {
                    let newt = self.projects@;
                    let oldt = old(self).projects@;
                    assert forall|k1: int, k2: int|
                        0 <= k1 < k2 < newt.len() implies (#[trigger] newt[k1]).name@
                        != (#[trigger] newt[k2]).name@ by {
                        if k2 < oldt.len() {
                            assert(oldt[k1].name@ != oldt[k2].name@);
                        } else {
                            assert(!(oldt[k1].name@ == name@));
                        }
                    }
                    assert(self.spec_accounts() == old(self).spec_accounts());
                    assert(self.spec_domains() == old(self).spec_domains());
                }
                Ok(())
            },
        }
    }

    /// The persisted state of this project, if it exists.
    pub fn find_project(&self, name: &ProjectName) -> (r: Option<&ProjectState>)
        ensures
            match r {
                Some(st) => exists|k: int|
                    0 <= k < self.spec_projects().len() && (#[trigger] self.spec_projects()[k]).name@
                        == name@ && self.spec_projects()[k].state == *st,
                None => !has_project(self.spec_projects(), name@),
            },
    {
        match self.find_project_index(name) {
            Some(k) => {
                let e = slice_index_get(self.projects.as_slice(), k);
                Some(&e.state)
            },
            None => None,
        }
    }

    /// The identity of this project, if it exists: its name and owner.
    pub fn project_details(&self, name: &ProjectName) -> (r: Option<ProjectDetails>)
        ensures
            match r {
                Some(d) => exists|k: int|
                    0 <= k < self.spec_projects().len() && (#[trigger] self.spec_projects()[k]).name@
                        == name@ && d.project_name@ == name@ && d.account_name@
                        == self.spec_projects()[k].owner@,
                None => !has_project(self.spec_projects(), name@),
            },
    {
        match self.find_project_index(name) {
            Some(k) => {
                let e = slice_index_get(self.projects.as_slice(), k);
                Some(
                    ProjectDetails {
                        project_name: e.name.duplicate(),
                        account_name: e.owner.duplicate(),
                    },
                )
            },
            None => None,
        }
    }

    /// Commits a new state for this project; `ProjectNotFound` when no
    /// such row exists.  Name and owner are untouched.
    pub fn update_project(&mut self, name: &ProjectName, state: ProjectState) -> (r: Result<
        (),
        Error,
    >)
        requires
            old(self).wf(),
        ensures
            final(self).wf(),
            final(self).spec_accounts() == old(self).spec_accounts(),
            final(self).spec_domains() == old(self).spec_domains(),
            match r {
                Ok(u) => exists|k: int|
                    0 <= k < old(self).spec_projects().len() && (#[trigger] old(
                        self,
                    ).spec_projects()[k]).name@ == name@ && final(self).spec_projects() == old(
                        self,
                    ).spec_projects().update(
                        k,
                        ProjectEntry {
                            name: old(self).spec_projects()[k].name,
                            owner: old(self).spec_projects()[k].owner,
                            state,
                        },
                    ),
                Err(e) => {
                    &&& !has_project(old(self).spec_projects(), name@)
                    &&& e.spec_kind() == ErrorKind::ProjectNotFound
                    &&& final(self).spec_projects() == old(self).spec_projects()
                },
            },
    {
        match self.find_project_index(name) {
            None => Err(Error::from_kind(ErrorKind::ProjectNotFound)),
            Some(k) => {
                let entry = self.projects.remove(k);
                let new_entry = ProjectEntry { name: entry.name, owner: entry.owner, state };
                self.projects.insert(k, new_entry);
                proof {
                    assert(self.projects@ =~= old(self).projects@.update(
                        k as int,
                        self.projects@[k as int],
                    ));
                    let newt = self.projects@;
                    let oldt = old(self).projects@;
                    assert forall|k1: int, k2: int|
                        0 <= k1 < k2 < newt.len() implies (#[trigger] newt[k1]).name@
                        != (#[trigger] newt[k2]).name@ by {
                        assert(newt[k1].name@ == oldt[k1].name@);
                        assert(newt[k2].name@ == oldt[k2].name@);
                        assert(oldt[k1].name@ != oldt[k2].name@);
                    }
                    assert(self.spec_accounts() == old(self).spec_accounts());
                    assert(self.spec_domains() == old(self).spec_domains());
                }
                Ok(())
            },
        }
    }

    /// Folds a destroy intent into the project's persisted state and
    /// answers with the state after it — `Destroyed` again for a project
    /// already destroyed, which is the idempotence a repeated delete
    /// relies on.  `ProjectNotFound` when no such row exists.
    pub fn request_destroy(&mut self, name: &ProjectName) -> (r: Result<ProjectState, Error>)
        requires
            old(self).wf(),
        ensures
            final(self).wf(),
            final(self).spec_accounts() == old(self).spec_accounts(),
            final(self).spec_domains() == old(self).spec_domains(),
            match r {
                Ok(st) => exists|k: int|
                    0 <= k < old(self).spec_projects().len() && (#[trigger] old(
                        self,
                    ).spec_projects()[k]).name@ == name@ && st == spec_apply_task(
                        old(self).spec_projects()[k].state,
                        TaskPayload::Destroy,
                    ) && final(self).spec_projects() == old(self).spec_projects().update(
                        k,
                        ProjectEntry {
                            name: old(self).spec_projects()[k].name,
                            owner: old(self).spec_projects()[k].owner,
                            state: st,
                        },
                    ),
                Err(e) => {
                    &&& !has_project(old(self).spec_projects(), name@)
                    &&& e.spec_kind() == ErrorKind::ProjectNotFound
                    &&& final(self).spec_projects() == old(self).spec_projects()
                },
            },
    {
        match self.find_project_index(name) {
            None => Err(Error::from_kind(ErrorKind::ProjectNotFound)),
            Some(k) => {
                let entry = self.projects.remove(k);
                let new_state = apply_task(entry.state, TaskPayload::Destroy);
                let snapshot = new_state.duplicate();
                let new_entry = ProjectEntry {
                    name: entry.name,
                    owner: entry.owner,
                    state: new_state,
                };
                self.projects.insert(k, new_entry);
                proof {
                    assert(self.projects@ =~= old(self).projects@.update(
                        k as int,
                        self.projects@[k as int],
                    ));
                    let newt = self.projects@;
                    let oldt = old(self).projects@;
                    assert forall|k1: int, k2: int|
                        0 <= k1 < k2 < newt.len() implies (#[trigger] newt[k1]).name@
                        != (#[trigger] newt[k2]).name@ by {
                        assert(newt[k1].name@ == oldt[k1].name@);
                        assert(newt[k2].name@ == oldt[k2].name@);
                        assert(oldt[k1].name@ != oldt[k2].name@);
                    }
                    assert(self.spec_accounts() == old(self).spec_accounts());
                    assert(self.spec_domains() == old(self).spec_domains());
                }
                Ok(snapshot)
            },
        }
    }

    /// The row index of this account name, if present.
    fn find_account_index(&self, name: &AccountName) -> (r: Option<usize>)
        ensures
            match r {
                Some(k) => k < self.spec_accounts().len() && self.spec_accounts()[k as int].name@
                    == name@,
                None => !has_account(self.spec_accounts(), name@),
            },
    {
        let n = self.accounts.len();
        let mut i: usize = 0;
        while i < n
            invariant
                i <= n,
                n == self.spec_accounts().len(),
                forall|j: int| 0 <= j < i ==> (#[trigger] self.spec_accounts()[j]).name@ != name@,
            decreases n - i,
        {
            let e = slice_index_get(self.accounts.as_slice(), i);
            if e.name.eq_name(name) {
                return Some(i);
            }
            i = i + 1;
        }
        None
    }

    /// Provisions an account (not a super-user).  Refused with
    /// `AccountAlreadyExists` when the name is taken.
    pub fn create_user(&mut self, name: AccountName, key_hash: Vec<u8>) -> (r: Result<(), Error>)
        requires
            old(self).wf(),
        ensures
            final(self).wf(),
            final(self).spec_projects() == old(self).spec_projects(),
            final(self).spec_domains() == old(self).spec_domains(),
            match r {
                Ok(u) => {
                    &&& !has_account(old(self).spec_accounts(), name@)
                    &&& final(self).spec_accounts() == old(self).spec_accounts().push(
                        AccountEntry { name, key_hash, is_super: false },
                    )
                },
                Err(e) => {
                    &&& has_account(old(self).spec_accounts(), name@)
                    &&& e.spec_kind() == ErrorKind::AccountAlreadyExists
                    &&& final(self).spec_accounts() == old(self).spec_accounts()
                },
            },
    {
        match self.find_account_index(&name) {
            Some(_) => Err(Error::from_kind(ErrorKind::AccountAlreadyExists)),
            None => {
                self.accounts.push(AccountEntry { name, key_hash, is_super: false });
                proof {
                    let newt = self.accounts@;
                    let oldt = old(self).accounts@;
                    assert forall|k1: int, k2: int|
                        0 <= k1 < k2 < newt.len() implies (#[trigger] newt[k1]).name@
                        != (#[trigger] newt[k2]).name@ by {
                        if k2 < oldt.len() {
                            assert(oldt[k1].name@ != oldt[k2].name@);
                        } else {
                            assert(!(oldt[k1].name@ == name@));
                        }
                    }
                    assert(self.spec_projects() == old(self).spec_projects());
                    assert(self.spec_domains() == old(self).spec_domains());
                }
                Ok(())
            },
        }
    }

    /// Grants or revokes the super-user flag; `AccountNotFound` when no
    /// such account exists.
    pub fn set_super_user(&mut self, name: &AccountName, is_super: bool) -> (r: Result<(), Error>)
        requires
            old(self).wf(),
        ensures
            final(self).wf(),
            final(self).spec_projects() == old(self).spec_projects(),
            final(self).spec_domains() == old(self).spec_domains(),
            match r {
                Ok(u) => exists|k: int|
                    0 <= k < old(self).spec_accounts().len() && (#[trigger] old(
                        self,
                    ).spec_accounts()[k]).name@ == name@ && final(self).spec_accounts() == old(
                        self,
                    ).spec_accounts().update(
                        k,
                        AccountEntry {
                            name: old(self).spec_accounts()[k].name,
                            key_hash: old(self).spec_accounts()[k].key_hash,
                            is_super,
                        },
                    ),
                Err(e) => {
                    &&& !has_account(old(self).spec_accounts(), name@)
                    &&& e.spec_kind() == ErrorKind::AccountNotFound
                    &&& final(self).spec_accounts() == old(self).spec_accounts()
                },
            },
    {
        match self.find_account_index(name) {
            None => Err(Error::from_kind(ErrorKind::AccountNotFound)),
            Some(k) => {
                let entry = self.accounts.remove(k);
                let new_entry = AccountEntry {
                    name: entry.name,
                    key_hash: entry.key_hash,
                    is_super,
                };
                self.accounts.insert(k, new_entry);
                proof {
                    assert(self.accounts@ =~= old(self).accounts@.update(
                        k as int,
                        self.accounts@[k as int],
                    ));
                    let newt = self.accounts@;
                    let oldt = old(self).accounts@;
                    assert forall|k1: int, k2: int|
                        0 <= k1 < k2 < newt.len() implies (#[trigger] newt[k1]).name@
                        != (#[trigger] newt[k2]).name@ by {
                        assert(newt[k1].name@ == oldt[k1].name@);
                        assert(newt[k2].name@ == oldt[k2].name@);
                        assert(oldt[k1].name@ != oldt[k2].name@);
                    }
                    assert(self.spec_projects() == old(self).spec_projects());
                    assert(self.spec_domains() == old(self).spec_domains());
                }
                Ok(())
            },
        }
    }

    /// The account row of this name, if present.
    pub fn find_account(&self, name: &AccountName) -> (r: Option<&AccountEntry>)
        ensures
            match r {
                Some(a) => exists|k: int|
                    0 <= k < self.spec_accounts().len() && (#[trigger] self.spec_accounts()[k]).name@
                        == name@ && self.spec_accounts()[k] == *a,
                None => !has_account(self.spec_accounts(), name@),
            },
    {
        match self.find_account_index(name) {
            Some(k) => Some(slice_index_get(self.accounts.as_slice(), k)),
            None => None,
        }
    }

    /// The row index of this FQDN, if present.
    fn find_domain_index(&self, fqdn: &str) -> (r: Option<usize>)
        ensures
            match r {
                Some(k) => k < self.spec_domains().len() && self.spec_domains()[k as int].fqdn@
                    == fqdn@,
                None => !has_domain(self.spec_domains(), fqdn@),
            },
    {
        let n = self.domains.len();
        let mut i: usize = 0;
        while i < n
            invariant
                i <= n,
                n == self.spec_domains().len(),
                forall|j: int| 0 <= j < i ==> (#[trigger] self.spec_domains()[j]).fqdn@ != fqdn@,
            decreases n - i,
        {
            let e = slice_index_get(self.domains.as_slice(), i);
            if str_eq(e.fqdn.as_str(), fqdn) {
                return Some(i);
            }
            i = i + 1;
        }
        None
    }

    /// Binds a FQDN to a project, with its certificate.  At most one row
    /// per FQDN: binding an existing FQDN replaces its row (a re-issued
    /// certificate, or a re-targeted domain).
    pub fn add_custom_domain(&mut self, entry: DomainEntry) -> (r: bool)
        requires
            old(self).wf(),
        ensures
            final(self).wf(),
            final(self).spec_projects() == old(self).spec_projects(),
            final(self).spec_accounts() == old(self).spec_accounts(),
            if r {
                !has_domain(old(self).spec_domains(), entry.fqdn@) && final(self).spec_domains()
                    == old(self).spec_domains().push(entry)
            } else {
                exists|k: int|
                    0 <= k < old(self).spec_domains().len() && (#[trigger] old(
                        self,
                    ).spec_domains()[k]).fqdn@ == entry.fqdn@ && final(self).spec_domains() == old(
                        self,
                    ).spec_domains().update(k, entry)
            },
    {
        match self.find_domain_index(entry.fqdn.as_str()) {
            None => {
                let ghost fq = entry.fqdn@;
                self.domains.push(entry);
                proof {
                    let newt = self.domains@;
                    let oldt = old(self).domains@;
                    assert forall|k1: int, k2: int|
                        0 <= k1 < k2 < newt.len() implies (#[trigger] newt[k1]).fqdn@
                        != (#[trigger] newt[k2]).fqdn@ by {
                        if k2 < oldt.len() {
                            assert(oldt[k1].fqdn@ != oldt[k2].fqdn@);
                        } else {
                            assert(!(oldt[k1].fqdn@ == fq));
                        }
                    }
                    assert(self.spec_projects() == old(self).spec_projects());
                    assert(self.spec_accounts() == old(self).spec_accounts());
                }
                true
            },
            Some(k) => {
                let _old_entry = self.domains.remove(k);
                self.domains.insert(k, entry);
                proof {
                    assert(self.domains@ =~= old(self).domains@.update(
                        k as int,
                        self.domains@[k as int],
                    ));
                    let newt = self.domains@;
                    let oldt = old(self).domains@;
                    assert forall|k1: int, k2: int|
                        0 <= k1 < k2 < newt.len() implies (#[trigger] newt[k1]).fqdn@
                        != (#[trigger] newt[k2]).fqdn@ by {
                        assert(newt[k1].fqdn@ == oldt[k1].fqdn@);
                        assert(newt[k2].fqdn@ == oldt[k2].fqdn@);
                        assert(oldt[k1].fqdn@ != oldt[k2].fqdn@);
                    }
                    assert(self.spec_projects() == old(self).spec_projects());
                    assert(self.spec_accounts() == old(self).spec_accounts());
                }
                false
            },
        }
    }

    /// The custom-domain row serving this host, if any: the exact-match
    /// certificate for the TLS front-end, and the project the router
    /// targets.  `None` falls back to apex resolution and the wildcard
    /// certificate.
    pub fn find_custom_domain(&self, fqdn: &str) -> (r: Option<&DomainEntry>)
        ensures
            match r {
                Some(d) => exists|k: int|
                    0 <= k < self.spec_domains().len() && (#[trigger] self.spec_domains()[k]).fqdn@
                        == fqdn@ && self.spec_domains()[k] == *d,
                None => !has_domain(self.spec_domains(), fqdn@),
            },
    {
        match self.find_domain_index(fqdn) {
            Some(k) => Some(slice_index_get(self.domains.as_slice(), k)),
            None => None,
        }
    }
}

/// Does the daily renewal sweep re-order a certificate that expires at
/// `not_after`, seen at time `now`?  Yes once less than the renewal
/// window remains.
pub open spec fn spec_needs_renewal(not_after: u64, now: u64) -> bool {
    (not_after as int) < now as int + RENEWAL_WINDOW_SECS as int
}

/// Decides certificate renewal (times in seconds since the epoch).
pub fn needs_renewal(not_after: u64, now: u64) -> (r: bool)
    ensures
        r == spec_needs_renewal(not_after, now),
{
    if now > u64::MAX - RENEWAL_WINDOW_SECS {
        true
    } else {
        not_after < now + RENEWAL_WINDOW_SECS
    }
}

} // verus!
