//! From an accepted login to a shell under the mapped account: the decisions
//! of the authenticating side, and the ordered steps of the privileged helper
//! that redeems the token.

use vstd::prelude::*;
use crate::bytes::texts_equal;
use crate::config::{mapping_views, resolution, Config, MappingView, UserMapping};
use crate::remote;
use crate::store::{is_token, session_blob, table_upsert, Db, StoreError};

verus! {

/// The environment variable that carries the user name to the helper.
pub const USER_VAR: &'static str = "RADIUS_USER";

/// The environment variable that carries the token to the helper.
pub const TOKEN_VAR: &'static str = "RADIUS_USER_COOKIE";

/// The account that is never mapped.
pub open spec fn is_reserved_name(name: Seq<char>) -> bool {
    name == "root"@
}

/// Whether `name` is the account that this module leaves to the system.
pub fn is_reserved(name: &str) -> (r: bool)
    ensures
        r == is_reserved_name(name@),
{
    texts_equal(name, "root")
}

/// How the RADIUS exchange failed, as the client reports it.
#[derive(Debug, PartialEq, Eq, Structural)]
pub enum AuthFailure {
    /// The server refused the credentials.
    Reject,
    /// The client library failed.
    ClientFailure,
    /// No server could be reached.
    NoServer,
    /// Every server timed out.
    ServerTimeout,
}

/// Why a login did not produce a stored session.
#[derive(Debug)]
pub enum LoginError {
    /// The RADIUS server refused the credentials.
    RemoteAuthRejected,
    /// The RADIUS exchange itself failed.
    RemoteServiceFailure,
    /// The identity was accepted but no rule maps it.
    NoMatchingIdentity,
    /// The session could not be stored.
    Store(StoreError),
}

/// What the authentication hook answers.
#[derive(Debug, PartialEq, Eq, Structural)]
pub enum LoginVerdict {
    /// The login succeeded and the handoff is prepared.
    Success,
    /// The credentials are refused; the caller shows a uniform rejection.
    Denied,
    /// The service could not decide.
    ServiceError,
}

/// The verdict for a failed login: a refusal by the server and a missing
/// mapping both read as a refusal, so the caller cannot tell them apart;
/// everything else is a service error.
pub fn verdict_of(e: &LoginError) -> (r: LoginVerdict)
    ensures
        r == (match e {
            LoginError::RemoteAuthRejected => LoginVerdict::Denied,
            LoginError::NoMatchingIdentity => LoginVerdict::Denied,
            _ => LoginVerdict::ServiceError,
        }),
{
    match e {
        LoginError::RemoteAuthRejected => LoginVerdict::Denied,
        LoginError::NoMatchingIdentity => LoginVerdict::Denied,
        _ => LoginVerdict::ServiceError,
    }
}

/// Maps an accepted identity onto its local account and stores the session.
/// Returns the local user name and the token that redeems the session; on
/// every other outcome the store is left as it was.
pub fn resolve_and_store(
    db: &mut Db,
    config: &Config,
    auth: Result<remote::User, AuthFailure>,
) -> (r: Result<(String, String), LoginError>)
    requires
        old(db).ready(),
    ensures
        auth matches Err(f) ==> (if f == AuthFailure::Reject {
            r matches Err(LoginError::RemoteAuthRejected)
        } else {
            r matches Err(LoginError::RemoteServiceFailure)
        }),
        auth matches Ok(u) ==> match resolution(u@, mapping_views(config.users@)) {
            None => r matches Err(LoginError::NoMatchingIdentity),
            Some(s) => match r {
                Ok((name, token)) => name@ == s.mapping.username && is_token(token@) && final(db)@
                    == table_upsert(
                    old(db)@,
                    s.mapping.username,
                    session_blob(s),
                    token@,
                    final(db)@[s.mapping.username].last_login,
                ),
                Err(e) => e is Store,
            },
        },
        r is Err ==> final(db)@ == old(db)@,
        final(db).version_row() == old(db).version_row(),
        final(db).executed() == old(db).executed(),
{
    let radius_user = match auth {
        Ok(u) => u,
        Err(AuthFailure::Reject) => {
            return Err(LoginError::RemoteAuthRejected);
        },
        Err(_) => {
            return Err(LoginError::RemoteServiceFailure);
        },
    };
    let session = match config.map_user(&radius_user) {
        Some(s) => s,
        None => {
            return Err(LoginError::NoMatchingIdentity);
        },
    };
    match db.store_user(&session) {
        Ok(token) => Ok((session.mapping.username, token)),
        Err(e) => Err(LoginError::Store(e)),
    }
}

// ---------------------------------------------------------------------------
// The privileged helper
// ---------------------------------------------------------------------------

/// One step of taking on the mapped account.
#[derive(Debug)]
pub enum DropStep {
    /// Remove the token variable from the environment.
    EraseToken,
    /// Set the group ID.
    SetGroup(u32),
    /// Set the user ID.
    SetUser(u32),
    /// Change the working directory.
    ChangeDir(String),
    /// Set an environment variable.
    SetEnv(String, String),
    /// Point a mail spool variable, if set, at the account's spool in the
    /// same directory.
    RetargetMail(String),
    /// Run the shell as the account and wait for it.
    RunShell(String),
}

pub enum StepView {
    EraseToken,
    SetGroup(u32),
    SetUser(u32),
    ChangeDir(Seq<char>),
    SetEnv(Seq<char>, Seq<char>),
    RetargetMail(Seq<char>),
    RunShell(Seq<char>),
}

impl View for DropStep {
    type V = StepView;

    open spec fn view(&self) -> StepView {
        match self {
            DropStep::EraseToken => StepView::EraseToken,
            DropStep::SetGroup(g) => StepView::SetGroup(*g),
            DropStep::SetUser(u) => StepView::SetUser(*u),
            DropStep::ChangeDir(d) => StepView::ChangeDir(d@),
            DropStep::SetEnv(n, v) => StepView::SetEnv(n@, v@),
            DropStep::RetargetMail(u) => StepView::RetargetMail(u@),
            DropStep::RunShell(s) => StepView::RunShell(s@),
        }
    }
}

impl DropStep {
    /// A copy with the same contents.
    pub fn duplicate(&self) -> (r: DropStep)
        ensures
            r@ == self@,
    {
        match self {
            DropStep::EraseToken => DropStep::EraseToken,
            DropStep::SetGroup(g) => DropStep::SetGroup(*g),
            DropStep::SetUser(u) => DropStep::SetUser(*u),
            DropStep::ChangeDir(d) => DropStep::ChangeDir(d.clone()),
            DropStep::SetEnv(n, v) => DropStep::SetEnv(n.clone(), v.clone()),
            DropStep::RetargetMail(u) => DropStep::RetargetMail(u.clone()),
            DropStep::RunShell(s) => DropStep::RunShell(s.clone()),
        }
    }
}

/// The steps that follow a successful redemption, in the order they must
/// run: the token goes first, the group is set before the user (which gives
/// up the right to change it), the directory is changed before the
/// environment is rebuilt, and the shell comes last.
pub open spec fn drop_plan(m: MappingView) -> Seq<StepView> {
    seq![
        StepView::EraseToken,
        StepView::SetGroup(m.gid),
        StepView::SetUser(m.uid),
        StepView::ChangeDir(m.home),
        StepView::SetEnv("HOME"@, m.home),
        StepView::SetEnv("USER"@, m.username),
        StepView::SetEnv("LOGNAME"@, m.username),
        StepView::RetargetMail(m.username),
        StepView::RunShell(m.shell),
    ]
}

/// The shell is the last step of the plan and no other step runs one.
pub proof fn lemma_shell_runs_last(m: MappingView)
    ensures
        drop_plan(m).last() is RunShell,
        forall|i: int| 0 <= i < drop_plan(m).len() - 1 ==> !(#[trigger] drop_plan(m)[i] is RunShell),
{
}

/// The helper's progress through the plan. A failed step ends it: no later
/// step, and so never the shell, is handed out after a failure.
pub struct Handoff {
    steps: Vec<DropStep>,
    next: usize,
    aborted: bool,
}

impl Handoff {
    pub closed spec fn plan(&self) -> Seq<StepView> {
        self.steps@.map_values(|s: DropStep| s@)
    }

    /// How many steps have succeeded.
    pub closed spec fn position(&self) -> nat {
        self.next as nat
    }

    pub closed spec fn is_aborted(&self) -> bool {
        self.aborted
    }

    pub closed spec fn wf(&self) -> bool {
        self.next <= self.steps@.len()
    }

    /// Starts the plan for the account that the redeemed session maps to.
    pub fn new(mapping: &UserMapping) -> (r: Handoff)
        ensures
            r.wf(),
            r.plan() == drop_plan(mapping@),
            r.position() == 0,
            !r.is_aborted(),
    {
        let steps = vec![
            DropStep::EraseToken,
            DropStep::SetGroup(mapping.gid),
            DropStep::SetUser(mapping.uid),
            DropStep::ChangeDir(mapping.home.clone()),
            DropStep::SetEnv("HOME".to_owned(), mapping.home.clone()),
            DropStep::SetEnv("USER".to_owned(), mapping.username.clone()),
            DropStep::SetEnv("LOGNAME".to_owned(), mapping.username.clone()),
            DropStep::RetargetMail(mapping.username.clone()),
            DropStep::RunShell(mapping.shell.clone()),
        ];
        let r = Handoff { steps, next: 0, aborted: false };
        assert(r.plan() =~= drop_plan(mapping@));
        r
    }

    /// The step to carry out now; `None` once the plan is done or has failed.
    pub fn next_step(&self) -> (r: Option<DropStep>)
        requires
            self.wf(),
        ensures
            (self.is_aborted() || self.position() >= self.plan().len()) ==> r is None,
            !self.is_aborted() && self.position() < self.plan().len() ==> (r matches Some(s) && s@
                == self.plan()[self.position() as int]),
    {
        if self.aborted || self.next >= self.steps.len() {
            None
        } else {
            let s = self.steps[self.next].duplicate();
            Some(s)
        }
    }

    /// Records how the step just handed out went.
    pub fn record(&mut self, succeeded: bool)
        requires
            old(self).wf(),
            !old(self).is_aborted(),
            old(self).position() < old(self).plan().len(),
        ensures
            final(self).wf(),
            final(self).plan() == old(self).plan(),
            succeeded ==> final(self).position() == old(self).position() + 1 && !final(self).is_aborted(),
            !succeeded ==> final(self).position() == old(self).position() && final(self).is_aborted(),
    {
        assert(self.plan().len() == self.steps@.len());
        let n = self.steps.len();
        assert(self.next < n);
        if succeeded {
            self.next = self.next + 1;
        } else {
            self.aborted = true;
        }
    }

    /// Whether every step, the shell included, has succeeded.
    pub fn is_complete(&self) -> (r: bool)
        requires
            self.wf(),
        ensures
            r == (!self.is_aborted() && self.position() == self.plan().len()),
    {
        !self.aborted && self.next == self.steps.len()
    }

    /// Whether a step failed.
    pub fn has_failed(&self) -> (r: bool)
        ensures
            r == self.is_aborted(),
    {
        self.aborted
    }
}

} // verus!
