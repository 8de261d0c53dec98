//! Repositories, and how one of them is brought up to date.
//!
//! A repository is mirrored in a directory named after it. Where that
//! directory exists the mirror is updated in place; where it does not, the
//! repository is copied afresh. The choice is made here; the command that
//! is chosen is run by the caller, who hands back what came of it.

use vstd::prelude::*;
use vstd::string::*;

verus! {

/// A remote repository and the directory that mirrors it.
#[derive(Debug, Clone, PartialEq, Eq)]
pub struct Repository {
    name: String,
    owner_name: String,
}

/// What a [`Repository`] is in contracts: the name of its directory, and
/// the name, with its owner in front, by which the remote is addressed.
pub struct RepositoryView {
    pub name: Seq<char>,
    pub owner_name: Seq<char>,
}

impl View for Repository {
    type V = RepositoryView;

    closed spec fn view(&self) -> RepositoryView {
        RepositoryView { name: self.name@, owner_name: self.owner_name@ }
    }
}

/// How a repository is brought up to date.
#[derive(Debug, Clone, PartialEq, Eq)]
pub enum SyncPlan {
    /// Copy the remote `owner_name` afresh, into a new directory `name`.
    Clone { name: String, owner_name: String },
    /// Update the directory `name` in place.
    Pull { name: String },
}

/// What a [`SyncPlan`] is in contracts.
pub enum SyncPlanView {
    Clone { name: Seq<char>, owner_name: Seq<char> },
    Pull { name: Seq<char> },
}

impl View for SyncPlan {
    type V = SyncPlanView;

    open spec fn view(&self) -> SyncPlanView {
        match self {
            SyncPlan::Clone { name, owner_name } => SyncPlanView::Clone {
                name: name@,
                owner_name: owner_name@,
            },
            SyncPlan::Pull { name } => SyncPlanView::Pull { name: name@ },
        }
    }
}

/// A command to run: the program, its arguments, and the directory to run
/// it in, where that is not the current one.
#[derive(Debug, Clone, PartialEq, Eq)]
pub struct Invocation {
    pub program: String,
    pub args: Vec<String>,
    pub current_dir: Option<String>,
}

/// What an [`Invocation`] is in contracts.
pub struct InvocationView {
    pub program: Seq<char>,
    pub args: Seq<Seq<char>>,
    pub current_dir: Option<Seq<char>>,
}

impl View for Invocation {
    type V = InvocationView;

    open spec fn view(&self) -> InvocationView {
        InvocationView {
            program: self.program@,
            args: self.args.deep_view(),
            current_dir: match self.current_dir {
                Some(dir) => Some(dir@),
                None => None,
            },
        }
    }
}

/// What a command left behind when it ended: its exit code, if it ended by
/// itself, and what it wrote.
#[derive(Debug, Clone, PartialEq, Eq)]
pub struct ProcessOutput {
    pub status: Option<i32>,
    pub stdout: Vec<u8>,
    pub stderr: Vec<u8>,
}

/// What a [`ProcessOutput`] is in contracts.
pub struct ProcessOutputView {
    pub status: Option<i32>,
    pub stdout: Seq<u8>,
    pub stderr: Seq<u8>,
}

impl View for ProcessOutput {
    type V = ProcessOutputView;

    open spec fn view(&self) -> ProcessOutputView {
        ProcessOutputView { status: self.status, stdout: self.stdout@, stderr: self.stderr@ }
    }
}

/// Why a repository could not be brought up to date: its name, and what
/// the system said when the command could not be run.
#[derive(Debug, Clone, PartialEq, Eq)]
pub enum Error {
    /// The fresh copy failed.
    Clone(String, String),
    /// The update in place failed.
    Pull(String, String),
}

/// What an [`Error`] is in contracts.
pub enum ErrorView {
    Clone(Seq<char>, Seq<char>),
    Pull(Seq<char>, Seq<char>),
}

impl ErrorView {
    /// The line that tells of this failure.
    pub open spec fn message(self) -> Seq<char> {
        match self {
            ErrorView::Clone(name, cause) => "Error cloning repository "@ + name + ": "@ + cause,
            ErrorView::Pull(name, cause) => "Error pulling repository "@ + name + ": "@ + cause,
        }
    }

    /// The repository that the failure is about.
    pub open spec fn name(self) -> Seq<char> {
        match self {
            ErrorView::Clone(name, _) => name,
            ErrorView::Pull(name, _) => name,
        }
    }
}

impl View for Error {
    type V = ErrorView;

    open spec fn view(&self) -> ErrorView {
        match self {
            Error::Clone(name, cause) => ErrorView::Clone(name@, cause@),
            Error::Pull(name, cause) => ErrorView::Pull(name@, cause@),
        }
    }
}

impl Error {
    /// The line that tells of this failure: which of the two operations
    /// failed, on which repository, and why.
    pub fn message(&self) -> (line: String)
        ensures
            line@ == self@.message(),
    {
        match self {
            Error::Clone(name, cause) => {
                let mut line = "Error cloning repository ".to_owned();
                line.append(name.as_str());
                line.append(": ");
                line.append(cause.as_str());
                line
            },
            Error::Pull(name, cause) => {
                let mut line = "Error pulling repository ".to_owned();
                line.append(name.as_str());
                line.append(": ");
                line.append(cause.as_str());
                line
            },
        }
    }
}

/// What came of one synchronization.
pub type SyncOutcome = Result<ProcessOutput, Error>;

/// What a [`SyncOutcome`] is in contracts.
pub type OutcomeView = Result<ProcessOutputView, ErrorView>;

/// The view of an outcome.
pub open spec fn outcome_view(outcome: SyncOutcome) -> OutcomeView {
    match outcome {
        Ok(output) => Ok(output@),
        Err(error) => Err(error@),
    }
}

impl RepositoryView {
    /// The plan for this repository: an update in place where its directory
    /// exists, a fresh copy where it does not.
    pub open spec fn plan(self, dir_exists: bool) -> SyncPlanView {
        if dir_exists {
            SyncPlanView::Pull { name: self.name }
        } else {
            SyncPlanView::Clone { name: self.name, owner_name: self.owner_name }
        }
    }
}

impl SyncPlanView {
    /// The command of this plan: `git pull` inside the directory, or
    /// `gh repo clone` with the remote's name.
    pub open spec fn invocation(self) -> InvocationView {
        match self {
            SyncPlanView::Clone { owner_name, .. } => InvocationView {
                program: "gh"@,
                args: seq!["repo"@, "clone"@, owner_name],
                current_dir: None,
            },
            SyncPlanView::Pull { name } => InvocationView {
                program: "git"@,
                args: seq!["pull"@],
                current_dir: Some(name),
            },
        }
    }

    /// The failure of this plan with the given cause.
    pub open spec fn failure(self, cause: Seq<char>) -> ErrorView {
        match self {
            SyncPlanView::Clone { name, .. } => ErrorView::Clone(name, cause),
            SyncPlanView::Pull { name } => ErrorView::Pull(name, cause),
        }
    }

    /// The outcome of this plan, given what came of running its command.
    pub open spec fn conclude(self, ran: Result<ProcessOutputView, Seq<char>>) -> OutcomeView {
        match ran {
            Ok(output) => Ok(output),
            Err(cause) => Err(self.failure(cause)),
        }
    }
}

impl Repository {
    /// A repository by the name of its directory and the name, with its
    /// owner in front, of the remote.
    pub fn new(name: String, owner_name: String) -> (repository: Repository)
        ensures
            repository@ == (RepositoryView { name: name@, owner_name: owner_name@ }),
    {
        Repository { name, owner_name }
    }

    /// The name of the local directory.
    pub fn dir_name(&self) -> (name: &str)
        ensures
            name@ == self@.name,
    {
        self.name.as_str()
    }

    /// The name of the remote, with its owner in front.
    pub fn owner_name(&self) -> (name: &str)
        ensures
            name@ == self@.owner_name,
    {
        self.owner_name.as_str()
    }

    /// Decides how this repository is brought up to date, given whether its
    /// local directory exists right now: by an update in place if it does,
    /// by a fresh copy if it does not.
    pub fn sync_to_local(&self, dir_exists: bool) -> (plan: SyncPlan)
        ensures
            plan@ == self@.plan(dir_exists),
    {
        if dir_exists {
            SyncPlan::Pull { name: self.name.clone() }
        } else {
            SyncPlan::Clone { name: self.name.clone(), owner_name: self.owner_name.clone() }
        }
    }
}

impl SyncPlan {
    /// The command that carries this plan out.
    pub fn invocation(&self) -> (invocation: Invocation)
        ensures
            invocation@ == self@.invocation(),
    {
        match self {
            SyncPlan::Clone { owner_name, .. } => {
                let mut args: Vec<String> = Vec::new();
                args.push("repo".to_owned());
                args.push("clone".to_owned());
                args.push(owner_name.clone());
                let invocation = Invocation { program: "gh".to_owned(), args, current_dir: None };
                assert(invocation@.args =~= seq!["repo"@, "clone"@, owner_name@]);
                invocation
            },
            SyncPlan::Pull { name } => {
                let mut args: Vec<String> = Vec::new();
                args.push("pull".to_owned());
                let invocation = Invocation {
                    program: "git".to_owned(),
                    args,
                    current_dir: Some(name.clone()),
                };
                assert(invocation@.args =~= seq!["pull"@]);
                invocation
            },
        }
    }

    /// What came of this plan: the command's output where it ran, and
    /// where it could not be run, the failure of this plan's kind, with the
    /// repository's name and the cause.
    pub fn conclude(self, ran: Result<ProcessOutput, String>) -> (outcome: SyncOutcome)
        ensures
            outcome_view(outcome) == self@.conclude(
                match ran {
                    Ok(output) => Ok(output@),
                    Err(cause) => Err(cause@),
                },
            ),
            ran matches Ok(output) ==> outcome == Ok::<ProcessOutput, Error>(output),
    {
        match ran {
            Ok(output) => Ok(output),
            Err(cause) => match self {
                SyncPlan::Clone { name, .. } => Err(Error::Clone(name, cause)),
                SyncPlan::Pull { name } => Err(Error::Pull(name, cause)),
            },
        }
    }
}

/// A failure is attributed: where the command of a repository's plan could
/// not be run, the outcome is a failure that names that repository, gives
/// the cause, and is a failed update where the directory existed and a
/// failed copy where it did not. Where the command ran, the outcome is its
/// output.
pub proof fn lemma_outcome_is_attributed(
    repository: RepositoryView,
    dir_exists: bool,
    ran: Result<ProcessOutputView, Seq<char>>,
)
    ensures
        repository.plan(dir_exists).conclude(ran) == match ran {
            Ok(output) => Ok::<ProcessOutputView, ErrorView>(output),
            Err(cause) => Err(
                if dir_exists {
                    ErrorView::Pull(repository.name, cause)
                } else {
                    ErrorView::Clone(repository.name, cause)
                },
            ),
        },
        ran matches Err(cause) ==> repository.plan(dir_exists).conclude(ran)->Err_0.name()
            == repository.name,
{
}

} // verus!
