//! Asking the forge which repositories an organization has.
//!
//! The list comes from a command whose output the caller decodes. This
//! module says which command that is, and turns what came of running it,
//! and of decoding what it wrote, into the repositories or into the reason
//! why there are none.

use crate::domain::{Invocation, InvocationView, ProcessOutput, Repository, RepositoryView};
use crate::text::{decimal, u16_to_decimal};
use vstd::prelude::*;
use vstd::string::*;

verus! {

/// Why the repositories of an organization could not be listed: the
/// organization, and the cause.
#[derive(Debug, Clone, PartialEq, Eq)]
pub enum Error {
    /// The listing command could not be run.
    ListError(String, String),
    /// What the listing command wrote could not be decoded.
    SerdeError(String, String),
}

/// What an [`Error`] is in contracts.
pub enum ErrorView {
    ListError(Seq<char>, Seq<char>),
    SerdeError(Seq<char>, Seq<char>),
}

impl ErrorView {
    /// The line that tells of this failure.
    pub open spec fn message(self) -> Seq<char> {
        match self {
            ErrorView::ListError(organization, cause) => "Error fetching repositories for "@
                + organization + ": "@ + cause,
            ErrorView::SerdeError(organization, cause) => "Error deserializing repositories for "@
                + organization + ": "@ + cause,
        }
    }
}

impl View for Error {
    type V = ErrorView;

    open spec fn view(&self) -> ErrorView {
        match self {
            Error::ListError(organization, cause) => ErrorView::ListError(organization@, cause@),
            Error::SerdeError(organization, cause) => ErrorView::SerdeError(
                organization@,
                cause@,
            ),
        }
    }
}

impl Error {
    /// The line that tells of this failure: what failed, for which
    /// organization, and why.
    pub fn message(&self) -> (line: String)
        ensures
            line@ == self@.message(),
    {
        match self {
            Error::ListError(organization, cause) => {
                let mut line = "Error fetching repositories for ".to_owned();
                line.append(organization.as_str());
                line.append(": ");
                line.append(cause.as_str());
                line
            },
            Error::SerdeError(organization, cause) => {
                let mut line = "Error deserializing repositories for ".to_owned();
                line.append(organization.as_str());
                line.append(": ");
                line.append(cause.as_str());
                line
            },
        }
    }
}

/// The views of a sequence of repositories, in the same order.
pub open spec fn repositories_view(repositories: Seq<Repository>) -> Seq<RepositoryView> {
    repositories.map_values(|repository: Repository| repository@)
}

/// The command that lists at most `limit` repositories of `organization`,
/// each with its name and its name with the owner in front:
/// `gh repo list --limit <limit> --json name,nameWithOwner <organization>`.
pub open spec fn list_invocation(organization: Seq<char>, limit: u16) -> InvocationView {
    InvocationView {
        program: "gh"@,
        args: seq![
            "repo"@,
            "list"@,
            "--limit"@,
            decimal(limit as nat),
            "--json"@,
            "name,nameWithOwner"@,
            organization,
        ],
        current_dir: None,
    }
}

/// The command that lists at most `limit` repositories of `organization`.
pub fn list_command(organization: &str, limit: u16) -> (invocation: Invocation)
    ensures
        invocation@ == list_invocation(organization@, limit),
{
    let mut args: Vec<String> = Vec::new();
    args.push("repo".to_owned());
    args.push("list".to_owned());
    args.push("--limit".to_owned());
    args.push(u16_to_decimal(limit));
    args.push("--json".to_owned());
    args.push("name,nameWithOwner".to_owned());
    args.push(organization.to_owned());
    let invocation = Invocation { program: "gh".to_owned(), args, current_dir: None };
    assert(invocation@.args =~= list_invocation(organization@, limit).args);
    invocation
}

/// What the listing command wrote, to be decoded: its standard output
/// where it ran, whatever its exit code; where it could not be run, a
/// [`Error::ListError`] with the organization and the cause.
pub fn listing_payload(organization: &str, ran: Result<ProcessOutput, String>) -> (payload: Result<
    Vec<u8>,
    Error,
>)
    ensures
        match ran {
            Ok(output) => payload == Ok::<Vec<u8>, Error>(output.stdout),
            Err(cause) => payload is Err && payload->Err_0@ == ErrorView::ListError(
                organization@,
                cause@,
            ),
        },
{
    match ran {
        Ok(output) => Ok(output.stdout),
        Err(cause) => Err(Error::ListError(organization.to_owned(), cause)),
    }
}

/// The repositories of `organization`, given what came of decoding the
/// listing: the repositories as they were decoded, in their order; where
/// decoding failed, a [`Error::SerdeError`] with the organization and the
/// cause.
pub fn get_repositories(organization: &str, decoded: Result<Vec<Repository>, String>) -> (listed:
    Result<Vec<Repository>, Error>)
    ensures
        match decoded {
            Ok(repositories) => listed == Ok::<Vec<Repository>, Error>(repositories),
            Err(cause) => listed is Err && listed->Err_0@ == ErrorView::SerdeError(
                organization@,
                cause@,
            ),
        },
{
    match decoded {
        Ok(repositories) => Ok(repositories),
        Err(cause) => Err(Error::SerdeError(organization.to_owned(), cause)),
    }
}

} // verus!
