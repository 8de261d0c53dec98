//! What the command line asks for.
//!
//! The program does one of two things: it backs up the repositories of an
//! organization, or it writes the completion script for a shell. The types
//! here hold what was asked; the shells know their names and the names of
//! their script files.

use clap_complete::shells::{Bash, Elvish, Fish, PowerShell, Zsh};
use clap_complete::Generator;
use clap_complete_fig::Fig;
use clap_complete_nushell::Nushell;
use vstd::prelude::*;

verus! {

/// How many repositories are listed at most where the command line does
/// not say.
pub const DEFAULT_LIMIT: u16 = 10;

/// The parsed command line.
#[derive(Debug)]
pub struct Cli {
    pub command: Commands,
}

/// The two things the program can be asked to do.
#[derive(Debug)]
pub enum Commands {
    /// Back up the repositories of an organization.
    Backup(SyncArgs),
    /// Write the completion script for a shell.
    Completion(CompletionArgs),
}

/// Whose repositories to back up, and how many at most.
#[derive(Debug)]
pub struct SyncArgs {
    pub organization: String,
    pub limit: u16,
}

/// The shell to write the completion script for.
#[derive(Debug)]
pub struct CompletionArgs {
    pub shell: AvailableShells,
}

/// The shells a completion script can be written for.
#[derive(Clone, Copy, Debug, Eq, Hash, PartialEq, Structural)]
pub enum AvailableShells {
    Bash,
    Elvish,
    Fish,
    PowerShell,
    Zsh,
    NuShell,
    Fig,
}

/// The name by which a shell is chosen on the command line.
pub open spec fn value_name(shell: AvailableShells) -> Seq<char> {
    match shell {
        AvailableShells::Bash => "bash"@,
        AvailableShells::Elvish => "elvish"@,
        AvailableShells::Fish => "fish"@,
        AvailableShells::PowerShell => "powershell"@,
        AvailableShells::Zsh => "zsh"@,
        AvailableShells::NuShell => "nushell"@,
        AvailableShells::Fig => "fig"@,
    }
}

/// The name of the file that holds a shell's completion script for the
/// program `name`.
pub open spec fn script_file_name(shell: AvailableShells, name: Seq<char>) -> Seq<char> {
    match shell {
        AvailableShells::Bash => name + ".bash"@,
        AvailableShells::Elvish => name + ".elv"@,
        AvailableShells::Fish => name + ".fish"@,
        AvailableShells::PowerShell => "_"@ + name + ".ps1"@,
        AvailableShells::Zsh => "_"@ + name,
        AvailableShells::NuShell => name + ".nu"@,
        AvailableShells::Fig => name + ".ts"@,
    }
}

/// Calls `file_name` of clap_complete's generator `Bash`, which formats
/// the name with `.bash` behind it.
#[verifier::external_body]
fn bash_file_name(name: &str) -> (file: String)
    ensures
        file@ == name@ + ".bash"@,
{
    Bash.file_name(name)
}

/// Calls `file_name` of clap_complete's generator `Elvish`, which formats
/// the name with `.elv` behind it.
#[verifier::external_body]
fn elvish_file_name(name: &str) -> (file: String)
    ensures
        file@ == name@ + ".elv"@,
{
    Elvish.file_name(name)
}

/// Calls `file_name` of clap_complete's generator `Fish`, which formats
/// the name with `.fish` behind it.
#[verifier::external_body]
fn fish_file_name(name: &str) -> (file: String)
    ensures
        file@ == name@ + ".fish"@,
{
    Fish.file_name(name)
}

/// Calls `file_name` of clap_complete's generator `PowerShell`, which
/// formats the name with `_` in front of it and `.ps1` behind it.
#[verifier::external_body]
fn powershell_file_name(name: &str) -> (file: String)
    ensures
        file@ == "_"@ + name@ + ".ps1"@,
{
    PowerShell.file_name(name)
}

/// Calls `file_name` of clap_complete's generator `Zsh`, which formats the
/// name with `_` in front of it.
#[verifier::external_body]
fn zsh_file_name(name: &str) -> (file: String)
    ensures
        file@ == "_"@ + name@,
{
    Zsh.file_name(name)
}

/// Calls `file_name` of clap_complete_nushell's generator `Nushell`, which
/// formats the name with `.nu` behind it.
#[verifier::external_body]
fn nushell_file_name(name: &str) -> (file: String)
    ensures
        file@ == name@ + ".nu"@,
{
    Nushell.file_name(name)
}

/// Calls `file_name` of clap_complete_fig's generator `Fig`, which formats
/// the name with `.ts` behind it.
#[verifier::external_body]
fn fig_file_name(name: &str) -> (file: String)
    ensures
        file@ == name@ + ".ts"@,
{
    Fig.file_name(name)
}

impl AvailableShells {
    /// Every shell, once, in the order in which they are offered.
    pub fn value_variants() -> (variants: &'static [AvailableShells])
        ensures
            variants@ == seq![
                AvailableShells::Bash,
                AvailableShells::Elvish,
                AvailableShells::Fish,
                AvailableShells::PowerShell,
                AvailableShells::Zsh,
                AvailableShells::NuShell,
                AvailableShells::Fig,
            ],
    {
        let variants: &'static [AvailableShells] = &[
            AvailableShells::Bash,
            AvailableShells::Elvish,
            AvailableShells::Fish,
            AvailableShells::PowerShell,
            AvailableShells::Zsh,
            AvailableShells::NuShell,
            AvailableShells::Fig,
        ];
        assert(variants@ =~= seq![
            AvailableShells::Bash,
            AvailableShells::Elvish,
            AvailableShells::Fish,
            AvailableShells::PowerShell,
            AvailableShells::Zsh,
            AvailableShells::NuShell,
            AvailableShells::Fig,
        ]);
        variants
    }

    /// The name by which this shell is chosen on the command line. Every
    /// shell has one.
    pub fn to_possible_value(&self) -> (name: Option<&'static str>)
        ensures
            name is Some,
            name->0@ == value_name(*self),
    {
        Some(
            match self {
                AvailableShells::Bash => "bash",
                AvailableShells::Elvish => "elvish",
                AvailableShells::Fish => "fish",
                AvailableShells::PowerShell => "powershell",
                AvailableShells::Zsh => "zsh",
                AvailableShells::NuShell => "nushell",
                AvailableShells::Fig => "fig",
            },
        )
    }

    /// The name of the file that holds this shell's completion script for
    /// the program `name`, as the shell's generator names it.
    pub fn file_name(&self, name: &str) -> (file: String)
        ensures
            file@ == script_file_name(*self, name@),
    {
        match self {
            AvailableShells::Bash => bash_file_name(name),
            AvailableShells::Elvish => elvish_file_name(name),
            AvailableShells::Fish => fish_file_name(name),
            AvailableShells::PowerShell => powershell_file_name(name),
            AvailableShells::Zsh => zsh_file_name(name),
            AvailableShells::NuShell => nushell_file_name(name),
            AvailableShells::Fig => fig_file_name(name),
        }
    }
}

} // verus!
