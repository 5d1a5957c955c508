//! The version-control side: which git commands run, in what order, and what
//! their outcomes mean. Running them is the caller's.

use vstd::prelude::*;
use vstd::string::*;

use crate::settings::Git;

verus! {

#[verifier::external_type_specification]
#[verifier::external_body]
pub struct ExCred(git2::Cred);

#[verifier::external_type_specification]
#[verifier::external_body]
pub struct ExGitError(git2::Error);

/// The namespace of branch references.
pub const GIT_REF_BASE: &'static str = "refs/heads";

/// What running one git command came to.
#[derive(PartialEq, Eq, Debug)]
pub struct CommandOutput {
    pub success: bool,
    pub stdout: Vec<u8>,
    pub stderr: Vec<u8>,
}

/// One step of bringing a working copy to a branch.
#[derive(PartialEq, Eq, Debug)]
pub enum GitStep {
    /// Run git with these arguments in the working directory.
    Run(Vec<String>),
    /// Point HEAD at this reference.
    SetHead(String),
    /// Check HEAD out, overwriting whatever is in the working tree.
    CheckoutHead,
}

/// A patch that did not apply; the apply has been aborted.
#[derive(PartialEq, Eq, Structural, Clone, Copy, Debug)]
pub enum ApplyError {
    PatchDidNotApply,
}

/// A pull that git refused.
#[derive(PartialEq, Eq, Structural, Clone, Copy, Debug)]
pub enum PullError {
    PullFailed,
}

/// A credential that could not be made from the settings.
#[derive(PartialEq, Eq, Structural, Clone, Copy, Debug)]
pub enum CredentialError {
    InvalidCredential,
}

/// Arguments as character sequences.
pub open spec fn args_view(args: Seq<String>) -> Seq<Seq<char>> {
    args.map_values(|a: String| a@)
}

/// Whether a step runs git with exactly these arguments.
pub open spec fn runs(step: GitStep, args: Seq<Seq<char>>) -> bool {
    match step {
        GitStep::Run(a) => args_view(a@) == args,
        _ => false,
    }
}

/// Whether a step points HEAD at exactly this reference.
pub open spec fn sets_head(step: GitStep, reference: Seq<char>) -> bool {
    match step {
        GitStep::SetHead(r) => r@ == reference,
        _ => false,
    }
}

pub open spec fn reset_args() -> Seq<Seq<char>> {
    seq!["reset"@, "--hard"@]
}

pub open spec fn clean_args() -> Seq<Seq<char>> {
    seq!["clean"@, "-f"@, "-d"@]
}

pub open spec fn apply_args(path: Seq<char>) -> Seq<Seq<char>> {
    seq!["am"@, "-3"@, path]
}

pub open spec fn abort_args() -> Seq<Seq<char>> {
    seq!["am"@, "--abort"@]
}

pub open spec fn pull_args() -> Seq<Seq<char>> {
    seq!["pull"@]
}

pub open spec fn log_grep_args(title: Seq<char>) -> Seq<Seq<char>> {
    seq!["log"@, "--oneline"@, "--grep"@, title]
}

/// The full reference of a branch: `refs/heads/<branch>`.
pub open spec fn branch_ref_spec(branch: Seq<char>) -> Seq<char> {
    GIT_REF_BASE@ + "/"@ + branch
}

fn args2(a: &str, b: &str) -> (r: Vec<String>)
    ensures
        args_view(r@) == seq![a@, b@],
{
    let mut r: Vec<String> = Vec::new();
    r.push(a.to_owned());
    r.push(b.to_owned());
    assert(args_view(r@) =~= seq![a@, b@]);
    r
}

/// `git reset --hard`: drop every uncommitted change.
pub fn reset_command() -> (r: Vec<String>)
    ensures
        args_view(r@) == reset_args(),
{
    args2("reset", "--hard")
}

/// `git clean -f -d`: remove untracked files and directories.
pub fn clean_command() -> (r: Vec<String>)
    ensures
        args_view(r@) == clean_args(),
{
    let mut r: Vec<String> = Vec::new();
    r.push("clean".to_owned());
    r.push("-f".to_owned());
    r.push("-d".to_owned());
    assert(args_view(r@) =~= clean_args());
    r
}

/// `git am -3 <path>`: apply a mailbox patch with a three-way merge.
pub fn apply_command(path: &str) -> (r: Vec<String>)
    ensures
        args_view(r@) == apply_args(path@),
{
    let mut r: Vec<String> = Vec::new();
    r.push("am".to_owned());
    r.push("-3".to_owned());
    r.push(path.to_owned());
    assert(args_view(r@) =~= apply_args(path@));
    r
}

/// `git am --abort`: return the working copy to where it was before the apply.
pub fn abort_command() -> (r: Vec<String>)
    ensures
        args_view(r@) == abort_args(),
{
    args2("am", "--abort")
}

/// `git pull`: fast-forward the current branch from its upstream.
pub fn pull_command() -> (r: Vec<String>)
    ensures
        args_view(r@) == pull_args(),
{
    let mut r: Vec<String> = Vec::new();
    r.push("pull".to_owned());
    assert(args_view(r@) =~= pull_args());
    r
}

/// `git log --oneline --grep <title>`: the commits whose message matches.
pub fn log_grep_command(title: &str) -> (r: Vec<String>)
    ensures
        args_view(r@) == log_grep_args(title@),
{
    let mut r: Vec<String> = Vec::new();
    r.push("log".to_owned());
    r.push("--oneline".to_owned());
    r.push("--grep".to_owned());
    r.push(title.to_owned());
    assert(args_view(r@) =~= log_grep_args(title@));
    r
}

/// The full reference of a branch.
pub fn branch_ref(branch: &str) -> (r: String)
    ensures
        r@ == branch_ref_spec(branch@),
{
    let mut r: String = GIT_REF_BASE.to_owned();
    r.append("/");
    r.append(branch);
    r
}

/// The refspec that pushes a branch to the remote branch of the same name:
/// `+refs/heads/<branch>` to force-push it, `:refs/heads/<branch>` to delete it.
pub fn push_refspec(branch: &str, delete: bool) -> (r: String)
    ensures
        r@ == (if delete { ":"@ } else { "+"@ }) + branch_ref_spec(branch@),
{
    let mut r: String = if delete {
        ":".to_owned()
    } else {
        "+".to_owned()
    };
    let reference = branch_ref(branch);
    r.append(reference.as_str());
    r
}

/// The steps that bring the working copy to `branch`: discard every local
/// change, point HEAD at the branch, force a checkout, and discard again.
pub fn checkout_steps(branch: &str) -> (r: Vec<GitStep>)
    ensures
        r@.len() == 6,
        runs(r@[0], reset_args()),
        runs(r@[1], clean_args()),
        sets_head(r@[2], branch_ref_spec(branch@)),
        r@[3] is CheckoutHead,
        runs(r@[4], reset_args()),
        runs(r@[5], clean_args()),
{
    let mut r: Vec<GitStep> = Vec::new();
    r.push(GitStep::Run(reset_command()));
    r.push(GitStep::Run(clean_command()));
    r.push(GitStep::SetHead(branch_ref(branch)));
    r.push(GitStep::CheckoutHead);
    r.push(GitStep::Run(reset_command()));
    r.push(GitStep::Run(clean_command()));
    r
}

/// What follows `git am`: on success the output is the result and nothing
/// more runs; on failure `git am --abort` runs and the patch is reported as
/// not applied.
pub fn conclude_apply(output: CommandOutput) -> (r: (Option<Vec<String>>, Result<CommandOutput, ApplyError>))
    ensures
        output.success ==> r.0 is None && r.1 == Ok::<CommandOutput, ApplyError>(output),
        !output.success ==> (match r.0 {
            Some(a) => args_view(a@) == abort_args(),
            None => false,
        }) && r.1 == Err::<CommandOutput, ApplyError>(ApplyError::PatchDidNotApply),
{
    if output.success {
        (None, Ok(output))
    } else {
        (Some(abort_command()), Err(ApplyError::PatchDidNotApply))
    }
}

/// What `git pull` came to.
pub fn conclude_pull(output: CommandOutput) -> (r: Result<CommandOutput, PullError>)
    ensures
        output.success ==> r == Ok::<CommandOutput, PullError>(output),
        !output.success ==> r == Err::<CommandOutput, PullError>(PullError::PullFailed),
{
    if output.success {
        Ok(output)
    } else {
        Err(PullError::PullFailed)
    }
}

/// Whether `git log --grep` found a commit: it printed anything at all.
pub fn commit_found(stdout: &Vec<u8>) -> (r: bool)
    ensures
        r == (stdout@.len() > 0),
{
    stdout.len() > 0
}

/// Whether a string holds a NUL character.
pub open spec fn has_nul(s: Seq<char>) -> bool {
    exists|i: int| 0 <= i < s.len() && s[i] == '\0'
}

/// Whether an optional string is absent or holds no NUL character.
pub open spec fn no_nul_opt(s: Option<Seq<char>>) -> bool {
    match s {
        Some(t) => !has_nul(t),
        None => true,
    }
}

/// Whether git2 can make an SSH key credential from these strings: none of
/// them may hold a NUL, since each becomes a C string.
pub open spec fn ssh_key_accepted(
    user: Seq<char>,
    public_key: Option<Seq<char>>,
    private_key: Seq<char>,
    passphrase: Option<Seq<char>>,
) -> bool {
    !has_nul(user) && no_nul_opt(public_key) && !has_nul(private_key) && no_nul_opt(passphrase)
}

/// An optional string slice as a character sequence.
pub open spec fn opt_view(s: Option<&str>) -> Option<Seq<char>> {
    match s {
        Some(t) => Some(t@),
        None => None,
    }
}

/// An optional string as a character sequence.
pub open spec fn opt_string_view(s: Option<String>) -> Option<Seq<char>> {
    match s {
        Some(t) => Some(t@),
        None => None,
    }
}

/// Relies on git2::Cred::ssh_key: an SSH key credential from a user name,
/// optional public key path, private key path and optional passphrase. Each
/// goes into a C string, which fails on a NUL; libgit2 then only copies them.
#[verifier::external_body]
fn ssh_key(user: &str, public_key: Option<&str>, private_key: &str, passphrase: Option<&str>) -> (r: Result<git2::Cred, git2::Error>)
    ensures
        r is Ok == ssh_key_accepted(user@, opt_view(public_key), private_key@, opt_view(passphrase)),
{
    git2::Cred::ssh_key(user, public_key.map(std::path::Path::new), std::path::Path::new(private_key), passphrase)
}

/// An SSH key credential from the settings: made exactly when none of the
/// user name, key paths and passphrase holds a NUL.
pub fn cred_from_settings(settings: &Git) -> (r: Result<git2::Cred, CredentialError>)
    ensures
        r is Ok == ssh_key_accepted(settings.user@, opt_string_view(settings.public_key), settings.private_key@, opt_string_view(settings.passphrase)),
{
    let public_key: Option<&str> = match &settings.public_key {
        Some(k) => Some(k.as_str()),
        None => None,
    };
    let passphrase: Option<&str> = match &settings.passphrase {
        Some(p) => Some(p.as_str()),
        None => None,
    };
    match ssh_key(settings.user.as_str(), public_key, settings.private_key.as_str(), passphrase) {
        Ok(c) => Ok(c),
        Err(_) => Err(CredentialError::InvalidCredential),
    }
}

} // verus!
