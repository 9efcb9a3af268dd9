//! The git identity switch: which configuration scope is used, what a profile
//! writes there, how the active identity maps back to a profile, and the wait
//! for another writer's lock on the configuration file.
use crate::index::{pair_key, Index};
use crate::paths::{private_key_path_view, path_private};
use crate::profile::Profile;
use vstd::prelude::*;
use vstd::string::*;

verus! {

/// How long a configuration lock held by another writer is waited for.
pub const LOCK_TIMEOUT_MS: u64 = 1;

/// Why reading or writing the git identity failed.
#[derive(Debug)]
pub enum GitError {
    /// The configuration has no value for this key.
    EmptyProperty(String),
    /// The lock file at this path stayed in place past [`LOCK_TIMEOUT_MS`].
    TimedOut(String),
}

/// Which git configuration file is read or written.
#[derive(Debug, Clone, Copy, PartialEq, Eq, Structural)]
pub enum Scope {
    /// The repository's own `.git/config`.
    Local,
    /// The user's `~/.gitconfig`.
    Global,
}

/// The global configuration is used when asked for or when there is no
/// repository at hand.
pub fn scope(global: bool, inside_repo: bool) -> (r: Scope)
    ensures
        r == (if global || !inside_repo { Scope::Global } else { Scope::Local }),
{
    if global || !inside_repo {
        Scope::Global
    } else {
        Scope::Local
    }
}

/// `<home>/.gitconfig` for the global scope, `<cwd>/.git/config` for the local one.
pub open spec fn config_path_view(scope: Scope, home: Seq<char>, cwd: Seq<char>) -> Seq<char> {
    match scope {
        Scope::Global => home + "/.gitconfig"@,
        Scope::Local => cwd + "/.git/config"@,
    }
}

/// The configuration file of a scope.
pub fn config_path(scope: Scope, home: &str, cwd: &str) -> (r: String)
    ensures
        r@ == config_path_view(scope, home@, cwd@),
{
    match scope {
        Scope::Global => {
            let mut r = String::from_str(home);
            r.append("/.gitconfig");
            r
        },
        Scope::Local => {
            let mut r = String::from_str(cwd);
            r.append("/.git/config");
            r
        },
    }
}

/// The lock file that git holds while it writes `config_path`.
pub fn lock_path(config_path: &str) -> (r: String)
    ensures
        r@ == config_path@ + ".lock"@,
{
    let mut r = String::from_str(config_path);
    r.append(".lock");
    r
}

/// One step of waiting for a configuration lock.
#[derive(Debug, Clone, Copy, PartialEq, Eq, Structural)]
pub enum LockStep {
    /// The lock is gone: go ahead.
    Proceed,
    /// The lock is there and time is left: look again.
    Wait,
    /// The lock is still there and the time is up.
    TimedOut,
}

/// Decides the next step of the wait for a lock, `elapsed_ms` after the
/// wait began.
pub fn lock_wait(lock_exists: bool, elapsed_ms: u64) -> (r: LockStep)
    ensures
        !lock_exists ==> r == LockStep::Proceed,
        lock_exists && elapsed_ms < LOCK_TIMEOUT_MS ==> r == LockStep::Wait,
        lock_exists && elapsed_ms >= LOCK_TIMEOUT_MS ==> r == LockStep::TimedOut,
{
    if !lock_exists {
        LockStep::Proceed
    } else if elapsed_ms >= LOCK_TIMEOUT_MS {
        LockStep::TimedOut
    } else {
        LockStep::Wait
    }
}

/// `ssh -i <home>/.ssh/id_<name> -F /dev/null`
pub open spec fn ssh_command_view(home: Seq<char>, name: Seq<char>) -> Seq<char> {
    "ssh -i "@ + private_key_path_view(home, name) + " -F /dev/null"@
}

/// The ssh command that makes git authenticate with the profile's private key.
pub fn ssh_command(home: &str, name: &str) -> (r: String)
    ensures
        r@ == ssh_command_view(home@, name@),
{
    let mut r = String::from_str("ssh -i ");
    let key = path_private(home, name);
    r.append(key.as_str());
    r.append(" -F /dev/null");
    r
}

/// The three settings that switching to `profile` writes, in this order:
/// `user.name`, `user.email` and `core.sshCommand`.
pub fn configure_user(home: &str, profile: &Profile) -> (r: Vec<(String, String)>)
    ensures
        r.len() == 3,
        r[0].0@ == "user.name"@ && r[0].1@ == profile.username@,
        r[1].0@ == "user.email"@ && r[1].1@ == profile.email@,
        r[2].0@ == "core.sshCommand"@ && r[2].1@ == ssh_command_view(home@, profile.name@),
{
    let mut r: Vec<(String, String)> = Vec::new();
    r.push((String::from_str("user.name"), profile.username.clone()));
    r.push((String::from_str("user.email"), profile.email.clone()));
    r.push((String::from_str("core.sshCommand"), ssh_command(home, profile.name.as_str())));
    r
}

/// The active username and email, read from a configuration scope; a
/// missing `user.name` is reported before a missing `user.email`.
pub fn get_username_and_email(username: Option<String>, email: Option<String>) -> (r: Result<(String, String), GitError>)
    ensures
        username is None ==> (r matches Err(GitError::EmptyProperty(k)) && k@ == "user.name"@),
        username is Some && email is None ==> (r matches Err(GitError::EmptyProperty(k)) && k@ == "user.email"@),
        (username is Some && email is Some) ==> (r matches Ok(p) && p.0 == username->Some_0 && p.1
            == email->Some_0),
{
    match username {
        None => Err(GitError::EmptyProperty(String::from_str("user.name"))),
        Some(u) => match email {
            None => Err(GitError::EmptyProperty(String::from_str("user.email"))),
            Some(e) => Ok((u, e)),
        },
    }
}

/// The profile whose pair is the active username and email, or `None` when
/// the index knows no profile for it.
pub fn whoami(index: &Index, username: &str, email: &str) -> (r: Option<String>)
    ensures
        r is Some <==> index@.contains_key(pair_key(username@, email@)),
        r matches Some(n) ==> n@ == index@[pair_key(username@, email@)],
{
    index.get(username, email)
}

} // verus!
