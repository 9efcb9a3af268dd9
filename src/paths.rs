//! Where profiles, the identity index and ssh keys live below a home directory.
use vstd::prelude::*;
use vstd::string::*;

verus! {

/// `<home>/.config/g-profiles`
pub open spec fn profiles_dir_view(home: Seq<char>) -> Seq<char> {
    home + "/.config/g-profiles"@
}

/// `<home>/.config/g-profiles/<name>`
pub open spec fn profile_path_view(home: Seq<char>, name: Seq<char>) -> Seq<char> {
    profiles_dir_view(home) + "/"@ + name
}

/// `<home>/.config/g-profiles/.cache`
pub open spec fn cache_path_view(home: Seq<char>) -> Seq<char> {
    profiles_dir_view(home) + "/.cache"@
}

/// `<home>/.ssh`
pub open spec fn ssh_dir_view(home: Seq<char>) -> Seq<char> {
    home + "/.ssh"@
}

/// `<home>/.ssh/id_<name>`
pub open spec fn private_key_path_view(home: Seq<char>, name: Seq<char>) -> Seq<char> {
    ssh_dir_view(home) + "/id_"@ + name
}

/// `<home>/.ssh/id_<name>.pub`
pub open spec fn public_key_path_view(home: Seq<char>, name: Seq<char>) -> Seq<char> {
    private_key_path_view(home, name) + ".pub"@
}

/// Directory that holds one file per profile.
pub fn profiles_dir(home: &str) -> (r: String)
    ensures
        r@ == profiles_dir_view(home@),
{
    let mut r = String::from_str(home);
    r.append("/.config/g-profiles");
    r
}

/// File that holds the profile called `name`.
pub fn profile_path(home: &str, name: &str) -> (r: String)
    ensures
        r@ == profile_path_view(home@, name@),
{
    let mut r = profiles_dir(home);
    r.append("/");
    r.append(name);
    r
}

/// File that holds the identity index.
pub fn cache_path(home: &str) -> (r: String)
    ensures
        r@ == cache_path_view(home@),
{
    let mut r = profiles_dir(home);
    r.append("/.cache");
    r
}

/// Directory that holds the ssh keys.
pub fn ssh_dir(home: &str) -> (r: String)
    ensures
        r@ == ssh_dir_view(home@),
{
    let mut r = String::from_str(home);
    r.append("/.ssh");
    r
}

/// Private key file of the profile called `name`.
pub fn path_private(home: &str, name: &str) -> (r: String)
    ensures
        r@ == private_key_path_view(home@, name@),
{
    let mut r = ssh_dir(home);
    r.append("/id_");
    r.append(name);
    r
}

/// Public key file of the profile called `name`.
pub fn path_public(home: &str, name: &str) -> (r: String)
    ensures
        r@ == public_key_path_view(home@, name@),
{
    let mut r = path_private(home, name);
    r.append(".pub");
    r
}

} // verus!
