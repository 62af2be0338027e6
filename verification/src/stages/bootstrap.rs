//! Writing a first flake for a fresh nix-darwin system.

use vstd::prelude::*;
use vstd::string::*;

use crate::error::{fails_with, Error};
use crate::path::{join, join_path};
use crate::text::{replace_all, replace_str};

verus! {

/// What looking up the current user's name gave.
#[derive(Debug, PartialEq, Eq)]
pub enum Username {
    /// The user has no entry.
    Missing,
    /// The name is not UTF-8; it is given as Rust's debug rendering.
    NotUtf8(String),
    /// The name.
    Name(String),
}

/// `uzers::get_current_username`, its `OsString` turned into a `String`.
/// The answer depends on the user database, so nothing is stated of it.
#[verifier::external_body]
fn current_username() -> Username {
    match uzers::get_current_username() {
        None => Username::Missing,
        Some(name) => match name.into_string() {
            Ok(s) => Username::Name(s),
            Err(raw) => Username::NotUtf8(format!("{raw:?}")),
        },
    }
}

/// `<arch>-darwin`.
pub open spec fn host_platform(arch: Seq<char>) -> Seq<char> {
    arch + "-darwin"@
}

pub fn host_platform_of(arch: &str) -> (r: String)
    ensures
        r@ == host_platform(arch@),
{
    let mut r = String::from_str(arch);
    r.append("-darwin");
    r
}

/// The flake template with its placeholders filled in, in this order:
/// `HOSTNAME`, `<HOST_PLATFORM>`, `<USER>`.
pub open spec fn flake_text(template: Seq<char>, hostname: Seq<char>, platform: Seq<char>, user: Seq<char>) -> Seq<char> {
    replace_all(replace_all(replace_all(template, "HOSTNAME"@, hostname), "<HOST_PLATFORM>"@, platform), "<USER>"@, user)
}

pub fn fill_flake_template(template: &str, hostname: &str, platform: &str, user: &str) -> (r: String)
    ensures
        r@ == flake_text(template@, hostname@, platform@, user@),
{
    proof {
        reveal_strlit("HOSTNAME");
        reveal_strlit("<HOST_PLATFORM>");
        reveal_strlit("<USER>");
    }
    let a = replace_str(template, "HOSTNAME", hostname);
    let b = replace_str(a.as_str(), "<HOST_PLATFORM>", platform);
    replace_str(b.as_str(), "<USER>", user)
}

pub open spec fn no_username_message() -> Seq<char> {
    "could not obtain current username"@
}

/// The message for a user name that is not UTF-8, shown in Rust's debug form.
pub open spec fn not_utf8_message(raw: Seq<char>) -> Seq<char> {
    "current username "@ + raw + " is not UTF-8"@
}

/// The flake for host `hostname` on architecture `arch`, given what the
/// user-name lookup gave.
pub open spec fn flake_for_spec(template: Seq<char>, hostname: Seq<char>, arch: Seq<char>, user: Username) -> Result<Seq<char>, Seq<char>> {
    match user {
        Username::Missing => Err(no_username_message()),
        Username::NotUtf8(raw) => Err(not_utf8_message(raw@)),
        Username::Name(u) => Ok(flake_text(template, hostname, host_platform(arch), u@)),
    }
}

/// The text of a result, with errors by their message.
pub open spec fn text_result(r: Result<String, Error>) -> Result<Seq<char>, Seq<char>> {
    match r {
        Ok(s) => Ok(s@),
        Err(Error::Message(m)) => Err(m@),
        Err(Error::Io(m)) => Err(m@),
        Err(Error::Parse(m)) => Err(m@),
    }
}

/// The flake for host `hostname` on architecture `arch`, given what the
/// user-name lookup gave; errors are plain messages.
pub fn flake_for(template: &str, hostname: &str, arch: &str, user: Username) -> (r: Result<String, Error>)
    ensures
        text_result(r) == flake_for_spec(template@, hostname@, arch@, user),
        r is Err ==> r matches Err(Error::Message(_)),
{
    let platform = host_platform_of(arch);
    match user {
        Username::Missing => Err(Error::message("could not obtain current username")),
        Username::NotUtf8(raw) => {
            let mut m = String::from_str("current username ");
            m.append(raw.as_str());
            m.append(" is not UTF-8");
            Err(Error::Message(m))
        },
        Username::Name(user) => Ok(fill_flake_template(template, hostname, platform.as_str(), user.as_str())),
    }
}

/// The flake for host `hostname` on architecture `arch`, for the user
/// running the process.
pub fn gen_flake_template(template: &str, hostname: &str, arch: &str) -> (r: Result<String, Error>)
    ensures
        exists|user: Username| text_result(r) == flake_for_spec(template@, hostname@, arch@, user),
{
    let user = current_username();
    let ghost u = user;
    let r = flake_for(template, hostname, arch, user);
    proof {
        assert(text_result(r) == flake_for_spec(template@, hostname@, arch@, u));
    }
    r
}

pub open spec fn no_home_message() -> Seq<char> {
    "could not locate home directory"@
}

pub open spec fn exists_message() -> Seq<char> {
    "bootstrap directory `~/flake` exists already"@
}

/// Where the bootstrap flake goes: `flake` in the home directory.
pub fn bootstrap_dir(home: Option<String>) -> (r: Result<String, Error>)
    ensures
        match home {
            Some(h) => (r matches Ok(d) && d@ == join(h@, "flake"@)),
            None => fails_with(r, no_home_message()),
        },
{
    match home {
        Some(h) => Ok(join_path(h.as_str(), "flake")),
        None => Err(Error::message("could not locate home directory")),
    }
}

/// The bootstrap refuses to write over an existing directory.
pub fn check_bootstrap_dir(exists: bool) -> (r: Result<(), Error>)
    ensures
        exists ==> fails_with(r, exists_message()),
        !exists ==> r is Ok,
{
    if exists {
        Err(Error::message("bootstrap directory `~/flake` exists already"))
    } else {
        Ok(())
    }
}

/// The flake file in the bootstrap directory.
pub fn flake_file(dir: &str) -> (r: String)
    ensures
        r@ == join(dir@, "flake.nix"@),
{
    join_path(dir, "flake.nix")
}

} // verus!
