//! Read-only lookups for the directory (passwd, shadow) and credential hooks.
//! Every store error reads as "not found" here: no detail crosses the plugin
//! boundary.

use vstd::prelude::*;
use crate::handoff::{is_reserved, is_reserved_name};
use crate::session;
use crate::store::{read_result, Db, ReadResult};

verus! {

/// A passwd entry for a mapped account.
#[derive(Debug)]
pub struct PasswdEntry {
    pub name: String,
    pub passwd: String,
    pub uid: u32,
    pub gid: u32,
    pub gecos: String,
    pub dir: String,
    pub shell: String,
}

/// A shadow entry for a mapped account: the account has no usable password.
#[derive(Debug)]
pub struct ShadowEntry {
    pub name: String,
    pub passwd: String,
}

/// The comment field: which remote name was mapped to which account.
pub open spec fn gecos_text(requested: Seq<char>, local: Seq<char>) -> Seq<char> {
    "Mapped RADIUS account "@ + requested + "->"@ + local
}

/// `e` is the passwd entry for the session `s`, asked for as `requested`.
pub open spec fn passwd_entry_of(e: PasswdEntry, requested: Seq<char>, s: session::SessionView) -> bool {
    &&& e.name@ == s.mapping.username
    &&& e.passwd@ == "x"@
    &&& e.uid == s.mapping.uid
    &&& e.gid == s.mapping.gid
    &&& e.gecos@ == gecos_text(requested, s.mapping.username)
    &&& e.dir@ == s.mapping.home
    &&& e.shell@ == s.mapping.shell
}

/// The passwd entry that a found session gives for the name asked about.
pub fn passwd_entry(requested: &str, found: &session::User) -> (r: PasswdEntry)
    ensures
        passwd_entry_of(r, requested@, found@),
{
    let m = &found.mapping;
    let mut gecos = "Mapped RADIUS account ".to_owned();
    gecos.append(requested);
    gecos.append("->");
    gecos.append(m.username.as_str());
    PasswdEntry {
        name: m.username.clone(),
        passwd: "x".to_owned(),
        uid: m.uid,
        gid: m.gid,
        gecos,
        dir: m.home.clone(),
        shell: m.shell.clone(),
    }
}

/// The shadow entry that a found session gives.
pub fn shadow_entry(found: &session::User) -> (r: ShadowEntry)
    ensures
        r.name@ == found@.mapping.username,
        r.passwd@ == "!"@,
{
    ShadowEntry { name: found.mapping.username.clone(), passwd: "!".to_owned() }
}

/// The passwd answer for `requested`, given what the store returned for it:
/// none for the reserved account or when nothing was found.
pub fn directory_entry(requested: &str, found: Option<session::User>) -> (r: Option<PasswdEntry>)
    ensures
        is_reserved_name(requested@) || found is None ==> r is None,
        !is_reserved_name(requested@) ==> match found {
            Some(u) => r matches Some(e) && passwd_entry_of(e, requested@, u@),
            None => r is None,
        },
{
    if is_reserved(requested) {
        return None;
    }
    match found {
        Some(u) => Some(passwd_entry(requested, &u)),
        None => None,
    }
}

/// The shadow answer for `requested`, given what the store returned for it.
pub fn shadow_lookup_entry(requested: &str, found: Option<session::User>) -> (r: Option<ShadowEntry>)
    ensures
        is_reserved_name(requested@) || found is None ==> r is None,
        !is_reserved_name(requested@) ==> match found {
            Some(u) => r matches Some(e) && e.name@ == u@.mapping.username && e.passwd@ == "!"@,
            None => r is None,
        },
{
    if is_reserved(requested) {
        return None;
    }
    match found {
        Some(u) => Some(shadow_entry(&u)),
        None => None,
    }
}

/// The session stored for `name`; `None` when there is none and on any error.
pub fn lookup(db: &Db, name: &str) -> (r: Option<session::User>)
    requires
        db.ready(),
    ensures
        r matches Some(u) ==> read_result(db@, name@, None) == ReadResult::Found(u@),
        read_result(db@, name@, None) == ReadResult::NotFound ==> r is None,
{
    match db.get_user(name) {
        Ok(u) => Some(u),
        Err(_) => None,
    }
}

/// The passwd entry for `name`, if a session is stored for it.
pub fn lookup_for_directory(db: &Db, name: &str) -> (r: Option<PasswdEntry>)
    requires
        db.ready(),
    ensures
        is_reserved_name(name@) ==> r is None,
        read_result(db@, name@, None) == ReadResult::NotFound ==> r is None,
        r matches Some(e) ==> read_result(db@, name@, None) matches ReadResult::Found(s)
            && passwd_entry_of(e, name@, s),
{
    if is_reserved(name) {
        return None;
    }
    directory_entry(name, lookup(db, name))
}

/// The shadow entry for `name`, if a session is stored for it.
pub fn lookup_for_shadow(db: &Db, name: &str) -> (r: Option<ShadowEntry>)
    requires
        db.ready(),
    ensures
        is_reserved_name(name@) ==> r is None,
        read_result(db@, name@, None) == ReadResult::NotFound ==> r is None,
        r matches Some(e) ==> read_result(db@, name@, None) matches ReadResult::Found(s)
            && e.name@ == s.mapping.username && e.passwd@ == "!"@,
{
    if is_reserved(name) {
        return None;
    }
    shadow_lookup_entry(name, lookup(db, name))
}

/// Whether a session is stored for `name`; the reserved account never has one.
pub fn lookup_for_credential_check(db: &Db, name: &str) -> (r: bool)
    requires
        db.ready(),
    ensures
        is_reserved_name(name@) ==> !r,
        read_result(db@, name@, None) == ReadResult::NotFound ==> !r,
        r ==> read_result(db@, name@, None) is Found,
{
    if is_reserved(name) {
        return false;
    }
    lookup(db, name).is_some()
}

} // verus!
