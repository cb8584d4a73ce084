//! The configuration that the core consumes, already parsed, and the rules
//! that map a remote identity onto a local account.

use vstd::prelude::*;
use crate::bytes::{bytes_equal, copy_bytes};
use crate::remote::{self, AttributeView};
use crate::session;

verus! {

/// One RADIUS server to ask.
#[derive(Debug)]
pub struct Server {
    pub address: String,
    pub shared_secret: Option<String>,
    pub timeout: Option<u16>,
}

/// The RADIUS client settings.
#[derive(Debug)]
pub struct Radius {
    pub shared_secret: Option<String>,
    pub servers: Vec<Server>,
    pub debug: Option<bool>,
    pub timeout: Option<u16>,
    pub attributes: Option<Vec<(u32, u8)>>,
}

/// Where the session store lives.
#[derive(Debug)]
pub struct Db {
    pub path: String,
}

/// A rule that maps one attribute value onto a local account.
#[derive(Debug, PartialEq)]
pub struct UserMapping {
    pub username: String,
    pub uid: u32,
    pub group: String,
    pub gid: u32,
    pub home: String,
    pub shell: String,
    pub attribute: (u32, u8),
    pub attribute_value: Vec<u8>,
}

pub struct MappingView {
    pub username: Seq<char>,
    pub uid: u32,
    pub group: Seq<char>,
    pub gid: u32,
    pub home: Seq<char>,
    pub shell: Seq<char>,
    pub attribute: (u32, u8),
    pub attribute_value: Seq<u8>,
}

impl View for UserMapping {
    type V = MappingView;

    open spec fn view(&self) -> MappingView {
        MappingView {
            username: self.username@,
            uid: self.uid,
            group: self.group@,
            gid: self.gid,
            home: self.home@,
            shell: self.shell@,
            attribute: self.attribute,
            attribute_value: self.attribute_value@,
        }
    }
}

impl UserMapping {
    /// A copy with the same contents.
    pub fn duplicate(&self) -> (r: UserMapping)
        ensures
            r@ == self@,
    {
        UserMapping {
            username: self.username.clone(),
            uid: self.uid,
            group: self.group.clone(),
            gid: self.gid,
            home: self.home.clone(),
            shell: self.shell.clone(),
            attribute: self.attribute,
            attribute_value: copy_bytes(&self.attribute_value),
        }
    }
}

/// Everything the core reads from the configuration file.
#[derive(Debug)]
pub struct Config {
    pub db: Db,
    pub radius: Radius,
    pub users: Vec<UserMapping>,
}

pub open spec fn mapping_views(rules: Seq<UserMapping>) -> Seq<MappingView> {
    rules.map_values(|r: UserMapping| r@)
}

/// The attribute has the address and the exact value that the rule asks for.
pub open spec fn attr_matches(a: AttributeView, rule: MappingView) -> bool {
    &&& a.vendor == rule.attribute.0
    &&& a.subtype == rule.attribute.1
    &&& a.data == rule.attribute_value
}

/// Some attribute of the identity satisfies the rule.
pub open spec fn rule_matches(attrs: Seq<AttributeView>, rule: MappingView) -> bool {
    exists|j: int| 0 <= j < attrs.len() && attr_matches(#[trigger] attrs[j], rule)
}

/// The position of the first rule, at `from` or later, that the attributes satisfy.
pub open spec fn first_match(attrs: Seq<AttributeView>, rules: Seq<MappingView>, from: int) -> Option<int>
    decreases rules.len() - from,
{
    if from < 0 || from >= rules.len() {
        None
    } else if rule_matches(attrs, rules[from]) {
        Some(from)
    } else {
        first_match(attrs, rules, from + 1)
    }
}

/// The session that resolution yields for `remote` under `rules`.
pub open spec fn resolution(remote: remote::UserView, rules: Seq<MappingView>) -> Option<session::SessionView> {
    match first_match(remote.attributes, rules, 0) {
        Some(i) => Some(session::SessionView { radius: remote, mapping: rules[i] }),
        None => None,
    }
}

fn rule_matches_exec(remote: &remote::User, rule: &UserMapping) -> (r: bool)
    ensures
        r == rule_matches(remote@.attributes, rule@),
{
    let mut j: usize = 0;
    while j < remote.attributes.len()
        invariant
            j <= remote.attributes@.len(),
            forall|k: int| 0 <= k < j ==> !attr_matches(#[trigger] remote@.attributes[k], rule@),
        decreases remote.attributes@.len() - j,
    {
        let a = &remote.attributes[j];
        assert(remote@.attributes[j as int] == a@);
        if a.vendor == rule.attribute.0 && a.subtype == rule.attribute.1 && bytes_equal(
            &a.data,
            &rule.attribute_value,
        ) {
            return true;
        }
        j = j + 1;
    }
    false
}

/// Resolves the local account for `remote`: rules are tried in configured
/// order and the first one that some attribute satisfies wins.
pub fn resolve(remote: &remote::User, rules: &Vec<UserMapping>) -> (r: Option<session::User>)
    ensures
        match resolution(remote@, mapping_views(rules@)) {
            Some(s) => r matches Some(u) && u@ == s,
            None => r is None,
        },
{
    let ghost views = mapping_views(rules@);
    let mut i: usize = 0;
    while i < rules.len()
        invariant
            i <= rules@.len(),
            views == mapping_views(rules@),
            first_match(remote@.attributes, views, 0) == first_match(remote@.attributes, views, i as int),
        decreases rules@.len() - i,
    {
        assert(views[i as int] == rules@[i as int]@);
        if rule_matches_exec(remote, &rules[i]) {
            return Some(session::User { radius: remote.duplicate(), mapping: rules[i].duplicate() });
        }
        i = i + 1;
    }
    None
}

proof fn lemma_rule_matches_same_attrs(a: Seq<AttributeView>, b: Seq<AttributeView>, rule: MappingView)
    requires
        forall|x: AttributeView| a.contains(x) <==> b.contains(x),
    ensures
        rule_matches(a, rule) == rule_matches(b, rule),
{
    if rule_matches(a, rule) {
        let j = choose|j: int| 0 <= j < a.len() && attr_matches(#[trigger] a[j], rule);
        assert(a.contains(a[j]));
        let k = choose|k: int| 0 <= k < b.len() && b[k] == a[j];
        assert(attr_matches(b[k], rule));
    }
    if rule_matches(b, rule) {
        let j = choose|j: int| 0 <= j < b.len() && attr_matches(#[trigger] b[j], rule);
        assert(b.contains(b[j]));
        let k = choose|k: int| 0 <= k < a.len() && a[k] == b[j];
        assert(attr_matches(a[k], rule));
    }
}

proof fn lemma_first_match_same_attrs(
    a: Seq<AttributeView>,
    b: Seq<AttributeView>,
    rules: Seq<MappingView>,
    from: int,
)
    requires
        forall|x: AttributeView| a.contains(x) <==> b.contains(x),
    ensures
        first_match(a, rules, from) == first_match(b, rules, from),
    decreases rules.len() - from,
{
    if 0 <= from < rules.len() {
        lemma_rule_matches_same_attrs(a, b, rules[from]);
        lemma_first_match_same_attrs(a, b, rules, from + 1);
    }
}

/// Resolution depends on which attributes an identity carries, not on the
/// order in which the server sent them: two identities holding the same
/// attributes resolve to the same rule, or both to none.
pub proof fn lemma_resolution_ignores_attribute_order(
    a: remote::UserView,
    b: remote::UserView,
    rules: Seq<MappingView>,
)
    requires
        forall|x: AttributeView| a.attributes.contains(x) <==> b.attributes.contains(x),
    ensures
        first_match(a.attributes, rules, 0) == first_match(b.attributes, rules, 0),
        resolution(a, rules) is Some <==> resolution(b, rules) is Some,
        resolution(a, rules) matches Some(s) ==> resolution(b, rules) matches Some(t) && s.mapping
            == t.mapping,
{
    lemma_first_match_same_attrs(a.attributes, b.attributes, rules, 0);
}

proof fn lemma_first_match_at_most(attrs: Seq<AttributeView>, rules: Seq<MappingView>, from: int, i: int)
    requires
        0 <= from <= i < rules.len(),
        rule_matches(attrs, rules[i]),
    ensures
        first_match(attrs, rules, from) matches Some(k) && from <= k <= i && rule_matches(
            attrs,
            rules[k],
        ),
    decreases i - from,
{
    if from < i && !rule_matches(attrs, rules[from]) {
        lemma_first_match_at_most(attrs, rules, from + 1, i);
    }
}

/// When two rules both match an identity, the one configured first is the
/// one selected; the later one never is.
pub proof fn lemma_first_match_wins(attrs: Seq<AttributeView>, rules: Seq<MappingView>, i: int, j: int)
    requires
        0 <= i < j < rules.len(),
        rule_matches(attrs, rules[i]),
        rule_matches(attrs, rules[j]),
    ensures
        first_match(attrs, rules, 0) matches Some(k) && k <= i,
        first_match(attrs, rules, 0) != Some(j),
{
    lemma_first_match_at_most(attrs, rules, 0, i);
}

impl Config {
    /// Resolves the local account for an identity under the configured rules.
    pub fn map_user(&self, radius: &remote::User) -> (r: Option<session::User>)
        ensures
            match resolution(radius@, mapping_views(self.users@)) {
                Some(s) => r matches Some(u) && u@ == s,
                None => r is None,
            },
    {
        resolve(radius, &self.users)
    }

    /// Whether the RADIUS client should log its exchanges.
    pub fn debug(&self) -> (r: bool)
        ensures
            r == (self.radius.debug == Some(true)),
    {
        match self.radius.debug {
            Some(d) => d,
            None => false,
        }
    }
}

} // verus!
