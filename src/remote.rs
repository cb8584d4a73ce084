//! The identity that the RADIUS server returns for an accepted login.

use vstd::prelude::*;
use crate::bytes::copy_bytes;

verus! {

/// One vendor-specific attribute of an accepted login.
#[derive(Debug, PartialEq)]
pub struct Attribute {
    pub vendor: u32,
    pub subtype: u8,
    pub data: Vec<u8>,
}

pub struct AttributeView {
    pub vendor: u32,
    pub subtype: u8,
    pub data: Seq<u8>,
}

impl View for Attribute {
    type V = AttributeView;

    open spec fn view(&self) -> AttributeView {
        AttributeView { vendor: self.vendor, subtype: self.subtype, data: self.data@ }
    }
}

impl Attribute {
    /// A copy with the same contents.
    pub fn duplicate(&self) -> (r: Attribute)
        ensures
            r@ == self@,
    {
        Attribute { vendor: self.vendor, subtype: self.subtype, data: copy_bytes(&self.data) }
    }
}

/// The remote identity: the name the server accepted and its attributes in
/// the order the server sent them.
#[derive(Debug, PartialEq)]
pub struct User {
    pub username: String,
    pub attributes: Vec<Attribute>,
}

pub struct UserView {
    pub username: Seq<char>,
    pub attributes: Seq<AttributeView>,
}

pub open spec fn attribute_views(attrs: Seq<Attribute>) -> Seq<AttributeView> {
    attrs.map_values(|a: Attribute| a@)
}

impl View for User {
    type V = UserView;

    open spec fn view(&self) -> UserView {
        UserView { username: self.username@, attributes: attribute_views(self.attributes@) }
    }
}

impl User {
    /// An identity with no attributes yet.
    pub fn new(username: &str) -> (r: User)
        ensures
            r@.username == username@,
            r@.attributes.len() == 0,
    {
        let r = User { attributes: Vec::new(), username: username.to_owned() };
        assert(r@.attributes =~= Seq::<AttributeView>::empty());
        r
    }

    /// Appends an attribute after those already received.
    pub fn add_attribute(&mut self, attr: Attribute)
        ensures
            final(self)@.username == old(self)@.username,
            final(self)@.attributes == old(self)@.attributes.push(attr@),
    {
        self.attributes.push(attr);
        assert(self@.attributes =~= old(self)@.attributes.push(attr@));
    }

    /// A copy with the same contents.
    pub fn duplicate(&self) -> (r: User)
        ensures
            r@ == self@,
    {
        let mut attributes: Vec<Attribute> = Vec::new();
        let mut i: usize = 0;
        while i < self.attributes.len()
            invariant
                i <= self.attributes@.len(),
                attributes@.len() == i,
                forall|k: int| 0 <= k < i ==> #[trigger] attributes@[k]@ == self.attributes@[k]@,
            decreases self.attributes@.len() - i,
        {
            let a = self.attributes[i].duplicate();
            attributes.push(a);
            i = i + 1;
        }
        assert(attribute_views(attributes@) =~= attribute_views(self.attributes@));
        User { username: self.username.clone(), attributes }
    }
}

/// A user name and password to present to the RADIUS server.
pub struct Credentials {
    pub username: String,
    pub password: String,
}

impl Credentials {
    pub fn with_username_password(username: &str, password: &str) -> (r: Credentials)
        ensures
            r.username@ == username@,
            r.password@ == password@,
    {
        Credentials { username: username.to_owned(), password: password.to_owned() }
    }
}

} // verus!
