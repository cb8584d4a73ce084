//! A resolved session: the remote identity together with the local account
//! that a mapping rule assigned to it.

use vstd::prelude::*;
use crate::config::{MappingView, UserMapping};
use crate::remote;

verus! {

#[derive(Debug, PartialEq)]
pub struct User {
    pub radius: remote::User,
    pub mapping: UserMapping,
}

pub struct SessionView {
    pub radius: remote::UserView,
    pub mapping: MappingView,
}

impl View for User {
    type V = SessionView;

    open spec fn view(&self) -> SessionView {
        SessionView { radius: self.radius@, mapping: self.mapping@ }
    }
}

} // verus!
