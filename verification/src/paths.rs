//! Paths, which are carried without being read.

use std::path::PathBuf;

use vstd::prelude::*;

use crate::duplicate::Duplicate;

verus! {

/// `std::path::PathBuf`, carried unread.
#[verifier::external_type_specification]
#[verifier::external_body]
pub struct ExPathBuf(std::path::PathBuf);

/// `Clone` of `std::path::PathBuf`: the copy is the same path.
pub assume_specification[ <std::path::PathBuf as Clone>::clone ](path: &std::path::PathBuf) -> (copy:
    std::path::PathBuf)
    ensures
        copy == *path,
;

/// An absolute path.
#[derive(Debug, PartialEq, Eq)]
pub struct AbsolutePathBuf {
    pub path: PathBuf,
}

impl DeepView for AbsolutePathBuf {
    type V = PathBuf;

    open spec fn deep_view(&self) -> PathBuf {
        self.path
    }
}

impl Duplicate for AbsolutePathBuf {
    fn duplicate(&self) -> (copy: Self) {
        AbsolutePathBuf { path: self.path.clone() }
    }
}

impl Clone for AbsolutePathBuf {
    fn clone(&self) -> (copy: Self)
        ensures
            copy == *self,
    {
        AbsolutePathBuf { path: self.path.clone() }
    }
}

/// The URI of a path in some execution environment.
#[derive(Clone, Debug, PartialEq, Eq)]
pub struct PathUri {
    pub uri: String,
}

impl DeepView for PathUri {
    type V = Seq<char>;

    open spec fn deep_view(&self) -> Seq<char> {
        self.uri@
    }
}

impl Duplicate for PathUri {
    fn duplicate(&self) -> (copy: Self) {
        PathUri { uri: self.uri.clone() }
    }
}

/// The path of an agent among the agents of a session.
#[derive(Clone, Debug, PartialEq, Eq)]
pub struct AgentPath {
    pub path: String,
}

impl DeepView for AgentPath {
    type V = Seq<char>;

    open spec fn deep_view(&self) -> Seq<char> {
        self.path@
    }
}

impl Duplicate for AgentPath {
    fn duplicate(&self) -> (copy: Self) {
        AgentPath { path: self.path.clone() }
    }
}

} // verus!
