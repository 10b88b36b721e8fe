//! The verbs of the Kubernetes API.
use vstd::prelude::*;
use vstd::string::*;

verus! {

#[derive(Clone, Copy, Debug, PartialEq, Eq)]
pub enum Verb {
    Create,
    Get,
    List,
    Watch,
    Delete,
    DeleteCollection,
    Update,
    Patch,
}

/// The name of a verb as the API writes it.
pub open spec fn verb_name(verb: Verb) -> Seq<char> {
    match verb {
        Verb::Create => "create"@,
        Verb::Get => "get"@,
        Verb::List => "list"@,
        Verb::Watch => "watch"@,
        Verb::Delete => "delete"@,
        Verb::DeleteCollection => "delete_collection"@,
        Verb::Update => "update"@,
        Verb::Patch => "patch"@,
    }
}

impl Verb {
    pub fn as_str(&self) -> (res: &'static str)
        ensures
            res@ == verb_name(*self),
    {
        match self {
            Verb::Create => "create",
            Verb::Get => "get",
            Verb::List => "list",
            Verb::Watch => "watch",
            Verb::Delete => "delete",
            Verb::DeleteCollection => "delete_collection",
            Verb::Update => "update",
            Verb::Patch => "patch",
        }
    }

    /// The name of the verb, as its display form writes it.
    pub fn to_string(&self) -> (res: String)
        ensures
            res@ == verb_name(*self),
    {
        self.as_str().to_owned()
    }
}

} // verus!
