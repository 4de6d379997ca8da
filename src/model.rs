//! The data a plan run works on.
use vstd::prelude::*;

verus! {

/// A repository of the fleet, as the hosting provider lists it.
pub struct Repository {
    pub name: String,
    pub ssh_url: String,
    pub default_branch: String,
}

/// A pure text transform applied to the content of a matched file.
pub enum Processor {
    /// Replaces every occurrence of `from` by `to`.
    Replace { from: String, to: String },
}

/// A glob pattern with the processors applied, in order, to each file it matches.
pub struct FileOperation {
    pub pattern: String,
    pub processors: Vec<Processor>,
}

/// The declarative change applied to every repository.
pub struct Plan {
    pub branch_name: String,
    pub git_message: String,
    pub pull_request_title: Option<String>,
    pub pull_request_body: Option<String>,
    pub file_operations: Vec<FileOperation>,
}

impl Repository {
    pub fn new(name: String, ssh_url: String, default_branch: String) -> (r: Repository)
        ensures
            r.name@ == name@,
            r.ssh_url@ == ssh_url@,
            r.default_branch@ == default_branch@,
    {
        Repository { name, ssh_url, default_branch }
    }
}

impl Plan {
    /// The title of the pull request: the explicit one, else the commit message.
    pub open spec fn spec_title(&self) -> Seq<char> {
        match self.pull_request_title {
            Some(t) => t@,
            None => self.git_message@,
        }
    }

    pub fn title(&self) -> (r: String)
        ensures
            r@ == self.spec_title(),
    {
        match &self.pull_request_title {
            Some(t) => t.clone(),
            None => self.git_message.clone(),
        }
    }
}

} // verus!
