//! The tag record and its endpoint.

use vstd::prelude::*;
use vstd::string::StringExecFns;
use crate::api::EndPoint;
use crate::clockify::Config;
use crate::error::Error;
use crate::ui::components::Id;

verus! {

/// A tag of a workspace.  Only the name is needed to create one.
#[derive(Debug, Clone)]
pub struct Tag {
    pub id: Option<String>,
    pub name: String,
    pub workspace_id: Option<String>,
    pub archived: Option<bool>,
}

impl Tag {
    /// A tag that exists only by name, as sent when creating one.
    pub fn named(name: &str) -> (r: Tag)
        ensures
            r.id is None,
            r.name@ == name@,
            r.workspace_id is None,
            r.archived is None,
    {
        Tag { id: None, name: name.to_owned(), workspace_id: None, archived: None }
    }
}

/// A tag fetched without an id carries the empty id.
impl Id for Tag {
    open spec fn sid(&self) -> Seq<char> {
        match self.id {
            Option::Some(s) => s@,
            Option::None => Seq::empty(),
        }
    }

    open spec fn slabel(&self) -> Seq<char> {
        self.name@
    }

    fn id(&self) -> (r: String) {
        match &self.id {
            Some(s) => s.clone(),
            None => String::new(),
        }
    }

    fn label(&self) -> (r: String) {
        self.name.clone()
    }

    fn dup(&self) -> (r: Tag) {
        Tag {
            id: self.id.clone(),
            name: self.name.clone(),
            workspace_id: self.workspace_id.clone(),
            archived: self.archived,
        }
    }
}

impl EndPoint for Tag {
    open spec fn spec_endpoint(config: Config) -> Result<Seq<char>, Error> {
        match config.workspace_id {
            Option::Some(w) => Result::Ok("/workspaces/"@ + w@ + "/tags"@),
            Option::None => Result::Err(Error::MissingWorkspace),
        }
    }

    fn endpoint(config: &Config) -> (r: Result<String, Error>) {
        match &config.workspace_id {
            Some(w) => {
                let mut s = String::from_str("/workspaces/");
                s.append(w.as_str());
                s.append("/tags");
                Ok(s)
            },
            None => Err(Error::MissingWorkspace),
        }
    }
}

} // verus!
