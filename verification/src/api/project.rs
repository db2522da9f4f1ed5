//! The project record and its endpoint.

use vstd::prelude::*;
use vstd::string::StringExecFns;
use crate::api::EndPoint;
use crate::api::common::{Membership, Rate};
use crate::api::task::Task;
use crate::clockify::Config;
use crate::error::Error;
use crate::ui::components::Id;

verus! {

/// A project of a workspace.
#[derive(Debug, Clone)]
pub struct Project {
    pub id: Option<String>,
    pub name: String,
    pub hourly_rate: Option<Rate>,
    pub client_id: Option<String>,
    pub client: Option<String>,
    pub workspace_id: Option<String>,
    pub billable: Option<bool>,
    pub memberships: Option<Vec<Membership>>,
    pub color: Option<String>,
    pub estimate: Option<Estimate>,
    pub archived: Option<bool>,
    pub tasks: Option<Vec<Task>>,
    pub note: Option<String>,
    pub duration: Option<String>,
    pub cost_rate: Option<String>,
    pub time_estimate: Option<TimeEstimate>,
    pub budget_estimate: Option<String>,
    pub custom_fields: Option<Vec<CustomField>>,
    pub public: Option<bool>,
    pub template: Option<bool>,
    pub favorite: Option<bool>,
}

/// A project's work estimate.
#[derive(Debug, Clone)]
pub struct Estimate {
    pub estimate: String,
    pub kind: String,
}

/// A project's time estimate.
#[derive(Debug, Clone)]
pub struct TimeEstimate {
    pub estimate: String,
    pub kind: String,
    pub reset_option: Option<String>,
    pub active: bool,
    pub include_non_billable: bool,
}

/// A custom field attached to a project.
#[derive(Debug, Clone)]
pub struct CustomField {
    pub custom_field_id: String,
    pub name: String,
    pub kind: String,
    pub value: String,
    pub status: String,
}

impl Project {
    /// A project that exists only by name.
    pub fn named(name: &str) -> (r: Project)
        ensures
            r.id is None,
            r.name@ == name@,
            r.workspace_id is None,
    {
        Project {
            id: None,
            name: name.to_owned(),
            hourly_rate: None,
            client_id: None,
            client: None,
            workspace_id: None,
            billable: None,
            memberships: None,
            color: None,
            estimate: None,
            archived: None,
            tasks: None,
            note: None,
            duration: None,
            cost_rate: None,
            time_estimate: None,
            budget_estimate: None,
            custom_fields: None,
            public: None,
            template: None,
            favorite: None,
        }
    }
}

/// A project fetched without an id carries the empty id.
impl Id for Project {
    open spec fn sid(&self) -> Seq<char> {
        match self.id {
            Option::Some(s) => s@,
            Option::None => Seq::empty(),
        }
    }

    open spec fn slabel(&self) -> Seq<char> {
        self.name@
    }

    fn id(&self) -> (r: String) {
        match &self.id {
            Some(s) => s.clone(),
            None => String::new(),
        }
    }

    fn label(&self) -> (r: String) {
        self.name.clone()
    }

    fn dup(&self) -> (r: Project) {
        Project {
            id: self.id.clone(),
            name: self.name.clone(),
            hourly_rate: self.hourly_rate.clone(),
            client_id: self.client_id.clone(),
            client: self.client.clone(),
            workspace_id: self.workspace_id.clone(),
            billable: self.billable,
            memberships: self.memberships.clone(),
            color: self.color.clone(),
            estimate: self.estimate.clone(),
            archived: self.archived,
            tasks: self.tasks.clone(),
            note: self.note.clone(),
            duration: self.duration.clone(),
            cost_rate: self.cost_rate.clone(),
            time_estimate: self.time_estimate.clone(),
            budget_estimate: self.budget_estimate.clone(),
            custom_fields: self.custom_fields.clone(),
            public: self.public,
            template: self.template,
            favorite: self.favorite,
        }
    }
}

impl EndPoint for Project {
    open spec fn spec_endpoint(config: Config) -> Result<Seq<char>, Error> {
        match config.workspace_id {
            Option::Some(w) => Result::Ok("/workspaces/"@ + w@ + "/projects"@),
            Option::None => Result::Err(Error::MissingWorkspace),
        }
    }

    fn endpoint(config: &Config) -> (r: Result<String, Error>) {
        match &config.workspace_id {
            Some(w) => {
                let mut s = String::from_str("/workspaces/");
                s.append(w.as_str());
                s.append("/projects");
                Ok(s)
            },
            None => Err(Error::MissingWorkspace),
        }
    }
}

} // verus!
