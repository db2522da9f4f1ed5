//! The task record and its endpoint.

use vstd::prelude::*;
use vstd::string::StringExecFns;
use crate::api::EndPoint;
use crate::api::common::Rate;
use crate::clockify::Config;
use crate::error::Error;
use crate::ui::components::Id;

verus! {

/// A task of a project.
#[derive(Debug, Clone)]
pub struct Task {
    pub id: String,
    pub name: String,
    pub project_id: Option<String>,
    pub assignee_ids: Option<Vec<String>>,
    pub assignee_id: Option<String>,
    pub user_group_ids: Option<Vec<String>>,
    pub estimate: Option<String>,
    pub status: String,
    pub duration: Option<String>,
    pub billable: bool,
    pub hourly_rate: Option<Rate>,
    pub cost_rate: Option<Rate>,
}

impl Task {
    /// A task that exists only by name.
    pub fn named(name: &str) -> (r: Task)
        ensures
            r.id@ == Seq::<char>::empty(),
            r.name@ == name@,
            r.status@ == Seq::<char>::empty(),
            r.billable == false,
            r.project_id is None,
    {
        Task {
            id: String::new(),
            name: name.to_owned(),
            project_id: None,
            assignee_ids: None,
            assignee_id: None,
            user_group_ids: None,
            estimate: None,
            status: String::new(),
            duration: None,
            billable: false,
            hourly_rate: None,
            cost_rate: None,
        }
    }
}

impl Id for Task {
    open spec fn sid(&self) -> Seq<char> {
        self.id@
    }

    open spec fn slabel(&self) -> Seq<char> {
        self.name@
    }

    fn id(&self) -> (r: String) {
        self.id.clone()
    }

    fn label(&self) -> (r: String) {
        self.name.clone()
    }

    fn dup(&self) -> (r: Task) {
        Task {
            id: self.id.clone(),
            name: self.name.clone(),
            project_id: self.project_id.clone(),
            assignee_ids: self.assignee_ids.clone(),
            assignee_id: self.assignee_id.clone(),
            user_group_ids: self.user_group_ids.clone(),
            estimate: self.estimate.clone(),
            status: self.status.clone(),
            duration: self.duration.clone(),
            billable: self.billable,
            hourly_rate: self.hourly_rate.clone(),
            cost_rate: self.cost_rate.clone(),
        }
    }
}

impl EndPoint for Task {
    open spec fn spec_endpoint(config: Config) -> Result<Seq<char>, Error> {
        match config.workspace_id {
            Option::None => Result::Err(Error::MissingWorkspace),
            Option::Some(w) => match config.project_id {
                Option::None => Result::Err(Error::MissingProject),
                Option::Some(p) => Result::Ok(
                    "/workspaces/"@ + w@ + "/projects/"@ + p@ + "/tasks"@,
                ),
            },
        }
    }

    fn endpoint(config: &Config) -> (r: Result<String, Error>) {
        match &config.workspace_id {
            None => Err(Error::MissingWorkspace),
            Some(w) => match &config.project_id {
                None => Err(Error::MissingProject),
                Some(p) => {
                    let mut s = String::from_str("/workspaces/");
                    s.append(w.as_str());
                    s.append("/projects/");
                    s.append(p.as_str());
                    s.append("/tasks");
                    Ok(s)
                },
            },
        }
    }
}

} // verus!
