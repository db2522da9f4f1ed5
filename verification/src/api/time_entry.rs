//! The time-entry record and its endpoint.
//!
//! When a time entry is listed or fetched, its start and end times arrive
//! inside `time_interval`; the top-level `start` and `end` fields are only
//! filled when sending an entry to start or stop the timer.

use vstd::prelude::*;
use vstd::string::StringExecFns;
use crate::api::EndPoint;
use crate::clockify::Config;
use crate::error::Error;
use crate::ui::components::Id;

verus! {

/// A time entry, running or finished.
#[derive(Debug, Clone)]
pub struct TimeEntry {
    pub start: Option<String>,
    pub end: Option<String>,
    pub billable: Option<bool>,
    pub is_locked: Option<bool>,
    pub id: Option<String>,
    pub description: Option<String>,
    pub project_id: Option<String>,
    pub task_id: Option<String>,
    pub tag_ids: Option<Vec<String>>,
    pub time_interval: Option<TimeInterval>,
    pub user_id: Option<String>,
    pub workspace_id: Option<String>,
    pub custom_field_values: Option<Vec<CustomFieldValue>>,
}

/// The stored interval of a time entry.
#[derive(Debug, Clone)]
pub struct TimeInterval {
    pub duration: Option<String>,
    pub end: Option<String>,
    pub start: Option<String>,
}

/// A custom field value attached to a time entry.
#[derive(Debug, Clone)]
pub struct CustomFieldValue {
    pub custom_field_id: String,
    pub time_entry_id: String,
    pub value: String,
    pub name: String,
    pub kind: String,
}

impl Default for TimeEntry {
    /// A time entry with every field absent.
    fn default() -> (r: TimeEntry)
        ensures
            r.start is None,
            r.end is None,
            r.billable is None,
            r.is_locked is None,
            r.id is None,
            r.description is None,
            r.project_id is None,
            r.task_id is None,
            r.tag_ids is None,
            r.time_interval is None,
            r.user_id is None,
            r.workspace_id is None,
            r.custom_field_values is None,
    {
        TimeEntry {
            start: None,
            end: None,
            billable: None,
            is_locked: None,
            id: None,
            description: None,
            project_id: None,
            task_id: None,
            tag_ids: None,
            time_interval: None,
            user_id: None,
            workspace_id: None,
            custom_field_values: None,
        }
    }
}

/// A time entry's label is its description; one without a description
/// reads as "No Description".  One fetched without an id carries the
/// empty id.
impl Id for TimeEntry {
    open spec fn sid(&self) -> Seq<char> {
        match self.id {
            Option::Some(s) => s@,
            Option::None => Seq::empty(),
        }
    }

    open spec fn slabel(&self) -> Seq<char> {
        match self.description {
            Option::Some(d) => d@,
            Option::None => "No Description"@,
        }
    }

    fn id(&self) -> (r: String) {
        match &self.id {
            Some(s) => s.clone(),
            None => String::new(),
        }
    }

    fn label(&self) -> (r: String) {
        match &self.description {
            Some(d) => d.clone(),
            None => "No Description".to_owned(),
        }
    }

    fn dup(&self) -> (r: TimeEntry) {
        TimeEntry {
            start: self.start.clone(),
            end: self.end.clone(),
            billable: self.billable,
            is_locked: self.is_locked,
            id: self.id.clone(),
            description: self.description.clone(),
            project_id: self.project_id.clone(),
            task_id: self.task_id.clone(),
            tag_ids: self.tag_ids.clone(),
            time_interval: self.time_interval.clone(),
            user_id: self.user_id.clone(),
            workspace_id: self.workspace_id.clone(),
            custom_field_values: self.custom_field_values.clone(),
        }
    }
}

impl EndPoint for TimeEntry {
    open spec fn spec_endpoint(config: Config) -> Result<Seq<char>, Error> {
        match config.workspace_id {
            Option::Some(w) => Result::Ok("/workspaces/"@ + w@ + "/time-entries"@),
            Option::None => Result::Err(Error::MissingWorkspace),
        }
    }

    fn endpoint(config: &Config) -> (r: Result<String, Error>) {
        match &config.workspace_id {
            Some(w) => {
                let mut s = String::from_str("/workspaces/");
                s.append(w.as_str());
                s.append("/time-entries");
                Ok(s)
            },
            None => Err(Error::MissingWorkspace),
        }
    }
}

} // verus!
