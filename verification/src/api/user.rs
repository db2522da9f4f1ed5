//! The user record and its endpoint.

use vstd::prelude::*;
use vstd::string::StringExecFns;
use crate::api::EndPoint;
use crate::api::common::Membership;
use crate::clockify::Config;
use crate::error::Error;

verus! {

/// A user of the time-tracking service.
#[derive(Debug, Clone)]
pub struct User {
    pub active_workspace: Option<String>,
    pub default_workspace: Option<String>,
    pub email: String,
    pub id: Option<String>,
    pub memberships: Option<Vec<Membership>>,
    pub name: Option<String>,
    pub profile_picture: Option<String>,
    pub settings: Option<Settings>,
    pub status: Option<String>,
}

/// A user's settings.
#[derive(Debug, Clone)]
pub struct Settings {
    pub week_start: String,
    pub time_zone: String,
    pub time_format: String,
    pub date_format: String,
    pub send_newsletter: bool,
    pub weekly_updates: bool,
    pub long_running: bool,
    pub scheduled_reports: bool,
    pub approval: bool,
    pub pto: bool,
    pub alerts: bool,
    pub reminders: bool,
    pub time_tracking_manual: bool,
    pub summary_report_settings: Option<SummaryReportSettings>,
    pub is_compact_view_on: bool,
    pub dashboard_selection: String,
    pub dashboard_view_type: String,
    pub dashboard_pin_to_top: bool,
    pub project_list_collapse: Option<String>,
    pub collapse_all_project_lists: bool,
    pub group_similar_entries_disabled: bool,
    pub my_start_of_day: String,
    pub project_picker_task_filter: bool,
    pub lang: Option<String>,
    pub theme: String,
}

/// A user's summary report settings.
#[derive(Debug, Clone)]
pub struct SummaryReportSettings {
    pub group: Option<String>,
    pub subgroup: Option<String>,
}

impl EndPoint for User {
    open spec fn spec_endpoint(config: Config) -> Result<Seq<char>, Error> {
        match config.workspace_id {
            Option::Some(w) => Result::Ok("/workspaces/"@ + w@ + "/users"@),
            Option::None => Result::Err(Error::MissingWorkspace),
        }
    }

    fn endpoint(config: &Config) -> (r: Result<String, Error>) {
        match &config.workspace_id {
            Some(w) => {
                let mut s = String::from_str("/workspaces/");
                s.append(w.as_str());
                s.append("/users");
                Ok(s)
            },
            None => Err(Error::MissingWorkspace),
        }
    }
}

} // verus!
