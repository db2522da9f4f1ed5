//! The workspace record and its endpoint.

use vstd::prelude::*;
use crate::api::EndPoint;
use crate::api::common::{Membership, Rate};
use crate::clockify::Config;
use crate::error::Error;
use crate::ui::components::Id;

verus! {

/// A workspace of the time-tracking service.
#[derive(Debug, Clone)]
pub struct Workspace {
    pub hourly_rate: Option<Rate>,
    pub id: Option<String>,
    pub image_url: Option<String>,
    pub memberships: Option<Vec<Membership>>,
    pub name: String,
    pub workspace_settings: Option<Setting>,
}

/// The settings of a workspace.
#[derive(Debug, Clone)]
pub struct Setting {
    pub admin_only_pages: Option<Vec<String>>,
    pub automatic_lock: Option<AutomaticLock>,
    pub can_see_time_sheet: bool,
    pub can_see_tracker: bool,
    pub default_billable_projects: bool,
    pub force_description: bool,
    pub force_projects: bool,
    pub force_tags: bool,
    pub lock_time_entries: Option<String>,
    pub only_admins_create_project: bool,
    pub only_admins_create_tag: bool,
    pub only_admins_create_task: bool,
    pub only_admins_see_all_time_entries: bool,
    pub only_admins_see_billable_rates: bool,
    pub only_admins_see_dashboard: bool,
    pub only_admins_see_public_projects_entries: bool,
    pub project_favorites: bool,
    pub project_grouping_label: Option<String>,
    pub project_picker_special_filter: bool,
    pub round: Option<Round>,
    pub time_rounding_in_reports: bool,
    pub track_time_down_to_second: bool,
    pub is_project_public_by_default: bool,
    pub feature_subscription_type: Option<String>,
}

/// A workspace's automatic time-entry locking rule.
#[derive(Debug, Clone)]
pub struct AutomaticLock {
    pub change_day: String,
    pub day_of_month: String,
    pub first_day: String,
    pub older_than_period: String,
    pub older_than_value: String,
    pub kind: String,
}

/// A workspace's time rounding rule.
#[derive(Debug, Clone)]
pub struct Round {
    pub minutes: String,
    pub round: String,
}

/// A workspace fetched without an id carries the empty id.
impl Id for Workspace {
    open spec fn sid(&self) -> Seq<char> {
        match self.id {
            Option::Some(s) => s@,
            Option::None => Seq::empty(),
        }
    }

    open spec fn slabel(&self) -> Seq<char> {
        self.name@
    }

    fn id(&self) -> (r: String) {
        match &self.id {
            Some(s) => s.clone(),
            None => String::new(),
        }
    }

    fn label(&self) -> (r: String) {
        self.name.clone()
    }

    fn dup(&self) -> (r: Workspace) {
        Workspace {
            hourly_rate: self.hourly_rate.clone(),
            id: self.id.clone(),
            image_url: self.image_url.clone(),
            memberships: self.memberships.clone(),
            name: self.name.clone(),
            workspace_settings: self.workspace_settings.clone(),
        }
    }
}

impl EndPoint for Workspace {
    open spec fn spec_endpoint(config: Config) -> Result<Seq<char>, Error> {
        Result::Ok("/workspaces"@)
    }

    fn endpoint(config: &Config) -> (r: Result<String, Error>) {
        Ok("/workspaces".to_owned())
    }
}

} // verus!
