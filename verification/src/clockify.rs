//! The application state: the input mode, the persisted configuration, and
//! the state machine that reacts to key presses and to data handed back by
//! the remote service.  Remote calls themselves happen outside the
//! library; the functions here only decide what to ask for and how every
//! answer changes the state.

use vstd::prelude::*;
use vstd::string::StringExecFns;
use crate::api::project::Project;
use crate::api::tag::Tag;
use crate::api::task::Task;
use crate::api::time_entry::TimeEntry;
use crate::api::workspace::Workspace;
use crate::api::{EndpointParameters, ParameterValue};
use crate::error::Error;
use crate::text::{
    clone_opt_string, clone_opt_string_vec, clone_string_vec, join_strings, join_with,
    opt_or_empty, seq_views,
};
use crate::ui::components::{
    filter_indices, find_first, same_but_selected, Id, InputBox, StatefulList,
};
use crate::ui::{Key, KeyMod, Screen};

verus! {

/// The input mode: keys either navigate, edit a text field, or extend the
/// list filter.
#[derive(Debug, Clone, Copy, PartialEq, Eq, Structural)]
pub enum AppMode {
    Navigation,
    Edit,
    Search,
}

/// The display name of an input mode.
pub open spec fn mode_name(m: AppMode) -> Seq<char> {
    match m {
        AppMode::Navigation => "Navigation"@,
        AppMode::Edit => "Edit"@,
        AppMode::Search => "Search"@,
    }
}

impl AppMode {
    /// Whether keys currently navigate.
    pub fn is_navigation(&self) -> (r: bool)
        ensures
            r == (self is Navigation),
    {
        matches!(self, AppMode::Navigation)
    }

    /// Whether keys currently edit a text field.
    pub fn is_edit(&self) -> (r: bool)
        ensures
            r == (self is Edit),
    {
        matches!(self, AppMode::Edit)
    }

    /// Whether keys currently extend the list filter.
    pub fn is_search(&self) -> (r: bool)
        ensures
            r == (self is Search),
    {
        matches!(self, AppMode::Search)
    }

    /// The mode's display name.
    pub fn name(&self) -> (r: String)
        ensures
            r@ == mode_name(*self),
    {
        match self {
            AppMode::Navigation => "Navigation".to_owned(),
            AppMode::Edit => "Edit".to_owned(),
            AppMode::Search => "Search".to_owned(),
        }
    }
}

/// The locally persisted configuration: the base URL of the service, the
/// API key, and the remembered workspace, project and user.
#[derive(Debug, Clone)]
pub struct Config {
    pub base_url: String,
    pub api_key: Option<String>,
    pub workspace_id: Option<String>,
    pub project_id: Option<String>,
    pub user_id: Option<String>,
}

impl Default for Config {
    /// The configuration before anything is known: the public base URL
    /// and nothing else.
    fn default() -> (c: Config)
        ensures
            c.base_url@ == crate::default_base_url(),
            c.api_key is None,
            c.workspace_id is None,
            c.project_id is None,
            c.user_id is None,
    {
        Config {
            base_url: "https://api.clockify.me/api/v1".to_owned(),
            api_key: None,
            workspace_id: None,
            project_id: None,
            user_id: None,
        }
    }
}

/// The remote work a key press asks for: none, or starting, stopping or
/// updating the current time entry.
#[derive(Debug, Clone, Copy, PartialEq, Eq, Structural)]
pub enum EntryAction {
    Idle,
    Start,
    Stop,
    Update,
}

/// Which collections the loading screen must fetch; workspaces are always
/// fetched.
#[derive(Debug, Clone, Copy, PartialEq, Eq, Structural)]
pub struct LoadPlan {
    pub tags: bool,
    pub projects: bool,
    pub tasks: bool,
    pub time_entries: bool,
}

/// The whole interactive state of the client.
#[derive(Debug, Clone)]
pub struct App {
    pub title: String,
    pub should_quit: bool,
    pub config: Config,
    pub current_screen: Screen,
    pub current_entry_id: Option<String>,
    pub current_mode: AppMode,
    pub workspaces: StatefulList<Workspace>,
    pub projects: StatefulList<Project>,
    pub tasks: StatefulList<Task>,
    pub tags: StatefulList<Tag>,
    pub description: InputBox,
    pub time_entries: StatefulList<TimeEntry>,
    pub error: Option<Error>,
}

/// The ids of a list's selected records, in backing order.
pub open spec fn selected_sids<T: Id>(l: StatefulList<T>) -> Seq<Seq<char>> {
    filter_indices(l.sids(), l.sel()).map_values(|k: int| l.items@[k].sid())
}

impl App {
    /// A fresh application on the loading screen, with a default
    /// configuration and empty lists.
    pub fn new(title: &str) -> (r: App)
        ensures
            r.title@ == title@,
            r.should_quit == false,
            r.config.base_url@ == crate::default_base_url(),
            r.config.api_key is None,
            r.config.workspace_id is None,
            r.config.project_id is None,
            r.config.user_id is None,
            r.current_screen is Loading,
            r.current_entry_id is None,
            r.current_mode is Navigation,
            r.error is None,
            r.workspaces.items@.len() == 0 && r.workspaces.selected@.len() == 0
                && r.workspaces.search_text@.len() == 0 && r.workspaces.highlighted is None
                && !r.workspaces.multiselect && r.workspaces.title@ == "Select a workspace: "@,
            r.projects.items@.len() == 0 && r.projects.selected@.len() == 0
                && r.projects.search_text@.len() == 0 && r.projects.highlighted is None
                && !r.projects.multiselect && r.projects.title@ == "Select a project: "@,
            r.tasks.items@.len() == 0 && r.tasks.selected@.len() == 0
                && r.tasks.search_text@.len() == 0 && r.tasks.highlighted is None
                && !r.tasks.multiselect && r.tasks.title@ == "Select a task: "@,
            r.tags.items@.len() == 0 && r.tags.selected@.len() == 0 && r.tags.search_text@.len()
                == 0 && r.tags.highlighted is None && r.tags.multiselect && r.tags.title@
                == "Select a tag: "@,
            r.time_entries.items@.len() == 0 && r.time_entries.selected@.len() == 0
                && r.time_entries.search_text@.len() == 0 && r.time_entries.highlighted is None
                && !r.time_entries.multiselect && r.time_entries.title@
                == "Select a time entry: "@,
            r.description.prompt@ == "Edit the time entry description: "@,
            r.description.text@.len() == 0,
    {
        App {
            title: title.to_owned(),
            should_quit: false,
            config: Config::default(),
            current_screen: Screen::Loading,
            current_entry_id: None,
            current_mode: AppMode::Navigation,
            workspaces: StatefulList::with_items(
                Vec::new(),
                "Select a workspace: ".to_owned(),
                false,
            ),
            projects: StatefulList::with_items(Vec::new(), "Select a project: ".to_owned(), false),
            tasks: StatefulList::with_items(Vec::new(), "Select a task: ".to_owned(), false),
            tags: StatefulList::with_items(Vec::new(), "Select a tag: ".to_owned(), true),
            description: InputBox::new("Edit the time entry description: "),
            time_entries: StatefulList::with_items(
                Vec::new(),
                "Select a time entry: ".to_owned(),
                false,
            ),
            error: None,
        }
    }

    /// The heading a renderer shows: the title and the input mode.
    pub fn status_line(&self) -> (r: String)
        ensures
            r@ == self.title@ + " ("@ + mode_name(self.current_mode) + " Mode)"@,
    {
        let mut s = self.title.clone();
        s.append(" (");
        let m = self.current_mode.name();
        s.append(m.as_str());
        s.append(" Mode)");
        s
    }

    /// Relies on `chrono::Utc::now` and `chrono::DateTime::format`: the
    /// current UTC time, rendered as `%Y-%m-%dT%H:%M:%S.000Z`.  Nothing
    /// is promised of the value: it depends on the clock.
    #[verifier::external_body]
    pub fn current_formatted_time(&self) -> String {
        let utc: chrono::DateTime<chrono::Utc> = chrono::Utc::now();
        format!("{}", utc.format("%Y-%m-%dT%H:%M:%S.000Z"))
    }

    /// Copies the current selections into a time entry: the selected
    /// project and task if any, all selected tags, and the description
    /// text.  Everything else is kept from `entry`.
    pub fn apply_selections(&self, entry: TimeEntry) -> (r: TimeEntry)
        ensures
            match self.projects.first_selected() {
                Option::Some(k) => r.project_id matches Some(p) && p@
                    == self.projects.items@[k].sid(),
                Option::None => r.project_id == entry.project_id,
            },
            match self.tasks.first_selected() {
                Option::Some(k) => r.task_id matches Some(t) && t@ == self.tasks.items@[k].sid(),
                Option::None => r.task_id == entry.task_id,
            },
            r.tag_ids matches Some(ts) && seq_views(ts@) == selected_sids(self.tags),
            r.description matches Some(d) && d@ == self.description.text@,
            r.start == entry.start,
            r.end == entry.end,
            r.id == entry.id,
            r.billable == entry.billable,
            r.is_locked == entry.is_locked,
            r.time_interval == entry.time_interval,
            r.user_id == entry.user_id,
            r.workspace_id == entry.workspace_id,
            r.custom_field_values == entry.custom_field_values,
    {
        let mut e = entry;
        if let Some(p) = self.projects.get_selected_item() {
            e.project_id = Some(p.id());
        }
        if let Some(t) = self.tasks.get_selected_item() {
            e.task_id = Some(t.id());
        }
        let sel_tags = self.tags.get_selected_items();
        let ghost target = selected_sids(self.tags);
        let mut ids: Vec<String> = Vec::new();
        let mut j: usize = 0;
        assert(seq_views(ids@) =~= target.take(0));
        while j < sel_tags.len()
            invariant
                j <= sel_tags@.len(),
                sel_tags@.len() == filter_indices(self.tags.sids(), self.tags.sel()).len(),
                target == selected_sids(self.tags),
                target.len() == sel_tags@.len(),
                forall|a: int|
                    0 <= a < sel_tags@.len() ==> *(#[trigger] sel_tags@[a])
                        == self.tags.items@[filter_indices(self.tags.sids(), self.tags.sel())[a]],
                seq_views(ids@) == target.take(j as int),
            decreases sel_tags@.len() - j,
        {
            let tid = sel_tags[j].id();
            proof {
                let fi = filter_indices(self.tags.sids(), self.tags.sel());
                assert(target[j as int] == self.tags.items@[fi[j as int]].sid());
                assert(seq_views(ids@.push(tid)) =~= seq_views(ids@).push(tid@));
                assert(target.take(j as int).push(target[j as int]) =~= target.take(j as int + 1));
            }
            ids.push(tid);
            j = j + 1;
        }
        proof {
            assert(target.take(target.len() as int) =~= target);
        }
        e.tag_ids = Some(ids);
        e.description = Some(self.description.text.clone());
        e
    }

    /// The entry to send when starting the timer: the current selections
    /// over `base`, no id, no end, no stored interval, and the current
    /// time as start.
    pub fn start_entry_payload(&self, base: TimeEntry) -> (r: TimeEntry)
        ensures
            r.id is None,
            r.end is None,
            r.time_interval is None,
            r.start is Some,
            match self.projects.first_selected() {
                Option::Some(k) => r.project_id matches Some(p) && p@
                    == self.projects.items@[k].sid(),
                Option::None => r.project_id == base.project_id,
            },
            match self.tasks.first_selected() {
                Option::Some(k) => r.task_id matches Some(t) && t@ == self.tasks.items@[k].sid(),
                Option::None => r.task_id == base.task_id,
            },
            r.tag_ids matches Some(ts) && seq_views(ts@) == selected_sids(self.tags),
            r.description matches Some(d) && d@ == self.description.text@,
            r.billable == base.billable,
            r.is_locked == base.is_locked,
            r.user_id == base.user_id,
            r.workspace_id == base.workspace_id,
            r.custom_field_values == base.custom_field_values,
    {
        let mut e = self.apply_selections(base);
        e.id = None;
        e.end = None;
        e.time_interval = None;
        e.start = Some(self.current_formatted_time());
        e
    }

    /// The entry to send when stopping the timer: empty but for the
    /// current time as end.
    pub fn stop_entry_payload(&self) -> (r: TimeEntry)
        ensures
            r.end is Some,
            r.start is None,
            r.id is None,
            r.description is None,
            r.project_id is None,
            r.task_id is None,
            r.tag_ids is None,
            r.time_interval is None,
            r.billable is None,
            r.is_locked is None,
            r.user_id is None,
            r.workspace_id is None,
            r.custom_field_values is None,
    {
        let mut e = TimeEntry::default();
        e.end = Some(self.current_formatted_time());
        e
    }

    /// Remembers the id of an entry the service just created.
    pub fn record_created_entry(&mut self, id: Option<String>)
        ensures
            *final(self) == (App { current_entry_id: id, ..*old(self) }),
    {
        self.current_entry_id = id;
    }

    /// Remembers the id of the current user.
    pub fn set_user_id(&mut self, id: Option<String>)
        ensures
            *final(self) == (App {
                config: (Config { user_id: id, ..old(self).config }),
                ..*old(self)
            }),
    {
        self.config.user_id = id;
    }

    /// The URL of the currently running entry, when there is one; asking
    /// for it without a configured workspace is the error the caller
    /// surfaces.
    pub fn current_entry_request(&self) -> (r: Result<Option<String>, Error>)
        ensures
            match r {
                Result::Ok(opt) => match (self.current_entry_id, self.config.workspace_id) {
                    (Option::Some(eid), Option::Some(wid)) => opt matches Some(u) && u@
                        == self.config.base_url@ + "/workspaces/"@ + wid@ + "/time-entries/"@
                        + eid@,
                    (Option::None, _) => opt is None,
                    _ => false,
                },
                Result::Err(e) => e == Error::MissingWorkspace && self.current_entry_id is Some
                    && self.config.workspace_id is None,
            },
    {
        let eid = match &self.current_entry_id {
            Some(eid) => eid,
            None => {
                return Ok(None);
            },
        };
        let wid = match &self.config.workspace_id {
            Some(wid) => wid,
            None => {
                return Err(Error::MissingWorkspace);
            },
        };
        let mut url = self.config.base_url.clone();
        url.append("/workspaces/");
        url.append(wid.as_str());
        url.append("/time-entries/");
        url.append(eid.as_str());
        Ok(Some(url))
    }

    /// Which collections the loading screen fetches, besides the
    /// workspaces, which it always fetches: whatever the configuration
    /// already names a parent for.
    pub fn loading_plan(&self) -> (r: LoadPlan)
        ensures
            r.tags == (self.config.workspace_id is Some),
            r.projects == (self.config.workspace_id is Some),
            r.tasks == (self.config.project_id is Some),
            r.time_entries == (self.config.user_id is Some),
    {
        LoadPlan {
            tags: self.config.workspace_id.is_some(),
            projects: self.config.workspace_id.is_some(),
            tasks: self.config.project_id.is_some(),
            time_entries: self.config.user_id.is_some(),
        }
    }

    /// Leaves the loading screen: to the workspace selection when no
    /// workspace is configured yet, to the home screen otherwise.
    pub fn finish_loading(&mut self)
        ensures
            *final(self) == (App {
                current_screen: if old(self).config.workspace_id is None {
                    Screen::WorkspaceSelection
                } else {
                    Screen::Home
                },
                ..*old(self)
            }),
    {
        if self.config.workspace_id.is_none() {
            self.current_screen = Screen::WorkspaceSelection;
        } else {
            self.current_screen = Screen::Home;
        }
    }

    /// Sends the home screen to the workspace selection when no workspace
    /// is configured; says whether it did.
    pub fn home_redirect(&mut self) -> (r: bool)
        ensures
            r == (old(self).config.workspace_id is None),
            r ==> *final(self) == (App {
                current_screen: Screen::WorkspaceSelection,
                ..*old(self)
            }),
            !r ==> *final(self) == *old(self),
    {
        if self.config.workspace_id.is_none() {
            self.current_screen = Screen::WorkspaceSelection;
            true
        } else {
            false
        }
    }

    /// Applies one key press: control-q quits; in navigation mode the
    /// letter keys switch screens or modes and ask for remote work on the
    /// current entry; outside navigation mode, escape returns to it.  The
    /// returned action is the remote work the caller must perform.
    pub fn key_event(&mut self, m: KeyMod, key: Key) -> (act: EntryAction)
        ensures
            app_key_rel(*old(self), *final(self), m, key, act),
    {
        match m {
            KeyMod::Ctrl => {
                if let Key::Char(c) = key {
                    if c == 'q' {
                        self.should_quit = true;
                    }
                }
                EntryAction::Idle
            },
            KeyMod::Bare => {
                if self.current_mode.is_navigation() {
                    match key {
                        Key::Char(c) => {
                            if c == 'w' {
                                self.current_screen = Screen::WorkspaceSelection;
                                EntryAction::Idle
                            } else if c == 't' {
                                self.current_screen = Screen::TimeEntrySelection;
                                EntryAction::Idle
                            } else if c == 'p' {
                                self.current_screen = Screen::ProjectSelection;
                                EntryAction::Idle
                            } else if c == 'g' {
                                self.current_screen = Screen::TagSelection;
                                EntryAction::Idle
                            } else if c == 'y' {
                                self.current_screen = Screen::TaskSelection;
                                let mut clear = false;
                                if let Some(cpid) = &self.config.project_id {
                                    if let Some(sp) = self.projects.get_selected_item() {
                                        let spid = sp.id();
                                        if !spid.eq(cpid) {
                                            clear = true;
                                        }
                                    }
                                }
                                if clear {
                                    self.tasks.items = Vec::new();
                                }
                                EntryAction::Idle
                            } else if c == 'd' {
                                self.current_screen = Screen::DescriptionEdit;
                                EntryAction::Idle
                            } else if c == 'h' {
                                self.current_screen = Screen::Home;
                                EntryAction::Idle
                            } else if c == 'i' {
                                self.current_mode = AppMode::Edit;
                                EntryAction::Idle
                            } else if c == '/' {
                                self.current_mode = AppMode::Search;
                                EntryAction::Idle
                            } else if c == 'u' {
                                EntryAction::Update
                            } else if c == 's' {
                                EntryAction::Start
                            } else if c == 'e' {
                                EntryAction::Stop
                            } else {
                                EntryAction::Idle
                            }
                        },
                        _ => EntryAction::Idle,
                    }
                } else {
                    if let Key::Esc = key {
                        self.current_mode = AppMode::Navigation;
                    }
                    EntryAction::Idle
                }
            },
        }
    }
}

/// Whether the task list is cleared when entering the task selection: a
/// project is configured, some project is selected, and the two differ.
pub open spec fn tasks_cleared(pre: App) -> bool {
    match (pre.config.project_id, pre.projects.first_selected()) {
        (Option::Some(pid), Option::Some(k)) => pid@ != pre.projects.items@[k].sid(),
        _ => false,
    }
}

/// How a navigation-mode character key relates the state after the press
/// to the state before it, and which action it asks for.
pub open spec fn app_nav_char_rel(pre: App, post: App, c: char, act: EntryAction) -> bool {
    if c == 'w' {
        act is Idle && post == App { current_screen: Screen::WorkspaceSelection, ..pre }
    } else if c == 't' {
        act is Idle && post == App { current_screen: Screen::TimeEntrySelection, ..pre }
    } else if c == 'p' {
        act is Idle && post == App { current_screen: Screen::ProjectSelection, ..pre }
    } else if c == 'g' {
        act is Idle && post == App { current_screen: Screen::TagSelection, ..pre }
    } else if c == 'y' {
        &&& act is Idle
        &&& if tasks_cleared(pre) {
            &&& post.tasks.items@.len() == 0
            &&& post.tasks.selected == pre.tasks.selected
            &&& post.tasks.search_text == pre.tasks.search_text
            &&& post.tasks.title == pre.tasks.title
            &&& post.tasks.multiselect == pre.tasks.multiselect
            &&& post == App { current_screen: Screen::TaskSelection, tasks: post.tasks, ..pre }
        } else {
            post == App { current_screen: Screen::TaskSelection, ..pre }
        }
    } else if c == 'd' {
        act is Idle && post == App { current_screen: Screen::DescriptionEdit, ..pre }
    } else if c == 'h' {
        act is Idle && post == App { current_screen: Screen::Home, ..pre }
    } else if c == 'i' {
        act is Idle && post == App { current_mode: AppMode::Edit, ..pre }
    } else if c == '/' {
        act is Idle && post == App { current_mode: AppMode::Search, ..pre }
    } else if c == 'u' {
        act is Update && post == pre
    } else if c == 's' {
        act is Start && post == pre
    } else if c == 'e' {
        act is Stop && post == pre
    } else {
        act is Idle && post == pre
    }
}

/// How `key_event` relates the state after the call to the state before
/// it, for every modifier, mode and key.
pub open spec fn app_key_rel(pre: App, post: App, m: KeyMod, key: Key, act: EntryAction) -> bool {
    match m {
        KeyMod::Ctrl => {
            &&& act is Idle
            &&& match key {
                Key::Char(c) => if c == 'q' {
                    post == App { should_quit: true, ..pre }
                } else {
                    post == pre
                },
                _ => post == pre,
            }
        },
        KeyMod::Bare => match pre.current_mode {
            AppMode::Navigation => match key {
                Key::Char(c) => app_nav_char_rel(pre, post, c, act),
                _ => post == pre && act is Idle,
            },
            _ => {
                &&& act is Idle
                &&& match key {
                    Key::Esc => post == App { current_mode: AppMode::Navigation, ..pre },
                    _ => post == pre,
                }
            },
        },
    }
}

/// The label of the record of `l` that carries `id`, or the empty string
/// when none does.
pub open spec fn name_by_id<T: Id>(l: StatefulList<T>, id: Seq<char>) -> Seq<char> {
    match find_first(l.sids(), id) {
        Option::Some(k) => l.items@[k].slabel(),
        Option::None => Seq::empty(),
    }
}

/// The name of the tag of `l` that carries `id`, or "Unknown" when none
/// does.
pub open spec fn tag_name(l: StatefulList<Tag>, id: Seq<char>) -> Seq<char> {
    match find_first(l.sids(), id) {
        Option::Some(k) => l.items@[k].slabel(),
        Option::None => "Unknown"@,
    }
}

/// The names of an entry's tags, resolved against the tag list.
pub open spec fn entry_tag_names(l: StatefulList<Tag>, e: TimeEntry) -> Seq<Seq<char>> {
    match e.tag_ids {
        Option::Some(ids) => seq_views(ids@).map_values(|id: Seq<char>| tag_name(l, id)),
        Option::None => Seq::empty(),
    }
}

/// What adopting a running entry changes: the entry's id becomes current,
/// its project and tags become the selections, and nothing else moves.
pub open spec fn adopted_lists(pre: App, post: App, first: TimeEntry) -> bool {
    &&& post.current_entry_id == first.id
    &&& match first.project_id {
        Option::Some(pid) => same_but_selected(pre.projects, post.projects)
            && post.projects.sel() == seq![pid@],
        Option::None => post.projects == pre.projects,
    }
    &&& match first.tag_ids {
        Option::Some(ts) => same_but_selected(pre.tags, post.tags) && post.tags.sel()
            == seq_views(ts@),
        Option::None => post.tags == pre.tags,
    }
    &&& post.title == pre.title
    &&& post.should_quit == pre.should_quit
    &&& post.config == pre.config
    &&& post.current_screen == pre.current_screen
    &&& post.current_mode == pre.current_mode
    &&& post.workspaces == pre.workspaces
    &&& post.tasks == pre.tasks
    &&& post.time_entries == pre.time_entries
    &&& post.error == pre.error
    &&& post.description.prompt == pre.description.prompt
}

/// How `adopt_running_entry` relates the state after the call to the
/// state before it: the first fetched entry is adopted exactly when it is
/// still running, and an entry without an interval or without a
/// description is the `MissingData` failure.
pub open spec fn adopt_rel(pre: App, post: App, entries: Seq<TimeEntry>, r: Result<
    (),
    Error,
>) -> bool {
    if entries.len() == 0 {
        r is Ok && post == pre
    } else {
        match entries[0].time_interval {
            Option::None => (r matches Err(e) && e == Error::MissingData) && post == pre,
            Option::Some(iv) => match iv.end {
                Option::Some(_) => r is Ok && post == pre,
                Option::None => {
                    &&& adopted_lists(pre, post, entries[0])
                    &&& match entries[0].description {
                        Option::Some(d) => r is Ok && post.description.text@ == d@,
                        Option::None => (r matches Err(e) && e == Error::MissingData)
                            && post.description == pre.description,
                    }
                },
            },
        }
    }
}

/// Whether the time-entry screen has a highlighted entry that can be
/// selected: one exists and carries a description.
pub open spec fn selectable_entry(pre: App) -> bool {
    match pre.time_entries.highlighted_sid() {
        Option::None => false,
        Option::Some(id) => pre.time_entries.items@[find_first(
            pre.time_entries.sids(),
            id,
        ).unwrap()].description is Some,
    }
}

/// How `select_time_entry` relates the state after the call to the state
/// before it: the highlighted entry's project, tags and description are
/// copied into the current selections, the entry becomes current, and
/// the screen returns home; without a highlighted entry nothing moves.
pub open spec fn select_rel(pre: App, post: App, r: Result<(), Error>) -> bool {
    match pre.time_entries.highlighted_sid() {
        Option::None => (r matches Err(e) && e == Error::MissingTimeEntry) && post == pre,
        Option::Some(id) => {
            let k = find_first(pre.time_entries.sids(), id).unwrap();
            let e = pre.time_entries.items@[k];
            &&& match e.project_id {
                Option::Some(pid) => same_but_selected(pre.projects, post.projects)
                    && post.projects.sel() == seq![pid@],
                Option::None => post.projects == pre.projects,
            }
            &&& match e.tag_ids {
                Option::Some(ts) => same_but_selected(pre.tags, post.tags) && post.tags.sel()
                    == seq_views(ts@),
                Option::None => post.tags == pre.tags,
            }
            &&& match e.description {
                Option::Some(d) => {
                    &&& r is Ok
                    &&& post.description.text@ == d@
                    &&& post.current_entry_id == e.id
                    &&& post.current_screen is Home
                },
                Option::None => {
                    &&& (r matches Err(er) && er == Error::MissingData)
                    &&& post.description == pre.description
                    &&& post.current_entry_id == pre.current_entry_id
                    &&& post.current_screen == pre.current_screen
                },
            }
            &&& post.description.prompt == pre.description.prompt
            &&& post.title == pre.title
            &&& post.should_quit == pre.should_quit
            &&& post.config == pre.config
            &&& post.current_mode == pre.current_mode
            &&& post.workspaces == pre.workspaces
            &&& post.tasks == pre.tasks
            &&& post.time_entries == pre.time_entries
            &&& post.error == pre.error
        },
    }
}

/// How `ensure_project_for_tasks` relates the state after the call to the
/// state before it: the configured project becomes the selected one, or
/// the first known one, and with no projects at all the call is the
/// `MissingData` failure.
pub open spec fn ensure_project_rel(pre: App, post: App, r: Result<(), Error>) -> bool {
    match pre.projects.first_selected() {
        Option::Some(k) => {
            &&& r is Ok
            &&& post.config.project_id matches Some(p) && p@ == pre.projects.items@[k].sid()
            &&& post == (App {
                config: (Config { project_id: post.config.project_id, ..pre.config }),
                ..pre
            })
        },
        Option::None => if pre.projects.items@.len() == 0 {
            (r matches Err(e) && e == Error::MissingData) && post == pre
        } else {
            &&& r is Ok
            &&& post.config.project_id matches Some(p) && p@ == pre.projects.items@[0].sid()
            &&& post == (App {
                config: (Config { project_id: post.config.project_id, ..pre.config }),
                ..pre
            })
        },
    }
}

impl App {
    /// Adopts the first of the fetched entries when it is still running:
    /// its id becomes the current entry, and its project, tags and
    /// description become the current selections.
    pub fn adopt_running_entry(&mut self, entries: &Vec<TimeEntry>) -> (r: Result<(), Error>)
        ensures
            adopt_rel(*old(self), *final(self), entries@, r),
    {
        if entries.len() == 0 {
            return Ok(());
        }
        let first = &entries[0];
        let running: bool = match &first.time_interval {
            None => {
                return Err(Error::MissingData);
            },
            Some(iv) => iv.end.is_none(),
        };
        if !running {
            return Ok(());
        }
        self.current_entry_id = clone_opt_string(&first.id);
        if let Some(pid) = &first.project_id {
            let mut sel: Vec<String> = Vec::new();
            sel.push(pid.clone());
            proof {
                assert(seq_views(sel@) =~= seq![pid@]);
            }
            self.projects.selected = sel;
        }
        if let Some(ts) = &first.tag_ids {
            self.tags.selected = clone_string_vec(ts);
        }
        match &first.description {
            Some(d) => {
                self.description.text = d.clone();
                Ok(())
            },
            None => Err(Error::MissingData),
        }
    }

    /// Copies the highlighted time entry into the current selections and
    /// returns to the home screen.
    pub fn select_time_entry(&mut self) -> (r: Result<(), Error>)
        ensures
            select_rel(*old(self), *final(self), r),
    {
        let picked = match self.time_entries.get_highlighted_item() {
            None => {
                return Err(Error::MissingTimeEntry);
            },
            Some(e) => (
                clone_opt_string(&e.id),
                clone_opt_string(&e.project_id),
                clone_opt_string_vec(&e.tag_ids),
                clone_opt_string(&e.description),
            ),
        };
        let (eid, pid, tids, desc) = picked;
        if let Some(p) = pid {
            let mut sel: Vec<String> = Vec::new();
            proof {
                assert(seq_views(sel@.push(p)) =~= seq![p@]);
            }
            sel.push(p);
            self.projects.selected = sel;
        }
        if let Some(ts) = tids {
            self.tags.selected = ts;
        }
        match desc {
            None => {
                return Err(Error::MissingData);
            },
            Some(d) => {
                self.description.text = d;
            },
        }
        self.current_entry_id = eid;
        self.current_screen = Screen::Home;
        Ok(())
    }

    /// Makes sure the configuration names a project before tasks are
    /// fetched: the selected project, or the first known one.
    pub fn ensure_project_for_tasks(&mut self) -> (r: Result<(), Error>)
        ensures
            ensure_project_rel(*old(self), *final(self), r),
    {
        let id: String = match self.projects.get_selected_item() {
            Some(p) => p.id(),
            None => {
                if self.projects.items.len() == 0 {
                    return Err(Error::MissingData);
                }
                self.projects.items[0].id()
            },
        };
        self.config.project_id = Some(id);
        Ok(())
    }

    /// The seven columns of a time entry's table row: description,
    /// project, task, the tag names joined by commas, start, end and
    /// duration.  Names are resolved against the current lists; a tag id
    /// no list knows reads as "Unknown", a project or task id as empty.
    pub fn entry_row(&self, e: &TimeEntry) -> (r: Vec<String>)
        ensures
            r@.len() == 7,
            r@[0]@ == e.slabel(),
            r@[1]@ == (match e.project_id {
                Option::Some(p) => name_by_id(self.projects, p@),
                Option::None => Seq::<char>::empty(),
            }),
            r@[2]@ == (match e.task_id {
                Option::Some(t) => name_by_id(self.tasks, t@),
                Option::None => Seq::<char>::empty(),
            }),
            r@[3]@ == join_with(entry_tag_names(self.tags, *e), ","@),
            r@[4]@ == (match e.time_interval {
                Option::Some(iv) => match iv.start {
                    Option::Some(s) => s@,
                    Option::None => Seq::<char>::empty(),
                },
                Option::None => Seq::<char>::empty(),
            }),
            r@[5]@ == (match e.time_interval {
                Option::Some(iv) => match iv.end {
                    Option::Some(s) => s@,
                    Option::None => Seq::<char>::empty(),
                },
                Option::None => Seq::<char>::empty(),
            }),
            r@[6]@ == (match e.time_interval {
                Option::Some(iv) => match iv.duration {
                    Option::Some(s) => s@,
                    Option::None => Seq::<char>::empty(),
                },
                Option::None => Seq::<char>::empty(),
            }),
    {
        let desc = e.label();
        let project: String = match &e.project_id {
            Some(pid) => match self.projects.get_by_id(pid.clone()) {
                Some(p) => p.label(),
                None => String::new(),
            },
            None => String::new(),
        };
        let task: String = match &e.task_id {
            Some(tid) => match self.tasks.get_by_id(tid.clone()) {
                Some(t) => t.label(),
                None => String::new(),
            },
            None => String::new(),
        };
        let ghost tnames = entry_tag_names(self.tags, *e);
        let mut names: Vec<String> = Vec::new();
        if let Some(ids) = &e.tag_ids {
            let mut j: usize = 0;
            assert(seq_views(names@) =~= tnames.take(0));
            while j < ids.len()
                invariant
                    j <= ids@.len(),
                    tnames == entry_tag_names(self.tags, *e),
                    e.tag_ids matches Some(ids2) && ids2 == *ids,
                    tnames.len() == ids@.len(),
                    seq_views(names@) == tnames.take(j as int),
                decreases ids@.len() - j,
            {
                let name: String = match self.tags.get_by_id(ids[j].clone()) {
                    Some(t) => t.label(),
                    None => "Unknown".to_owned(),
                };
                proof {
                    assert(tnames[j as int] == tag_name(self.tags, ids@[j as int]@));
                    assert(name@ == tnames[j as int]);
                    assert(seq_views(names@.push(name)) =~= seq_views(names@).push(name@));
                    assert(tnames.take(j as int).push(tnames[j as int]) =~= tnames.take(
                        j as int + 1,
                    ));
                }
                names.push(name);
                j = j + 1;
            }
            proof {
                assert(tnames.take(tnames.len() as int) =~= tnames);
            }
        } else {
            proof {
                assert(seq_views(names@) =~= tnames);
            }
        }
        let tag_string = join_strings(&names, ",");
        let (start, end, duration): (String, String, String) = match &e.time_interval {
            Some(iv) => (opt_or_empty(&iv.start), opt_or_empty(&iv.end), opt_or_empty(
                &iv.duration,
            )),
            None => (String::new(), String::new(), String::new()),
        };
        let mut r: Vec<String> = Vec::new();
        r.push(desc);
        r.push(project);
        r.push(task);
        r.push(tag_string);
        r.push(start);
        r.push(end);
        r.push(duration);
        r
    }
}

/// The query parameters that ask for the first page with one record.
pub fn first_page_params() -> (p: EndpointParameters)
    ensures
        p@.len() == 1,
        p@[0].0@ == "page-size"@,
        p@[0].1 matches ParameterValue::Integer(v) && v == 1,
{
    let mut p: EndpointParameters = Vec::new();
    p.push(("page-size".to_owned(), ParameterValue::Integer(1)));
    p
}

} // verus!
