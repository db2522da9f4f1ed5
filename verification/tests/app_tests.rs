use clockify::api::project::Project;
use clockify::api::tag::Tag;
use clockify::api::time_entry::{TimeEntry, TimeInterval};
use clockify::clockify::{first_page_params, App, AppMode, EntryAction};
use clockify::error::Error;
use clockify::ui::screen;
use clockify::ui::{Key, KeyMod, Screen};

fn project(id: &str, name: &str) -> Project {
    let mut p = Project::named(name);
    p.id = Some(id.to_string());
    p
}

fn tag(id: &str, name: &str) -> Tag {
    Tag {
        id: Some(id.to_string()),
        name: name.to_string(),
        workspace_id: None,
        archived: None,
    }
}

fn entry(id: &str, description: Option<&str>) -> TimeEntry {
    let mut e = TimeEntry::default();
    e.id = Some(id.to_string());
    e.description = description.map(|d| d.to_string());
    e
}

#[test]
fn new_app_starts_loading_with_defaults() {
    let app = App::new("Clockify");
    assert_eq!(app.title, "Clockify");
    assert!(!app.should_quit);
    assert_eq!(app.config.base_url, "https://api.clockify.me/api/v1");
    assert!(app.config.api_key.is_none());
    assert!(matches!(app.current_screen, Screen::Loading));
    assert!(matches!(app.current_mode, AppMode::Navigation));
    assert!(app.workspaces.items.is_empty());
    assert_eq!(app.tags.title, "Select a tag: ");
    assert!(app.tags.multiselect);
    assert!(!app.projects.multiselect);
    assert_eq!(app.description.prompt, "Edit the time entry description: ");
}

#[test]
fn status_line_names_the_mode() {
    let app = App::new("Clockify");
    assert_eq!(app.status_line(), "Clockify (Navigation Mode)");
}

#[test]
fn ctrl_q_quits() {
    let mut app = App::new("t");
    let act = app.key_event(KeyMod::Ctrl, Key::Char('q'));
    assert!(app.should_quit);
    assert!(matches!(act, EntryAction::Idle));
}

#[test]
fn navigation_keys_switch_screens() {
    let mut app = App::new("t");
    app.key_event(KeyMod::Bare, Key::Char('w'));
    assert!(matches!(app.current_screen, Screen::WorkspaceSelection));
    app.key_event(KeyMod::Bare, Key::Char('t'));
    assert!(matches!(app.current_screen, Screen::TimeEntrySelection));
    app.key_event(KeyMod::Bare, Key::Char('p'));
    assert!(matches!(app.current_screen, Screen::ProjectSelection));
    app.key_event(KeyMod::Bare, Key::Char('g'));
    assert!(matches!(app.current_screen, Screen::TagSelection));
    app.key_event(KeyMod::Bare, Key::Char('y'));
    assert!(matches!(app.current_screen, Screen::TaskSelection));
    app.key_event(KeyMod::Bare, Key::Char('d'));
    assert!(matches!(app.current_screen, Screen::DescriptionEdit));
    app.key_event(KeyMod::Bare, Key::Char('h'));
    assert!(matches!(app.current_screen, Screen::Home));
}

#[test]
fn mode_keys_and_escape() {
    let mut app = App::new("t");
    app.key_event(KeyMod::Bare, Key::Char('i'));
    assert!(matches!(app.current_mode, AppMode::Edit));
    // In edit mode letters do not navigate.
    app.key_event(KeyMod::Bare, Key::Char('w'));
    assert!(matches!(app.current_screen, Screen::Loading));
    app.key_event(KeyMod::Bare, Key::Esc);
    assert!(matches!(app.current_mode, AppMode::Navigation));
    app.key_event(KeyMod::Bare, Key::Char('/'));
    assert!(matches!(app.current_mode, AppMode::Search));
}

#[test]
fn entry_action_keys_request_remote_work() {
    let mut app = App::new("t");
    assert!(matches!(app.key_event(KeyMod::Bare, Key::Char('s')), EntryAction::Start));
    assert!(matches!(app.key_event(KeyMod::Bare, Key::Char('e')), EntryAction::Stop));
    assert!(matches!(app.key_event(KeyMod::Bare, Key::Char('u')), EntryAction::Update));
    assert!(matches!(app.key_event(KeyMod::Bare, Key::Char('x')), EntryAction::Idle));
}

#[test]
fn switching_to_tasks_clears_them_when_the_project_changed() {
    let mut app = App::new("t");
    app.config.project_id = Some("p1".to_string());
    app.projects.set_items(vec![project("p2", "Other")]);
    app.projects.selected = vec!["p2".to_string()];
    app.tasks.items = vec![clockify::api::task::Task::named("leftover")];
    app.key_event(KeyMod::Bare, Key::Char('y'));
    assert!(matches!(app.current_screen, Screen::TaskSelection));
    assert!(app.tasks.items.is_empty());
}

#[test]
fn switching_to_tasks_keeps_them_when_the_project_agrees() {
    let mut app = App::new("t");
    app.config.project_id = Some("p1".to_string());
    app.projects.set_items(vec![project("p1", "Same")]);
    app.projects.selected = vec!["p1".to_string()];
    app.tasks.items = vec![clockify::api::task::Task::named("kept")];
    app.key_event(KeyMod::Bare, Key::Char('y'));
    assert_eq!(app.tasks.items.len(), 1);
}

#[test]
fn loading_plan_follows_the_configuration() {
    let mut app = App::new("t");
    let plan = app.loading_plan();
    assert!(!plan.tags && !plan.projects && !plan.tasks && !plan.time_entries);
    app.config.workspace_id = Some("w".to_string());
    app.config.user_id = Some("u".to_string());
    let plan = app.loading_plan();
    assert!(plan.tags && plan.projects && plan.time_entries);
    assert!(!plan.tasks);
}

#[test]
fn finish_loading_picks_the_first_screen() {
    let mut app = App::new("t");
    app.finish_loading();
    assert!(matches!(app.current_screen, Screen::WorkspaceSelection));
    let mut app = App::new("t");
    app.config.workspace_id = Some("w".to_string());
    app.finish_loading();
    assert!(matches!(app.current_screen, Screen::Home));
}

#[test]
fn home_redirects_without_a_workspace() {
    let mut app = App::new("t");
    assert!(app.home_redirect());
    assert!(matches!(app.current_screen, Screen::WorkspaceSelection));
    let mut app = App::new("t");
    app.config.workspace_id = Some("w".to_string());
    assert!(!app.home_redirect());
}

#[test]
fn adopt_running_entry_adopts_an_open_entry() {
    let mut app = App::new("t");
    let mut e = entry("e1", Some("writing"));
    e.project_id = Some("p1".to_string());
    e.tag_ids = Some(vec!["t1".to_string(), "t2".to_string()]);
    e.time_interval = Some(TimeInterval {
        duration: None,
        end: None,
        start: Some("2023-01-01T00:00:00Z".to_string()),
    });
    let r = app.adopt_running_entry(&vec![e]);
    assert!(r.is_ok());
    assert_eq!(app.current_entry_id, Some("e1".to_string()));
    assert_eq!(app.projects.selected, vec!["p1".to_string()]);
    assert_eq!(app.tags.selected, vec!["t1".to_string(), "t2".to_string()]);
    assert_eq!(app.description.text, "writing");
}

#[test]
fn adopt_running_entry_skips_a_finished_entry() {
    let mut app = App::new("t");
    let mut e = entry("e1", Some("done"));
    e.time_interval = Some(TimeInterval {
        duration: None,
        end: Some("2023-01-01T01:00:00Z".to_string()),
        start: Some("2023-01-01T00:00:00Z".to_string()),
    });
    let r = app.adopt_running_entry(&vec![e]);
    assert!(r.is_ok());
    assert!(app.current_entry_id.is_none());
    assert_eq!(app.description.text, "");
}

#[test]
fn adopt_running_entry_without_interval_is_missing_data() {
    let mut app = App::new("t");
    let r = app.adopt_running_entry(&vec![entry("e1", Some("x"))]);
    assert_eq!(r, Err(Error::MissingData));
}

#[test]
fn adopt_running_entry_on_empty_page_is_fine() {
    let mut app = App::new("t");
    assert!(app.adopt_running_entry(&Vec::new()).is_ok());
}

#[test]
fn apply_selections_copies_the_current_choices() {
    let mut app = App::new("t");
    app.projects.set_items(vec![project("p1", "Proj")]);
    app.projects.selected = vec!["p1".to_string()];
    app.tags.set_items(vec![tag("t1", "red"), tag("t2", "blue")]);
    app.tags.selected = vec!["t1".to_string(), "t2".to_string()];
    app.description.text = "notes".to_string();
    let out = app.apply_selections(TimeEntry::default());
    assert_eq!(out.project_id, Some("p1".to_string()));
    assert_eq!(out.task_id, None);
    assert_eq!(out.tag_ids, Some(vec!["t1".to_string(), "t2".to_string()]));
    assert_eq!(out.description, Some("notes".to_string()));
}

#[test]
fn start_entry_payload_strips_identity_and_sets_a_start() {
    let mut app = App::new("t");
    app.description.text = "work".to_string();
    let mut base = TimeEntry::default();
    base.id = Some("old".to_string());
    base.end = Some("then".to_string());
    let out = app.start_entry_payload(base);
    assert!(out.id.is_none());
    assert!(out.end.is_none());
    assert!(out.time_interval.is_none());
    assert!(out.start.is_some());
    assert_eq!(out.description, Some("work".to_string()));
}

#[test]
fn stop_entry_payload_holds_only_an_end() {
    let app = App::new("t");
    let out = app.stop_entry_payload();
    assert!(out.end.is_some());
    assert!(out.start.is_none());
    assert!(out.id.is_none());
    assert!(out.description.is_none());
}

#[test]
fn current_entry_request_names_the_entry_url() {
    let mut app = App::new("t");
    assert_eq!(app.current_entry_request(), Ok(None));
    app.current_entry_id = Some("e9".to_string());
    assert_eq!(app.current_entry_request(), Err(Error::MissingWorkspace));
    app.config.workspace_id = Some("w1".to_string());
    assert_eq!(
        app.current_entry_request(),
        Ok(Some(
            "https://api.clockify.me/api/v1/workspaces/w1/time-entries/e9".to_string()
        ))
    );
}

#[test]
fn ensure_project_for_tasks_prefers_the_selection() {
    let mut app = App::new("t");
    assert_eq!(app.ensure_project_for_tasks(), Err(Error::MissingData));
    app.projects.set_items(vec![project("p1", "One"), project("p2", "Two")]);
    assert!(app.ensure_project_for_tasks().is_ok());
    assert_eq!(app.config.project_id, Some("p1".to_string()));
    app.projects.selected = vec!["p2".to_string()];
    assert!(app.ensure_project_for_tasks().is_ok());
    assert_eq!(app.config.project_id, Some("p2".to_string()));
}

#[test]
fn entry_row_resolves_names() {
    let mut app = App::new("t");
    app.projects.set_items(vec![project("p1", "Proj")]);
    app.tags.set_items(vec![tag("t1", "red")]);
    let mut e = entry("e1", Some("writing"));
    e.project_id = Some("p1".to_string());
    e.tag_ids = Some(vec!["t1".to_string(), "t9".to_string()]);
    e.time_interval = Some(TimeInterval {
        duration: Some("PT1H".to_string()),
        end: None,
        start: Some("2023-01-01T00:00:00Z".to_string()),
    });
    let row = app.entry_row(&e);
    assert_eq!(row.len(), 7);
    assert_eq!(row[0], "writing");
    assert_eq!(row[1], "Proj");
    assert_eq!(row[2], "");
    assert_eq!(row[3], "red,Unknown");
    assert_eq!(row[4], "2023-01-01T00:00:00Z");
    assert_eq!(row[5], "");
    assert_eq!(row[6], "PT1H");
}

#[test]
fn entry_row_without_description_reads_no_description() {
    let app = App::new("t");
    let row = app.entry_row(&entry("e1", None));
    assert_eq!(row[0], "No Description");
    assert_eq!(row[3], "");
}

#[test]
fn select_time_entry_copies_the_highlighted_entry() {
    let mut app = App::new("t");
    let mut e = entry("e1", Some("copied"));
    e.project_id = Some("p1".to_string());
    e.tag_ids = Some(vec!["t1".to_string()]);
    app.time_entries.set_items(vec![e]);
    app.time_entries.highlighted = Some(0);
    assert!(app.select_time_entry().is_ok());
    assert_eq!(app.current_entry_id, Some("e1".to_string()));
    assert_eq!(app.projects.selected, vec!["p1".to_string()]);
    assert_eq!(app.tags.selected, vec!["t1".to_string()]);
    assert_eq!(app.description.text, "copied");
    assert!(matches!(app.current_screen, Screen::Home));
}

#[test]
fn select_time_entry_without_highlight_fails() {
    let mut app = App::new("t");
    assert_eq!(app.select_time_entry(), Err(Error::MissingTimeEntry));
}

#[test]
fn set_user_and_created_entry_are_remembered() {
    let mut app = App::new("t");
    app.set_user_id(Some("u1".to_string()));
    assert_eq!(app.config.user_id, Some("u1".to_string()));
    app.record_created_entry(Some("e1".to_string()));
    assert_eq!(app.current_entry_id, Some("e1".to_string()));
}

#[test]
fn first_page_params_ask_for_one_record() {
    let p = first_page_params();
    assert_eq!(p.len(), 1);
    assert_eq!(p[0].0, "page-size");
    assert_eq!(p[0].1.render(), "1");
}

#[test]
fn workspace_screen_enter_stores_the_workspace() {
    let mut app = App::new("t");
    let w = clockify::api::workspace::Workspace {
        hourly_rate: None,
        id: Some("w1".to_string()),
        image_url: None,
        memberships: None,
        name: "Main".to_string(),
        workspace_settings: None,
    };
    app.workspaces.set_items(vec![w]);
    assert_eq!(screen::workspace_selection(&mut app, Key::Enter), Err(Error::MissingWorkspace));
    app.workspaces.highlighted = Some(0);
    // Enter first toggles the highlighted workspace, then stores its id.
    assert_eq!(screen::workspace_selection(&mut app, Key::Enter), Ok(false));
    assert_eq!(app.config.workspace_id, Some("w1".to_string()));
    assert_eq!(screen::workspace_selection(&mut app, Key::Char('r')), Ok(true));
}

#[test]
fn selection_screens_report_the_refresh_key() {
    let mut app = App::new("t");
    assert!(screen::project_selection(&mut app, Key::Char('r')));
    assert!(!screen::project_selection(&mut app, Key::Char('x')));
    assert!(screen::task_selection(&mut app, Key::Char('r')));
    assert!(screen::tag_selection(&mut app, Key::Char('r')));
    assert_eq!(screen::time_entry_selection(&mut app, Key::Char('r')), Ok(true));
}

#[test]
fn description_screen_edits_and_returns_home() {
    let mut app = App::new("t");
    app.current_mode = AppMode::Edit;
    screen::description_input(&mut app, Key::Char('h'));
    screen::description_input(&mut app, Key::Char('i'));
    assert_eq!(app.description.text, "hi");
    screen::description_input(&mut app, Key::Backspace);
    assert_eq!(app.description.text, "h");
    screen::description_input(&mut app, Key::Enter);
    assert!(matches!(app.current_screen, Screen::Home));
}

#[test]
fn time_entry_screen_enter_without_highlight_fails() {
    let mut app = App::new("t");
    assert_eq!(
        screen::time_entry_selection(&mut app, Key::Enter),
        Err(Error::MissingTimeEntry)
    );
}
