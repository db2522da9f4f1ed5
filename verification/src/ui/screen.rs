//! The key handling of each selection screen.
//!
//! Every handler applies one key press to the state and says which
//! collections the caller must fetch afresh: the handlers never talk to
//! the service themselves.  Rendering reads the state afterwards.

use vstd::prelude::*;
use crate::clockify::{select_rel, selectable_entry, App, Config};
use crate::error::Error;
use crate::text::clone_opt_string;
use crate::ui::components::{input_key_rel, list_key_rel};
use crate::ui::Key;

verus! {

/// How `workspace_selection` relates the state after the call to the
/// state before it: the key acts on the workspace list; entering stores
/// the selected workspace's id in the configuration, or is the
/// `MissingWorkspace` failure when nothing is selected; `r` asks for a
/// forced refresh.
pub open spec fn workspace_screen_rel(pre: App, post: App, key: Key, r: Result<
    bool,
    Error,
>) -> bool {
    &&& list_key_rel(pre.workspaces, post.workspaces, key, pre.current_mode)
    &&& post.title == pre.title
    &&& post.should_quit == pre.should_quit
    &&& post.current_screen == pre.current_screen
    &&& post.current_entry_id == pre.current_entry_id
    &&& post.current_mode == pre.current_mode
    &&& post.projects == pre.projects
    &&& post.tasks == pre.tasks
    &&& post.tags == pre.tags
    &&& post.description == pre.description
    &&& post.time_entries == pre.time_entries
    &&& post.error == pre.error
    &&& match key {
        Key::Enter => match post.workspaces.first_selected() {
            Option::Some(k) => {
                &&& r matches Ok(f) && f == false
                &&& post.config.workspace_id == post.workspaces.items@[k].id
                &&& post.config == (Config {
                    workspace_id: post.config.workspace_id,
                    ..pre.config
                })
            },
            Option::None => (r matches Err(e) && e == Error::MissingWorkspace) && post.config
                == pre.config,
        },
        Key::Char(c) => (r matches Ok(f) && f == (c == 'r')) && post.config == pre.config,
        _ => (r matches Ok(f) && f == false) && post.config == pre.config,
    }
}

/// Applies one key press on the workspace selection screen.
pub fn workspace_selection(app: &mut App, key: Key) -> (r: Result<bool, Error>)
    ensures
        workspace_screen_rel(*old(app), *final(app), key, r),
{
    app.workspaces.key_event(key, &app.current_mode);
    match key {
        Key::Enter => {
            let wid = match app.workspaces.get_selected_item() {
                Some(w) => clone_opt_string(&w.id),
                None => {
                    return Err(Error::MissingWorkspace);
                },
            };
            app.config.workspace_id = wid;
            Ok(false)
        },
        Key::Char(c) => Ok(c == 'r'),
        _ => Ok(false),
    }
}

/// How `time_entry_selection` relates the state after the call to the
/// state before it: entering copies the highlighted entry home, other
/// keys act on the entry list, and `r` asks for a forced refresh of all
/// fetched collections.
pub open spec fn time_entry_screen_rel(pre: App, post: App, key: Key, r: Result<
    bool,
    Error,
>) -> bool {
    match key {
        Key::Enter => if selectable_entry(pre) {
            &&& select_rel(pre, (App { time_entries: pre.time_entries, ..post }), Result::Ok(()))
            &&& list_key_rel(pre.time_entries, post.time_entries, key, pre.current_mode)
            &&& r matches Ok(f) && f == false
        } else {
            r matches Err(e) && select_rel(pre, post, Result::Err(e))
        },
        _ => {
            &&& list_key_rel(pre.time_entries, post.time_entries, key, pre.current_mode)
            &&& post == (App { time_entries: post.time_entries, ..pre })
            &&& match key {
                Key::Char(c) => r matches Ok(f) && f == (c == 'r'),
                _ => r matches Ok(f) && f == false,
            }
        },
    }
}

/// Applies one key press on the time-entry selection screen.
pub fn time_entry_selection(app: &mut App, key: Key) -> (r: Result<bool, Error>)
    ensures
        time_entry_screen_rel(*old(app), *final(app), key, r),
{
    let refresh: bool = match key {
        Key::Enter => {
            let res = app.select_time_entry();
            if let Err(e) = res {
                return Err(e);
            }
            false
        },
        Key::Char(c) => c == 'r',
        _ => false,
    };
    app.time_entries.key_event(key, &app.current_mode);
    Ok(refresh)
}

/// How a plain selection screen relates the state after a key press to
/// the state before it: the key acts on that screen's list and nothing
/// else moves; the result asks for a forced refresh.
pub open spec fn project_screen_rel(pre: App, post: App, key: Key, refresh: bool) -> bool {
    &&& list_key_rel(pre.projects, post.projects, key, pre.current_mode)
    &&& post == (App { projects: post.projects, ..pre })
    &&& refresh == (key matches Key::Char(c) && c == 'r')
}

/// Applies one key press on the project selection screen.
pub fn project_selection(app: &mut App, key: Key) -> (refresh: bool)
    ensures
        project_screen_rel(*old(app), *final(app), key, refresh),
{
    app.projects.key_event(key, &app.current_mode);
    match key {
        Key::Char(c) => c == 'r',
        _ => false,
    }
}

/// How the task selection screen relates the state after a key press to
/// the state before it.
pub open spec fn task_screen_rel(pre: App, post: App, key: Key, refresh: bool) -> bool {
    &&& list_key_rel(pre.tasks, post.tasks, key, pre.current_mode)
    &&& post == (App { tasks: post.tasks, ..pre })
    &&& refresh == (key matches Key::Char(c) && c == 'r')
}

/// Applies one key press on the task selection screen.
pub fn task_selection(app: &mut App, key: Key) -> (refresh: bool)
    ensures
        task_screen_rel(*old(app), *final(app), key, refresh),
{
    app.tasks.key_event(key, &app.current_mode);
    match key {
        Key::Char(c) => c == 'r',
        _ => false,
    }
}

/// How the tag selection screen relates the state after a key press to
/// the state before it.
pub open spec fn tag_screen_rel(pre: App, post: App, key: Key, refresh: bool) -> bool {
    &&& list_key_rel(pre.tags, post.tags, key, pre.current_mode)
    &&& post == (App { tags: post.tags, ..pre })
    &&& refresh == (key matches Key::Char(c) && c == 'r')
}

/// Applies one key press on the tag selection screen.
pub fn tag_selection(app: &mut App, key: Key) -> (refresh: bool)
    ensures
        tag_screen_rel(*old(app), *final(app), key, refresh),
{
    app.tags.key_event(key, &app.current_mode);
    match key {
        Key::Char(c) => c == 'r',
        _ => false,
    }
}

/// How the description screen relates the state after a key press to the
/// state before it: the key edits the description box, and entering
/// returns home.
pub open spec fn description_screen_rel(pre: App, post: App, key: Key) -> bool {
    &&& input_key_rel(pre.description, post.description, key, pre.current_mode)
    &&& post.current_screen == (if key is Enter {
        crate::ui::Screen::Home
    } else {
        pre.current_screen
    })
    &&& post == (App {
        description: post.description,
        current_screen: post.current_screen,
        ..pre
    })
}

/// Applies one key press on the description editing screen.
pub fn description_input(app: &mut App, key: Key)
    ensures
        description_screen_rel(*old(app), *final(app), key),
{
    app.description.key_event(key, &app.current_mode);
    if let Key::Enter = key {
        app.current_screen = crate::ui::Screen::Home;
    }
}

} // verus!
