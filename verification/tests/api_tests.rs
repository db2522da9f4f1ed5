use clockify::api::project::Project;
use clockify::api::tag::Tag;
use clockify::api::task::Task;
use clockify::api::time_entry::TimeEntry;
use clockify::api::user::User;
use clockify::api::workspace::Workspace;
use clockify::api::{add_params, format_url, EndPoint, EndpointError, ParameterValue};
use clockify::clockify::Config;
use clockify::error::Error;
use clockify::text::{join_strings, u32_to_string};

fn config_with(workspace: Option<&str>, project: Option<&str>) -> Config {
    let mut c = Config::default();
    c.workspace_id = workspace.map(|w| w.to_string());
    c.project_id = project.map(|p| p.to_string());
    c
}

#[test]
fn default_config_points_at_the_public_service() {
    let c = Config::default();
    assert_eq!(c.base_url, "https://api.clockify.me/api/v1");
    assert!(c.api_key.is_none() && c.workspace_id.is_none());
    assert!(c.project_id.is_none() && c.user_id.is_none());
}

#[test]
fn workspace_endpoint_needs_nothing() {
    let c = Config::default();
    assert_eq!(Workspace::endpoint(&c), Ok("/workspaces".to_string()));
}

#[test]
fn project_endpoint_needs_a_workspace() {
    assert_eq!(Project::endpoint(&Config::default()), Err(Error::MissingWorkspace));
    let c = config_with(Some("w1"), None);
    assert_eq!(Project::endpoint(&c), Ok("/workspaces/w1/projects".to_string()));
}

#[test]
fn tag_and_user_and_entry_endpoints() {
    let c = config_with(Some("w1"), None);
    assert_eq!(Tag::endpoint(&c), Ok("/workspaces/w1/tags".to_string()));
    assert_eq!(User::endpoint(&c), Ok("/workspaces/w1/users".to_string()));
    assert_eq!(TimeEntry::endpoint(&c), Ok("/workspaces/w1/time-entries".to_string()));
    assert_eq!(Tag::endpoint(&Config::default()), Err(Error::MissingWorkspace));
}

#[test]
fn task_endpoint_needs_workspace_then_project() {
    assert_eq!(Task::endpoint(&Config::default()), Err(Error::MissingWorkspace));
    assert_eq!(
        Task::endpoint(&config_with(Some("w1"), None)),
        Err(Error::MissingProject)
    );
    assert_eq!(
        Task::endpoint(&config_with(Some("w1"), Some("p1"))),
        Ok("/workspaces/w1/projects/p1/tasks".to_string())
    );
}

#[test]
fn format_url_assembles_base_id_and_params() {
    let c = config_with(Some("w1"), None);
    assert_eq!(
        format_url::<Tag>(None, None, &c),
        Ok("https://api.clockify.me/api/v1/workspaces/w1/tags".to_string())
    );
    assert_eq!(
        format_url::<Tag>(Some("t7"), None, &c),
        Ok("https://api.clockify.me/api/v1/workspaces/w1/tags/t7".to_string())
    );
    let params = vec![
        ("page-size".to_string(), ParameterValue::Integer(1)),
        ("archived".to_string(), ParameterValue::Boolean(false)),
    ];
    assert_eq!(
        format_url::<Tag>(None, Some(&params), &c),
        Ok(
            "https://api.clockify.me/api/v1/workspaces/w1/tags&page-size=1&archived=false"
                .to_string()
        )
    );
    assert_eq!(
        format_url::<Project>(None, None, &Config::default()),
        Err(Error::MissingWorkspace)
    );
}

#[test]
fn add_params_concatenates_every_pair() {
    let params = vec![
        ("a".to_string(), ParameterValue::String("x y".to_string())),
        ("b".to_string(), ParameterValue::Integer(42)),
        ("c".to_string(), ParameterValue::Boolean(true)),
    ];
    assert_eq!(add_params(&params), "&a=x y&b=42&c=true");
    assert_eq!(add_params(&Vec::new()), "");
}

#[test]
fn parameter_values_render_as_text() {
    assert_eq!(ParameterValue::String("abc".to_string()).render(), "abc");
    assert_eq!(ParameterValue::Boolean(true).render(), "true");
    assert_eq!(ParameterValue::Boolean(false).render(), "false");
    assert_eq!(ParameterValue::Integer(0).render(), "0");
    assert_eq!(ParameterValue::Integer(40100).render(), "40100");
}

#[test]
fn status_codes_classify_failures() {
    assert!(matches!(
        EndpointError::from_status(Some(401), "x".to_string()),
        EndpointError::Unauthorized
    ));
    assert!(matches!(
        EndpointError::from_status(Some(403), "x".to_string()),
        EndpointError::Forbidden
    ));
    assert!(matches!(
        EndpointError::from_status(Some(404), "x".to_string()),
        EndpointError::NotFound
    ));
    assert_eq!(
        EndpointError::from_status(Some(500), "boom".to_string()),
        EndpointError::Unknown("boom".to_string())
    );
    assert_eq!(
        EndpointError::from_status(None, "lost".to_string()),
        EndpointError::Unknown("lost".to_string())
    );
}

#[test]
fn endpoint_errors_wrap_into_the_crate_error() {
    let e: Error = EndpointError::NotFound.into();
    assert_eq!(e, Error::Api(EndpointError::NotFound));
}

#[test]
fn numbers_render_in_decimal() {
    assert_eq!(u32_to_string(0), "0");
    assert_eq!(u32_to_string(7), "7");
    assert_eq!(u32_to_string(10), "10");
    assert_eq!(u32_to_string(4294967295), "4294967295");
}

#[test]
fn join_strings_places_the_separator_between() {
    assert_eq!(join_strings(&Vec::new(), ", "), "");
    assert_eq!(join_strings(&vec!["a".to_string()], ", "), "a");
    assert_eq!(join_strings(&vec!["a".to_string(), "b".to_string()], ", "), "a, b");
}

#[test]
fn named_records_carry_only_their_name() {
    let t = Tag::named("urgent");
    assert_eq!(t.name, "urgent");
    assert!(t.id.is_none());
    let p = Project::named("side");
    assert_eq!(p.name, "side");
    assert!(p.id.is_none());
    let k = Task::named("chore");
    assert_eq!(k.name, "chore");
    assert_eq!(k.id, "");
}
