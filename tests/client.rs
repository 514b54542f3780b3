use beeminder::command::{plan, request_for, Command, DatapointCommand, GoalCommand, Method, ResponseKind};
use beeminder::credentials::{Auth, ConfigError};
use beeminder::url::BeeminderUrl;

fn auth(user: Option<&str>, token: Option<&str>) -> Auth {
    Auth { username: user.map(|s| s.to_string()), auth_token: token.map(|s| s.to_string()) }
}

#[test]
fn flags_win_over_env_and_file() {
    let a = Auth::load(auth(Some("flag"), Some("ft")), auth(Some("env"), Some("et")), auth(Some("file"), Some("xt")));
    let c = a.credentials().ok().unwrap();
    assert_eq!(c.username, "flag");
    assert_eq!(c.auth_token, "ft");
}

#[test]
fn env_wins_over_file() {
    let a = Auth::load(auth(None, None), auth(Some("env"), None), auth(Some("file"), Some("xt")));
    let c = a.credentials().ok().unwrap();
    assert_eq!(c.username, "env");
    assert_eq!(c.auth_token, "xt");
}

#[test]
fn nothing_configured_is_an_error() {
    let a = Auth::load(auth(None, None), auth(None, None), Auth::default());
    assert_eq!(a.credentials().err(), Some(ConfigError::MissingUsernameAndToken));
}

#[test]
fn missing_token_is_named() {
    let a = Auth::load(auth(Some("u"), None), auth(None, None), Auth::default());
    assert_eq!(a.credentials().err(), Some(ConfigError::MissingToken));
    let b = Auth::load(auth(None, Some("t")), auth(None, None), Auth::default());
    assert_eq!(b.credentials().err(), Some(ConfigError::MissingUsername));
}

#[test]
fn empty_value_counts_as_missing() {
    let a = Auth::load(auth(Some(""), Some("t")), auth(Some("env"), None), Auth::default());
    assert_eq!(a.credentials().err(), Some(ConfigError::MissingUsername));
}

#[test]
fn plan_fails_before_any_request() {
    let mut requests = 0;
    match plan(auth(None, None), &Command::User) {
        Ok(_) => requests += 1,
        Err(e) => assert_eq!(e, ConfigError::MissingUsernameAndToken),
    }
    assert_eq!(requests, 0);
}

#[test]
fn url_holds_root_user_path_and_token() {
    let u = BeeminderUrl::new("alice", "abc123");
    let first = u.build("/goals.json");
    assert_eq!(first, "https://www.beeminder.com/api/v1/users/alice/goals.json?auth_token=abc123");
    let _other = u.build(".json");
    assert_eq!(u.build("/goals.json"), first);
    assert_eq!(BeeminderUrl::new("alice", "abc123").build("/goals.json"), first);
}

#[test]
fn requests_for_each_command() {
    let u = BeeminderUrl::new("bob", "t");
    let root = "https://www.beeminder.com/api/v1/users/bob";
    let r = request_for(&u, &Command::User);
    assert_eq!((r.method, r.response), (Method::Get, ResponseKind::User));
    assert_eq!(r.url, format!("{}.json?auth_token=t", root));
    let r = request_for(&u, &Command::Goal(GoalCommand::List));
    assert_eq!((r.method, r.response), (Method::Get, ResponseKind::Goals));
    assert_eq!(r.url, format!("{}/goals.json?auth_token=t", root));
    let r = request_for(&u, &Command::Goal(GoalCommand::Info { goal: "run".to_string() }));
    assert_eq!((r.method, r.response), (Method::Get, ResponseKind::Goal));
    assert_eq!(r.url, format!("{}/goals/run.json?auth_token=t", root));
    let r = request_for(&u, &Command::Datapoint(DatapointCommand::List { goal: "run".to_string() }));
    assert_eq!((r.method, r.response), (Method::Get, ResponseKind::Datapoints));
    assert_eq!(r.url, format!("{}/goals/run/datapoints.json?auth_token=t", root));
    let r = request_for(&u, &Command::Datapoint(DatapointCommand::Put { goal: "run".to_string() }));
    assert_eq!((r.method, r.response), (Method::Post, ResponseKind::Ignored));
    assert!(r.datapoints_from_input);
    assert!(r.form.is_empty());
    assert_eq!(r.url, format!("{}/goals/run/datapoints/create_all.json?auth_token=t", root));
    let r = request_for(
        &u,
        &Command::Datapoint(DatapointCommand::Delete { goal: "run".to_string(), id: "42".to_string() }),
    );
    assert_eq!((r.method, r.response), (Method::Delete, ResponseKind::Ignored));
    assert_eq!(r.url, format!("{}/goals/run/datapoints/42.json?auth_token=t", root));
}

#[test]
fn create_form_has_value_then_given_fields() {
    let u = BeeminderUrl::new("bob", "t");
    let cmd = Command::Datapoint(DatapointCommand::Create {
        goal: "run".to_string(),
        value: "2.5".to_string(),
        timestamp: Some("1672914600".to_string()),
        daystamp: None,
        comment: Some("easy".to_string()),
        request_id: Some("r1".to_string()),
    });
    let r = request_for(&u, &cmd);
    assert_eq!(r.method, Method::Post);
    assert!(!r.datapoints_from_input);
    let expected: Vec<(String, String)> = vec![
        ("value".to_string(), "2.5".to_string()),
        ("timestamp".to_string(), "1672914600".to_string()),
        ("comment".to_string(), "easy".to_string()),
        ("requestid".to_string(), "r1".to_string()),
    ];
    assert_eq!(r.form, expected);
    assert_eq!(r.url, "https://www.beeminder.com/api/v1/users/bob/goals/run/datapoints.json?auth_token=t");
}

#[test]
fn plan_uses_resolved_credentials() {
    let a = Auth::load(auth(Some("carol"), None), auth(None, Some("k")), Auth::default());
    let r = plan(a, &Command::User).ok().unwrap();
    assert_eq!(r.url, "https://www.beeminder.com/api/v1/users/carol.json?auth_token=k");
}

#[test]
fn token_is_query_encoded() {
    let u = BeeminderUrl::new("alice", "a&b c+\u{e9}#~-._Z9");
    assert_eq!(
        u.build(".json"),
        "https://www.beeminder.com/api/v1/users/alice.json?auth_token=a%26b%20c%2B%C3%A9%23~-._Z9"
    );
}

#[test]
fn plain_token_is_unchanged() {
    let u = BeeminderUrl::new("alice", "AZaz09");
    assert_eq!(u.build(""), "https://www.beeminder.com/api/v1/users/alice?auth_token=AZaz09");
}
