use vstd::prelude::*;
use vstd::string::StringExecFns;

use crate::credentials::{Auth, ConfigError, config_error};
use crate::url::{BeeminderUrl, resource_url};

verus! {

pub enum GoalCommand {
    /// List all goals of the user.
    List,
    /// Show one goal.
    Info { goal: String },
}

pub enum DatapointCommand {
    /// List the datapoints of a goal.
    List { goal: String },
    /// Create one datapoint; the value is in decimal notation, the timestamp
    /// in seconds since the Unix epoch.
    Create {
        goal: String,
        value: String,
        timestamp: Option<String>,
        daystamp: Option<String>,
        comment: Option<String>,
        request_id: Option<String>,
    },
    /// Create the datapoints read from standard input.
    Put { goal: String },
    /// Delete one datapoint.
    Delete { goal: String, id: String },
}

/// A subcommand of the client.
pub enum Command {
    User,
    Goal(GoalCommand),
    Datapoint(DatapointCommand),
}

#[derive(PartialEq, Eq, Structural, Debug, Clone, Copy)]
pub enum Method {
    Get,
    Post,
    Delete,
}

/// What the response body is read as before it is printed.
#[derive(PartialEq, Eq, Structural, Debug, Clone, Copy)]
pub enum ResponseKind {
    User,
    Goals,
    Goal,
    Datapoints,
    /// The body is not read.
    Ignored,
}

/// The one HTTP call that carries out a command.
pub struct Request {
    pub method: Method,
    pub url: String,
    /// Form fields of the body, in order.
    pub form: Vec<(String, String)>,
    /// The body is the datapoints read from standard input, as one form field.
    pub datapoints_from_input: bool,
    pub response: ResponseKind,
}

pub open spec fn goal_path(goal: Seq<char>) -> Seq<char> {
    "/goals/"@ + goal + ".json"@
}

pub open spec fn datapoints_path(goal: Seq<char>) -> Seq<char> {
    "/goals/"@ + goal + "/datapoints.json"@
}

pub open spec fn create_all_path(goal: Seq<char>) -> Seq<char> {
    "/goals/"@ + goal + "/datapoints/create_all.json"@
}

pub open spec fn datapoint_path(goal: Seq<char>, id: Seq<char>) -> Seq<char> {
    "/goals/"@ + goal + "/datapoints/"@ + id + ".json"@
}

/// The resource path that a command addresses.
pub open spec fn path_of(cmd: Command) -> Seq<char> {
    match cmd {
        Command::User => ".json"@,
        Command::Goal(GoalCommand::List) => "/goals.json"@,
        Command::Goal(GoalCommand::Info { goal }) => goal_path(goal@),
        Command::Datapoint(DatapointCommand::List { goal }) => datapoints_path(goal@),
        Command::Datapoint(DatapointCommand::Create { goal, .. }) => datapoints_path(goal@),
        Command::Datapoint(DatapointCommand::Put { goal }) => create_all_path(goal@),
        Command::Datapoint(DatapointCommand::Delete { goal, id }) => datapoint_path(goal@, id@),
    }
}

pub open spec fn method_of(cmd: Command) -> Method {
    match cmd {
        Command::Datapoint(DatapointCommand::Create { .. }) => Method::Post,
        Command::Datapoint(DatapointCommand::Put { .. }) => Method::Post,
        Command::Datapoint(DatapointCommand::Delete { .. }) => Method::Delete,
        _ => Method::Get,
    }
}

pub open spec fn response_of(cmd: Command) -> ResponseKind {
    match cmd {
        Command::User => ResponseKind::User,
        Command::Goal(GoalCommand::List) => ResponseKind::Goals,
        Command::Goal(GoalCommand::Info { .. }) => ResponseKind::Goal,
        Command::Datapoint(DatapointCommand::List { .. }) => ResponseKind::Datapoints,
        _ => ResponseKind::Ignored,
    }
}

/// A form field for an optional setting: none where it is unset.
pub open spec fn optional_field(name: Seq<char>, o: Option<String>) -> Seq<(Seq<char>, Seq<char>)> {
    match o {
        Some(v) => seq![(name, v@)],
        None => seq![],
    }
}

/// The form fields of a command: for a new datapoint the value, then each
/// optional setting that is given; none for the other commands.
pub open spec fn form_of(cmd: Command) -> Seq<(Seq<char>, Seq<char>)> {
    match cmd {
        Command::Datapoint(
            DatapointCommand::Create { value, timestamp, daystamp, comment, request_id, .. },
        ) => seq![("value"@, value@)] + optional_field("timestamp"@, timestamp) + optional_field(
            "daystamp"@,
            daystamp,
        ) + optional_field("comment"@, comment) + optional_field("requestid"@, request_id),
        _ => seq![],
    }
}

pub open spec fn form_view(form: Seq<(String, String)>) -> Seq<(Seq<char>, Seq<char>)> {
    form.map_values(|p: (String, String)| (p.0@, p.1@))
}

fn path_for(cmd: &Command) -> (r: String)
    ensures
        r@ == path_of(*cmd),
{
    match cmd {
        Command::User => String::from_str(".json"),
        Command::Goal(GoalCommand::List) => String::from_str("/goals.json"),
        Command::Goal(GoalCommand::Info { goal }) => String::from_str("/goals/").concat(
            goal.as_str(),
        ).concat(".json"),
        Command::Datapoint(DatapointCommand::List { goal }) => String::from_str("/goals/").concat(
            goal.as_str(),
        ).concat("/datapoints.json"),
        Command::Datapoint(DatapointCommand::Create { goal, .. }) => String::from_str(
            "/goals/",
        ).concat(goal.as_str()).concat("/datapoints.json"),
        Command::Datapoint(DatapointCommand::Put { goal }) => String::from_str("/goals/").concat(
            goal.as_str(),
        ).concat("/datapoints/create_all.json"),
        Command::Datapoint(DatapointCommand::Delete { goal, id }) => String::from_str(
            "/goals/",
        ).concat(goal.as_str()).concat("/datapoints/").concat(id.as_str()).concat(".json"),
    }
}

fn push_optional(form: &mut Vec<(String, String)>, name: &str, o: &Option<String>)
    ensures
        form_view(final(form)@) == form_view(old(form)@) + optional_field(name@, *o),
{
    let ghost before = form@;
    if let Some(v) = o {
        form.push((String::from_str(name), v.clone()));
    }
    assert(form_view(form@) =~= form_view(before) + optional_field(name@, *o));
}

fn form_for(cmd: &Command) -> (r: Vec<(String, String)>)
    ensures
        form_view(r@) == form_of(*cmd),
{
    let mut form: Vec<(String, String)> = Vec::new();
    if let Command::Datapoint(
        DatapointCommand::Create { value, timestamp, daystamp, comment, request_id, .. },
    ) = cmd {
        form.push((String::from_str("value"), value.clone()));
        assert(form_view(form@) =~= seq![("value"@, value@)]);
        push_optional(&mut form, "timestamp", timestamp);
        push_optional(&mut form, "daystamp", daystamp);
        push_optional(&mut form, "comment", comment);
        push_optional(&mut form, "requestid", request_id);
    } else {
        assert(form_view(form@) =~= seq![]);
    }
    form
}

/// The HTTP call that carries out `cmd` for the user and token of `url`.
pub fn request_for(url: &BeeminderUrl, cmd: &Command) -> (r: Request)
    ensures
        r.method == method_of(*cmd),
        r.url@ == resource_url(url.user(), url.token(), path_of(*cmd)),
        form_view(r.form@) == form_of(*cmd),
        r.datapoints_from_input == (cmd is Datapoint && cmd->Datapoint_0 is Put),
        r.response == response_of(*cmd),
{
    let path = path_for(cmd);
    let method = match cmd {
        Command::Datapoint(DatapointCommand::Create { .. }) => Method::Post,
        Command::Datapoint(DatapointCommand::Put { .. }) => Method::Post,
        Command::Datapoint(DatapointCommand::Delete { .. }) => Method::Delete,
        _ => Method::Get,
    };
    let response = match cmd {
        Command::User => ResponseKind::User,
        Command::Goal(GoalCommand::List) => ResponseKind::Goals,
        Command::Goal(GoalCommand::Info { .. }) => ResponseKind::Goal,
        Command::Datapoint(DatapointCommand::List { .. }) => ResponseKind::Datapoints,
        _ => ResponseKind::Ignored,
    };
    let datapoints_from_input = match cmd {
        Command::Datapoint(DatapointCommand::Put { .. }) => true,
        _ => false,
    };
    Request {
        method,
        url: url.build(path.as_str()),
        form: form_for(cmd),
        datapoints_from_input,
        response,
    }
}

/// Resolves the credentials of `auth` and, only when both are present, the
/// HTTP call that carries out `cmd`; a missing credential is reported
/// before any request exists.
pub fn plan(auth: Auth, cmd: &Command) -> (r: Result<Request, ConfigError>)
    ensures
        r is Err <==> config_error(auth@) is Some,
        r matches Err(e) ==> config_error(auth@) == Some(e),
        r matches Ok(req) ==> {
            &&& req.method == method_of(*cmd)
            &&& req.url@ == resource_url(
                auth@.username->0,
                auth@.auth_token->0,
                path_of(*cmd),
            )
            &&& form_view(req.form@) == form_of(*cmd)
            &&& req.datapoints_from_input == (cmd is Datapoint && cmd->Datapoint_0 is Put)
            &&& req.response == response_of(*cmd)
        },
{
    match auth.credentials() {
        Err(e) => Err(e),
        Ok(c) => {
            let url = BeeminderUrl::new(c.username.as_str(), c.auth_token.as_str());
            Ok(request_for(&url, cmd))
        },
    }
}

} // verus!
