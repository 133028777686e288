//! The NSC proxy: the requests that its client sends, how the proxy checks
//! them, and the `nsc` command line that it builds from a request.
use vstd::prelude::*;

use crate::text::str_eq;

verus! {

/// The parameters of an NSC command.
#[derive(Debug, Clone)]
pub struct NSCParams {
    pub account: Option<String>,
    pub name: Option<String>,
    pub key: Option<String>,
    pub role: Option<String>,
    pub tag: Option<String>,
    pub field: Option<String>,
    pub output_file: Option<String>,
}

/// A request to the NSC proxy.
#[derive(Debug, Clone)]
pub struct NSCRequest {
    pub command: String,
    pub params: NSCParams,
    pub auth_key: String,
}

/// What the proxy answers when the command ran.
#[derive(Debug, Clone)]
pub struct NSCResponse {
    pub success: bool,
    pub stdout: String,
    pub stderr: String,
    pub returncode: i32,
}

/// What the proxy answers when it refused a request.
#[derive(Debug, Clone)]
pub struct NSCError {
    pub error: String,
}

/// The commands that the proxy runs.
#[derive(Debug, Clone, Copy, PartialEq, Eq)]
pub enum AllowedCommand {
    AddUser,
    DescribeUser,
    GenerateCreds,
}

pub open spec fn opt_view(o: Option<String>) -> Option<Seq<char>> {
    match o {
        Some(s) => Some(s@),
        None => None,
    }
}

pub open spec fn strings_view(v: Seq<String>) -> Seq<Seq<char>> {
    v.map_values(|s: String| s@)
}

pub open spec fn strs_view(v: Seq<&str>) -> Seq<Seq<char>> {
    v.map_values(|s: &str| s@)
}

/// The command named by `s`.
pub open spec fn spec_allowed_command(s: Seq<char>) -> Option<AllowedCommand> {
    if s == "add_user"@ {
        Some(AllowedCommand::AddUser)
    } else if s == "describe_user"@ {
        Some(AllowedCommand::DescribeUser)
    } else if s == "generate_creds"@ {
        Some(AllowedCommand::GenerateCreds)
    } else {
        None
    }
}

impl AllowedCommand {
    /// The name under which a request asks for the command.
    pub open spec fn spec_name(self) -> Seq<char> {
        match self {
            AllowedCommand::AddUser => "add_user"@,
            AllowedCommand::DescribeUser => "describe_user"@,
            AllowedCommand::GenerateCreds => "generate_creds"@,
        }
    }

    /// The `nsc` arguments that name the command.
    pub open spec fn spec_args(self) -> Seq<Seq<char>> {
        match self {
            AllowedCommand::AddUser => seq!["add"@, "user"@],
            AllowedCommand::DescribeUser => seq!["describe"@, "user"@],
            AllowedCommand::GenerateCreds => seq!["generate"@, "creds"@],
        }
    }

    /// The parameters that a request for the command must carry.
    pub open spec fn spec_required_params(self) -> Seq<Seq<char>> {
        match self {
            AllowedCommand::AddUser => seq!["account"@, "name"@, "key"@],
            AllowedCommand::DescribeUser => seq!["account"@, "name"@],
            AllowedCommand::GenerateCreds => seq!["account"@, "name"@],
        }
    }

    /// The parameters that a request for the command may carry.
    pub open spec fn spec_optional_params(self) -> Seq<Seq<char>> {
        match self {
            AllowedCommand::AddUser => seq!["role"@, "tag"@],
            AllowedCommand::DescribeUser => seq!["field"@],
            AllowedCommand::GenerateCreds => seq!["output_file"@],
        }
    }

    /// The command named by `s`, if it is one that the proxy runs.
    pub fn from_str(s: &str) -> (r: Option<Self>)
        ensures
            r == spec_allowed_command(s@),
    {
        if str_eq(s, "add_user") {
            Some(AllowedCommand::AddUser)
        } else if str_eq(s, "describe_user") {
            Some(AllowedCommand::DescribeUser)
        } else if str_eq(s, "generate_creds") {
            Some(AllowedCommand::GenerateCreds)
        } else {
            None
        }
    }

    /// The `nsc` arguments that name the command.
    pub fn get_args(&self) -> (r: Vec<&'static str>)
        ensures
            strs_view(r@) == self.spec_args(),
    {
        let r = match self {
            AllowedCommand::AddUser => vec!["add", "user"],
            AllowedCommand::DescribeUser => vec!["describe", "user"],
            AllowedCommand::GenerateCreds => vec!["generate", "creds"],
        };
        assert(strs_view(r@) =~= self.spec_args());
        r
    }

    /// The parameters that a request for the command must carry.
    pub fn get_required_params(&self) -> (r: Vec<&'static str>)
        ensures
            strs_view(r@) == self.spec_required_params(),
    {
        let r = match self {
            AllowedCommand::AddUser => vec!["account", "name", "key"],
            AllowedCommand::DescribeUser => vec!["account", "name"],
            AllowedCommand::GenerateCreds => vec!["account", "name"],
        };
        assert(strs_view(r@) =~= self.spec_required_params());
        r
    }

    /// The parameters that a request for the command may carry.
    pub fn get_optional_params(&self) -> (r: Vec<&'static str>)
        ensures
            strs_view(r@) == self.spec_optional_params(),
    {
        let r = match self {
            AllowedCommand::AddUser => vec!["role", "tag"],
            AllowedCommand::DescribeUser => vec!["field"],
            AllowedCommand::GenerateCreds => vec!["output_file"],
        };
        assert(strs_view(r@) =~= self.spec_optional_params());
        r
    }
}

/// Why the proxy refused a request.
#[derive(Debug, Clone, PartialEq, Eq)]
pub enum NscRequestError {
    /// The command is not one that the proxy runs.
    CommandNotAllowed { command: String },
    /// A parameter that the command needs is missing.
    MissingParameter { parameter: String },
}

/// A refusal, as plain values: the command refused, or the parameter missing.
pub enum RequestRefusal {
    CommandNotAllowed(Seq<char>),
    MissingParameter(Seq<char>),
}

impl NscRequestError {
    pub open spec fn view_refusal(&self) -> RequestRefusal {
        match self {
            NscRequestError::CommandNotAllowed { command } => RequestRefusal::CommandNotAllowed(command@),
            NscRequestError::MissingParameter { parameter } => RequestRefusal::MissingParameter(
                parameter@,
            ),
        }
    }

    pub open spec fn spec_message(&self) -> Seq<char> {
        match self {
            NscRequestError::CommandNotAllowed { command } => "Command '"@ + command@
                + "' not allowed"@,
            NscRequestError::MissingParameter { parameter } => "Missing required parameter: "@
                + parameter@,
        }
    }

    /// The message that the proxy answers with.
    pub fn message(&self) -> (m: String)
        ensures
            m@ == self.spec_message(),
    {
        match self {
            NscRequestError::CommandNotAllowed { command } => {
                let mut m = String::from_str("Command '");
                m.append(command.as_str());
                m.append("' not allowed");
                m
            },
            NscRequestError::MissingParameter { parameter } => {
                let mut m = String::from_str("Missing required parameter: ");
                m.append(parameter.as_str());
                m
            },
        }
    }
}

/// True when the parameter named `name` is one whose absence is checked and
/// it is absent.
pub open spec fn param_missing(params: NSCParams, name: Seq<char>) -> bool {
    if name == "account"@ {
        params.account is None
    } else if name == "name"@ {
        params.name is None
    } else if name == "key"@ {
        params.key is None
    } else {
        false
    }
}

/// The first required parameter, from position `from` on, that is missing.
pub open spec fn first_missing(required: Seq<Seq<char>>, params: NSCParams, from: int) -> Option<
    Seq<char>,
>
    decreases required.len() - from,
{
    if from < 0 || from >= required.len() {
        None
    } else if param_missing(params, required[from]) {
        Some(required[from])
    } else {
        first_missing(required, params, from + 1)
    }
}

/// How the proxy judges a request: the command must be one that it runs,
/// and the first of its required parameters that is missing is reported.
pub open spec fn spec_validate_request(command: Seq<char>, params: NSCParams) -> Result<
    AllowedCommand,
    RequestRefusal,
> {
    match spec_allowed_command(command) {
        None => Err(RequestRefusal::CommandNotAllowed(command)),
        Some(c) => match first_missing(c.spec_required_params(), params, 0) {
            Some(p) => Err(RequestRefusal::MissingParameter(p)),
            None => Ok(c),
        },
    }
}

/// Checks a request: its command must be one that the proxy runs, and it
/// must carry the parameters that the command needs.
pub fn validate_request(request: &NSCRequest) -> (r: Result<AllowedCommand, NscRequestError>)
    ensures
        match r {
            Ok(c) => spec_validate_request(request.command@, request.params) == Ok::<
                _,
                RequestRefusal,
            >(c),
            Err(e) => spec_validate_request(request.command@, request.params) == Err::<
                AllowedCommand,
                _,
            >(e.view_refusal()),
        },
{
    let command = match AllowedCommand::from_str(request.command.as_str()) {
        Some(c) => c,
        None => {
            return Err(NscRequestError::CommandNotAllowed { command: request.command.clone() });
        },
    };
    let required = command.get_required_params();
    let ghost req = command.spec_required_params();
    let mut i: usize = 0;
    while i < required.len()
        invariant
            strs_view(required@) == req,
            req == command.spec_required_params(),
            spec_allowed_command(request.command@) == Some(command),
            i <= required@.len(),
            first_missing(req, request.params, 0) == first_missing(req, request.params, i as int),
        decreases required@.len() - i,
    {
        let param = required[i];
        assert(param@ == req[i as int]);
        let missing = if str_eq(param, "account") {
            request.params.account.is_none()
        } else if str_eq(param, "name") {
            request.params.name.is_none()
        } else if str_eq(param, "key") {
            request.params.key.is_none()
        } else {
            false
        };
        assert(missing == param_missing(request.params, req[i as int]));
        if missing {
            assert(first_missing(req, request.params, i as int) == Some(req[i as int]));
            return Err(NscRequestError::MissingParameter { parameter: param.to_owned() });
        }
        i = i + 1;
    }
    Ok(command)
}

/// The flag and the value of an optional parameter, when it is present.
pub open spec fn opt_flag(flag: Seq<char>, value: Option<String>) -> Seq<Seq<char>> {
    match value {
        Some(v) => seq![flag, v@],
        None => seq![],
    }
}

/// The `nsc` command line for a command and its parameters.
pub open spec fn spec_nsc_command(command: AllowedCommand, params: NSCParams) -> Seq<Seq<char>> {
    command.spec_args() + opt_flag("-a"@, params.account) + opt_flag("-n"@, params.name) + opt_flag(
        "-k"@,
        params.key,
    ) + opt_flag("-K"@, params.role) + opt_flag("--tag"@, params.tag) + opt_flag(
        "--field"@,
        params.field,
    ) + opt_flag("--output-file"@, params.output_file)
}

fn push_flag(args: &mut Vec<String>, flag: &str, value: &Option<String>)
    ensures
        strings_view(final(args)@) == strings_view(old(args)@) + opt_flag(flag@, *value),
{
    match value {
        Some(v) => {
            args.push(flag.to_owned());
            args.push(v.clone());
        },
        None => {},
    }
    assert(strings_view(args@) =~= strings_view(old(args)@) + opt_flag(flag@, *value));
}

/// The `nsc` command line for a command: the words that name it, then each
/// parameter that is present with its flag, in a fixed order.
pub fn build_nsc_command(command: &AllowedCommand, params: &NSCParams) -> (args: Vec<String>)
    ensures
        strings_view(args@) == spec_nsc_command(*command, *params),
{
    let names = command.get_args();
    let mut args: Vec<String> = Vec::new();
    let mut i: usize = 0;
    while i < names.len()
        invariant
            i <= names@.len(),
            strings_view(args@) == strs_view(names@).take(i as int),
        decreases names@.len() - i,
    {
        let ghost before = args@;
        let w = names[i].to_owned();
        assert(w@ == strs_view(names@)[i as int]);
        args.push(w);
        assert(strings_view(args@) =~= strings_view(before).push(w@));
        i = i + 1;
        assert(strings_view(args@) =~= strs_view(names@).take(i as int));
    }
    assert(strs_view(names@).take(i as int) =~= command.spec_args());
    push_flag(&mut args, "-a", &params.account);
    push_flag(&mut args, "-n", &params.name);
    push_flag(&mut args, "-k", &params.key);
    push_flag(&mut args, "-K", &params.role);
    push_flag(&mut args, "--tag", &params.tag);
    push_flag(&mut args, "--field", &params.field);
    push_flag(&mut args, "--output-file", &params.output_file);
    args
}

/// Why the proxy did not answer with the output of a command.
#[derive(Debug, Clone, PartialEq, Eq)]
pub enum ProxyRefusal {
    /// The request did not carry the proxy's key.
    Unauthorized,
    /// The request was refused.
    BadRequest(NscRequestError),
    /// The command could not be run; the message says why.
    ExecutionFailed(String),
}

impl ProxyRefusal {
    /// The HTTP status of the answer.
    pub fn status(&self) -> (s: u16)
        ensures
            s == match self {
                ProxyRefusal::Unauthorized => 401u16,
                ProxyRefusal::BadRequest(_) => 400u16,
                ProxyRefusal::ExecutionFailed(_) => 500u16,
            },
    {
        match self {
            ProxyRefusal::Unauthorized => 401,
            ProxyRefusal::BadRequest(_) => 400,
            ProxyRefusal::ExecutionFailed(_) => 500,
        }
    }

    /// The message of the answer.
    pub fn to_error(&self) -> (e: NSCError)
        ensures
            e.error@ == match self {
                ProxyRefusal::Unauthorized => "Authentication failed"@,
                ProxyRefusal::BadRequest(r) => r.spec_message(),
                ProxyRefusal::ExecutionFailed(m) => "Failed to execute NSC command: "@ + m@,
            },
    {
        match self {
            ProxyRefusal::Unauthorized => NSCError { error: String::from_str("Authentication failed") },
            ProxyRefusal::BadRequest(r) => NSCError { error: r.message() },
            ProxyRefusal::ExecutionFailed(m) => {
                let mut e = String::from_str("Failed to execute NSC command: ");
                e.append(m.as_str());
                NSCError { error: e }
            },
        }
    }
}

/// What the proxy does with a request: it refuses one whose key differs from
/// its own, then one that `validate_request` refuses, and otherwise runs `nsc`
/// with the command line built from the request.
pub fn plan_nsc_request(request: &NSCRequest, auth_key: &str) -> (r: Result<Vec<String>, ProxyRefusal>)
    ensures
        request.auth_key@ != auth_key@ ==> r == Err::<Vec<String>, _>(ProxyRefusal::Unauthorized),
        request.auth_key@ == auth_key@ ==> match spec_validate_request(
            request.command@,
            request.params,
        ) {
            Ok(c) => (r matches Ok(args) && strings_view(args@) == spec_nsc_command(
                c,
                request.params,
            )),
            Err(refusal) => (r matches Err(ProxyRefusal::BadRequest(e)) && e.view_refusal()
                == refusal),
        },
{
    if !str_eq(request.auth_key.as_str(), auth_key) {
        return Err(ProxyRefusal::Unauthorized);
    }
    match validate_request(request) {
        Ok(c) => Ok(build_nsc_command(&c, &request.params)),
        Err(e) => Err(ProxyRefusal::BadRequest(e)),
    }
}

/// The answer of the proxy once the command ran: the exit code, or -1 when the
/// command was ended by a signal.
pub fn nsc_response(success: bool, stdout: String, stderr: String, code: Option<i32>) -> (r:
    NSCResponse)
    ensures
        r.success == success,
        r.stdout == stdout,
        r.stderr == stderr,
        r.returncode == match code {
            Some(c) => c,
            None => -1i32,
        },
{
    NSCResponse {
        success,
        stdout,
        stderr,
        returncode: match code {
            Some(c) => c,
            None => -1,
        },
    }
}

fn opt_owned(o: Option<&str>) -> (r: Option<String>)
    ensures
        opt_view(r) == match o {
            Some(s) => Some(s@),
            None => None::<Seq<char>>,
        },
{
    match o {
        Some(s) => Some(s.to_owned()),
        None => None,
    }
}

/// The request of the client for `describe_user`.
pub fn describe_user_request(auth_key: &str, account: &str, name: &str, field: Option<&str>) -> (r:
    NSCRequest)
    ensures
        r.command@ == "describe_user"@,
        r.auth_key@ == auth_key@,
        opt_view(r.params.account) == Some(account@),
        opt_view(r.params.name) == Some(name@),
        r.params.key is None,
        r.params.role is None,
        r.params.tag is None,
        opt_view(r.params.field) == (match field {
            Some(s) => Some(s@),
            None => None::<Seq<char>>,
        }),
        r.params.output_file is None,
{
    NSCRequest {
        command: String::from_str("describe_user"),
        params: NSCParams {
            account: Some(account.to_owned()),
            name: Some(name.to_owned()),
            key: None,
            role: None,
            tag: None,
            field: opt_owned(field),
            output_file: None,
        },
        auth_key: auth_key.to_owned(),
    }
}

/// The request of the client for `add_user`.
pub fn add_user_request(
    auth_key: &str,
    account: &str,
    name: &str,
    key: &str,
    role: Option<&str>,
    tag: Option<&str>,
) -> (r: NSCRequest)
    ensures
        r.command@ == "add_user"@,
        r.auth_key@ == auth_key@,
        opt_view(r.params.account) == Some(account@),
        opt_view(r.params.name) == Some(name@),
        opt_view(r.params.key) == Some(key@),
        opt_view(r.params.role) == (match role {
            Some(s) => Some(s@),
            None => None::<Seq<char>>,
        }),
        opt_view(r.params.tag) == (match tag {
            Some(s) => Some(s@),
            None => None::<Seq<char>>,
        }),
        r.params.field is None,
        r.params.output_file is None,
{
    NSCRequest {
        command: String::from_str("add_user"),
        params: NSCParams {
            account: Some(account.to_owned()),
            name: Some(name.to_owned()),
            key: Some(key.to_owned()),
            role: opt_owned(role),
            tag: opt_owned(tag),
            field: None,
            output_file: None,
        },
        auth_key: auth_key.to_owned(),
    }
}

/// The request of the client for `generate_creds`.
pub fn generate_creds_request(
    auth_key: &str,
    account: &str,
    name: &str,
    output_file: Option<&str>,
) -> (r: NSCRequest)
    ensures
        r.command@ == "generate_creds"@,
        r.auth_key@ == auth_key@,
        opt_view(r.params.account) == Some(account@),
        opt_view(r.params.name) == Some(name@),
        r.params.key is None,
        r.params.role is None,
        r.params.tag is None,
        r.params.field is None,
        opt_view(r.params.output_file) == (match output_file {
            Some(s) => Some(s@),
            None => None::<Seq<char>>,
        }),
{
    NSCRequest {
        command: String::from_str("generate_creds"),
        params: NSCParams {
            account: Some(account.to_owned()),
            name: Some(name.to_owned()),
            key: None,
            role: None,
            tag: None,
            field: None,
            output_file: opt_owned(output_file),
        },
        auth_key: auth_key.to_owned(),
    }
}

/// The address of an endpoint of the proxy: its base address, then the path.
pub fn proxy_endpoint(base_url: &str, path: &str) -> (url: String)
    ensures
        url@ == base_url@ + path@,
{
    let mut url = base_url.to_owned();
    url.append(path);
    url
}

/// What the client makes of the proxy's answer: the response when the status
/// is a success, or else an error carrying the proxy's message.
pub fn interpret_proxy_reply(success_status: bool, response: Option<NSCResponse>, error: Option<
    NSCError,
>) -> (r: Result<NSCResponse, String>)
    requires
        success_status ==> response is Some,
        !success_status ==> error is Some,
    ensures
        success_status ==> r == Ok::<_, String>(response->0),
        !success_status ==> (r matches Err(m) && m@ == "NSC proxy error: "@ + error->0.error@),
{
    if success_status {
        Ok(response.unwrap())
    } else {
        let mut m = String::from_str("NSC proxy error: ");
        m.append(error.unwrap().error.as_str());
        Err(m)
    }
}

/// The names of the commands and of the checked parameters differ from each other.
proof fn lemma_names_distinct()
    ensures
        "add_user"@ != "describe_user"@,
        "add_user"@ != "generate_creds"@,
        "describe_user"@ != "generate_creds"@,
        "account"@ != "name"@,
        "account"@ != "key"@,
        "name"@ != "key"@,
{
    reveal_strlit("add_user");
    reveal_strlit("describe_user");
    reveal_strlit("generate_creds");
    reveal_strlit("account");
    reveal_strlit("name");
    reveal_strlit("key");
    assert("add_user"@[0] != "describe_user"@[0]);
    assert("add_user"@[0] != "generate_creds"@[0]);
    assert("describe_user"@[0] != "generate_creds"@[0]);
    assert("account"@[0] != "name"@[0]);
    assert("account"@[0] != "key"@[0]);
    assert("name"@[0] != "key"@[0]);
}

/// A request that the client makes for `add_user` passes the proxy's check,
/// and the proxy runs `nsc add user` with the account, name and key, then the
/// role and the tag where they are given.
pub proof fn law_add_user_request_accepted(params: NSCParams)
    requires
        params.account is Some,
        params.name is Some,
        params.key is Some,
        params.field is None,
        params.output_file is None,
    ensures
        spec_validate_request("add_user"@, params) == Ok::<_, RequestRefusal>(AllowedCommand::AddUser),
        spec_nsc_command(AllowedCommand::AddUser, params) == seq![
            "add"@,
            "user"@,
            "-a"@,
            params.account->0@,
            "-n"@,
            params.name->0@,
            "-k"@,
            params.key->0@,
        ] + opt_flag("-K"@, params.role) + opt_flag("--tag"@, params.tag),
{
    lemma_names_distinct();
    reveal_with_fuel(first_missing, 4);
    assert(spec_nsc_command(AllowedCommand::AddUser, params) =~= seq![
        "add"@,
        "user"@,
        "-a"@,
        params.account->0@,
        "-n"@,
        params.name->0@,
        "-k"@,
        params.key->0@,
    ] + opt_flag("-K"@, params.role) + opt_flag("--tag"@, params.tag));
}

/// A request that the client makes for `describe_user` passes the proxy's
/// check, and the proxy runs `nsc describe user` with the account and the
/// name, then the field where it is given.
pub proof fn law_describe_user_request_accepted(params: NSCParams)
    requires
        params.account is Some,
        params.name is Some,
        params.key is None,
        params.role is None,
        params.tag is None,
        params.output_file is None,
    ensures
        spec_validate_request("describe_user"@, params) == Ok::<_, RequestRefusal>(
            AllowedCommand::DescribeUser,
        ),
        spec_nsc_command(AllowedCommand::DescribeUser, params) == seq![
            "describe"@,
            "user"@,
            "-a"@,
            params.account->0@,
            "-n"@,
            params.name->0@,
        ] + opt_flag("--field"@, params.field),
{
    lemma_names_distinct();
    reveal_with_fuel(first_missing, 3);
    assert(spec_nsc_command(AllowedCommand::DescribeUser, params) =~= seq![
        "describe"@,
        "user"@,
        "-a"@,
        params.account->0@,
        "-n"@,
        params.name->0@,
    ] + opt_flag("--field"@, params.field));
}

/// A request that the client makes for `generate_creds` passes the proxy's
/// check, and the proxy runs `nsc generate creds` with the account and the
/// name, then the output file where it is given.
pub proof fn law_generate_creds_request_accepted(params: NSCParams)
    requires
        params.account is Some,
        params.name is Some,
        params.key is None,
        params.role is None,
        params.tag is None,
        params.field is None,
    ensures
        spec_validate_request("generate_creds"@, params) == Ok::<_, RequestRefusal>(
            AllowedCommand::GenerateCreds,
        ),
        spec_nsc_command(AllowedCommand::GenerateCreds, params) == seq![
            "generate"@,
            "creds"@,
            "-a"@,
            params.account->0@,
            "-n"@,
            params.name->0@,
        ] + opt_flag("--output-file"@, params.output_file),
{
    lemma_names_distinct();
    reveal_with_fuel(first_missing, 3);
    assert(spec_nsc_command(AllowedCommand::GenerateCreds, params) =~= seq![
        "generate"@,
        "creds"@,
        "-a"@,
        params.account->0@,
        "-n"@,
        params.name->0@,
    ] + opt_flag("--output-file"@, params.output_file));
}

/// Every command that the proxy runs is named back by its own name.
pub proof fn law_command_name_round_trip(c: AllowedCommand)
    ensures
        spec_allowed_command(c.spec_name()) == Some(c),
{
    lemma_names_distinct();
}

/// A request for one of the commands that the proxy runs is accepted exactly
/// when it carries an account and a name, and for `add_user` also a key;
/// otherwise it is refused for the first of these that it lacks, in the order
/// account, name, key.
pub proof fn law_validate_request_needs_parameters(command: Seq<char>, params: NSCParams)
    requires
        command == "add_user"@ || command == "describe_user"@ || command == "generate_creds"@,
    ensures
        spec_validate_request(command, params) == (if params.account is None {
            Err(RequestRefusal::MissingParameter("account"@))
        } else if params.name is None {
            Err(RequestRefusal::MissingParameter("name"@))
        } else if command == "add_user"@ && params.key is None {
            Err(RequestRefusal::MissingParameter("key"@))
        } else if command == "add_user"@ {
            Ok(AllowedCommand::AddUser)
        } else if command == "describe_user"@ {
            Ok(AllowedCommand::DescribeUser)
        } else {
            Ok::<AllowedCommand, RequestRefusal>(AllowedCommand::GenerateCreds)
        }),
{
    lemma_names_distinct();
    reveal_with_fuel(first_missing, 4);
}

} // verus!
