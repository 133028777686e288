use util_libs::nsc::{
    add_user_request, build_nsc_command, describe_user_request, generate_creds_request,
    interpret_proxy_reply, nsc_response, plan_nsc_request, proxy_endpoint, validate_request,
    AllowedCommand, NSCError, NSCParams, NSCRequest, NSCResponse, NscRequestError, ProxyRefusal,
};

fn params() -> NSCParams {
    NSCParams {
        account: Some("HPOS".to_string()),
        name: Some("host1".to_string()),
        key: Some("UABC".to_string()),
        role: Some("host".to_string()),
        tag: None,
        field: None,
        output_file: None,
    }
}

#[test]
fn allowed_commands_by_name() {
    assert_eq!(AllowedCommand::from_str("add_user"), Some(AllowedCommand::AddUser));
    assert_eq!(AllowedCommand::from_str("describe_user"), Some(AllowedCommand::DescribeUser));
    assert_eq!(AllowedCommand::from_str("generate_creds"), Some(AllowedCommand::GenerateCreds));
    assert_eq!(AllowedCommand::from_str("delete_user"), None);
    assert_eq!(AllowedCommand::AddUser.get_args(), vec!["add", "user"]);
    assert_eq!(AllowedCommand::AddUser.get_required_params(), vec!["account", "name", "key"]);
}

#[test]
fn validate_refuses_unknown_command() {
    let r = NSCRequest { command: "rm".to_string(), params: params(), auth_key: "k".to_string() };
    let e = validate_request(&r).unwrap_err();
    assert_eq!(e, NscRequestError::CommandNotAllowed { command: "rm".to_string() });
    assert_eq!(e.message(), "Command 'rm' not allowed");
}

#[test]
fn validate_refuses_missing_parameter() {
    let mut p = params();
    p.key = None;
    let r = NSCRequest { command: "add_user".to_string(), params: p, auth_key: "k".to_string() };
    let e = validate_request(&r).unwrap_err();
    assert_eq!(e.message(), "Missing required parameter: key");
    let mut p = params();
    p.key = None;
    let r = NSCRequest { command: "describe_user".to_string(), params: p, auth_key: "k".to_string() };
    assert_eq!(validate_request(&r).unwrap(), AllowedCommand::DescribeUser);
}

#[test]
fn add_user_command_line() {
    let args = build_nsc_command(&AllowedCommand::AddUser, &params());
    assert_eq!(args, vec!["add", "user", "-a", "HPOS", "-n", "host1", "-k", "UABC", "-K", "host"]
        .into_iter()
        .map(String::from)
        .collect::<Vec<_>>());
}

#[test]
fn proxy_plan_checks_key_first() {
    let r = NSCRequest { command: "rm".to_string(), params: params(), auth_key: "wrong".to_string() };
    let e = plan_nsc_request(&r, "right").unwrap_err();
    assert_eq!(e, ProxyRefusal::Unauthorized);
    assert_eq!(e.status(), 401);
    assert_eq!(e.to_error().error, "Authentication failed");
    let e = plan_nsc_request(&NSCRequest { auth_key: "right".to_string(), ..r }, "right").unwrap_err();
    assert_eq!(e.status(), 400);
    assert_eq!(e.to_error().error, "Command 'rm' not allowed");
    let failed = ProxyRefusal::ExecutionFailed("no nsc".to_string());
    assert_eq!(failed.status(), 500);
    assert_eq!(failed.to_error().error, "Failed to execute NSC command: no nsc");
}

#[test]
fn client_requests() {
    let r = describe_user_request("key", "HPOS", "host1", Some("sub"));
    assert_eq!(r.command, "describe_user");
    assert_eq!(r.params.field.as_deref(), Some("sub"));
    let plan = plan_nsc_request(&r, "key").unwrap();
    assert_eq!(plan[0], "describe");
    let r = add_user_request("key", "HPOS", "host1", "UABC", None, Some("t"));
    assert_eq!(r.command, "add_user");
    assert!(plan_nsc_request(&r, "key").is_ok());
    let r = generate_creds_request("key", "HPOS", "host1", Some("/tmp/x.creds"));
    assert_eq!(r.params.output_file.as_deref(), Some("/tmp/x.creds"));
    assert!(plan_nsc_request(&r, "key").is_ok());
    assert_eq!(proxy_endpoint("http://localhost:5000", "/nsc"), "http://localhost:5000/nsc");
}

#[test]
fn proxy_replies() {
    let resp = nsc_response(true, "out".to_string(), String::new(), None);
    assert_eq!(resp.returncode, -1);
    let ok = interpret_proxy_reply(true, Some(resp), None).unwrap();
    assert_eq!(ok.stdout, "out");
    let err = interpret_proxy_reply(false, None::<NSCResponse>, Some(NSCError { error: "bad".to_string() }))
        .unwrap_err();
    assert_eq!(err, "NSC proxy error: bad");
}
