use vstd::prelude::*;

use crate::client_types::Credentials;
use crate::errors::ErrClientDisconnected;
use crate::stream_service::error_payload;
use crate::text::{str_eq, trim, trimmed};

verus! {

// ---------------------------------------------------------------------------
// Connection state
// ---------------------------------------------------------------------------

/// The state of a client's connection to the NATS server.
#[derive(Debug, Clone, Copy, PartialEq, Eq, Structural)]
pub enum ConnectionState {
    Pending,
    Connected,
    Disconnected,
}

/// The connection state, or an error when the connection is closed.
pub fn check_connection(state: ConnectionState) -> (r: Result<ConnectionState, ErrClientDisconnected>)
    ensures
        state == ConnectionState::Disconnected ==> r is Err,
        state != ConnectionState::Disconnected ==> r == Ok::<ConnectionState, ErrClientDisconnected>(
            state,
        ),
{
    match state {
        ConnectionState::Disconnected => Err(ErrClientDisconnected),
        _ => Ok(state),
    }
}

/// Fails when the connection is closed.
pub fn monitor(state: ConnectionState) -> (r: Result<(), ErrClientDisconnected>)
    ensures
        r is Err <==> state == ConnectionState::Disconnected,
{
    match state {
        ConnectionState::Disconnected => Err(ErrClientDisconnected),
        _ => Ok(()),
    }
}

// ---------------------------------------------------------------------------
// Connection plans
// ---------------------------------------------------------------------------

/// A span of time: whole seconds and the nanoseconds beyond them.
#[derive(Debug, Clone, Copy, PartialEq, Eq, Structural)]
pub struct TimeSpan {
    pub secs: u64,
    pub nanos: u32,
}

impl TimeSpan {
    /// A span of whole seconds.
    pub fn from_secs(secs: u64) -> (t: Self)
        ensures
            t == (TimeSpan { secs, nanos: 0 }),
    {
        TimeSpan { secs, nanos: 0 }
    }
}

/// One thing to configure on the connection before it is opened, in order.
#[derive(Debug, Clone)]
pub enum ConnectStep {
    /// Authenticate with a user and a password.
    UserAndPassword { user: String, password: String },
    /// Authenticate with a user and the whole content of a password file.
    UserAndPasswordFile { user: String, password_file: String },
    /// Authenticate with a credentials file.
    CredentialsFile { path: String },
    /// Authenticate with a token.
    Token { token: String },
    /// Accept any server certificate.
    SkipTlsVerification,
    /// Begin the TLS handshake before anything else.
    TlsFirst,
}

/// A connection step, with its texts as sequences of characters.
pub enum StepView {
    UserAndPassword(Seq<char>, Seq<char>),
    UserAndPasswordFile(Seq<char>, Seq<char>),
    CredentialsFile(Seq<char>),
    Token(Seq<char>),
    SkipTlsVerification,
    TlsFirst,
}

impl View for ConnectStep {
    type V = StepView;

    open spec fn view(&self) -> StepView {
        match self {
            ConnectStep::UserAndPassword { user, password } => StepView::UserAndPassword(
                user@,
                password@,
            ),
            ConnectStep::UserAndPasswordFile { user, password_file } =>
                StepView::UserAndPasswordFile(user@, password_file@),
            ConnectStep::CredentialsFile { path } => StepView::CredentialsFile(path@),
            ConnectStep::Token { token } => StepView::Token(token@),
            ConnectStep::SkipTlsVerification => StepView::SkipTlsVerification,
            ConnectStep::TlsFirst => StepView::TlsFirst,
        }
    }
}

pub open spec fn steps_view(v: Seq<ConnectStep>) -> Seq<StepView> {
    v.map_values(|s: ConnectStep| s@)
}

/// The step that configures a set of credentials.
pub open spec fn credentials_step(c: Credentials) -> StepView {
    match c {
        Credentials::Password(user, password) => StepView::UserAndPassword(user@, password@),
        Credentials::Path(path) => StepView::CredentialsFile(path@),
        Credentials::Token(token) => StepView::Token(token@),
    }
}

/// The steps that configure a list of credentials, in its order.
pub open spec fn spec_credentials_steps(c: Option<Vec<Credentials>>) -> Seq<StepView> {
    match c {
        Some(v) => v@.map_values(|c: Credentials| credentials_step(c)),
        None => seq![],
    }
}

/// How a connection is to be opened.
#[derive(Debug, Clone)]
pub struct ConnectPlan {
    pub name: String,
    pub ping_interval: TimeSpan,
    pub request_timeout: TimeSpan,
    pub inbox_prefix: String,
    pub steps: Vec<ConnectStep>,
    /// The prefix of the client's log lines.
    pub log_prefix: String,
}

/// The prefix of a client's log lines: `NATS-CLIENT-LOG::{name}::`.
pub open spec fn spec_client_log_prefix(name: Seq<char>) -> Seq<char> {
    "NATS-CLIENT-LOG::"@ + name + "::"@
}

/// The prefix of a client's log lines.
pub fn client_log_prefix(name: &str) -> (s: String)
    ensures
        s@ == spec_client_log_prefix(name@),
{
    let mut s = String::from_str("NATS-CLIENT-LOG::");
    s.append(name);
    s.append("::");
    s
}

/// What a jetstream client is opened with.
#[derive(Debug, Clone)]
pub struct JsClientParams {
    pub name: String,
    pub inbox_prefix: String,
    /// Credentials to configure, in order.
    pub credentials: Option<Vec<Credentials>>,
    pub ping_interval: Option<TimeSpan>,
    pub request_timeout: Option<TimeSpan>,
    pub nats_user: Option<String>,
    /// A file whose whole content is the password of `nats_user`.
    pub nats_password_file: Option<String>,
    /// Accept any server certificate.
    pub skip_tls_verification: bool,
    /// The scheme of the server's URL.
    pub url_scheme: String,
}

/// Whether the TLS handshake comes first for a URL scheme: for `wss` and `tls`.
pub open spec fn tls_first_scheme(scheme: Seq<char>) -> bool {
    scheme == "wss"@ || scheme == "tls"@
}

/// The steps with which a jetstream client opens its connection: the user and
/// password file when both are given, then each set of credentials in order,
/// then skipping certificate checks when asked for, then a TLS handshake first
/// for a `wss` or `tls` URL.
pub open spec fn spec_js_client_steps(p: JsClientParams) -> Seq<StepView> {
    (if p.nats_user is Some && p.nats_password_file is Some {
        seq![StepView::UserAndPasswordFile(p.nats_user->0@, p.nats_password_file->0@)]
    } else {
        seq![]
    }) + spec_credentials_steps(p.credentials) + (if p.skip_tls_verification {
        seq![StepView::SkipTlsVerification]
    } else {
        seq![]
    }) + (if tls_first_scheme(p.url_scheme@) {
        seq![StepView::TlsFirst]
    } else {
        seq![]
    })
}

/// A jetstream client does its TLS handshake first exactly when the server's
/// URL scheme is `wss` or `tls`, whether or not certificate checks are
/// skipped: that is then its last step, and no other step asks for it.
/// Certificate checks are skipped exactly when asked for.
pub proof fn law_js_client_tls_first(p: JsClientParams)
    ensures
        (p.url_scheme@ == "wss"@ || p.url_scheme@ == "tls"@) <==> (spec_js_client_steps(p).len() > 0
            && spec_js_client_steps(p).last() == StepView::TlsFirst),
        forall|i: int|
            0 <= i < spec_js_client_steps(p).len() - 1 ==> #[trigger] spec_js_client_steps(p)[i]
                != StepView::TlsFirst,
        p.skip_tls_verification <==> spec_js_client_steps(p).contains(StepView::SkipTlsVerification),
{
    let steps = spec_js_client_steps(p);
    let a: Seq<StepView> = if p.nats_user is Some && p.nats_password_file is Some {
        seq![StepView::UserAndPasswordFile(p.nats_user->0@, p.nats_password_file->0@)]
    } else {
        seq![]
    };
    let c = spec_credentials_steps(p.credentials);
    let k: Seq<StepView> = if p.skip_tls_verification {
        seq![StepView::SkipTlsVerification]
    } else {
        seq![]
    };
    let t: Seq<StepView> = if tls_first_scheme(p.url_scheme@) {
        seq![StepView::TlsFirst]
    } else {
        seq![]
    };
    assert(steps == a + c + k + t);
    assert forall|j: int| 0 <= j < c.len() implies c[j] != StepView::TlsFirst
        && c[j] != StepView::SkipTlsVerification by {
        match p.credentials {
            Some(v) => {
                assert(c[j] == credentials_step(v@[j]));
            },
            None => {},
        }
    }
    let akc = a + c + k;
    assert forall|i: int| 0 <= i < akc.len() implies akc[i] != StepView::TlsFirst by {
        if i >= a.len() && i < a.len() + c.len() {
            assert(akc[i] == c[i - a.len()]);
        }
    }
    assert forall|i: int| 0 <= i < steps.len() - 1 implies #[trigger] steps[i] != StepView::TlsFirst by {
        assert(steps[i] == akc[i]);
    }
    if !tls_first_scheme(p.url_scheme@) && steps.len() > 0 {
        assert(steps.last() == akc[akc.len() - 1]);
    }
    if p.skip_tls_verification {
        assert(steps[a.len() + c.len() as int] == StepView::SkipTlsVerification);
    } else {
        assert forall|i: int| 0 <= i < steps.len() implies steps[i] != StepView::SkipTlsVerification by {
            if i >= a.len() && i < a.len() + c.len() {
                assert(steps[i] == c[i - a.len()]);
            }
        }
    }
}

fn credentials_to_step(c: &Credentials) -> (s: ConnectStep)
    ensures
        s@ == credentials_step(*c),
{
    match c {
        Credentials::Password(user, password) => ConnectStep::UserAndPassword {
            user: user.clone(),
            password: password.clone(),
        },
        Credentials::Path(path) => ConnectStep::CredentialsFile { path: path.clone() },
        Credentials::Token(token) => ConnectStep::Token { token: token.clone() },
    }
}

/// How a jetstream client opens its connection: pings every 120 s and waits
/// 1 s for a request unless told otherwise.
pub fn js_client_connect_plan(p: &JsClientParams) -> (plan: ConnectPlan)
    ensures
        plan.name@ == p.name@,
        plan.inbox_prefix@ == p.inbox_prefix@,
        plan.ping_interval == (match p.ping_interval {
            Some(t) => t,
            None => TimeSpan { secs: 120, nanos: 0 },
        }),
        plan.request_timeout == (match p.request_timeout {
            Some(t) => t,
            None => TimeSpan { secs: 1, nanos: 0 },
        }),
        steps_view(plan.steps@) == spec_js_client_steps(*p),
        plan.log_prefix@ == spec_client_log_prefix(p.name@),
{
    let mut steps: Vec<ConnectStep> = Vec::new();
    match (&p.nats_user, &p.nats_password_file) {
        (Some(user), Some(file)) => {
            steps.push(ConnectStep::UserAndPasswordFile { user: user.clone(), password_file: file.clone() });
        },
        _ => {},
    }
    let ghost first = steps_view(steps@);
    assert(first == (if p.nats_user is Some && p.nats_password_file is Some {
        seq![StepView::UserAndPasswordFile(p.nats_user->0@, p.nats_password_file->0@)]
    } else {
        seq![]
    })) by {
        if p.nats_user is Some && p.nats_password_file is Some {
            assert(steps_view(steps@) =~= seq![StepView::UserAndPasswordFile(p.nats_user->0@, p.nats_password_file->0@)]);
        } else {
            assert(steps_view(steps@) =~= Seq::<StepView>::empty());
        }
    }
    let ghost creds: Seq<StepView> = spec_credentials_steps(p.credentials);
    match &p.credentials {
        Some(list) => {
            let mut i: usize = 0;
            while i < list.len()
                invariant
                    i <= list@.len(),
                    p.credentials == Some(*list),
                    steps_view(steps@) =~= first + list@.take(i as int).map_values(|c: Credentials| credentials_step(c)),
                decreases list@.len() - i,
            {
                let s = credentials_to_step(&list[i]);
                let ghost before = steps@;
                steps.push(s);
                assert(steps@ =~= before.push(s));
                assert(steps_view(steps@) =~= steps_view(before).push(s@));
                assert(list@.take(i + 1) =~= list@.take(i as int).push(list@[i as int]));
                assert(list@.take(i + 1).map_values(|c: Credentials| credentials_step(c)) =~= list@.take(
                    i as int,
                ).map_values(|c: Credentials| credentials_step(c)).push(credentials_step(list@[i as int])));
                i = i + 1;
            }
            assert(list@.take(list@.len() as int) =~= list@);
        },
        None => {
            assert(steps_view(steps@) =~= first + creds);
        },
    }
    assert(steps_view(steps@) =~= first + creds);
    if p.skip_tls_verification {
        steps.push(ConnectStep::SkipTlsVerification);
    }
    assert(steps_view(steps@) =~= first + creds + (if p.skip_tls_verification {
        seq![StepView::SkipTlsVerification]
    } else {
        seq![]
    }));
    let tls_first = str_eq(p.url_scheme.as_str(), "wss") || str_eq(p.url_scheme.as_str(), "tls");
    if tls_first {
        steps.push(ConnectStep::TlsFirst);
    }
    assert(steps_view(steps@) =~= spec_js_client_steps(*p));
    let ping_interval = match p.ping_interval {
        Some(t) => t,
        None => TimeSpan::from_secs(120),
    };
    let request_timeout = match p.request_timeout {
        Some(t) => t,
        None => TimeSpan::from_secs(1),
    };
    ConnectPlan {
        name: p.name.clone(),
        ping_interval,
        request_timeout,
        inbox_prefix: p.inbox_prefix.clone(),
        steps,
        log_prefix: client_log_prefix(p.name.as_str()),
    }
}

/// What a plain client, or a jetstream client without services of its own,
/// is opened with.
#[derive(Debug, Clone)]
pub struct DefaultClientParams {
    pub nats_url: String,
    pub name: String,
    pub inbox_prefix: String,
    pub credentials_path: Option<String>,
    pub ping_interval: Option<TimeSpan>,
    pub request_timeout: Option<TimeSpan>,
}

/// How such a client opens its connection: with the credentials file when one
/// is given, pinging every 120 s and waiting 10 s for a request unless told
/// otherwise.
pub fn default_client_connect_plan(p: &DefaultClientParams) -> (plan: ConnectPlan)
    ensures
        plan.name@ == p.name@,
        plan.inbox_prefix@ == p.inbox_prefix@,
        plan.ping_interval == (match p.ping_interval {
            Some(t) => t,
            None => TimeSpan { secs: 120, nanos: 0 },
        }),
        plan.request_timeout == (match p.request_timeout {
            Some(t) => t,
            None => TimeSpan { secs: 10, nanos: 0 },
        }),
        steps_view(plan.steps@) == (match p.credentials_path {
            Some(path) => seq![StepView::CredentialsFile(path@)],
            None => Seq::<StepView>::empty(),
        }),
        plan.log_prefix@ == spec_client_log_prefix(p.name@),
{
    let mut steps: Vec<ConnectStep> = Vec::new();
    match &p.credentials_path {
        Some(path) => {
            steps.push(ConnectStep::CredentialsFile { path: path.clone() });
            assert(steps_view(steps@) =~= seq![StepView::CredentialsFile(path@)]);
        },
        None => {
            assert(steps_view(steps@) =~= Seq::<StepView>::empty());
        },
    }
    let ping_interval = match p.ping_interval {
        Some(t) => t,
        None => TimeSpan::from_secs(120),
    };
    let request_timeout = match p.request_timeout {
        Some(t) => t,
        None => TimeSpan::from_secs(10),
    };
    ConnectPlan {
        name: p.name.clone(),
        ping_interval,
        request_timeout,
        inbox_prefix: p.inbox_prefix.clone(),
        steps,
        log_prefix: client_log_prefix(p.name.as_str()),
    }
}


// ---------------------------------------------------------------------------
// User and password
// ---------------------------------------------------------------------------

/// Where the user and password of a remote NATS server come from.
#[derive(Debug, Clone)]
pub enum UserPasswordSource {
    /// No user, or neither a password nor a password file.
    Incomplete,
    /// The user, and a file whose trimmed content is the password. A password
    /// file is preferred to a password.
    PasswordFile { user: String, password_file: String },
    /// The user and the password.
    Given { user: String, password: String },
}

/// The first of two optional values that is present.
pub open spec fn either(a: Option<String>, b: Option<String>) -> Option<Seq<char>> {
    match a {
        Some(x) => Some(x@),
        None => match b {
            Some(y) => Some(y@),
            None => None,
        },
    }
}

fn first_of(a: Option<String>, b: Option<String>) -> (r: Option<String>)
    ensures
        match r {
            Some(x) => either(a, b) == Some(x@),
            None => either(a, b) is None,
        },
{
    match a {
        Some(x) => Some(x),
        None => b,
    }
}

/// Where the user and password come from: the user is the one given, else the
/// one in the server's URL; likewise the password. With a user and a password
/// file, the file gives the password; with a user and a password, the
/// password is used; anything else is incomplete.
pub fn user_password_source(
    nats_user: Option<String>,
    url_user: Option<String>,
    nats_password: Option<String>,
    url_password: Option<String>,
    password_file: Option<String>,
) -> (r: UserPasswordSource)
    ensures
        match r {
            UserPasswordSource::Incomplete => either(nats_user, url_user) is None || (either(
                nats_password,
                url_password,
            ) is None && password_file is None),
            UserPasswordSource::PasswordFile { user, password_file: f } => either(
                nats_user,
                url_user,
            ) == Some(user@) && password_file is Some && f@ == password_file->0@,
            UserPasswordSource::Given { user, password } => either(nats_user, url_user) == Some(
                user@,
            ) && password_file is None && either(nats_password, url_password) == Some(password@),
        },
{
    let user = first_of(nats_user, url_user);
    let password = first_of(nats_password, url_password);
    match (user, password, password_file) {
        (Some(user), _, Some(file)) => UserPasswordSource::PasswordFile { user, password_file: file },
        (Some(user), Some(password), None) => UserPasswordSource::Given { user, password },
        _ => UserPasswordSource::Incomplete,
    }
}

/// The user and password from their source, given the content of the password
/// file when the source names one: the file's content is trimmed. There is no
/// user and password when the source is incomplete, or when the file's content
/// is missing.
pub fn user_password(source: UserPasswordSource, password_file_content: Option<String>) -> (r: Option<
    (String, String),
>)
    ensures
        match source {
            UserPasswordSource::Incomplete => r is None,
            UserPasswordSource::PasswordFile { user, .. } => match password_file_content {
                Some(c) => r matches Some((u, p)) && u@ == user@ && p@ == trimmed(c@),
                None => r is None,
            },
            UserPasswordSource::Given { user, password } => r matches Some((u, p)) && u@ == user@
                && p@ == password@,
        },
{
    match source {
        UserPasswordSource::Incomplete => None,
        UserPasswordSource::PasswordFile { user, .. } => match password_file_content {
            Some(c) => Some((user, trim(c.as_str()))),
            None => None,
        },
        UserPasswordSource::Given { user, password } => Some((user, password)),
    }
}

// ---------------------------------------------------------------------------
// Addresses
// ---------------------------------------------------------------------------

/// The NATS server that a client talks to when none is configured.
pub fn default_nats_url() -> (s: String)
    ensures
        s@ == "127.0.0.1:4111"@,
{
    String::from_str("127.0.0.1:4111")
}

/// The configured NATS server, else the default one.
pub fn nats_url_or_default(configured: Option<String>) -> (s: String)
    ensures
        s@ == (match configured {
            Some(u) => u@,
            None => "127.0.0.1:4111"@,
        }),
{
    match configured {
        Some(u) => u,
        None => default_nats_url(),
    }
}

/// The path of the credentials file of a user, as `nsc` lays them out.
pub open spec fn spec_creds_path(operator: Seq<char>, account: Seq<char>, user: Seq<char>) -> Seq<char> {
    "/.local/share/nats/nsc/keys/creds/"@ + operator + "/"@ + account + "/"@ + user + ".creds"@
}

/// The configured credentials file, else the one that `nsc` keeps for the user.
pub fn nats_client_creds(configured: Option<String>, operator: &str, account: &str, user: &str) -> (s:
    String)
    ensures
        s@ == (match configured {
            Some(p) => p@,
            None => spec_creds_path(operator@, account@, user@),
        }),
{
    match configured {
        Some(p) => p,
        None => {
            let mut s = String::from_str("/.local/share/nats/nsc/keys/creds/");
            s.append(operator);
            s.append("/");
            s.append(account);
            s.append("/");
            s.append(user);
            s.append(".creds");
            s
        },
    }
}

/// The MongoDB server that is used when none is configured.
pub fn default_mongodb_url() -> (s: String)
    ensures
        s@ == "mongodb://127.0.0.1:27017"@,
{
    String::from_str("mongodb://127.0.0.1:27017")
}

/// The configured MongoDB server, else the default one.
pub fn mongodb_url_or_default(configured: Option<String>) -> (s: String)
    ensures
        s@ == (match configured {
            Some(u) => u@,
            None => "mongodb://127.0.0.1:27017"@,
        }),
{
    match configured {
        Some(u) => u,
        None => default_mongodb_url(),
    }
}

/// The URL of the hosted MongoDB cluster.
pub open spec fn spec_cluster_mongodb_url(username: Seq<char>, password: Seq<char>, cluster_id: Seq<
    char,
>) -> Seq<char> {
    "mongodb+srv://"@ + username + ":"@ + password + "@allograph-dev-mongodb-"@ + cluster_id
        + ".mongo.ondigitalocean.com/?retryWrites=true&w=majority&authSource=admin"@
}

/// The URL of the hosted MongoDB cluster, from the user name and the contents
/// of the password file and of the cluster id file, both trimmed.
pub fn cluster_mongodb_url(username: &str, password_file_content: &str, cluster_id_file_content: &str) -> (s:
    String)
    ensures
        s@ == spec_cluster_mongodb_url(
            username@,
            trimmed(password_file_content@),
            trimmed(cluster_id_file_content@),
        ),
{
    let password = trim(password_file_content);
    let cluster_id = trim(cluster_id_file_content);
    let mut s = String::from_str("mongodb+srv://");
    s.append(username);
    s.append(":");
    s.append(password.as_str());
    s.append("@allograph-dev-mongodb-");
    s.append(cluster_id.as_str());
    s.append(".mongo.ondigitalocean.com/?retryWrites=true&w=majority&authSource=admin");
    s
}

/// The MongoDB server to use: the `MONGO_URI` setting where it is given; else
/// the hosted cluster, where its user name and the contents of its cluster id
/// file and password file (in that order) could all be read; else the local
/// default.
pub fn configured_mongodb_url(mongo_uri: Option<String>, cluster: Option<(String, String, String)>) -> (s:
    String)
    ensures
        s@ == (match mongo_uri {
            Some(u) => u@,
            None => match cluster {
                Some((user, cluster_id, password)) => spec_cluster_mongodb_url(
                    user@,
                    trimmed(password@),
                    trimmed(cluster_id@),
                ),
                None => "mongodb://127.0.0.1:27017"@,
            },
        }),
{
    match mongo_uri {
        Some(u) => u,
        None => match cluster {
            Some((user, cluster_id, password)) => cluster_mongodb_url(
                user.as_str(),
                password.as_str(),
                cluster_id.as_str(),
            ),
            None => default_mongodb_url(),
        },
    }
}

// ---------------------------------------------------------------------------
// Publishing
// ---------------------------------------------------------------------------

/// The handler that a client calls once a publication is over.
#[derive(Debug, Clone, Copy, PartialEq, Eq, Structural)]
pub enum PublishFollowUp {
    /// The handler for published messages.
    Published,
    /// The handler for failed publications.
    Failed,
    /// None: the client has no handler for this outcome.
    Nothing,
}

/// Which handler a client calls after a publication: the failure handler
/// after a failure, the publication handler after a success, each only when
/// the client has one.
pub fn publish_follow_up(succeeded: bool, has_published_handler: bool, has_failed_handler: bool) -> (f:
    PublishFollowUp)
    ensures
        f == (if succeeded {
            if has_published_handler {
                PublishFollowUp::Published
            } else {
                PublishFollowUp::Nothing
            }
        } else if has_failed_handler {
            PublishFollowUp::Failed
        } else {
            PublishFollowUp::Nothing
        }),
{
    if succeeded {
        if has_published_handler {
            PublishFollowUp::Published
        } else {
            PublishFollowUp::Nothing
        }
    } else if has_failed_handler {
        PublishFollowUp::Failed
    } else {
        PublishFollowUp::Nothing
    }
}


/// What a plain client's subscription sends back for a message: the
/// handler's bytes, or the UTF-8 text of its error, published to the
/// message's reply subject. A message without a reply subject gets nothing.
pub fn subscription_reply(outcome: Result<Vec<u8>, String>, reply: Option<String>) -> (r: Option<
    (String, Vec<u8>),
>)
    ensures
        match reply {
            None => r is None,
            Some(subject) => r matches Some((s, b)) && s@ == subject@ && b@ == (match outcome {
                Ok(bytes) => bytes@,
                Err(e) => vstd::utf8::encode_utf8(e@),
            }),
        },
{
    match reply {
        None => None,
        Some(subject) => {
            let bytes = match outcome {
                Ok(bytes) => bytes,
                Err(e) => error_payload(e.as_str()),
            };
            Some((subject, bytes))
        },
    }
}

} // verus!
