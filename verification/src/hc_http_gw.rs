use vstd::prelude::*;

use url::{ParseError, Url};

use crate::endpoint::GetSubjectTags;
use crate::text::str_eq;
use crate::nats_names::utf8_len;
use crate::urls::{
    parse_url, set_url_path, set_url_query, url_as_str, url_parse_result, url_text, url_with_path,
    url_with_query,
};

verus! {

/// The URL of the HTTP gateway when the caller gives none.
pub const HC_HTTP_GW_DEFAULT_BASE: &'static str = "http://127.0.0.1:8090";

/// A request from the public HTTP gateway to the handler on a host.
#[derive(Debug, Clone)]
pub struct HcHttpGwRequest {
    pub dna_hash: String,
    pub coordinatior_identifier: String,
    pub zome_name: String,
    pub zome_fn_name: String,
    pub payload: String,
}

/// The subject suffix under which an installed app is reached.
pub open spec fn spec_subject_suffix(installed_app_id: Seq<char>) -> Seq<char> {
    "HC_HTTP_GW."@ + installed_app_id
}

/// The subject to which a request for an app is published.
pub open spec fn spec_destination_subject(coordinator: Seq<char>) -> Seq<char> {
    "WORKLOAD."@ + spec_subject_suffix(coordinator)
}

/// The subject on which the reply to a request for an app comes back.
pub open spec fn spec_reply_subject(coordinator: Seq<char>) -> Seq<char> {
    "WORKLOAD."@ + spec_subject_suffix(coordinator) + ".reply"@
}

/// Why no URL could be made for a request.
#[derive(Debug)]
pub enum GwUrlError {
    /// The request names another app than the one that handles it.
    CoordinatorMismatch { given: String, expected: String },
    /// The default base URL could not be read.
    InvalidBase(ParseError),
}

/// The text of a coordinator mismatch.
pub open spec fn spec_mismatch_message(given: Seq<char>, expected: Seq<char>) -> Seq<char> {
    "given coordinator identifier '"@ + given + "' doesn't match '"@ + expected + "'"@
}

/// The text of a coordinator mismatch: `given` is the identifier that the
/// handler checks for, `expected` the one that the request carries.
pub fn coordinator_mismatch_message(given: &str, expected: &str) -> (m: String)
    ensures
        m@ == spec_mismatch_message(given@, expected@),
{
    let mut m = String::from_str("given coordinator identifier '");
    m.append(given);
    m.append("' doesn't match '");
    m.append(expected);
    m.append("'");
    m
}

/// The text of the base URL of a request: the given base, or else the default
/// base, whose text is `default_text`.
pub open spec fn base_text(maybe_base: Option<Url>, default_text: Seq<char>) -> Seq<char> {
    match maybe_base {
        Some(b) => url_text(b),
        None => default_text,
    }
}

/// Whether setting a path and then a query on a base URL keeps its text within
/// `u32::MAX` bytes: each byte of the path and of the query takes at most three
/// bytes once percent-encoded, and the separators at most five.
pub open spec fn gw_url_fits(base: Seq<char>, path: Seq<char>, query: Seq<char>) -> bool {
    utf8_len(base) + 3 * utf8_len(path) + 3 * utf8_len(query) + 5 <= u32::MAX
}

impl HcHttpGwRequest {
    /// The path of the request towards the gateway:
    /// `/{dna_hash}/{coordinator}/{zome_name}/{zome_fn_name}`.
    pub open spec fn spec_url_path(&self) -> Seq<char> {
        "/"@ + self.dna_hash@ + "/"@ + self.coordinatior_identifier@ + "/"@ + self.zome_name@
            + "/"@ + self.zome_fn_name@
    }

    /// The query of the request towards the gateway: `payload={payload}`.
    pub open spec fn spec_url_query(&self) -> Seq<char> {
        "payload="@ + self.payload@
    }

    /// The path of the request towards the gateway.
    pub fn url_path(&self) -> (p: String)
        ensures
            p@ == self.spec_url_path(),
    {
        let mut p = String::from_str("/");
        p.append(self.dna_hash.as_str());
        p.append("/");
        p.append(self.coordinatior_identifier.as_str());
        p.append("/");
        p.append(self.zome_name.as_str());
        p.append("/");
        p.append(self.zome_fn_name.as_str());
        p
    }

    /// The query of the request towards the gateway.
    pub fn url_query(&self) -> (q: String)
        ensures
            q@ == self.spec_url_query(),
    {
        let mut q = String::from_str("payload=");
        q.append(self.payload.as_str());
        q
    }

    /// The text of the URL of the request on a base URL whose text is `base`:
    /// its path set to the request's path, then its query to the request's query.
    pub open spec fn spec_gw_url_text(&self, base: Seq<char>) -> Seq<char> {
        url_with_query(url_with_path(base, self.spec_url_path()), Some(self.spec_url_query()))
    }

    /// Whether the URL of the request stays within the `u32` positions that a
    /// `url::Url` records, where the request is for the app that
    /// `check_coordinator_identifier` names and the default base can be read.
    pub open spec fn url_fits(&self, maybe_base: Option<Url>, check_coordinator_identifier: Seq<char>) -> bool {
        self.coordinatior_identifier@ == check_coordinator_identifier ==> match url_parse_result(
            HC_HTTP_GW_DEFAULT_BASE@,
        ) {
            Some(d) => gw_url_fits(base_text(maybe_base, d), self.spec_url_path(), self.spec_url_query()),
            None => true,
        }
    }

    /// What asking for the URL of the request gives: a mismatch where the
    /// request names another app; else an error where the default base cannot
    /// be read; else the URL on the given base, or on the default one, with the
    /// request's path and query.
    pub open spec fn checked_url_result(
        &self,
        maybe_base: Option<Url>,
        check_coordinator_identifier: Seq<char>,
        r: Result<Url, GwUrlError>,
    ) -> bool {
        if self.coordinatior_identifier@ != check_coordinator_identifier {
            r matches Err(GwUrlError::CoordinatorMismatch { given, expected }) && given@
                == check_coordinator_identifier && expected@ == self.coordinatior_identifier@
        } else {
            match url_parse_result(HC_HTTP_GW_DEFAULT_BASE@) {
                None => r matches Err(GwUrlError::InvalidBase(_)),
                Some(d) => r matches Ok(u) && url_text(u) == self.spec_gw_url_text(base_text(maybe_base, d)),
            }
        }
    }

    /// The URL of the request towards the gateway, on `maybe_base` or else on
    /// the default base, with the request's path and query. The request must
    /// name the app that `check_coordinator_identifier` names. The default base
    /// is read first, whether or not a base is given.
    pub fn get_checked_url(&self, maybe_base: Option<Url>, check_coordinator_identifier: &str) -> (r:
        Result<Url, GwUrlError>)
        requires
            self.url_fits(maybe_base, check_coordinator_identifier@),
        ensures
            self.checked_url_result(maybe_base, check_coordinator_identifier@, r),
    {
        if !str_eq(self.coordinatior_identifier.as_str(), check_coordinator_identifier) {
            return Err(
                GwUrlError::CoordinatorMismatch {
                    given: check_coordinator_identifier.to_owned(),
                    expected: self.coordinatior_identifier.clone(),
                },
            );
        }
        let default_base = match parse_url(HC_HTTP_GW_DEFAULT_BASE) {
            Ok(u) => u,
            Err(e) => return Err(GwUrlError::InvalidBase(e)),
        };
        let ghost d = url_text(default_base);
        let mut url = match maybe_base {
            Some(base) => base,
            None => default_base,
        };
        assert(url_text(url) == base_text(maybe_base, d));
        let path = self.url_path();
        set_url_path(&mut url, path.as_str());
        let query = self.url_query();
        set_url_query(&mut url, Some(query.as_str()));
        Ok(url)
    }

    /// The URL of the request as `get_checked_url` gives it, where it stays
    /// within the limits of a `url::Url`; `None` where it would not.
    pub fn get_checked_url_within_limits(
        &self,
        maybe_base: Option<Url>,
        check_coordinator_identifier: &str,
    ) -> (r: Option<Result<Url, GwUrlError>>)
        ensures
            r is None <==> !self.url_fits(maybe_base, check_coordinator_identifier@),
            r matches Some(x) ==> self.checked_url_result(maybe_base, check_coordinator_identifier@, x),
    {
        if !str_eq(self.coordinatior_identifier.as_str(), check_coordinator_identifier) {
            return Some(self.get_checked_url(maybe_base, check_coordinator_identifier));
        }
        let default_base = match parse_url(HC_HTTP_GW_DEFAULT_BASE) {
            Ok(u) => u,
            Err(_) => return Some(self.get_checked_url(maybe_base, check_coordinator_identifier)),
        };
        let base_len: usize = match &maybe_base {
            Some(b) => url_as_str(b).as_bytes().len(),
            None => url_as_str(&default_base).as_bytes().len(),
        };
        let path = self.url_path();
        let path_len: usize = path.as_str().as_bytes().len();
        let query = self.url_query();
        let query_len: usize = query.as_str().as_bytes().len();
        let limit: usize = 4294967295;
        if base_len > limit || path_len > limit || query_len > limit {
            return None;
        }
        let total: u64 = base_len as u64 + 3 * (path_len as u64) + 3 * (query_len as u64) + 5;
        if total > 4294967295u64 {
            return None;
        }
        Some(self.get_checked_url(maybe_base, check_coordinator_identifier))
    }

    /// The subject suffix under which the app `installed_app_id` is reached:
    /// `HC_HTTP_GW.{installed_app_id}`.
    pub fn nats_subject_suffix(installed_app_id: &str) -> (s: String)
        ensures
            s@ == spec_subject_suffix(installed_app_id@),
    {
        let mut s = String::from_str("HC_HTTP_GW.");
        s.append(installed_app_id);
        s
    }

    /// The subject to which the request is published:
    /// `WORKLOAD.HC_HTTP_GW.{coordinator}`.
    pub fn nats_destination_subject(&self) -> (s: String)
        ensures
            s@ == spec_destination_subject(self.coordinatior_identifier@),
    {
        let suffix = Self::nats_subject_suffix(self.coordinatior_identifier.as_str());
        let mut s = String::from_str("WORKLOAD.");
        s.append(suffix.as_str());
        s
    }

    /// The subject on which the reply comes back:
    /// `WORKLOAD.HC_HTTP_GW.{coordinator}.reply`.
    pub fn nats_reply_subject(&self) -> (s: String)
        ensures
            s@ == spec_reply_subject(self.coordinatior_identifier@),
    {
        let suffix = Self::nats_subject_suffix(self.coordinatior_identifier.as_str());
        let mut s = String::from_str("WORKLOAD.");
        s.append(suffix.as_str());
        s.append(".reply");
        s
    }
}

/// The reply subject of a request is its destination subject followed by
/// `.reply`, and requests for two different apps go to two different
/// destinations.
pub proof fn law_reply_follows_destination(a: Seq<char>, b: Seq<char>)
    ensures
        spec_reply_subject(a) == spec_destination_subject(a) + ".reply"@,
        a != b ==> spec_destination_subject(a) != spec_destination_subject(b),
{
    assert(spec_reply_subject(a) =~= spec_destination_subject(a) + ".reply"@);
    if a != b && spec_destination_subject(a) == spec_destination_subject(b) {
        let p = "WORKLOAD."@ + "HC_HTTP_GW."@;
        assert(spec_destination_subject(a) =~= p + a);
        assert(spec_destination_subject(b) =~= p + b);
        assert(a =~= (p + a).skip(p.len() as int));
        assert(b =~= (p + b).skip(p.len() as int));
    }
}

/// The reply of the gateway handler.
#[derive(Debug, Clone)]
pub struct HcHttpGwResponse {
    /// Response headers, each a name and its bytes.
    pub response_headers: Vec<(String, Vec<u8>)>,
    pub response_bytes: Vec<u8>,
}

/// A reply of the gateway handler, with the subject it is meant for.
#[derive(Debug, Clone)]
pub struct HcHttpGwResponseMsg {
    pub response_subject: Option<String>,
    pub response: HcHttpGwResponse,
}

impl GetSubjectTags for HcHttpGwResponseMsg {
    /// One tag, the response subject with an empty value, when there is a
    /// response subject; no tag otherwise.
    fn get_subject_tags(&self) -> (tags: Vec<(String, String)>)
        ensures
            match self.response_subject {
                Some(s) => tags@.len() == 1 && tags@[0].0@ == s@ && tags@[0].1@ == Seq::<char>::empty(),
                None => tags@.len() == 0,
            },
    {
        let mut tags: Vec<(String, String)> = Vec::new();
        match &self.response_subject {
            Some(s) => {
                tags.push((s.clone(), String::new()));
            },
            None => {},
        }
        tags
    }
}

} // verus!
