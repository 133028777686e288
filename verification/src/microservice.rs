use vstd::prelude::*;

use crate::registry::NameRegistry;
use crate::text::str_eq;

verus! {

/// A version of a micro service's endpoints.
#[derive(Debug, Clone, Copy, PartialEq, Eq, Structural, Hash)]
pub enum Version {
    V1,
    V2,
    V3,
}

/// The version named `s`; any other name stands for `V1`.
pub open spec fn spec_version_from(s: Seq<char>) -> Version {
    if s == "V1"@ {
        Version::V1
    } else if s == "V2"@ {
        Version::V2
    } else if s == "V3"@ {
        Version::V3
    } else {
        Version::V1
    }
}

impl Version {
    pub open spec fn spec_name(self) -> Seq<char> {
        match self {
            Version::V1 => "V1"@,
            Version::V2 => "V2"@,
            Version::V3 => "V3"@,
        }
    }

    /// The version's name, as it is displayed and used as a subject group.
    pub fn name(&self) -> (s: &'static str)
        ensures
            s@ == self.spec_name(),
    {
        match self {
            Version::V1 => "V1",
            Version::V2 => "V2",
            Version::V3 => "V3",
        }
    }

    /// The version named `s`, or `V1` when `s` names none.
    pub fn from_name(s: &str) -> (v: Self)
        ensures
            v == spec_version_from(s@),
    {
        if str_eq(s, "V1") {
            Version::V1
        } else if str_eq(s, "V2") {
            Version::V2
        } else if str_eq(s, "V3") {
            Version::V3
        } else {
            Version::V1
        }
    }
}

impl From<String> for Version {
    fn from(value: String) -> (v: Self) {
        Version::from_name(value.as_str())
    }
}

impl vstd::std_specs::convert::FromSpecImpl<String> for Version {
    open spec fn obeys_from_spec() -> bool {
        true
    }

    open spec fn from_spec(v: String) -> Self {
        spec_version_from(v@)
    }
}

/// Reading back the name of a version gives the version.
pub proof fn law_version_name_round_trip(v: Version)
    ensures
        spec_version_from(v.spec_name()) == v,
{
    reveal_strlit("V1");
    reveal_strlit("V2");
    reveal_strlit("V3");
    assert("V1"@[1] != "V2"@[1]);
    assert("V1"@[1] != "V3"@[1]);
    assert("V2"@[1] != "V3"@[1]);
}

/// The name, version and endpoints of a micro service.
#[derive(Debug, Clone)]
pub struct ServiceInfo {
    pub name: String,
    pub version: String,
    pub endpoints: Vec<String>,
}

/// The prefix of a micro service's log lines: `MS-LOG::{name}::{id}: `.
pub fn micro_service_log_prefix(name: &str, id: &str) -> (s: String)
    ensures
        s@ == "MS-LOG::"@ + name@ + "::"@ + id@ + ": "@,
{
    let mut s = String::from_str("MS-LOG::");
    s.append(name);
    s.append("::");
    s.append(id);
    s.append(": ");
    s
}

/// What an endpoint does with the outcome of its handler.
#[derive(Debug, Clone)]
pub enum EndpointReply {
    /// Answer the request with the handler's bytes.
    Respond(Vec<u8>),
    /// Answer the request with an error.
    RespondError { status: String, code: u16 },
    /// Leave a request without a reply address unanswered, with a warning.
    Unanswerable,
    /// Log the failure; there is no reply address to answer to.
    LogOnly,
}

/// What an endpoint does with its handler's outcome. Only a request with a
/// reply address is answered: with the bytes on success, with status
/// `Error: {error}` and code 500 on failure.
pub fn endpoint_reply(outcome: Result<Vec<u8>, String>, has_reply: bool) -> (r: EndpointReply)
    ensures
        match outcome {
            Ok(bytes) => if has_reply {
                r == EndpointReply::Respond(bytes)
            } else {
                r == EndpointReply::Unanswerable
            },
            Err(e) => if has_reply {
                r matches EndpointReply::RespondError { status, code } && status@ == "Error: "@ + e@
                    && code == 500
            } else {
                r == EndpointReply::LogOnly
            },
        },
{
    match outcome {
        Ok(bytes) => if has_reply {
            EndpointReply::Respond(bytes)
        } else {
            EndpointReply::Unanswerable
        },
        Err(e) => if has_reply {
            let mut status = String::from_str("Error: ");
            status.append(e.as_str());
            EndpointReply::RespondError { status, code: 500 }
        } else {
            EndpointReply::LogOnly
        },
    }
}

/// The endpoints of a micro service, grouped by version. A version that has
/// not been added has no group.
pub struct VersionedEndpoints<H> {
    v1: Option<NameRegistry<H>>,
    v2: Option<NameRegistry<H>>,
    v3: Option<NameRegistry<H>>,
}

impl<H> VersionedEndpoints<H> {
    /// The group of a version, if it was added.
    pub closed spec fn group(&self, v: Version) -> Option<Map<Seq<char>, H>> {
        let g = match v {
            Version::V1 => self.v1,
            Version::V2 => self.v2,
            Version::V3 => self.v3,
        };
        match g {
            Some(r) => Some(r@),
            None => None,
        }
    }

    /// No version group yet.
    pub fn new() -> (e: Self)
        ensures
            forall|v: Version| e.group(v) is None,
    {
        VersionedEndpoints { v1: None, v2: None, v3: None }
    }

    /// Adds an empty group for each version given; a group that was there is
    /// replaced by an empty one.
    pub fn add_versions(&mut self, versions: &Vec<Version>)
        ensures
            forall|v: Version| #[trigger]
                final(self).group(v) == (if versions@.contains(v) {
                    Some(Map::<Seq<char>, H>::empty())
                } else {
                    old(self).group(v)
                }),
    {
        let mut i: usize = 0;
        while i < versions.len()
            invariant
                i <= versions@.len(),
                forall|v: Version| #[trigger]
                    self.group(v) == (if versions@.take(i as int).contains(v) {
                        Some(Map::<Seq<char>, H>::empty())
                    } else {
                        old(self).group(v)
                    }),
            decreases versions@.len() - i,
        {
            let v = versions[i];
            let ghost before = *self;
            match v {
                Version::V1 => self.v1 = Some(NameRegistry::new()),
                Version::V2 => self.v2 = Some(NameRegistry::new()),
                Version::V3 => self.v3 = Some(NameRegistry::new()),
            }
            let ghost pre = versions@.take(i as int);
            let ghost post = versions@.take(i + 1);
            assert(post =~= pre.push(v));
            assert forall|w: Version| #[trigger]
                self.group(w) == (if post.contains(w) {
                    Some(Map::<Seq<char>, H>::empty())
                } else {
                    old(self).group(w)
                }) by {
                if w == v {
                    assert(post[i as int] == w);
                } else {
                    assert(self.group(w) == before.group(w));
                    if pre.contains(w) {
                        let k = choose|k: int| 0 <= k < pre.len() && pre[k] == w;
                        assert(post[k] == w);
                    }
                    if post.contains(w) {
                        let k = choose|k: int| 0 <= k < post.len() && post[k] == w;
                        assert(k != i);
                        assert(pre[k] == w);
                    }
                }
            }
            i = i + 1;
        }
        assert(versions@.take(versions@.len() as int) =~= versions@);
    }

    /// Registers `handler` for `subject` in the group of the version named
    /// `version` (`V1` when the name is unknown). Nothing is registered when
    /// that version has no group; the result says whether it had one.
    pub fn add_endpoint(&mut self, subject: String, version: &str, handler: H) -> (added: bool)
        ensures
            added == (old(self).group(spec_version_from(version@)) is Some),
            forall|v: Version| #[trigger]
                final(self).group(v) == (if added && v == spec_version_from(version@) {
                    Some(old(self).group(v)->0.insert(subject@, handler))
                } else {
                    old(self).group(v)
                }),
    {
        let v = Version::from_name(version);
        let slot = match v {
            Version::V1 => &mut self.v1,
            Version::V2 => &mut self.v2,
            Version::V3 => &mut self.v3,
        };
        match slot {
            Some(group) => {
                group.insert(subject, handler);
                true
            },
            None => false,
        }
    }

    /// The handler registered for `subject` in the group of `version`.
    pub fn handler(&self, version: Version, subject: &str) -> (r: Option<&H>)
        ensures
            r == (match self.group(version) {
                Some(g) => if g.dom().contains(subject@) {
                    Some(&g[subject@])
                } else {
                    None
                },
                None => None,
            }),
    {
        let g = match version {
            Version::V1 => &self.v1,
            Version::V2 => &self.v2,
            Version::V3 => &self.v3,
        };
        match g {
            Some(group) => group.get(subject),
            None => None,
        }
    }

    /// Whether `version` has a group.
    pub fn has_version(&self, version: Version) -> (b: bool)
        ensures
            b == self.group(version) is Some,
    {
        match version {
            Version::V1 => self.v1.is_some(),
            Version::V2 => self.v2.is_some(),
            Version::V3 => self.v3.is_some(),
        }
    }
}

/// A handler registered under a version that has a group is found there; the
/// other versions and subjects keep what they had.
pub proof fn law_endpoint_found_after_add<H>(
    before: Option<Map<Seq<char>, H>>,
    subject: Seq<char>,
    handler: H,
    other: Seq<char>,
)
    requires
        before is Some,
        other != subject,
    ensures
        before->0.insert(subject, handler).dom().contains(subject),
        before->0.insert(subject, handler)[subject] == handler,
        before->0.insert(subject, handler).dom().contains(other) == before->0.dom().contains(other),
        before->0.dom().contains(other) ==> before->0.insert(subject, handler)[other]
            == before->0[other],
{
}

} // verus!
