use vstd::prelude::*;

verus! {

/// Tags of a handler's result, from which the subjects of its replies are
/// made: each pair is a tag and its value.
pub trait GetSubjectTags {
    fn get_subject_tags(&self) -> Vec<(String, String)>;
}

/// Tags of a handler's result, for the services that make reply subjects
/// from a plain list of tags.
pub trait CreateTag {
    fn get_tags(&self) -> Option<Vec<String>>;
}

/// What a service endpoint's result must offer.
pub trait EndpointTraits: GetSubjectTags + Clone {}

} // verus!
