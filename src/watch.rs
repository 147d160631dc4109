//! Which cluster events are reported.
use vstd::prelude::*;

verus! {

pub open spec fn is_some_text(o: Option<String>, text: Seq<char>) -> bool {
    o matches Some(s) && s@ == text
}

/// Whether an event is a warning about a pod.
pub fn is_pod_warning(event_type: &Option<String>, involved_kind: &Option<String>) -> (r: bool)
    ensures
        r == (is_some_text(*event_type, "Warning"@) && is_some_text(*involved_kind, "Pod"@)),
{
    let warning = String::from_str("Warning");
    let pod = String::from_str("Pod");
    let type_matches = match event_type {
        Some(t) => *t == warning,
        None => false,
    };
    let kind_matches = match involved_kind {
        Some(k) => *k == pod,
        None => false,
    };
    type_matches && kind_matches
}

} // verus!
