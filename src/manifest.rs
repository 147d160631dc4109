//! Where a manifest is applied: its API group, version, kind and namespace.
use vstd::prelude::*;

verus! {

/// The namespace of a manifest that names none.
pub const DEFAULT_NAMESPACE: &'static str = "default";

/// The resource identity that a manifest is applied to.
pub struct ResourceTarget {
    /// The API group; empty for the core group.
    pub group: String,
    pub version: String,
    pub kind: String,
    pub namespace: String,
}

pub enum ManifestError {
    MissingApiVersion,
    MissingKind,
}

/// `k` is the position of the first '/' in `s`.
pub open spec fn is_first_slash(s: Seq<char>, k: int) -> bool {
    &&& 0 <= k < s.len()
    &&& s[k] == '/'
    &&& forall|j: int| 0 <= j < k ==> s[j] != '/'
}

/// `t` is the target of a manifest with the apiVersion `a`, the kind `kind`
/// and the namespace field `namespace`.
pub open spec fn is_target_of(a: Seq<char>, kind: String, namespace: Option<String>, t: ResourceTarget) -> bool {
    &&& t.kind == kind
    &&& t.namespace@ == match namespace {
        Some(ns) => ns@,
        None => DEFAULT_NAMESPACE@,
    }
    &&& (forall|j: int| 0 <= j < a.len() ==> a[j] != '/') ==> t.group@.len() == 0 && t.version@ == a
    &&& forall|k: int| is_first_slash(a, k) ==> t.group@ == a.subrange(0, k)
        && t.version@ == a.subrange(k + 1, a.len() as int)
}

/// Splits an apiVersion at its first '/' into the group and the version;
/// one without '/' is a version of the core group.
pub fn parse_api_version(api_version: &str) -> (r: (Option<String>, String))
    ensures
        (forall|j: int| 0 <= j < api_version@.len() ==> api_version@[j] != '/') ==> r.0 is None
            && r.1@ == api_version@,
        forall|k: int| is_first_slash(api_version@, k) ==> (r.0 matches Some(g)
            && g@ == api_version@.subrange(0, k) && r.1@ == api_version@.subrange(
            k + 1,
            api_version@.len() as int,
        )),
{
    let n = api_version.unicode_len();
    let mut i: usize = 0;
    while i < n
        invariant
            n == api_version@.len(),
            i <= n,
            forall|j: int| 0 <= j < i ==> api_version@[j] != '/',
        decreases n - i,
    {
        if api_version.get_char(i) == '/' {
            let group = String::from_str(api_version.substring_char(0, i));
            let version = String::from_str(api_version.substring_char(i + 1, n));
            proof {
                assert forall|k: int| is_first_slash(api_version@, k) implies k == i by {
                    if k < i {
                        assert(api_version@[k] != '/');
                    }
                    if k > i {
                        assert(api_version@[i as int] != '/');
                    }
                }
            }
            return (Some(group), version);
        }
        i = i + 1;
    }
    (None, String::from_str(api_version))
}

/// The target of a manifest from its apiVersion, kind and namespace fields.
pub fn resolve_target(
    api_version: Option<String>,
    kind: Option<String>,
    namespace: Option<String>,
) -> (r: Result<ResourceTarget, ManifestError>)
    ensures
        api_version is None ==> r == Err::<ResourceTarget, ManifestError>(ManifestError::MissingApiVersion),
        api_version is Some && kind is None ==> r == Err::<ResourceTarget, ManifestError>(ManifestError::MissingKind),
        api_version is Some && kind is Some ==> (r matches Ok(t) && is_target_of(
            api_version->Some_0@,
            kind->Some_0,
            namespace,
            t,
        )),
{
    let a = match api_version {
        Some(a) => a,
        None => return Err(ManifestError::MissingApiVersion),
    };
    let kind = match kind {
        Some(k) => k,
        None => return Err(ManifestError::MissingKind),
    };
    let (group, version) = parse_api_version(a.as_str());
    let group = match group {
        Some(g) => g,
        None => String::new(),
    };
    let namespace = match namespace {
        Some(ns) => ns,
        None => String::from_str(DEFAULT_NAMESPACE),
    };
    Ok(ResourceTarget { group, version, kind, namespace })
}

} // verus!
