//! The data model of one resource instance as the applier engine sees it:
//! the identifying head of a decoded object, the type triple, and the
//! abstract locator that addresses a schema-unknown resource type.

use vstd::prelude::*;
use vstd::string::*;
use crate::errors::CallerError;
use crate::strtools::find_char;

verus! {

/// The type metadata a decoded object must carry: an apiVersion string,
/// splittable into group and version, and a kind string.
#[derive(Clone, Debug, PartialEq, Eq)]
pub struct TypeHead {
    /// The version of the API, e.g. `v1` or `networking.k8s.io/v1`.
    pub api_version: String,
    /// The kind of the object, e.g. `Service`.
    pub kind: String,
}

/// The identifying head of one decoded object: what the engine reads before
/// deciding anything. The body of the object stays with the unverified
/// shell, which sends it as the create or patch payload.
#[derive(Clone, Debug, PartialEq, Eq)]
pub struct ManifestHead {
    /// The object's name, when the metadata carries one.
    pub name: Option<String>,
    /// The object's namespace, when the metadata carries one.
    pub namespace: Option<String>,
    /// The object's type metadata, when present.
    pub type_head: Option<TypeHead>,
}

/// An abstract (group, version, kind) reference plus optional namespace,
/// usable to address a resource type without compile-time schema knowledge.
/// An absent namespace means the session's default namespace.
#[derive(Clone, Debug, PartialEq, Eq)]
pub struct Locator {
    /// The API group; empty for the core group.
    pub group: String,
    /// The API version within the group.
    pub version: String,
    /// The resource kind.
    pub kind: String,
    /// The namespace to scope to, or the session default when absent.
    pub namespace: Option<String>,
}

/// A deletion key: the type triple, the instance name, and an optional
/// namespace. No body; it identifies an instance to remove.
#[derive(Clone, Debug, PartialEq, Eq)]
pub struct DeleteRequest {
    /// The group of the object you are deleting (e.g. "networking.k8s.io").
    /// This will be an empty string if part of `core`
    pub group: String,
    /// The kind of the object you are deleting (e.g. Pod)
    pub kind: String,
    /// The name of the object you are deleting
    pub name: String,
    /// The namespace where the object you want to delete is located. If not
    /// specified, the default namespace for the context should be used
    pub namespace: Option<String>,
    /// The API version of the object you are deleting (e.g. v1)
    pub version: String,
}

impl Default for DeleteRequest {
    /// The empty deletion key: every field empty, no namespace.
    fn default() -> (r: DeleteRequest)
        ensures
            r.group@ == Seq::<char>::empty(),
            r.kind@ == Seq::<char>::empty(),
            r.name@ == Seq::<char>::empty(),
            r.namespace is None,
            r.version@ == Seq::<char>::empty(),
    {
        DeleteRequest {
            group: String::new(),
            kind: String::new(),
            name: String::new(),
            namespace: None,
            version: String::new(),
        }
    }
}

/// How an apiVersion string decomposes: the characters before the first `/`
/// name the group and the rest the version; with no `/` at all the group is
/// the core (empty) group and the whole string is the version.
pub open spec fn splits_api_version(s: Seq<char>, group: Seq<char>, version: Seq<char>) -> bool {
    if s.contains('/') {
        exists|i: int|
            0 <= i < s.len() && s[i] == '/' && (forall|j: int| 0 <= j < i ==> s[j] != '/')
                && group == s.subrange(0, i) && version == s.subrange(i + 1, s.len() as int)
    } else {
        group == Seq::<char>::empty() && version == s
    }
}

/// Decompose an apiVersion string into its group and version parts.
pub fn split_api_version(s: &str) -> (r: (String, String))
    ensures
        splits_api_version(s@, r.0@, r.1@),
{
    let len = s.unicode_len();
    match find_char(s, '/') {
        Some(i) => {
            let group = s.substring_char(0, i);
            let version = s.substring_char(i + 1, len);
            proof {
                assert(s@.contains('/')) by {
                    assert(s@[i as int] == '/');
                }
            }
            (String::from_str(group), String::from_str(version))
        },
        None => {
            proof {
                assert(!s@.contains('/')) by {
                    if s@.contains('/') {
                        let k = choose|k: int| 0 <= k < s@.len() && s@[k] == '/';
                        assert(s@[k] != '/');
                    }
                }
            }
            (String::new(), String::from_str(s))
        },
    }
}

/// Whether a decoded object's head is complete enough to act on: a
/// non-empty name and type metadata present.
pub open spec fn head_is_valid(head: ManifestHead) -> bool {
    &&& head.name matches Some(n) && n@.len() > 0
    &&& head.type_head is Some
}

/// The caller error owed for an incomplete head: a missing or empty name is
/// reported first, then missing type metadata.
pub open spec fn head_error(head: ManifestHead) -> CallerError {
    if !(head.name matches Some(n) && n@.len() > 0) {
        CallerError::MissingName
    } else {
        CallerError::MissingTypeMeta
    }
}

/// Validate a decoded object's head: the name and the type metadata must be
/// there before anything else happens. Returns the name and type metadata,
/// or the caller error owed — never touching the network either way.
pub fn validate_head(head: &ManifestHead) -> (r: Result<(String, TypeHead), CallerError>)
    ensures
        head_is_valid(*head) ==> (r matches Ok((n, t)) && Some(n) == head.name && Some(t)
            == head.type_head),
        !head_is_valid(*head) ==> r == Err::<(String, TypeHead), CallerError>(head_error(*head)),
{
    let name = match &head.name {
        Some(n) => {
            if n.unicode_len() == 0 {
                return Err(CallerError::MissingName);
            }
            n.clone()
        },
        None => {
            return Err(CallerError::MissingName);
        },
    };
    match &head.type_head {
        Some(t) => Ok(
            (name, TypeHead { api_version: t.api_version.clone(), kind: t.kind.clone() }),
        ),
        None => Err(CallerError::MissingTypeMeta),
    }
}

/// Resolve a locator from a type triple and an optional namespace. Pure
/// construction: group may be empty (the core group), nothing can fail.
pub fn resolve_locator(group: String, version: String, kind: String, namespace: Option<String>) -> (
    r: Locator)
    ensures
        r == (Locator { group, version, kind, namespace }),
{
    Locator { group, version, kind, namespace }
}

} // verus!
