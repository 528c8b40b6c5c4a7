//! The config resolver: turn caller-supplied connection configuration into
//! a plan the shell can act on. Three sources, resolved by an ordered
//! policy: a configuration file path, an embedded base64-encoded document,
//! or inference from the environment. An embedded document must carry only
//! inline credential material — a filesystem path in it would let a remote
//! caller read arbitrary host paths, so any such reference is rejected
//! here, before a connection is ever attempted.

use vstd::prelude::*;
use vstd::string::*;
use crate::errors::{ConfigError, PathEntity};
use crate::settings::{get_value, lookup_norm, lookup_value, normalize_values};
use crate::store::SessionStore;

verus! {

/// The credential fields of one named cluster entry that may reference
/// on-disk material by path.
#[derive(Clone, Debug, PartialEq, Eq)]
pub struct ClusterPaths {
    /// The cluster entry's name.
    pub name: String,
    /// The certificate-authority path, when the entry references one.
    pub certificate_authority: Option<String>,
}

/// The credential fields of one named user entry that may reference
/// on-disk material by path.
#[derive(Clone, Debug, PartialEq, Eq)]
pub struct UserPaths {
    /// The user entry's name.
    pub name: String,
    /// The client-certificate path, when the entry references one.
    pub client_certificate: Option<String>,
    /// The client-key path, when the entry references one.
    pub client_key: Option<String>,
    /// The token-file path, when the entry references one.
    pub token_file: Option<String>,
}

/// Every path-valued credential field of a decoded configuration document,
/// entry by entry. This is all the validation below reads.
#[derive(Clone, Debug, PartialEq, Eq)]
pub struct KubeconfigPaths {
    /// The cluster entries, in document order.
    pub clusters: Vec<ClusterPaths>,
    /// The user entries, in document order.
    pub users: Vec<UserPaths>,
}

/// What base64 standard-alphabet decoding yields on a given string: a pure
/// function of the characters alone, absent exactly when the string is not
/// valid base64.
pub uninterp spec fn b64_decoded(s: Seq<char>) -> Option<Seq<u8>>;

/// Relies on base64's `STANDARD` engine: decoding is a pure function of the
/// input characters, and fails exactly on input that is not valid base64.
#[verifier::external_body]
pub(crate) fn decode_base64(s: &str) -> (r: Result<Vec<u8>, String>)
    ensures
        r matches Ok(v) ==> b64_decoded(s@) == Some(v@),
        r is Ok <==> b64_decoded(s@) is Some,
{
    base64::Engine::decode(&base64::engine::general_purpose::STANDARD, s).map_err(
        |e| e.to_string(),
    )
}

/// The path-valued credential fields that decoding a configuration
/// document yields: a pure function of the bytes alone, absent exactly
/// when the bytes are not a decodable configuration document.
pub uninterp spec fn kubeconfig_paths_of(bytes: Seq<u8>) -> Option<KubeconfigPaths>;

/// Relies on `serde_yaml::from_slice`, `kube::config::Kubeconfig`'s
/// deserialization, and that type's public fields: decodes a configuration
/// document and hands over the path-valued credential fields of its
/// cluster and user entries, in document order. Decoding is a pure
/// function of the bytes, and fails exactly when they are not a decodable
/// configuration document.
#[verifier::external_body]
fn parse_kubeconfig_paths(bytes: &[u8]) -> (r: Result<KubeconfigPaths, String>)
    ensures
        r matches Ok(p) ==> kubeconfig_paths_of(bytes@) == Some(p),
        r is Ok <==> kubeconfig_paths_of(bytes@) is Some,
{
    let c: kube::config::Kubeconfig = serde_yaml::from_slice(bytes).map_err(|e| e.to_string())?;
    Ok(KubeconfigPaths {
        clusters: c.clusters.iter().map(|n| ClusterPaths {
            name: n.name.clone(),
            certificate_authority: n.cluster.clone().and_then(|l| l.certificate_authority),
        }).collect(),
        users: c.auth_infos.iter().map(|n| UserPaths {
            name: n.name.clone(),
            client_certificate: n.auth_info.clone().and_then(|a| a.client_certificate),
            client_key: n.auth_info.clone().and_then(|a| a.client_key),
            token_file: n.auth_info.clone().and_then(|a| a.token_file),
        }).collect(),
    })
}

/// The first cluster entry whose certificate authority is a path, as the
/// error it is owed, scanning from the front.
pub open spec fn cluster_path_error(clusters: Seq<ClusterPaths>) -> Option<ConfigError>
    decreases clusters.len(),
{
    if clusters.len() == 0 {
        None
    } else if clusters[0].certificate_authority is Some {
        Some(
            ConfigError::PathInEmbeddedConfig {
                entity: PathEntity::Cluster,
                name: clusters[0].name,
            },
        )
    } else {
        cluster_path_error(clusters.subrange(1, clusters.len() as int))
    }
}

/// The first user entry with a path-valued credential field, as the error
/// it is owed: certificate before key before token file, scanning from the
/// front.
pub open spec fn user_path_error(users: Seq<UserPaths>) -> Option<ConfigError>
    decreases users.len(),
{
    if users.len() == 0 {
        None
    } else if users[0].client_certificate is Some {
        Some(
            ConfigError::PathInEmbeddedConfig {
                entity: PathEntity::ClientCertificate,
                name: users[0].name,
            },
        )
    } else if users[0].client_key is Some {
        Some(
            ConfigError::PathInEmbeddedConfig {
                entity: PathEntity::ClientKey,
                name: users[0].name,
            },
        )
    } else if users[0].token_file is Some {
        Some(
            ConfigError::PathInEmbeddedConfig {
                entity: PathEntity::TokenFile,
                name: users[0].name,
            },
        )
    } else {
        user_path_error(users.subrange(1, users.len() as int))
    }
}

/// The error an embedded document's path fields are owed, if any: cluster
/// entries first, then user entries.
pub open spec fn embedded_path_error(c: KubeconfigPaths) -> Option<ConfigError> {
    match cluster_path_error(c.clusters@) {
        Some(e) => Some(e),
        None => user_path_error(c.users@),
    }
}

/// Whether a document references no credential material by path.
pub open spec fn no_path_refs(c: KubeconfigPaths) -> bool {
    embedded_path_error(c) is None
}

/// Reject a credential field that references on-disk material by path.
pub fn ensure_no_path(item: &Option<String>, entity: PathEntity, name: &String) -> (r: Result<
    (),
    ConfigError,
>)
    ensures
        item is Some ==> r == Err::<(), ConfigError>(
            ConfigError::PathInEmbeddedConfig { entity, name: *name },
        ),
        item is None ==> r is Ok,
{
    if item.is_some() {
        return Err(ConfigError::PathInEmbeddedConfig { entity, name: name.clone() });
    }
    Ok(())
}

/// Check every entry of a decoded embedded document: no cluster and no user
/// may reference credential material by path. The first offender, in
/// document order, is the error returned.
pub fn check_embedded_paths(c: &KubeconfigPaths) -> (r: Result<(), ConfigError>)
    ensures
        r is Ok <==> no_path_refs(*c),
        !no_path_refs(*c) ==> r == Err::<(), ConfigError>(embedded_path_error(*c)->Some_0),
        r matches Err(e) ==> e is PathInEmbeddedConfig,
{
    let ghost all_clusters = c.clusters@;
    let n = c.clusters.len();
    let mut i: usize = 0;
    proof {
        assert(all_clusters.subrange(0, n as int) =~= all_clusters);
    }
    while i < n
        invariant
            i <= n,
            n == c.clusters@.len(),
            c.clusters@ == all_clusters,
            cluster_path_error(all_clusters) == cluster_path_error(
                all_clusters.subrange(i as int, n as int),
            ),
            forall|j: int| 0 <= j < i ==> all_clusters[j].certificate_authority is None,
        decreases n - i,
    {
        let entry = &c.clusters[i];
        proof {
            assert(all_clusters.subrange(i as int, n as int)[0] == all_clusters[i as int]);
            assert(all_clusters.subrange(i as int, n as int).subrange(
                1,
                all_clusters.subrange(i as int, n as int).len() as int,
            ) =~= all_clusters.subrange(i + 1, n as int));
        }
        let checked = ensure_no_path(&entry.certificate_authority, PathEntity::Cluster, &entry.name);
        match checked {
            Ok(_) => (),
            Err(e) => {
                return Err(e);
            },
        }
        i += 1;
    }
    let ghost all_users = c.users@;
    let m = c.users.len();
    let mut k: usize = 0;
    proof {
        assert(all_users.subrange(0, m as int) =~= all_users);
    }
    while k < m
        invariant
            k <= m,
            m == c.users@.len(),
            c.users@ == all_users,
            cluster_path_error(c.clusters@) is None,
            user_path_error(all_users) == user_path_error(all_users.subrange(k as int, m as int)),
        decreases m - k,
    {
        let entry = &c.users[k];
        proof {
            assert(all_users.subrange(k as int, m as int)[0] == all_users[k as int]);
            assert(all_users.subrange(k as int, m as int).subrange(
                1,
                all_users.subrange(k as int, m as int).len() as int,
            ) =~= all_users.subrange(k + 1, m as int));
        }
        let checked = ensure_no_path(
            &entry.client_certificate,
            PathEntity::ClientCertificate,
            &entry.name,
        );
        match checked {
            Ok(_) => (),
            Err(e) => {
                return Err(e);
            },
        }
        let checked = ensure_no_path(&entry.client_key, PathEntity::ClientKey, &entry.name);
        match checked {
            Ok(_) => (),
            Err(e) => {
                return Err(e);
            },
        }
        let checked = ensure_no_path(&entry.token_file, PathEntity::TokenFile, &entry.name);
        match checked {
            Ok(_) => (),
            Err(e) => {
                return Err(e);
            },
        }
        k += 1;
    }
    Ok(())
}

/// An embedded document that went through validation: the decoded bytes,
/// and the path fields that were checked clean.
#[derive(Clone, Debug, PartialEq, Eq)]
pub struct EmbeddedConfig {
    /// The base64-decoded configuration document.
    pub yaml: Vec<u8>,
    /// Its path-valued credential fields, all absent.
    pub paths: KubeconfigPaths,
}

/// How an embedded configuration document resolves, stage by stage: the
/// base64 coat first, then the document itself, then the rule that no
/// credential field may be a filesystem path.
pub open spec fn embedded_resolution(
    doc: Seq<char>,
    r: Result<EmbeddedConfig, ConfigError>,
) -> bool {
    match b64_decoded(doc) {
        None => r matches Err(e) && e is InvalidBase64,
        Some(yaml) => match kubeconfig_paths_of(yaml) {
            None => r matches Err(e) && e is InvalidConfigData,
            Some(paths) => if no_path_refs(paths) {
                r matches Ok(v) && v.yaml@ == yaml && v.paths == paths
            } else {
                r == Err::<EmbeddedConfig, ConfigError>(embedded_path_error(paths)->Some_0)
            },
        },
    }
}

/// Decode and validate an embedded configuration document: base64 first,
/// then the document itself, then the rule that no credential field may be
/// a filesystem path. Only a document that passes all three is handed on,
/// and each stage's failure is owed exactly on the inputs that fail it.
pub fn validate_embedded(doc: &str) -> (r: Result<EmbeddedConfig, ConfigError>)
    ensures
        embedded_resolution(doc@, r),
{
    let yaml = match decode_base64(doc) {
        Ok(v) => v,
        Err(e) => {
            return Err(ConfigError::InvalidBase64(e));
        },
    };
    let paths = match parse_kubeconfig_paths(yaml.as_slice()) {
        Ok(p) => p,
        Err(e) => {
            return Err(ConfigError::InvalidConfigData(e));
        },
    };
    match check_embedded_paths(&paths) {
        Ok(_) => Ok(EmbeddedConfig { yaml, paths }),
        Err(e) => Err(e),
    }
}

/// What the shell must do next to establish a session, once the caller's
/// configuration has been resolved and validated.
#[derive(Clone, Debug, PartialEq, Eq)]
pub enum EstablishStep {
    /// Load the configuration document at this path.
    LoadFile(String),
    /// Use this validated embedded document.
    UseEmbedded(EmbeddedConfig),
    /// Discover the configuration from the environment: in-cluster first,
    /// then the conventional default location.
    InferEnvironment,
}

/// How the embedded-document stages carry over to an establishment plan:
/// an accepted document becomes the embedded step, and every failure is
/// the resolution's own.
pub open spec fn embedded_step_resolution(
    doc: Seq<char>,
    r: Result<EstablishStep, ConfigError>,
) -> bool {
    match r {
        Ok(step) => step matches EstablishStep::UseEmbedded(v) && embedded_resolution(
            doc,
            Ok(v),
        ),
        Err(e) => embedded_resolution(doc, Err(e)),
    }
}

/// Resolve caller-supplied configuration values into an establishment plan.
/// Keys are normalized to lowercase first; a `config_file` entry names a
/// document on disk, else a `config_b64` entry embeds one (validated here,
/// before any connection), else the environment decides.
pub fn plan_establish(values: &Vec<(String, String)>) -> (r: Result<EstablishStep, ConfigError>)
    ensures
        lookup_norm(values@, "config_file"@) matches Some(p) ==> (r matches Ok(step)
            && step matches EstablishStep::LoadFile(path) && path@ == p),
        lookup_norm(values@, "config_file"@) is None ==> (lookup_norm(
            values@,
            "config_b64"@,
        ) matches Some(d) ==> embedded_step_resolution(d, r)),
        lookup_norm(values@, "config_file"@) is None ==> lookup_norm(values@, "config_b64"@)
            is None ==> r == Ok::<EstablishStep, ConfigError>(EstablishStep::InferEnvironment),
{
    let normalized = normalize_values(values);
    proof {
        crate::settings::lemma_lookup_normalized(values@, normalized@, "config_file"@);
        crate::settings::lemma_lookup_normalized(values@, normalized@, "config_b64"@);
    }
    if let Some(path) = get_value(&normalized, "config_file") {
        return Ok(EstablishStep::LoadFile(path));
    }
    if let Some(doc) = get_value(&normalized, "config_b64") {
        return match validate_embedded(doc.as_str()) {
            Ok(v) => Ok(EstablishStep::UseEmbedded(v)),
            Err(e) => Err(e),
        };
    }
    Ok(EstablishStep::InferEnvironment)
}

/// Conclude a session establishment: only a configuration that resolved,
/// connected, and answered the liveness probe reaches the store; on any
/// failure the store is left exactly as it was and the error is surfaced.
pub fn establish_conclude<S>(
    store: &mut SessionStore<S>,
    caller: String,
    probed: Result<S, ConfigError>,
) -> (r: Result<(), ConfigError>)
    requires
        old(store).wf(),
    ensures
        final(store).wf(),
        probed matches Ok(s) ==> final(store)@ == old(store)@.insert(caller@, s) && r is Ok,
        probed matches Err(e) ==> final(store)@ == old(store)@ && r == Err::<(), ConfigError>(e),
{
    match probed {
        Ok(session) => {
            store.insert(caller, session);
            Ok(())
        },
        Err(e) => Err(e),
    }
}

} // verus!
