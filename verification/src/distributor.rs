//! Distributor API data transfer objects used by runner/deployer clients.
use vstd::prelude::*;

use crate::invocation::TenantCtx;
use crate::text::{has_prefix, owned, starts_with};

verus! {

/// Identifier for a distributor environment.
#[derive(Debug, PartialEq, Eq, Hash)]
pub struct DistributorEnvironmentId(pub String);

impl Clone for DistributorEnvironmentId {
    fn clone(&self) -> (r: Self)
        ensures
            r == *self,
    {
        DistributorEnvironmentId(self.0.clone())
    }
}

impl DistributorEnvironmentId {
    /// Returns the underlying identifier as a string slice.
    pub fn as_str(&self) -> (r: &str)
        ensures
            r@ == self.0@,
    {
        self.0.as_str()
    }
}

/// Digest for a component artifact.
#[derive(Debug, PartialEq, Eq, Hash)]
pub struct ComponentDigest(pub String);

impl Clone for ComponentDigest {
    fn clone(&self) -> (r: Self)
        ensures
            r == *self,
    {
        ComponentDigest(self.0.clone())
    }
}

/// The digest prefix `sha256:`.
pub open spec fn sha256_prefix() -> Seq<char> {
    seq!['s', 'h', 'a', '2', '5', '6', ':']
}

/// A lowercase hexadecimal digit.
pub open spec fn is_lower_hex(c: char) -> bool {
    ('0' <= c && c <= '9') || ('a' <= c && c <= 'f')
}

/// `sha256:` followed by exactly 64 lowercase hexadecimal digits.
pub open spec fn spec_is_sha256_like(s: Seq<char>) -> bool {
    has_prefix(s, sha256_prefix()) && s.len() == 71 && forall|i: int|
        7 <= i < s.len() ==> #[trigger] is_lower_hex(s[i])
}

impl ComponentDigest {
    /// Returns the digest as a string slice.
    pub fn as_str(&self) -> (r: &str)
        ensures
            r@ == self.0@,
    {
        self.0.as_str()
    }

    /// Heuristic check for sha256-like digests: `sha256:` + 64 lowercase hex chars.
    pub fn is_sha256_like(&self) -> (r: bool)
        ensures
            r == spec_is_sha256_like(self.0@),
    {
        let s = self.0.as_str();
        proof {
            reveal_strlit("sha256:");
        }
        assert("sha256:"@ =~= sha256_prefix());
        if !starts_with(s, "sha256:") {
            return false;
        }
        let n = s.unicode_len();
        if n != 71 {
            return false;
        }
        let mut i: usize = 7;
        while i < n
            invariant
                7 <= i <= n,
                n == s@.len(),
                s@ == self.0@,
                forall|k: int| 7 <= k < i ==> #[trigger] is_lower_hex(s@[k]),
            decreases n - i,
        {
            let c = s.get_char(i);
            if !(('0' <= c && c <= '9') || ('a' <= c && c <= 'f')) {
                assert(!is_lower_hex(s@[i as int]));
                return false;
            }
            i = i + 1;
        }
        true
    }
}

/// Resolution status for a component.
#[derive(Clone, Debug, PartialEq, Eq)]
pub enum ComponentStatus {
    /// Resolution in progress or awaiting cache.
    Pending,
    /// Component is ready for use.
    Ready,
    /// Resolution failed with a reason.
    Failed {
        /// Human-readable failure explanation.
        reason: String,
    },
}

/// Location of the resolved artifact.
#[derive(Clone, Debug, PartialEq, Eq)]
pub enum ArtifactLocation {
    /// Local file path on disk.
    FilePath {
        /// Absolute or relative path to the artifact.
        path: String,
    },
    /// OCI reference to the artifact.
    OciReference {
        /// Reference string to the OCI artifact.
        reference: String,
    },
    /// Internal distributor handle.
    DistributorInternal {
        /// Opaque handle understood by the distributor.
        handle: String,
    },
}

/// Summary of artifact signature verification.
#[derive(Clone, Debug, PartialEq, Eq)]
pub struct SignatureSummary {
    /// Whether the signature verified.
    pub verified: bool,
    /// Signer identifier or key hint.
    pub signer: String,
    /// Opaque extra details.
    pub extra: serde_json::Value,
}

/// Cache metadata for resolved artifacts.
#[derive(Clone, Debug, PartialEq, Eq)]
pub struct CacheInfo {
    /// Size of the cached artifact in bytes.
    pub size_bytes: u64,
    /// Last use timestamp in ISO 8601 (UTC).
    pub last_used_utc: String,
    /// Last refresh timestamp in ISO 8601 (UTC).
    pub last_refreshed_utc: String,
}

/// Request to resolve a component for a given tenant/environment.
#[derive(Clone, Debug, PartialEq, Eq)]
pub struct ResolveComponentRequest {
    /// Tenant context for the request.
    pub tenant: TenantCtx,
    /// Distributor environment identifier.
    pub environment_id: DistributorEnvironmentId,
    /// Pack identifier.
    pub pack_id: String,
    /// Component identifier within the pack.
    pub component_id: String,
    /// Requested version.
    pub version: String,
    /// Opaque extension fields.
    pub extra: serde_json::Value,
}

/// Response returned after resolving a component.
#[derive(Clone, Debug, PartialEq, Eq)]
pub struct ResolveComponentResponse {
    /// Resolution status.
    pub status: ComponentStatus,
    /// Digest of the resolved component.
    pub digest: ComponentDigest,
    /// Location of the resolved artifact.
    pub artifact: ArtifactLocation,
    /// Signature verification summary.
    pub signature: SignatureSummary,
    /// Cache metadata.
    pub cache: CacheInfo,
}

} // verus!
