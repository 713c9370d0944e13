//! Supply-chain oriented shared types (builds, scans, signing, metadata).
use vstd::prelude::*;

use crate::invocation::TenantCtx;
use crate::refs::{
    ArtifactRef, AttestationId, AttestationRef, BranchRef, BuildLogRef, BuildRef, CommitRef,
    ComponentRef, RegistryRef, RepoRef, SbomRef, ScanRef, SignatureRef, SigningKeyRef,
    StatementRef, StoreRef, VersionRef,
};

verus! {

/// Lifecycle status for a build.
#[derive(Clone, Copy, Debug, PartialEq, Eq, Hash)]
pub enum BuildStatusKind {
    /// Build has been accepted but not started.
    Pending,
    /// Build is currently running.
    Running,
    /// Build finished successfully.
    Succeeded,
    /// Build failed.
    Failed,
    /// Build was cancelled before completion.
    Cancelled,
}

/// Supported scan kinds.
#[derive(Clone, Debug, PartialEq, Eq, Hash)]
pub enum ScanKind {
    /// Source code analysis (SAST).
    Source,
    /// Dependency or composition analysis.
    Dependencies,
    /// Binary or container image analysis.
    Artifact,
    /// Custom or provider-specific scan.
    Custom(String),
}

/// Lifecycle status for a scan.
#[derive(Clone, Copy, Debug, PartialEq, Eq, Hash)]
pub enum ScanStatusKind {
    /// Scan has been accepted but not started.
    Pending,
    /// Scan is currently running.
    Running,
    /// Scan finished successfully.
    Succeeded,
    /// Scan failed.
    Failed,
}

/// Predicate type for attestations.
#[derive(Clone, Debug, PartialEq, Eq, Hash)]
pub enum PredicateType {
    /// SLSA provenance predicate.
    Slsa,
    /// Vulnerability assessment predicate.
    Vulnerability,
    /// Custom predicate identified by name.
    Custom(String),
}

/// Hasher used for IndexMap fields to stay `no_std` friendly.
pub type SupplyHasher = std::hash::BuildHasherDefault<fnv::FnvHasher>;

/// Plan describing how to execute a build.
#[derive(Clone, Debug, PartialEq)]
pub struct BuildPlan {
    /// Identifier for the build.
    pub build_id: BuildRef,
    /// Component being built.
    pub component: ComponentRef,
    /// Optional source branch reference.
    pub branch: Option<BranchRef>,
    /// Source repository reference.
    pub source_repo: RepoRef,
    /// Commit identifier from the source repository.
    pub commit: String,
    /// Optional structured commit reference.
    pub commit_ref: Option<CommitRef>,
    /// Language or ecosystem descriptor (for example `rust`, `nodejs`).
    pub language: String,
    /// Entrypoint or build target.
    pub entrypoint: String,
    /// Environment variables passed to the build.
    pub env: indexmap::IndexMap<String, String, SupplyHasher>,
    /// Expected outputs (artifact references).
    pub outputs: Vec<ArtifactRef>,
    /// Provider-specific metadata.
    pub metadata: serde_json::Value,
}

/// Summary status for a build execution.
#[derive(Clone, Debug, PartialEq)]
pub struct BuildStatus {
    /// Identifier for the build.
    pub build_id: BuildRef,
    /// Current status.
    pub status: BuildStatusKind,
    /// Build start time (UTC).
    pub started_at_utc: Option<time::OffsetDateTime>,
    /// Build finish time (UTC).
    pub finished_at_utc: Option<time::OffsetDateTime>,
    /// Produced artifacts.
    pub artifacts: Vec<ArtifactRef>,
    /// Optional build logs reference.
    pub logs_ref: Option<String>,
    /// Optional structured build log references.
    pub log_refs: Vec<BuildLogRef>,
    /// Provider-specific metadata.
    pub metadata: serde_json::Value,
}

/// Request to execute a scan.
#[derive(Clone, Debug, PartialEq)]
pub struct ScanRequest {
    /// Identifier for the scan.
    pub scan_id: ScanRef,
    /// Component being scanned.
    pub component: ComponentRef,
    /// Scan kind.
    pub kind: ScanKind,
    /// Optional commit associated with the scan.
    pub commit_ref: Option<CommitRef>,
    /// Target artifact (when applicable).
    pub artifact: Option<ArtifactRef>,
    /// Provider-specific inputs.
    pub metadata: serde_json::Value,
}

/// Result summary for a scan.
#[derive(Clone, Debug, PartialEq)]
pub struct ScanResult {
    /// Identifier for the scan.
    pub scan_id: ScanRef,
    /// Component scanned.
    pub component: ComponentRef,
    /// Scan kind.
    pub kind: ScanKind,
    /// Final scan status.
    pub status: ScanStatusKind,
    /// Optional SBOM reference emitted by the scan.
    pub sbom: Option<SbomRef>,
    /// Scanner-specific findings.
    pub findings: serde_json::Value,
    /// Scan start time (UTC).
    pub started_at_utc: Option<time::OffsetDateTime>,
    /// Scan finish time (UTC).
    pub finished_at_utc: Option<time::OffsetDateTime>,
}

/// Signing request for an artifact.
#[derive(Clone, Debug, PartialEq)]
pub struct SignRequest {
    /// Signing key reference.
    pub signing_key: SigningKeyRef,
    /// Artifact to sign.
    pub artifact: ArtifactRef,
    /// Payload provided to the signer (hashes, claims, etc.).
    pub payload: serde_json::Value,
    /// Provider-specific metadata.
    pub metadata: serde_json::Value,
}

/// Verification request for a signature.
#[derive(Clone, Debug, PartialEq)]
pub struct VerifyRequest {
    /// Signature reference to verify.
    pub signature: SignatureRef,
    /// Subject artifact associated with the signature.
    pub artifact: ArtifactRef,
    /// Provider-specific metadata.
    pub metadata: serde_json::Value,
}

/// Verification result.
#[derive(Clone, Debug, PartialEq)]
pub struct VerifyResult {
    /// Signature reference.
    pub signature: SignatureRef,
    /// Whether the signature is valid.
    pub valid: bool,
    /// Optional diagnostic message.
    pub message: Option<String>,
    /// Provider-specific metadata.
    pub metadata: serde_json::Value,
}

/// Attestation statement descriptor.
#[derive(Clone, Debug, PartialEq)]
pub struct AttestationStatement {
    /// Optional generated attestation identifier.
    pub attestation_id: Option<AttestationId>,
    /// Attestation identifier.
    pub attestation: AttestationRef,
    /// Predicate type describing the attestation.
    pub predicate_type: PredicateType,
    /// Statement reference (for example DSSE envelope).
    pub statement: StatementRef,
    /// Optional registry where the attestation is stored.
    pub registry: Option<RegistryRef>,
    /// Optional content store reference.
    pub store: Option<StoreRef>,
    /// Provider-specific metadata.
    pub metadata: serde_json::Value,
}

/// Generic metadata record attached to supply-chain entities.
#[derive(Clone, Debug, PartialEq)]
pub struct MetadataRecord {
    /// Optional version reference associated with the record.
    pub version: Option<VersionRef>,
    /// Optional namespace grouping related keys.
    pub namespace: Option<String>,
    /// Metadata key (lower_snake_case or dotted).
    pub key: String,
    /// Metadata value as arbitrary JSON.
    pub value: serde_json::Value,
}

/// Repository-scoped context for convenience.
#[derive(Clone, Debug, PartialEq)]
pub struct RepoContext {
    /// Tenant context.
    pub tenant: TenantCtx,
    /// Repository reference.
    pub repo: RepoRef,
}

/// Store-scoped context for convenience.
#[derive(Clone, Debug, PartialEq)]
pub struct StoreContext {
    /// Tenant context.
    pub tenant: TenantCtx,
    /// Store reference.
    pub store: StoreRef,
}


} // verus!
