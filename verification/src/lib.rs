//! Shared types and helpers for Greentic multi-tenant flows.
#![allow(unused_imports)]

pub mod cbor;
pub mod foreign;
pub mod ids;
pub mod refs;
mod text;

pub use ids::{ComponentId, EnvId, FlowId, NodeId, PackId, TeamId, TenantId, UserId};
pub use refs::{
    ArtifactRef, AttestationId, AttestationRef, BranchRef, BuildLogRef, BuildRef, BundleId,
    CollectionId, CommitRef, ComponentRef, DistributorRef, EnvironmentRef, MetadataRecordRef,
    ProviderInstallId, RegistryRef, RepoRef, SbomRef, ScanRef, SignatureRef, SigningKeyRef,
    StatementRef, StoreFrontId, StorePlanId, StoreProductId, StoreRef, SubscriptionId, VersionRef,
};
pub mod invocation;
pub mod tenant;

pub use invocation::{InvocationDeadline, TenantCtx};
pub use tenant::{Impersonation, TenantIdentity};
pub use invocation::{
    make_idempotency_key, ErrorDetail, InvocationEnvelope, NodeError,
};
pub mod component_source;

pub use component_source::{ComponentSourceRef, ComponentSourceRefError};
pub mod state;

pub use state::{StateKey, StatePath};
pub mod session;

pub use session::{canonical_session_key, SessionCursor, SessionData, SessionKey};
pub mod component;
pub mod flow;

pub use component::{ComponentConfigurators, ComponentManifest};
pub use flow::{Flow, FlowKind, FlowNodes, FlowValidationError, Node};
pub mod pack;
pub mod pack_manifest;

pub use pack::{PackRef, Signature, SignatureAlgorithm};
pub use pack_manifest::{
    BootstrapSpec, ComponentCapability, ExtensionRef, PackDependency, PackFlowEntry, PackKind,
    PackManifest, PackSignatures, SemverReq,
};
pub mod validate;

pub use validate::{validate_pack_manifest_core, Diagnostic, Severity, ValidationReport};
pub mod policy;

pub use policy::{AllowList, NetworkPolicy, PolicyDecision, PolicyDecisionStatus, Protocol};
pub mod store;
pub mod cbor_bytes;

pub use cbor_bytes::{Blob, CborBytes};
pub mod i18n;
pub mod schema_id;

pub use schema_id::{schema_id_for_cbor, SchemaId, SchemaIdError, SchemaSource};
pub mod envelope;
pub mod qa;
pub mod distributor;
pub mod error;
pub mod outcome;

pub use error::{ErrorCode, GreenticError};
pub use outcome::Outcome;
pub mod bindings;
pub mod context;
pub mod deployment;
pub mod events_provider;
pub mod pack_spec;
pub mod provider;
pub mod schema_registry;
pub mod tenant_config;
pub mod worker;

pub use context::{Cloud, DeploymentCtx, Platform};
pub use pack_spec::{PackSpec, ToolSpec};
pub mod messaging;
pub mod op_descriptor;
pub mod run;
pub mod telemetry;

pub use telemetry::SpanContext;
pub mod i18n_text;
pub mod schemas;
pub mod events;
pub mod secrets;
pub mod supply_chain;
pub mod provider_install;
