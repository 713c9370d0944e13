//! Storefront, catalog, subscription, and desired state shared models.
use vstd::prelude::*;

use crate::pack_manifest::SemverReq;
use crate::text::owned;
use crate::ids::PackId;
use crate::invocation::TenantCtx;
use crate::pack::PackRef;
use crate::refs::{
    ArtifactRef, BundleId, CollectionId, ComponentRef, DistributorRef, EnvironmentRef,
    MetadataRecordRef, RepoRef, StoreFrontId, StorePlanId, StoreProductId, SubscriptionId,
};

verus! {

/// Visual theme tokens for a storefront.
#[derive(Clone, Debug, PartialEq)]
pub struct Theme {
    /// Primary color hex code.
    pub primary_color: String,
    /// Secondary color hex code.
    pub secondary_color: String,
    /// Accent color hex code.
    pub accent_color: String,
    /// Background color hex code.
    pub background_color: String,
    /// Text color hex code.
    pub text_color: String,
    /// Primary font family.
    pub font_family: String,
    /// Optional logo URL.
    pub logo_url: Option<String>,
    /// Optional favicon URL.
    pub favicon_url: Option<String>,
    /// Optional hero image URL.
    pub hero_image_url: Option<String>,
    /// Optional hero title.
    pub hero_title: Option<String>,
    /// Optional hero subtitle.
    pub hero_subtitle: Option<String>,
    /// Optional card corner radius in pixels.
    pub card_radius: Option<u8>,
    /// Optional card elevation hint.
    pub card_elevation: Option<u8>,
    /// Optional button style token.
    pub button_style: Option<String>,
}

impl Default for Theme {
    fn default() -> (r: Self)
        ensures
            r.primary_color@ == "#0f766e"@,
            r.secondary_color@ == "#134e4a"@,
            r.accent_color@ == "#10b981"@,
            r.background_color@ == "#ffffff"@,
            r.text_color@ == "#0f172a"@,
            r.font_family@ == "Inter, sans-serif"@,
            r.logo_url is None,
            r.favicon_url is None,
            r.hero_image_url is None,
            r.hero_title is None,
            r.hero_subtitle is None,
            r.card_radius is None,
            r.card_elevation is None,
            r.button_style is None,
    {
        Self {
            primary_color: owned("#0f766e"),
            secondary_color: owned("#134e4a"),
            accent_color: owned("#10b981"),
            background_color: owned("#ffffff"),
            text_color: owned("#0f172a"),
            font_family: owned("Inter, sans-serif"),
            logo_url: None,
            favicon_url: None,
            hero_image_url: None,
            hero_title: None,
            hero_subtitle: None,
            card_radius: None,
            card_elevation: None,
            button_style: None,
        }
    }
}

/// Layout section kind for storefront composition.
#[derive(Clone, Debug, PartialEq, Eq, Hash)]
pub enum LayoutSectionKind {
    /// Hero section.
    Hero,
    /// Featured collection of products.
    FeaturedCollection,
    /// Grid of products.
    Grid,
    /// Call-to-action section.
    Cta,
    /// Custom section identified by name.
    Custom(String),
}

/// Kinds of products exposed by the store catalog.
#[derive(Clone, Copy, Debug, PartialEq, Eq, Hash)]
pub enum StoreProductKind {
    /// Component offering.
    Component,
    /// Flow offering.
    Flow,
    /// Pack offering.
    Pack,
}

/// Strategy used to resolve versions.
#[derive(Clone, Debug, PartialEq, Eq, Hash)]
pub enum VersionStrategy {
    /// Always track the latest version.
    Latest,
    /// Use a pinned semantic version requirement (legacy shape).
    Pinned {
        /// Version requirement (e.g. ^1.2).
        requirement: SemverReq,
    },
    /// Track a long-term support channel (legacy shape).
    Lts,
    /// Custom strategy identified by name (legacy shape).
    Custom(String),
    /// Always track the latest published version for this component.
    Fixed {
        /// Exact version string (e.g. "1.2.3").
        version: String,
    },
    /// A semver-style range (e.g. ">=1.2,<2.0").
    Range {
        /// Version range expression.
        range: String,
    },
    /// A named channel (e.g. "stable", "beta", "canary").
    Channel {
        /// Channel name.
        channel: String,
    },
    /// Forward-compatible escape hatch for unknown strategies.
    CustomTagged {
        /// Free-form value for the strategy.
        value: String,
    },
}

/// Legacy, externally tagged serialized shape of a version strategy.
#[derive(Clone, Debug, PartialEq, Eq)]
pub enum LegacyVersionStrategy {
    /// `"latest"`
    Latest,
    /// `{"pinned": {"requirement": ...}}`
    Pinned {
        /// Version requirement.
        requirement: SemverReq,
    },
    /// `"lts"`
    Lts,
    /// `{"custom": ...}`
    Custom(String),
}

/// Serialized shape of a version strategy tagged by a `kind` field.
#[derive(Clone, Debug, PartialEq, Eq)]
pub enum TaggedVersionStrategy {
    /// `{"kind": "latest"}`
    Latest,
    /// `{"kind": "fixed", "version": ...}`
    Fixed {
        /// Exact version.
        version: String,
    },
    /// `{"kind": "range", "range": ...}`
    Range {
        /// Version range expression.
        range: String,
    },
    /// `{"kind": "channel", "channel": ...}`
    Channel {
        /// Channel name.
        channel: String,
    },
    /// `{"kind": "custom", "value": ...}`
    Custom {
        /// Free-form value.
        value: String,
    },
}

/// Either serialized shape; readers try the tagged shape first.
#[derive(Clone, Debug, PartialEq, Eq)]
pub enum VersionStrategyWire {
    /// The `kind`-tagged shape.
    Tagged(TaggedVersionStrategy),
    /// The legacy shape.
    Legacy(LegacyVersionStrategy),
}

impl VersionStrategy {
    /// The serialized shape of the strategy: legacy variants keep the legacy
    /// shape, the others are written with a `kind` tag.
    pub fn to_wire(self) -> (r: VersionStrategyWire)
        ensures
            r == spec_to_wire(self),
    {
        match self {
            VersionStrategy::Latest => VersionStrategyWire::Legacy(LegacyVersionStrategy::Latest),
            VersionStrategy::Pinned { requirement } => VersionStrategyWire::Legacy(
                LegacyVersionStrategy::Pinned { requirement },
            ),
            VersionStrategy::Lts => VersionStrategyWire::Legacy(LegacyVersionStrategy::Lts),
            VersionStrategy::Custom(value) => VersionStrategyWire::Legacy(
                LegacyVersionStrategy::Custom(value),
            ),
            VersionStrategy::Fixed { version } => VersionStrategyWire::Tagged(
                TaggedVersionStrategy::Fixed { version },
            ),
            VersionStrategy::Range { range } => VersionStrategyWire::Tagged(
                TaggedVersionStrategy::Range { range },
            ),
            VersionStrategy::Channel { channel } => VersionStrategyWire::Tagged(
                TaggedVersionStrategy::Channel { channel },
            ),
            VersionStrategy::CustomTagged { value } => VersionStrategyWire::Tagged(
                TaggedVersionStrategy::Custom { value },
            ),
        }
    }

    /// The strategy a serialized shape denotes.
    pub fn from_wire(wire: VersionStrategyWire) -> (r: Self)
        ensures
            r == spec_from_wire(wire),
    {
        match wire {
            VersionStrategyWire::Tagged(tagged) => match tagged {
                TaggedVersionStrategy::Latest => VersionStrategy::Latest,
                TaggedVersionStrategy::Fixed { version } => VersionStrategy::Fixed { version },
                TaggedVersionStrategy::Range { range } => VersionStrategy::Range { range },
                TaggedVersionStrategy::Channel { channel } => VersionStrategy::Channel { channel },
                TaggedVersionStrategy::Custom { value } => VersionStrategy::CustomTagged { value },
            },
            VersionStrategyWire::Legacy(legacy) => match legacy {
                LegacyVersionStrategy::Latest => VersionStrategy::Latest,
                LegacyVersionStrategy::Pinned { requirement } => VersionStrategy::Pinned {
                    requirement,
                },
                LegacyVersionStrategy::Lts => VersionStrategy::Lts,
                LegacyVersionStrategy::Custom(value) => VersionStrategy::Custom(value),
            },
        }
    }
}

/// Serialized shape of a strategy.
pub open spec fn spec_to_wire(v: VersionStrategy) -> VersionStrategyWire {
    match v {
        VersionStrategy::Latest => VersionStrategyWire::Legacy(LegacyVersionStrategy::Latest),
        VersionStrategy::Pinned { requirement } => VersionStrategyWire::Legacy(
            LegacyVersionStrategy::Pinned { requirement },
        ),
        VersionStrategy::Lts => VersionStrategyWire::Legacy(LegacyVersionStrategy::Lts),
        VersionStrategy::Custom(value) => VersionStrategyWire::Legacy(
            LegacyVersionStrategy::Custom(value),
        ),
        VersionStrategy::Fixed { version } => VersionStrategyWire::Tagged(
            TaggedVersionStrategy::Fixed { version },
        ),
        VersionStrategy::Range { range } => VersionStrategyWire::Tagged(
            TaggedVersionStrategy::Range { range },
        ),
        VersionStrategy::Channel { channel } => VersionStrategyWire::Tagged(
            TaggedVersionStrategy::Channel { channel },
        ),
        VersionStrategy::CustomTagged { value } => VersionStrategyWire::Tagged(
            TaggedVersionStrategy::Custom { value },
        ),
    }
}

/// Strategy denoted by a serialized shape.
pub open spec fn spec_from_wire(w: VersionStrategyWire) -> VersionStrategy {
    match w {
        VersionStrategyWire::Tagged(tagged) => match tagged {
            TaggedVersionStrategy::Latest => VersionStrategy::Latest,
            TaggedVersionStrategy::Fixed { version } => VersionStrategy::Fixed { version },
            TaggedVersionStrategy::Range { range } => VersionStrategy::Range { range },
            TaggedVersionStrategy::Channel { channel } => VersionStrategy::Channel { channel },
            TaggedVersionStrategy::Custom { value } => VersionStrategy::CustomTagged { value },
        },
        VersionStrategyWire::Legacy(legacy) => match legacy {
            LegacyVersionStrategy::Latest => VersionStrategy::Latest,
            LegacyVersionStrategy::Pinned { requirement } => VersionStrategy::Pinned {
                requirement,
            },
            LegacyVersionStrategy::Lts => VersionStrategy::Lts,
            LegacyVersionStrategy::Custom(value) => VersionStrategy::Custom(value),
        },
    }
}

/// Every strategy reads back from the shape it is written in.
pub proof fn law_version_strategy_roundtrip(v: VersionStrategy)
    ensures
        spec_from_wire(spec_to_wire(v)) == v,
{
}

/// Pricing model for a plan.
#[derive(Clone, Debug, PartialEq, Eq, Hash)]
pub enum PriceModel {
    /// Free plan.
    Free,
    /// Flat recurring price.
    Flat {
        /// Amount in micro-units per period.
        amount_micro: u64,
        /// Billing period length in days.
        period_days: u16,
    },
    /// Metered pricing with included units.
    Metered {
        /// Included units per period.
        included_units: u64,
        /// Overage rate per additional unit (micro-units).
        overage_rate_micro: u64,
        /// Unit label (for example `build-minute`).
        unit_label: String,
    },
    /// Enterprise/custom pricing.
    Enterprise {
        /// Human-readable description.
        description: String,
    },
}

/// Subscription lifecycle status.
#[derive(Clone, Copy, Debug, PartialEq, Eq, Hash)]
pub enum SubscriptionStatus {
    /// Draft subscription (pending approval).
    Draft,
    /// Active subscription.
    Active,
    /// Paused subscription.
    Paused,
    /// Cancelled subscription.
    Cancelled,
    /// Subscription encountered an error.
    Error,
}

/// Connection kind for an environment.
#[derive(Clone, Copy, Debug, PartialEq, Eq, Hash)]
pub enum ConnectionKind {
    /// Online environment with direct connectivity.
    Online,
    /// Offline or air-gapped environment.
    Offline,
}

/// Rollout lifecycle state for an environment.
#[derive(Clone, Copy, Debug, PartialEq, Eq, Hash)]
pub enum RolloutState {
    /// Rollout is pending scheduling or validation.
    Pending,
    /// Rollout plan generation is in progress.
    Planning,
    /// Rollout is actively executing.
    InProgress,
    /// Rollout completed successfully.
    Succeeded,
    /// Rollout failed.
    Failed,
    /// Rollout is blocked (for example policy or compliance).
    Blocked,
}

/// Layout section configuration.
#[derive(Clone, Debug, PartialEq)]
pub struct LayoutSection {
    /// Stable section identifier.
    pub id: String,
    /// Section kind.
    pub kind: LayoutSectionKind,
    /// Optional collection backing the section.
    pub collection_id: Option<CollectionId>,
    /// Optional title.
    pub title: Option<String>,
    /// Optional subtitle.
    pub subtitle: Option<String>,
    /// Ordering hint for rendering.
    pub sort_order: i32,
    /// Free-form metadata for front-end rendering.
    pub metadata: std::collections::BTreeMap<String, serde_json::Value>,
}

/// Collection of products curated for a storefront.
#[derive(Clone, Debug, PartialEq)]
pub struct Collection {
    /// Collection identifier.
    pub id: CollectionId,
    /// Storefront owning the collection.
    pub storefront_id: StoreFrontId,
    /// Display title.
    pub title: String,
    /// Products included in the collection.
    pub product_ids: Vec<StoreProductId>,
    /// Optional slug.
    pub slug: Option<String>,
    /// Optional description.
    pub description: Option<String>,
    /// Sort order hint.
    pub sort_order: i32,
    /// Additional metadata.
    pub metadata: std::collections::BTreeMap<String, serde_json::Value>,
}

/// Override applied to a product within a storefront.
#[derive(Clone, Debug, PartialEq)]
pub struct ProductOverride {
    /// Storefront receiving the override.
    pub storefront_id: StoreFrontId,
    /// Product being overridden.
    pub product_id: StoreProductId,
    /// Optional display name override.
    pub display_name: Option<String>,
    /// Optional short description override.
    pub short_description: Option<String>,
    /// Badges to render on the product card.
    pub badges: Vec<String>,
    /// Additional metadata.
    pub metadata: std::collections::BTreeMap<String, serde_json::Value>,
}

/// Storefront configuration and content.
#[derive(Clone, Debug, PartialEq)]
pub struct StoreFront {
    /// Storefront identifier.
    pub id: StoreFrontId,
    /// Slug used for routing.
    pub slug: String,
    /// Display name.
    pub name: String,
    /// Visual theme.
    pub theme: Theme,
    /// Layout sections composing the storefront.
    pub sections: Vec<LayoutSection>,
    /// Curated collections.
    pub collections: Vec<Collection>,
    /// Product overrides scoped to this storefront.
    pub overrides: Vec<ProductOverride>,
    /// Optional worker identifier used by messaging.
    pub worker_id: Option<String>,
    /// Additional metadata.
    pub metadata: std::collections::BTreeMap<String, serde_json::Value>,
}

/// Map of capability group -> list of capability values.
pub type CapabilityMap = std::collections::BTreeMap<String, Vec<String>>;

/// Catalog product describing a component, flow, or pack.
#[derive(Clone, Debug, PartialEq)]
pub struct StoreProduct {
    /// Product identifier.
    pub id: StoreProductId,
    /// Product kind.
    pub kind: StoreProductKind,
    /// Display name.
    pub name: String,
    /// Slug for routing.
    pub slug: String,
    /// Description.
    pub description: String,
    /// Source repository reference.
    pub source_repo: RepoRef,
    /// Optional component reference.
    pub component_ref: Option<ComponentRef>,
    /// Optional pack reference.
    pub pack_ref: Option<PackId>,
    /// Optional category label.
    pub category: Option<String>,
    /// Tags for filtering.
    pub tags: Vec<String>,
    /// Capabilities exposed by the product.
    pub capabilities: CapabilityMap,
    /// Version resolution strategy.
    pub version_strategy: VersionStrategy,
    /// Default plan identifier, if any.
    pub default_plan_id: Option<StorePlanId>,
    /// Convenience flag indicating the default plan is free.
    pub is_free: bool,
    /// Additional metadata.
    pub metadata: std::collections::BTreeMap<String, serde_json::Value>,
}

/// Plan limits used for entitlements.
#[derive(Clone, Debug, PartialEq, Eq)]
pub struct PlanLimits {
    /// Maximum environments allowed.
    pub max_environments: Option<u32>,
    /// Maximum subscriptions allowed.
    pub max_subscriptions: Option<u32>,
    /// Included units per period (semantic depends on product).
    pub monthly_units_included: Option<u64>,
    /// Additional metadata.
    pub metadata: std::collections::BTreeMap<String, serde_json::Value>,
}

/// Plan associated with a store product.
#[derive(Clone, Debug, PartialEq)]
pub struct StorePlan {
    /// Plan identifier.
    pub id: StorePlanId,
    /// Plan name.
    pub name: String,
    /// Plan description.
    pub description: String,
    /// Pricing model.
    pub price_model: PriceModel,
    /// Plan limits.
    pub limits: PlanLimits,
    /// Tags for classification.
    pub tags: Vec<String>,
    /// Additional metadata.
    pub metadata: std::collections::BTreeMap<String, serde_json::Value>,
}

/// Subscription entry linking a tenant to a product and plan.
#[derive(Clone, Debug, PartialEq)]
pub struct Subscription {
    /// Subscription identifier.
    pub id: SubscriptionId,
    /// Tenant context owning the subscription.
    pub tenant_ctx: TenantCtx,
    /// Product identifier.
    pub product_id: StoreProductId,
    /// Plan identifier.
    pub plan_id: StorePlanId,
    /// Optional target environment.
    pub environment_ref: Option<EnvironmentRef>,
    /// Optional distributor responsible for the environment.
    pub distributor_ref: Option<DistributorRef>,
    /// Current status.
    pub status: SubscriptionStatus,
    /// Additional metadata.
    pub metadata: std::collections::BTreeMap<String, serde_json::Value>,
}

/// Choice between component or pack reference.
#[derive(Clone, Debug, PartialEq, Eq, Hash)]
pub enum PackOrComponentRef {
    /// Component reference.
    Component(ComponentRef),
    /// Pack reference.
    Pack(PackId),
}

/// Selector describing whether a component or pack should be deployed.
#[derive(Clone, Debug, PartialEq, Eq)]
pub enum ArtifactSelector {
    /// Component reference.
    Component(ComponentRef),
    /// Pack reference.
    Pack(PackRef),
}

/// Desired subscription entry supplied to the distributor.
#[derive(Clone, Debug, PartialEq)]
pub struct DesiredSubscriptionEntry {
    /// Target artifact selection.
    pub selector: ArtifactSelector,
    /// Version strategy to apply.
    pub version_strategy: VersionStrategy,
    /// Configuration overrides.
    pub config_overrides: std::collections::BTreeMap<String, serde_json::Value>,
    /// Policy tags for downstream enforcement.
    pub policy_tags: Vec<String>,
    /// Additional metadata.
    pub metadata: std::collections::BTreeMap<String, serde_json::Value>,
}

/// Desired state for an environment.
#[derive(Clone, Debug, PartialEq)]
pub struct DesiredState {
    /// Tenant context owning the desired state.
    pub tenant: TenantCtx,
    /// Target environment reference.
    pub environment_ref: EnvironmentRef,
    /// Desired subscriptions.
    pub entries: Vec<DesiredSubscriptionEntry>,
    /// Desired state version.
    pub version: u64,
    /// Additional metadata.
    pub metadata: std::collections::BTreeMap<String, serde_json::Value>,
}

/// Environment registry entry.
#[derive(Clone, Debug, PartialEq)]
pub struct Environment {
    /// Environment identifier.
    pub id: EnvironmentRef,
    /// Tenant context owning the environment.
    pub tenant: TenantCtx,
    /// Human-readable name.
    pub name: String,
    /// Labels for selection and grouping.
    pub labels: std::collections::BTreeMap<String, String>,
    /// Distributor responsible for this environment.
    pub distributor_ref: DistributorRef,
    /// Connection kind.
    pub connection_kind: ConnectionKind,
    /// Additional metadata.
    pub metadata: std::collections::BTreeMap<String, serde_json::Value>,
}

/// Status record for an environment rollout.
#[derive(Clone, Debug, PartialEq)]
pub struct RolloutStatus {
    /// Target environment.
    pub environment_ref: EnvironmentRef,
    /// Desired state version associated with this rollout.
    pub desired_state_version: Option<u64>,
    /// Current rollout state.
    pub state: RolloutState,
    /// Optional bundle used for offline rollouts.
    pub bundle_id: Option<BundleId>,
    /// Optional human-readable message.
    pub message: Option<String>,
    /// Additional metadata.
    pub metadata: std::collections::BTreeMap<String, serde_json::Value>,
}

/// Bundle specification for offline or air-gapped deployments.
#[derive(Clone, Debug, PartialEq)]
pub struct BundleSpec {
    /// Identifier of the distribution-bundle `.gtpack` (pack id).
    pub bundle_id: BundleId,
    /// Tenant context for the bundle.
    pub tenant: TenantCtx,
    /// Target environment.
    pub environment_ref: EnvironmentRef,
    /// Version of the desired state used to construct the bundle.
    pub desired_state_version: u64,
    /// Artifact references included in the bundle.
    pub artifact_refs: Vec<ArtifactRef>,
    /// Metadata record references (SBOMs, attestations, signatures).
    pub metadata_refs: Vec<MetadataRecordRef>,
    /// Additional metadata.
    pub additional_metadata: std::collections::BTreeMap<String, serde_json::Value>,
}

/// Export specification used to request a bundle from a desired state.
#[derive(Clone, Debug, PartialEq)]
pub struct DesiredStateExportSpec {
    /// Tenant context owning the desired state.
    pub tenant: TenantCtx,
    /// Target environment.
    pub environment_ref: EnvironmentRef,
    /// Desired state version to export.
    pub desired_state_version: u64,
    /// Whether to include artifacts in the bundle.
    pub include_artifacts: bool,
    /// Whether to include metadata (SBOMs, attestations).
    pub include_metadata: bool,
    /// Additional metadata.
    pub metadata: std::collections::BTreeMap<String, serde_json::Value>,
}


impl Default for PlanLimits {
    /// No limits and no metadata.
    fn default() -> (r: Self)
        ensures
            r.max_environments is None,
            r.max_subscriptions is None,
            r.monthly_units_included is None,
            r.metadata@ == Map::<String, serde_json::Value>::empty(),
    {
        PlanLimits {
            max_environments: None,
            max_subscriptions: None,
            monthly_units_included: None,
            metadata: std::collections::BTreeMap::new(),
        }
    }
}

impl Environment {
    /// Creates an environment with no labels and no metadata.
    pub fn new(
        id: EnvironmentRef,
        tenant: TenantCtx,
        distributor_ref: DistributorRef,
        connection_kind: ConnectionKind,
        name: &str,
    ) -> (r: Self)
        ensures
            r.id == id,
            r.tenant == tenant,
            r.name@ == name@,
            r.distributor_ref == distributor_ref,
            r.connection_kind == connection_kind,
            r.labels@ == Map::<String, String>::empty(),
            r.metadata@ == Map::<String, serde_json::Value>::empty(),
    {
        Self {
            id,
            tenant,
            name: owned(name),
            distributor_ref,
            connection_kind,
            labels: std::collections::BTreeMap::new(),
            metadata: std::collections::BTreeMap::new(),
        }
    }
}

} // verus!
