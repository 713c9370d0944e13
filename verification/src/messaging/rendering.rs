//! Provider-agnostic DTOs for host messaging render plans.
//!
//! These types describe renderer modes, capability profiles, and diagnostics for adapters and
//! host-side logic. They keep `greentic-types` strictly declarative; actual downgrade and rendering
//! decisions live in the caller implementations, and providers may ignore hints they do not support.
use crate::text::owned;
use vstd::prelude::*;

verus! {

/// Stable renderer modes hosts can request from providers.
#[derive(Clone, Debug, PartialEq, Eq)]
pub enum RendererMode {
    /// Forward the card/message exactly as produced.
    Passthrough,
    /// Downgrade to plain text (Tier D behavior).
    TextOnly,
    /// Downgrade adaptive cards to a safer version before sending to the provider.
    AdaptiveCardDowngrade {
        /// Target adaptive card version (e.g. "1.4").
        target_version: AdaptiveCardVersion,
        /// Fail on unsupported features when `true`, otherwise best-effort downgrade.
        strict: bool,
    },
}

/// Wrapper for adaptive card schema versions so DTO contracts remain explicit even if no validation is applied.
#[derive(Clone, Debug, PartialEq, Eq)]
pub struct AdaptiveCardVersion(String);

/// Provider-agnostic render tiers used for diagnostics and plans.
#[derive(Clone, Debug, PartialEq, Eq)]
pub enum Tier {
    /// Tier A renders the full adaptive card experience when the destination fully supports it.
    TierA,
    /// Tier B targets partial rendering when some features may be missing.
    TierB,
    /// Tier C offers simplified layouts or read-only cards where interactions are limited.
    TierC,
    /// Tier D downgrades to plain text or minimal content for the most restrictive destinations.
    TierD,
}

/// Capabilities associated with a destination/provider.
#[derive(Clone, Debug, Default, PartialEq, Eq)]
pub struct CapabilityProfile {
    /// Maximum adaptive card version the destination declares support for.
    pub max_adaptive_card_version: Option<AdaptiveCardVersion>,
    /// Whether adaptive cards are supported (unknown when `None`).
    pub supports_adaptive_cards: Option<bool>,
    /// Whether interactive actions (e.g. submit, openUrl) are supported.
    pub supports_actions: Option<bool>,
    /// Whether media playback/gifs are supported by the destination.
    pub supports_media: Option<bool>,
    /// Whether input controls (choice set, date picker) are supported.
    pub supports_input_controls: Option<bool>,
    /// Whether Markdown formatting is supported.
    pub supports_markdown: Option<bool>,
}

/// Diagnostics attached to a render plan for logs and tests.
#[derive(Clone, Debug, Default, PartialEq, Eq)]
pub struct RenderDiagnostics {
    /// Optional tier-level summary for diagnostics.
    pub tier: Option<Tier>,
    /// Warning messages describing graceful degradations.
    pub warnings: Vec<String>,
    /// Error messages describing failures or skipped content.
    pub errors: Vec<String>,
}

/// Hints that can be attached to render plans without coupling to a specific provider implementation.
#[derive(Clone, Debug, Default, PartialEq, Eq)]
pub struct RenderPlanHints {
    /// Desired renderer mode requested by the host.
    pub renderer_mode: Option<RendererMode>,
    /// Capability profile for the target destination or channel.
    pub capability_profile: Option<CapabilityProfile>,
    /// Diagnostics emitted while producing the plan.
    pub diagnostics: Option<RenderDiagnostics>,
    /// Optional tier summary for the plan body.
    pub tier: Option<Tier>,
}

impl AdaptiveCardVersion {
    /// The version text.
    pub closed spec fn text(self) -> Seq<char> {
        self.0@
    }

    /// Returns the inner version string slice.
    pub fn as_str(&self) -> (r: &str)
        ensures
            r@ == self.text(),
    {
        self.0.as_str()
    }
}

impl From<String> for AdaptiveCardVersion {
    fn from(value: String) -> (r: Self)
        ensures
            r.text() == value@,
    {
        Self(value)
    }
}

impl vstd::std_specs::convert::FromSpecImpl<String> for AdaptiveCardVersion {
    /// Only the text of the result is specified (see `from`).
    open spec fn obeys_from_spec() -> bool {
        false
    }

    open spec fn from_spec(v: String) -> Self {
        vstd::pervasive::arbitrary()
    }
}

impl<'a> From<&'a str> for AdaptiveCardVersion {
    fn from(value: &'a str) -> (r: Self)
        ensures
            r.text() == value@,
    {
        Self(owned(value))
    }
}

impl<'a> vstd::std_specs::convert::FromSpecImpl<&'a str> for AdaptiveCardVersion {
    /// Only the text of the result is specified (see `from`).
    open spec fn obeys_from_spec() -> bool {
        false
    }

    open spec fn from_spec(v: &'a str) -> Self {
        vstd::pervasive::arbitrary()
    }
}

} // verus!
