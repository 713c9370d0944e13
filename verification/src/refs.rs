//! Reference and identifier newtypes for store, deployment and supply-chain records.
use vstd::prelude::*;

verus! {

/// Reference to a built artifact.
#[derive(Debug, PartialEq, Eq, Hash)]
pub struct ArtifactRef(pub String);

impl ArtifactRef {
    /// Returns the identifier as a string slice.
    pub fn as_str(&self) -> (r: &str)
        ensures
            r@ == self.0@,
    {
        self.0.as_str()
    }
}

impl Clone for ArtifactRef {
    fn clone(&self) -> (r: Self)
        ensures
            r == *self,
    {
        ArtifactRef(self.0.clone())
    }
}

/// Generated identifier of an attestation.
#[derive(Debug, PartialEq, Eq, Hash)]
pub struct AttestationId(pub String);

impl AttestationId {
    /// Returns the identifier as a string slice.
    pub fn as_str(&self) -> (r: &str)
        ensures
            r@ == self.0@,
    {
        self.0.as_str()
    }
}

impl Clone for AttestationId {
    fn clone(&self) -> (r: Self)
        ensures
            r == *self,
    {
        AttestationId(self.0.clone())
    }
}

/// Reference to an attestation.
#[derive(Debug, PartialEq, Eq, Hash)]
pub struct AttestationRef(pub String);

impl AttestationRef {
    /// Returns the identifier as a string slice.
    pub fn as_str(&self) -> (r: &str)
        ensures
            r@ == self.0@,
    {
        self.0.as_str()
    }
}

impl Clone for AttestationRef {
    fn clone(&self) -> (r: Self)
        ensures
            r == *self,
    {
        AttestationRef(self.0.clone())
    }
}

/// Reference to a source branch.
#[derive(Debug, PartialEq, Eq, Hash)]
pub struct BranchRef(pub String);

impl BranchRef {
    /// Returns the identifier as a string slice.
    pub fn as_str(&self) -> (r: &str)
        ensures
            r@ == self.0@,
    {
        self.0.as_str()
    }
}

impl Clone for BranchRef {
    fn clone(&self) -> (r: Self)
        ensures
            r == *self,
    {
        BranchRef(self.0.clone())
    }
}

/// Reference to a build log.
#[derive(Debug, PartialEq, Eq, Hash)]
pub struct BuildLogRef(pub String);

impl BuildLogRef {
    /// Returns the identifier as a string slice.
    pub fn as_str(&self) -> (r: &str)
        ensures
            r@ == self.0@,
    {
        self.0.as_str()
    }
}

impl Clone for BuildLogRef {
    fn clone(&self) -> (r: Self)
        ensures
            r == *self,
    {
        BuildLogRef(self.0.clone())
    }
}

/// Identifier of a build.
#[derive(Debug, PartialEq, Eq, Hash)]
pub struct BuildRef(pub String);

impl BuildRef {
    /// Returns the identifier as a string slice.
    pub fn as_str(&self) -> (r: &str)
        ensures
            r@ == self.0@,
    {
        self.0.as_str()
    }
}

impl Clone for BuildRef {
    fn clone(&self) -> (r: Self)
        ensures
            r == *self,
    {
        BuildRef(self.0.clone())
    }
}

/// Reference to a source commit.
#[derive(Debug, PartialEq, Eq, Hash)]
pub struct CommitRef(pub String);

impl CommitRef {
    /// Returns the identifier as a string slice.
    pub fn as_str(&self) -> (r: &str)
        ensures
            r@ == self.0@,
    {
        self.0.as_str()
    }
}

impl Clone for CommitRef {
    fn clone(&self) -> (r: Self)
        ensures
            r == *self,
    {
        CommitRef(self.0.clone())
    }
}

/// Reference to a component.
#[derive(Debug, PartialEq, Eq, Hash)]
pub struct ComponentRef(pub String);

impl ComponentRef {
    /// Returns the identifier as a string slice.
    pub fn as_str(&self) -> (r: &str)
        ensures
            r@ == self.0@,
    {
        self.0.as_str()
    }
}

impl Clone for ComponentRef {
    fn clone(&self) -> (r: Self)
        ensures
            r == *self,
    {
        ComponentRef(self.0.clone())
    }
}

/// Reference to an artifact registry.
#[derive(Debug, PartialEq, Eq, Hash)]
pub struct RegistryRef(pub String);

impl RegistryRef {
    /// Returns the identifier as a string slice.
    pub fn as_str(&self) -> (r: &str)
        ensures
            r@ == self.0@,
    {
        self.0.as_str()
    }
}

impl Clone for RegistryRef {
    fn clone(&self) -> (r: Self)
        ensures
            r == *self,
    {
        RegistryRef(self.0.clone())
    }
}

/// Reference to a source repository.
#[derive(Debug, PartialEq, Eq, Hash)]
pub struct RepoRef(pub String);

impl RepoRef {
    /// Returns the identifier as a string slice.
    pub fn as_str(&self) -> (r: &str)
        ensures
            r@ == self.0@,
    {
        self.0.as_str()
    }
}

impl Clone for RepoRef {
    fn clone(&self) -> (r: Self)
        ensures
            r == *self,
    {
        RepoRef(self.0.clone())
    }
}

/// Reference to a software bill of materials.
#[derive(Debug, PartialEq, Eq, Hash)]
pub struct SbomRef(pub String);

impl SbomRef {
    /// Returns the identifier as a string slice.
    pub fn as_str(&self) -> (r: &str)
        ensures
            r@ == self.0@,
    {
        self.0.as_str()
    }
}

impl Clone for SbomRef {
    fn clone(&self) -> (r: Self)
        ensures
            r == *self,
    {
        SbomRef(self.0.clone())
    }
}

/// Identifier of a scan.
#[derive(Debug, PartialEq, Eq, Hash)]
pub struct ScanRef(pub String);

impl ScanRef {
    /// Returns the identifier as a string slice.
    pub fn as_str(&self) -> (r: &str)
        ensures
            r@ == self.0@,
    {
        self.0.as_str()
    }
}

impl Clone for ScanRef {
    fn clone(&self) -> (r: Self)
        ensures
            r == *self,
    {
        ScanRef(self.0.clone())
    }
}

/// Reference to a signature.
#[derive(Debug, PartialEq, Eq, Hash)]
pub struct SignatureRef(pub String);

impl SignatureRef {
    /// Returns the identifier as a string slice.
    pub fn as_str(&self) -> (r: &str)
        ensures
            r@ == self.0@,
    {
        self.0.as_str()
    }
}

impl Clone for SignatureRef {
    fn clone(&self) -> (r: Self)
        ensures
            r == *self,
    {
        SignatureRef(self.0.clone())
    }
}

/// Reference to a signing key.
#[derive(Debug, PartialEq, Eq, Hash)]
pub struct SigningKeyRef(pub String);

impl SigningKeyRef {
    /// Returns the identifier as a string slice.
    pub fn as_str(&self) -> (r: &str)
        ensures
            r@ == self.0@,
    {
        self.0.as_str()
    }
}

impl Clone for SigningKeyRef {
    fn clone(&self) -> (r: Self)
        ensures
            r == *self,
    {
        SigningKeyRef(self.0.clone())
    }
}

/// Reference to an attestation statement.
#[derive(Debug, PartialEq, Eq, Hash)]
pub struct StatementRef(pub String);

impl StatementRef {
    /// Returns the identifier as a string slice.
    pub fn as_str(&self) -> (r: &str)
        ensures
            r@ == self.0@,
    {
        self.0.as_str()
    }
}

impl Clone for StatementRef {
    fn clone(&self) -> (r: Self)
        ensures
            r == *self,
    {
        StatementRef(self.0.clone())
    }
}

/// Reference to a content store.
#[derive(Debug, PartialEq, Eq, Hash)]
pub struct StoreRef(pub String);

impl StoreRef {
    /// Returns the identifier as a string slice.
    pub fn as_str(&self) -> (r: &str)
        ensures
            r@ == self.0@,
    {
        self.0.as_str()
    }
}

impl Clone for StoreRef {
    fn clone(&self) -> (r: Self)
        ensures
            r == *self,
    {
        StoreRef(self.0.clone())
    }
}

/// Reference to a version.
#[derive(Debug, PartialEq, Eq, Hash)]
pub struct VersionRef(pub String);

impl VersionRef {
    /// Returns the identifier as a string slice.
    pub fn as_str(&self) -> (r: &str)
        ensures
            r@ == self.0@,
    {
        self.0.as_str()
    }
}

impl Clone for VersionRef {
    fn clone(&self) -> (r: Self)
        ensures
            r == *self,
    {
        VersionRef(self.0.clone())
    }
}

/// Identifier of a deployment bundle.
#[derive(Debug, PartialEq, Eq, Hash)]
pub struct BundleId(pub String);

impl BundleId {
    /// Returns the identifier as a string slice.
    pub fn as_str(&self) -> (r: &str)
        ensures
            r@ == self.0@,
    {
        self.0.as_str()
    }
}

impl Clone for BundleId {
    fn clone(&self) -> (r: Self)
        ensures
            r == *self,
    {
        BundleId(self.0.clone())
    }
}

/// Identifier of a storefront collection.
#[derive(Debug, PartialEq, Eq, Hash)]
pub struct CollectionId(pub String);

impl CollectionId {
    /// Returns the identifier as a string slice.
    pub fn as_str(&self) -> (r: &str)
        ensures
            r@ == self.0@,
    {
        self.0.as_str()
    }
}

impl Clone for CollectionId {
    fn clone(&self) -> (r: Self)
        ensures
            r == *self,
    {
        CollectionId(self.0.clone())
    }
}

/// Reference to a distributor.
#[derive(Debug, PartialEq, Eq, Hash)]
pub struct DistributorRef(pub String);

impl DistributorRef {
    /// Returns the identifier as a string slice.
    pub fn as_str(&self) -> (r: &str)
        ensures
            r@ == self.0@,
    {
        self.0.as_str()
    }
}

impl Clone for DistributorRef {
    fn clone(&self) -> (r: Self)
        ensures
            r == *self,
    {
        DistributorRef(self.0.clone())
    }
}

/// Reference to a deployment environment.
#[derive(Debug, PartialEq, Eq, Hash)]
pub struct EnvironmentRef(pub String);

impl EnvironmentRef {
    /// Returns the identifier as a string slice.
    pub fn as_str(&self) -> (r: &str)
        ensures
            r@ == self.0@,
    {
        self.0.as_str()
    }
}

impl Clone for EnvironmentRef {
    fn clone(&self) -> (r: Self)
        ensures
            r == *self,
    {
        EnvironmentRef(self.0.clone())
    }
}

/// Reference to a metadata record.
#[derive(Debug, PartialEq, Eq, Hash)]
pub struct MetadataRecordRef(pub String);

impl MetadataRecordRef {
    /// Returns the identifier as a string slice.
    pub fn as_str(&self) -> (r: &str)
        ensures
            r@ == self.0@,
    {
        self.0.as_str()
    }
}

impl Clone for MetadataRecordRef {
    fn clone(&self) -> (r: Self)
        ensures
            r == *self,
    {
        MetadataRecordRef(self.0.clone())
    }
}

/// Identifier of a storefront.
#[derive(Debug, PartialEq, Eq, Hash)]
pub struct StoreFrontId(pub String);

impl StoreFrontId {
    /// Returns the identifier as a string slice.
    pub fn as_str(&self) -> (r: &str)
        ensures
            r@ == self.0@,
    {
        self.0.as_str()
    }
}

impl Clone for StoreFrontId {
    fn clone(&self) -> (r: Self)
        ensures
            r == *self,
    {
        StoreFrontId(self.0.clone())
    }
}

/// Identifier of a store plan.
#[derive(Debug, PartialEq, Eq, Hash)]
pub struct StorePlanId(pub String);

impl StorePlanId {
    /// Returns the identifier as a string slice.
    pub fn as_str(&self) -> (r: &str)
        ensures
            r@ == self.0@,
    {
        self.0.as_str()
    }
}

impl Clone for StorePlanId {
    fn clone(&self) -> (r: Self)
        ensures
            r == *self,
    {
        StorePlanId(self.0.clone())
    }
}

/// Identifier of a store product.
#[derive(Debug, PartialEq, Eq, Hash)]
pub struct StoreProductId(pub String);

impl StoreProductId {
    /// Returns the identifier as a string slice.
    pub fn as_str(&self) -> (r: &str)
        ensures
            r@ == self.0@,
    {
        self.0.as_str()
    }
}

impl Clone for StoreProductId {
    fn clone(&self) -> (r: Self)
        ensures
            r == *self,
    {
        StoreProductId(self.0.clone())
    }
}

/// Identifier of a subscription.
#[derive(Debug, PartialEq, Eq, Hash)]
pub struct SubscriptionId(pub String);

impl SubscriptionId {
    /// Returns the identifier as a string slice.
    pub fn as_str(&self) -> (r: &str)
        ensures
            r@ == self.0@,
    {
        self.0.as_str()
    }
}

impl Clone for SubscriptionId {
    fn clone(&self) -> (r: Self)
        ensures
            r == *self,
    {
        SubscriptionId(self.0.clone())
    }
}

/// Identifier of a provider installation.
#[derive(Debug, PartialEq, Eq, Hash)]
pub struct ProviderInstallId(pub String);

impl ProviderInstallId {
    /// Returns the identifier as a string slice.
    pub fn as_str(&self) -> (r: &str)
        ensures
            r@ == self.0@,
    {
        self.0.as_str()
    }
}

impl Clone for ProviderInstallId {
    fn clone(&self) -> (r: Self)
        ensures
            r == *self,
    {
        ProviderInstallId(self.0.clone())
    }
}

} // verus!
