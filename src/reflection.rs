//! What the reflection registry is built from and what it advertises.
use crate::service::{business_identity, business_service_name};
use vstd::prelude::*;

verus! {

/// The fully qualified name of the health-check facade.
pub open spec fn health_identity() -> Seq<char> {
    "grpc.health.v1.Health"@
}

/// A schema descriptor set that the reflection registry serves from.
#[derive(Debug, Clone, Copy, PartialEq, Eq, Structural)]
pub enum DescriptorSource {
    /// The business service's schema.
    TimeService,
    /// The health-check schema.
    HealthCheck,
}

/// The service that a descriptor source describes.
pub open spec fn source_identity(s: DescriptorSource) -> Seq<char> {
    match s {
        DescriptorSource::TimeService => business_identity(),
        DescriptorSource::HealthCheck => health_identity(),
    }
}

/// The services that reflection advertises, in order.
pub open spec fn advertised() -> Seq<Seq<char>> {
    seq![business_identity(), health_identity()]
}

impl DescriptorSource {
    /// The name of the service this source describes.
    pub fn service_name(&self) -> (r: String)
        ensures
            r@ == source_identity(*self),
    {
        match self {
            DescriptorSource::TimeService => business_service_name(),
            DescriptorSource::HealthCheck => "grpc.health.v1.Health".to_owned(),
        }
    }
}

/// The descriptor sets the reflection registry is built from: the business
/// schema and the health-check schema, each once.
pub fn descriptor_sources() -> (r: Vec<DescriptorSource>)
    ensures
        r@ == seq![DescriptorSource::TimeService, DescriptorSource::HealthCheck],
{
    vec![DescriptorSource::TimeService, DescriptorSource::HealthCheck]
}

/// The names that a reflection query for the list of services returns: the
/// service named by each descriptor source, in the same order, and nothing
/// else.
pub fn reflected_service_names() -> (r: Vec<String>)
    ensures
        r@.len() == advertised().len(),
        forall|i: int| 0 <= i < r@.len() ==> #[trigger] r@[i]@ == advertised()[i],
{
    let sources = descriptor_sources();
    let mut names: Vec<String> = Vec::new();
    let mut i: usize = 0;
    while i < sources.len()
        invariant
            sources@ == seq![DescriptorSource::TimeService, DescriptorSource::HealthCheck],
            i <= sources@.len(),
            names@.len() == i,
            forall|j: int| 0 <= j < i ==> #[trigger] names@[j]@ == source_identity(sources@[j]),
        decreases sources@.len() - i,
    {
        names.push(sources[i].service_name());
        i = i + 1;
    }
    names
}

/// Reflection advertises exactly the business service and the health-check
/// facade: two distinct names, each described by one descriptor source.
pub proof fn lemma_advertises_business_and_health()
    ensures
        advertised().to_set() == set![business_identity(), health_identity()],
        business_identity() != health_identity(),
        forall|k: Seq<char>| #[trigger] advertised().contains(k) <==> exists|s: DescriptorSource| source_identity(s) == k,
{
    reveal_strlit("grpc.health.v1.Health");
    reveal_strlit("com.github.canardleteer.grpc_service_rs.v1alpha1.SimpleTimestampService");
    assert(business_identity().len() != health_identity().len());
    assert(advertised().to_set() =~= set![business_identity(), health_identity()]) by {
        assert(advertised()[0] == business_identity());
        assert(advertised()[1] == health_identity());
    }
    assert forall|k: Seq<char>| #[trigger] advertised().contains(k) <==> exists|s: DescriptorSource| source_identity(s) == k by {
        if advertised().contains(k) {
            let i = choose|i: int| 0 <= i < advertised().len() && advertised()[i] == k;
            if i == 0 {
                assert(source_identity(DescriptorSource::TimeService) == k);
            } else {
                assert(source_identity(DescriptorSource::HealthCheck) == k);
            }
        }
        if exists|s: DescriptorSource| source_identity(s) == k {
            let s = choose|s: DescriptorSource| source_identity(s) == k;
            match s {
                DescriptorSource::TimeService => assert(advertised()[0] == k),
                DescriptorSource::HealthCheck => assert(advertised()[1] == k),
            }
        }
    }
}

} // verus!
