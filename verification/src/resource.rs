//! The resource descriptor: the immutable identity attributes attached
//! to every span this process emits, tagged with the schema identifier
//! under which the collector reads the keys.  Built once at startup and
//! never mutated.

use vstd::prelude::*;
use vstd::string::StringExecFns;

verus! {

/// One identity attribute.
#[derive(Clone, Debug, PartialEq, Eq)]
pub struct ResourceAttr {
    pub key: String,
    pub value: String,
}

/// The identity of this service instance.
#[derive(Clone, Debug, PartialEq, Eq)]
pub struct ResourceDescriptor {
    /// The identity attributes, in a fixed order.
    pub attrs: Vec<ResourceAttr>,
    /// The schema the attribute keys are defined under.
    pub schema_url: String,
}

/// The conventional key naming the service.
pub open spec fn spec_service_name_key() -> Seq<char> {
    "service.name"@
}

/// The conventional key naming the service version.
pub open spec fn spec_service_version_key() -> Seq<char> {
    "service.version"@
}

/// The conventional key naming the deployment environment.
pub open spec fn spec_deployment_environment_key() -> Seq<char> {
    "deployment.environment"@
}

/// The schema the keys above belong to.
pub open spec fn spec_schema_url() -> Seq<char> {
    "https://opentelemetry.io/schemas/1.42.0"@
}

/// Build the resource: exactly the three identity attributes, in order,
/// under the schema identifier.  A pure function of its arguments, with
/// no error conditions.
pub fn resource(service_name: &str, service_version: &str, environment: &str) -> (r:
    ResourceDescriptor)
    ensures
        r.schema_url@ == spec_schema_url(),
        r.attrs@.len() == 3,
        r.attrs@[0].key@ == spec_service_name_key(),
        r.attrs@[0].value@ == service_name@,
        r.attrs@[1].key@ == spec_service_version_key(),
        r.attrs@[1].value@ == service_version@,
        r.attrs@[2].key@ == spec_deployment_environment_key(),
        r.attrs@[2].value@ == environment@,
{
    let mut attrs: Vec<ResourceAttr> = Vec::new();
    attrs.push(ResourceAttr {
        key: String::from_str("service.name"),
        value: String::from_str(service_name),
    });
    attrs.push(ResourceAttr {
        key: String::from_str("service.version"),
        value: String::from_str(service_version),
    });
    attrs.push(ResourceAttr {
        key: String::from_str("deployment.environment"),
        value: String::from_str(environment),
    });
    ResourceDescriptor {
        attrs,
        schema_url: String::from_str("https://opentelemetry.io/schemas/1.42.0"),
    }
}

} // verus!
