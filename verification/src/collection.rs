//! The description of the watched collection that the client is given.
//!
//! The description is built by `kube`. Its builder panics when a resource
//! that has no namespace is put into one; this module keeps such a kind away
//! from it.

use vstd::prelude::*;
use vstd::string::StringExecFns;
use kube::api::RawApi;
use crate::informer::Scope;

verus! {

/// `RawApi` of kube: the description of a resource that the client builds
/// its requests from. Nothing inside it is seen here.
#[verifier::external_type_specification]
#[verifier::external_body]
pub struct ExRawApi(kube::api::RawApi);

/// What a description selects, as far as this crate sets it: the name of the
/// resource, its group, and the namespace, if it is limited to one.
pub uninterp spec fn selection(api: RawApi) -> (Seq<char>, Seq<char>, Option<Seq<char>>);

/// Whether `kind` names one of the resources that live in no namespace and
/// that the builder refuses to put into one.
pub open spec fn cluster_scoped(kind: Seq<char>) -> bool {
    kind == "nodes"@ || kind == "namespaces"@ || kind == "customresourcedefinitions"@
}

/// `RawApi::customResource` of kube: the description of the resource `name`,
/// with an empty group and no namespace.
#[verifier::external_body]
fn custom_resource(name: &str) -> (api: RawApi)
    ensures
        selection(api) == (name@, Seq::<char>::empty(), None::<Seq<char>>),
{
    RawApi::customResource(name)
}

/// `RawApi::group` of kube: the same description with the group set to
/// `group`.
#[verifier::external_body]
fn in_group(api: RawApi, group: &str) -> (grouped: RawApi)
    ensures
        selection(grouped) == (selection(api).0, group@, selection(api).2),
{
    api.group(group)
}

/// `RawApi::within` of kube: the same description limited to `namespace`. It
/// panics for the resources that live in no namespace, which are left out
/// here.
#[verifier::external_body]
fn in_namespace(api: RawApi, namespace: &str) -> (limited: RawApi)
    requires
        !cluster_scoped(selection(api).0),
    ensures
        selection(limited) == (selection(api).0, selection(api).1, Some(namespace@)),
{
    api.within(namespace)
}

/// Whether `kind` names a resource that lives in no namespace.
pub fn is_cluster_scoped(kind: &str) -> (yes: bool)
    ensures
        yes == cluster_scoped(kind@),
{
    let kind = String::from_str(kind);
    kind == String::from_str("nodes") || kind == String::from_str("namespaces") || kind
        == String::from_str("customresourcedefinitions")
}

/// Describes the collection `scope` of the custom resources of `group` for
/// the client: the resource of that kind, in that group, within that
/// namespace. There is none for a kind that lives in no namespace.
pub fn watched_collection(scope: &Scope, group: &str) -> (api: Option<RawApi>)
    ensures
        api.is_none() <==> cluster_scoped(scope.kind@),
        api matches Some(found) ==> selection(found) == (
            scope.kind@,
            group@,
            Some(scope.namespace@),
        ),
{
    if is_cluster_scoped(scope.kind.as_str()) {
        None
    } else {
        let named = custom_resource(scope.kind.as_str());
        let grouped = in_group(named, group);
        Some(in_namespace(grouped, scope.namespace.as_str()))
    }
}

} // verus!
