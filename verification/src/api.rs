//! The resource catalog: per-resource data structures mirroring the wire
//! schema, and the capability every resource kind exposes so that the
//! generic client can address it.
use vstd::prelude::*;

use crate::apimachinery::meta_v1::{ListMeta, TypeMeta};

pub mod apps_v1;
pub mod authentication_v1;
pub mod batch_v1;
pub mod core_v1;
pub mod node;
pub mod pod;
pub mod rbac_v1beta1;
pub mod secret;

verus! {

/// The capability a resource kind exposes: its kind name, API group and
/// API version, and the representation of a list of it. The capability
/// is attached to the type, never to an instance, so that cluster-wide
/// list and create calls can resolve it without an object in hand.
pub trait KubeKind: Sized {
    /// The kind name, as it appears in URL paths.
    spec fn spec_kind_name() -> Seq<char>;

    /// The API group the kind belongs to; the core group is named
    /// `core`.
    spec fn spec_api_group() -> Seq<char>;

    /// The API version of the kind within its group.
    spec fn spec_api_version() -> Seq<char>;

    /// The representation of a list of this kind.
    type List;

    fn kind_name() -> (r: &'static str)
        ensures
            r@ == Self::spec_kind_name(),
    ;

    fn api_group() -> (r: &'static str)
        ensures
            r@ == Self::spec_api_group(),
    ;

    fn api_version() -> (r: &'static str)
        ensures
            r@ == Self::spec_api_version(),
    ;
}

/// The list representation shared by every resource kind: type metadata,
/// the items, and list metadata.
pub struct List<T> {
    pub type_meta: TypeMeta,
    pub items: Vec<T>,
    pub metadata: ListMeta,
}

} // verus!
