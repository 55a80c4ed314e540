use std::collections::HashMap;
use vstd::prelude::*;

use crate::api::core_v1::NamespaceStatus;
use crate::api::{KubeKind, List};
use crate::apimachinery::meta_v1::ObjectMeta;
use crate::encoding::{base64_decode, base64_encode, spec_base64, spec_base64_decoded};

verus! {

pub type SecretType = String;

/// A secret value. On the wire it travels base64 encoded; in memory it is
/// the raw bytes.
pub struct SecretData(pub Vec<u8>);

impl SecretData {
    /// The base64 text form of the bytes, as the wire format carries
    /// them; decoding the result recovers exactly these bytes.
    pub fn to_base64(&self) -> (r: String)
        ensures
            r@ == spec_base64(self.0@),
            spec_base64_decoded(r@) == Some(self.0@),
    {
        base64_encode(&self.0)
    }

    /// Decodes a base64 text form back into the raw bytes; `None` when
    /// the text is not valid base64.
    pub fn from_base64(text: &str) -> (r: Option<SecretData>)
        ensures
            r is Some <==> spec_base64_decoded(text@) is Some,
            r matches Some(data) ==> Some(data.0@) == spec_base64_decoded(text@),
    {
        match base64_decode(text) {
            Ok(bytes) => Some(SecretData(bytes)),
            Err(_) => None,
        }
    }
}

pub struct Secret {
    pub metadata: ObjectMeta,
    pub status: Option<NamespaceStatus>,
    pub data: HashMap<String, SecretData>,
    pub secret_type: Option<SecretType>,
}

impl KubeKind for Secret {
    open spec fn spec_kind_name() -> Seq<char> {
        "secrets"@
    }

    open spec fn spec_api_group() -> Seq<char> {
        "core"@
    }

    open spec fn spec_api_version() -> Seq<char> {
        "v1"@
    }

    type List = List<Secret>;

    fn kind_name() -> &'static str {
        "secrets"
    }

    fn api_group() -> &'static str {
        "core"
    }

    fn api_version() -> &'static str {
        "v1"
    }
}

} // verus!
