use std::collections::HashMap;
use vstd::prelude::*;

use crate::apimachinery::util::IntOrString;

verus! {

/// Resource quantities by resource name.
pub type ResourceList = HashMap<String, IntOrString>;

} // verus!
