use std::collections::HashMap;
use vstd::prelude::*;

verus! {

pub type ExtraValue = Vec<String>;

pub struct UserInfo {
    pub username: String,
    pub uid: String,
    pub groups: Vec<String>,
    pub extra: HashMap<String, ExtraValue>,
}

} // verus!
