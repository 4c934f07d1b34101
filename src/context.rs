//! The per-call input of an evaluation.
use vstd::prelude::*;

use std::collections::HashMap;

use crate::value::Value;

verus! {

/// The context of a feature evaluation: the user key, which the hash reads,
/// and attributes, which audience expressions read.
#[derive(Clone, Debug)]
pub struct Context {
    pub user_key: String,
    pub attributes: Option<HashMap<String, Value>>,
}

impl Context {
    /// Creates a context for a user key, without attributes.
    pub fn new(user_key: &str) -> (r: Self)
        ensures
            r.user_key@ == user_key@,
            r.attributes is None,
    {
        Context { user_key: user_key.to_owned(), attributes: None }
    }
}

} // verus!
