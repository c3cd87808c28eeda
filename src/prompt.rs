//! A stored prompt, as the prompt store hands it to the engine.
use vstd::prelude::*;

verus! {

/// One prompt of the store. Only `content` is injected; the rest is
/// carried for the store and the interface.
pub struct Prompt {
    pub id: Option<i32>,
    pub name: String,
    pub tags: Option<Vec<String>>,
    pub content: String,
    pub content_type: Option<String>,
    pub variables_json: Option<String>,
    pub app_scopes_json: Option<String>,
    pub inject_order: Option<String>,
    pub version: Option<i32>,
    pub updated_at: Option<String>,
}

impl Prompt {
    /// The prompt's category: its first tag, if it has one.
    pub fn category(&self) -> (r: Option<&String>)
        ensures
            r == match self.tags {
                Some(t) => if t@.len() > 0 {
                    Some(&t@[0])
                } else {
                    None
                },
                None => None,
            },
    {
        match &self.tags {
            Some(t) => if t.len() > 0 {
                Some(&t[0])
            } else {
                None
            },
            None => None,
        }
    }
}

} // verus!
