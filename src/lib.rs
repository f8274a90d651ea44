//! Change detection and recompilation for a live preview of a language
//! definition: a debounced watcher decision, a recompile session driven one
//! event at a time, and optional schema validation of the definition.

pub mod compiler;
pub mod debounce;
pub mod pipeline;
pub mod relay;
pub mod validation;

use vstd::prelude::*;

verus! {

/// What the tool is started with: the language definition to watch, and the
/// file whose text is shown in the preview.
#[derive(Clone, Debug)]
pub struct Args {
    pub lang: String,
    pub test: String,
}

impl Args {
    pub fn new(lang: String, test: String) -> (r: Args)
        ensures
            r.lang == lang,
            r.test == test,
    {
        Args { lang, test }
    }
}

} // verus!
