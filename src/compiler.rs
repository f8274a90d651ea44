//! Building a preview for one recompile: where languages are looked up, which
//! schema checks definitions, and what a resolver's answer makes of a cycle.

use vstd::prelude::*;
use crate::validation::{Diagnostic, SchemaError, ValidationOutcome, Validator, accepts_schema, judged, verdict_of};

verus! {

/// The name of the schema file that definitions are checked against when a
/// search directory holds one.
pub const SCHEMA_FILE: &'static str = "language2.rng";

/// The search directories: the resolver's own, in order, then the working
/// directory where fresh definitions are written.
pub open spec fn search_path_set(defaults: Seq<String>, work_dir: String) -> Seq<String> {
    defaults.push(work_dir)
}

/// `i` is the first index at which `present` holds.
pub open spec fn is_first_present(present: Seq<bool>, i: int) -> bool {
    0 <= i < present.len() && present[i] && forall|j: int| 0 <= j < i ==> !present[j]
}

/// For each search directory, whether it holds a schema file.
pub open spec fn present_of(schemas: Seq<Option<String>>) -> Seq<bool> {
    schemas.map_values(|o: Option<String>| o is Some)
}

/// A preview built for one cycle: the resolved language, and what the schema
/// check said of the definition.
#[derive(Debug)]
pub struct Build {
    pub kind: String,
    pub check: ValidationOutcome,
}

/// What `compile_buffer` returns for the resolver's answer `resolved` on the
/// compiler `c`, with the definition written to `doc`.
pub open spec fn compiled(
    c: Compiler,
    definition: Seq<char>,
    doc: Seq<char>,
    resolved: Result<String, String>,
    r: Result<Build, Diagnostic>,
) -> bool {
    match resolved {
        Err(m) => r is Err && r->Err_0.source@ == c.test_file@ && r->Err_0.position is None
            && (m@.len() > 0 ==> r->Err_0.message@ == m@)
            && r->Err_0.message@.len() > 0,
        Ok(k) => r is Ok && r->Ok_0.kind == k && (c.validator is None ==> r->Ok_0.check is Valid)
            && (c.validator is Some ==> judged(
                doc,
                verdict_of(c.validator->Some_0.schema_text(), definition),
                r->Ok_0.check,
            )),
    }
}

/// Everything a recompile needs that stays fixed for the whole session.
pub struct Compiler {
    /// The file whose name decides the language; never its content.
    pub test_file: String,
    pub lang_search_paths: Vec<String>,
    pub validator: Option<Validator>,
}

impl Compiler {
    /// A compiler that resolves `test_file` against the resolver's default
    /// directories followed by `work_dir`. `schemas` gives, for each of those
    /// directories in the same order, the text of its schema file when it holds
    /// one: the first one found is compiled, once, and checks every definition
    /// from then on. Without any, definitions are not checked; a first schema
    /// that does not compile is refused with its reason.
    pub fn new(
        test_file: String,
        default_paths: Vec<String>,
        work_dir: String,
        schemas: Vec<Option<String>>,
    ) -> (r: Result<Compiler, SchemaError>)
        requires
            schemas@.len() == default_paths@.len() + 1,
        ensures
            (forall|j: int| 0 <= j < schemas@.len() ==> !(#[trigger] present_of(schemas@)[j])) ==> r is Ok
                && r->Ok_0.validator is None,
            forall|i: int| #[trigger]
                is_first_present(present_of(schemas@), i) ==> {
                    &&& r is Ok <==> accepts_schema(schemas@[i]->Some_0@)
                    &&& r is Ok ==> r->Ok_0.validator is Some && r->Ok_0.validator->Some_0.schema_text()
                        == schemas@[i]->Some_0@
                },
            r is Err ==> r->Err_0.message@.len() > 0,
            r is Ok ==> r->Ok_0.test_file == test_file && r->Ok_0.lang_search_paths@ == search_path_set(
                default_paths@,
                work_dir,
            ),
    {
        let mut lang_search_paths = default_paths;
        lang_search_paths.push(work_dir);
        let mut i: usize = 0;
        while i < schemas.len()
            invariant
                i <= schemas@.len(),
                forall|j: int| 0 <= j < i ==> schemas@[j] is None,
                lang_search_paths@ == search_path_set(default_paths@, work_dir),
            decreases schemas@.len() - i,
        {
            if let Some(text) = &schemas[i] {
                assert(is_first_present(present_of(schemas@), i as int));
                assert forall|k: int| #[trigger] is_first_present(present_of(schemas@), k) implies k == i by {
                    if k < i {
                        assert(!present_of(schemas@)[k]);
                    } else if k > i {
                        assert(present_of(schemas@)[i as int]);
                    }
                }
                return match Validator::new(text.as_str()) {
                    Ok(v) => Ok(Compiler { test_file, lang_search_paths, validator: Some(v) }),
                    Err(e) => Err(e),
                };
            }
            i = i + 1;
        }
        assert forall|k: int| !(#[trigger] is_first_present(present_of(schemas@), k)) by {
            if 0 <= k < schemas@.len() {
                assert(!present_of(schemas@)[k]);
            }
        }
        Ok(Compiler { test_file, lang_search_paths, validator: None })
    }

    /// Finishes the build of a preview once the definition text `definition`
    /// has been written to `doc` and the resolver has answered for the test
    /// file. A resolver failure gives the cycle's one diagnostic and nothing is
    /// checked; otherwise the preview takes the resolved language and the
    /// definition is checked when a schema is present.
    pub fn compile_buffer(&self, definition: &str, doc: &str, resolved: Result<String, String>) -> (r: Result<Build, Diagnostic>)
        ensures
            compiled(*self, definition@, doc@, resolved, r),
    {
        proof {
            reveal_strlit("no language matches this file");
        }
        match resolved {
            Err(m) => {
                let message = if !m.as_str().is_empty() {
                    m
                } else {
                    "no language matches this file".to_owned()
                };
                Err(Diagnostic { source: self.test_file.clone(), position: None, message })
            },
            Ok(kind) => {
                let check = match &self.validator {
                    Some(v) => v.validate(doc, definition),
                    None => ValidationOutcome::Valid,
                };
                Ok(Build { kind, check })
            },
        }
    }
}

} // verus!
