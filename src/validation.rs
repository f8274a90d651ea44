//! Optional schema validation of a language definition. The schema is
//! compiled once; each check reports at most its first diagnostic and never
//! decides whether the preview is updated.

use vstd::prelude::*;
use vstd::string::StringSliceAdditionalSpecFns;

verus! {

#[verifier::external_type_specification]
#[verifier::external_body]
pub struct ExSchema(relaxng_model::Schema);

/// A place in a document: one-based line and column.
#[derive(Clone, Copy, Debug, PartialEq, Eq)]
pub struct Position {
    pub line: u32,
    pub column: u32,
}

/// One schema violation as the validator reports it.
#[derive(Debug)]
pub struct Violation {
    pub message: String,
    pub position: Option<Position>,
}

/// What the validator found in a document.
#[derive(Debug)]
pub enum Verdict {
    /// The document matches the schema.
    Conforms,
    /// The document could not be read as XML; the text explains why.
    Malformed(String),
    /// The document is XML but breaks the schema.
    Violates(Vec<Violation>),
}

/// One line of diagnostics: where (`source`, and a position when known) and
/// what went wrong.
#[derive(Debug)]
pub struct Diagnostic {
    pub source: String,
    pub position: Option<Position>,
    pub message: String,
}

/// The result of validating one document.
#[derive(Debug)]
pub enum ValidationOutcome {
    Valid,
    Invalid(Diagnostic),
}

/// The schema could not be compiled; the text explains why.
#[derive(Debug)]
pub struct SchemaError {
    pub message: String,
}

/// A message that is never empty: `given` itself, or `fallback` when `given`
/// is empty.
pub open spec fn message_or(given: Seq<char>, fallback: Seq<char>) -> Seq<char> {
    if given.len() > 0 {
        given
    } else {
        fallback
    }
}

/// What a verdict on the document `source` is worth as an outcome: any
/// finding becomes one diagnostic located in `source`, carrying the first
/// violation's position and the validator's own message when it gave one, and a
/// fixed text otherwise.
pub open spec fn judged(source: Seq<char>, verdict: Verdict, r: ValidationOutcome) -> bool {
    match verdict {
        Verdict::Conforms => r is Valid,
        Verdict::Malformed(m) => r is Invalid && r->Invalid_0.source@ == source
            && r->Invalid_0.position is None
            && (m@.len() > 0 ==> r->Invalid_0.message@ == m@)
            && r->Invalid_0.message@.len() > 0,
        Verdict::Violates(v) => r is Invalid && r->Invalid_0.source@ == source
            && (v@.len() > 0 ==> r->Invalid_0.position == v@[0].position
                && (v@[0].message@.len() > 0 ==> r->Invalid_0.message@ == v@[0].message@))
            && (v@.len() == 0 ==> r->Invalid_0.position is None)
            && r->Invalid_0.message@.len() > 0,
    }
}

/// Whether the schema parser accepts `text` as a RELAX NG schema.
pub uninterp spec fn schema_compiles(text: Seq<char>) -> bool;

/// What the validator finds in the document `doc` against the schema whose
/// RELAX NG text is `schema`.
pub uninterp spec fn verdict_of(schema: Seq<char>, doc: Seq<char>) -> Verdict;

/// The most `<` characters a schema text may hold: every element of the schema
/// starts with one, so this bounds how deeply the parser recurses.
pub const MAX_SCHEMA_TAGS: usize = 1024;

/// An element named `ref` may start at byte `i`: a `<` or a namespace `:`
/// followed by the letters `ref`.
pub open spec fn ref_at(b: Seq<u8>, i: int) -> bool {
    0 <= i && i + 3 < b.len() && (b[i] == 60u8 || b[i] == 58u8) && b[i + 1] == 114u8 && b[i + 2]
        == 101u8 && b[i + 3] == 102u8
}

/// The number of `<` among the first `n` bytes of `b`.
pub open spec fn tags_in(b: Seq<u8>, n: int) -> nat
    decreases n,
{
    if n <= 0 {
        0
    } else {
        tags_in(b, n - 1) + if b[n - 1] == 60u8 {
            1nat
        } else {
            0nat
        }
    }
}

/// A schema text that the parser can take without exhausting the stack: it
/// names no `ref` element, so no definition is expanded into itself, and it
/// has at most `MAX_SCHEMA_TAGS` elements, so nesting stays shallow.
pub open spec fn schema_within_limits(b: Seq<u8>) -> bool {
    &&& forall|i: int| !ref_at(b, i)
    &&& tags_in(b, b.len() as int) <= MAX_SCHEMA_TAGS
}

/// Whether `Validator::new` accepts the schema text `text`.
pub open spec fn accepts_schema(text: Seq<char>) -> bool {
    schema_within_limits(vstd::utf8::encode_utf8(text)) && schema_compiles(text)
}

/// Relies on relaxng_syntax::parse_str: compiles RELAX NG XML syntax into a
/// schema, or gives a reason, which its error texts never leave empty. The
/// parser expands references by copying their definitions with no check for
/// cycles and recurses once per nesting level, hence the limits on the text.
#[verifier::external_body]
fn parse_schema(text: &str) -> (r: Result<relaxng_model::Schema, SchemaError>)
    requires
        schema_within_limits(text.spec_bytes()),
    ensures
        r is Ok <==> schema_compiles(text@),
        r is Err ==> r->Err_0.message@.len() > 0,
{
    relaxng_syntax::parse_str(text).map_err(|e| SchemaError { message: e.to_string() })
}

/// Relies on relaxng_validator::Validator::validate_str, with the validator's
/// default limits (relaxng_validator::Validator::new): the outcome depends on
/// the schema and the document alone; a report of violations is never empty
/// and each violation carries a position.
#[verifier::external_body]
fn check_document(v: &Validator, xml: &str) -> (r: Verdict)
    ensures
        r == verdict_of(v.schema_text(), xml@),
        r is Violates ==> r->Violates_0@.len() > 0,
        r is Violates ==> forall|i: int| 0 <= i < r->Violates_0@.len() ==> (#[trigger] r->Violates_0@[i]).position is Some,
{
    match relaxng_validator::Validator::new().validate_str(&v.schema, xml) {
        Ok(()) => Verdict::Conforms,
        Err(relaxng_validator::ValidationErrorKind::Invalid(report)) => Verdict::Violates(
            report.errors.into_iter().map(|e| Violation {
                message: e.message,
                position: e.span.map(|s| Position { line: s.line, column: s.column }),
            }).collect(),
        ),
        Err(other) => Verdict::Malformed(other.to_string()),
    }
}

/// Checks that `text` is within the limits the schema parser needs.
pub fn within_limits(text: &str) -> (r: bool)
    ensures
        r == schema_within_limits(text.spec_bytes()),
{
    let b = text.as_bytes();
    let n = b.len();
    let mut tags: usize = 0;
    let mut i: usize = 0;
    while i < n
        invariant
            n == b@.len(),
            b@ == text.spec_bytes(),
            i <= n,
            tags == tags_in(b@, i as int),
            tags <= MAX_SCHEMA_TAGS,
            forall|j: int| 0 <= j < i ==> !ref_at(b@, j),
        decreases n - i,
    {
        if (b[i] == 60u8 || b[i] == 58u8) && n - i > 3 && b[i + 1] == 114u8 && b[i + 2] == 101u8
            && b[i + 3] == 102u8 {
            assert(ref_at(b@, i as int));
            return false;
        }
        if b[i] == 60u8 {
            if tags == MAX_SCHEMA_TAGS {
                proof {
                    lemma_tags_grow(b@, i as int + 1, n as int);
                }
                return false;
            }
            tags = tags + 1;
        }
        i = i + 1;
    }
    true
}

/// Counting over a longer prefix never gives fewer tags.
proof fn lemma_tags_grow(b: Seq<u8>, m: int, n: int)
    requires
        0 <= m <= n <= b.len(),
    ensures
        tags_in(b, m) <= tags_in(b, n),
    decreases n - m,
{
    if m < n {
        lemma_tags_grow(b, m, n - 1);
    }
}

/// `given`, or `fallback` when `given` is empty.
fn non_empty(given: String, fallback: &str) -> (r: String)
    requires
        fallback@.len() > 0,
    ensures
        r@ == message_or(given@, fallback@),
{
    if !given.as_str().is_empty() {
        given
    } else {
        fallback.to_owned()
    }
}

/// Turns the validator's verdict on the document `source` into an outcome: the
/// first violation, or the reason the document is malformed, becomes the one
/// diagnostic, located in `source`.
pub fn judge(source: &str, verdict: Verdict) -> (r: ValidationOutcome)
    ensures
        judged(source@, verdict, r),
{
    proof {
        reveal_strlit("document is not well-formed XML");
        reveal_strlit("document does not match the schema");
    }
    match verdict {
        Verdict::Conforms => ValidationOutcome::Valid,
        Verdict::Malformed(m) => ValidationOutcome::Invalid(
            Diagnostic {
                source: source.to_owned(),
                position: None,
                message: non_empty(m, "document is not well-formed XML"),
            },
        ),
        Verdict::Violates(mut v) => {
            if v.len() == 0 {
                ValidationOutcome::Invalid(
                    Diagnostic {
                        source: source.to_owned(),
                        position: None,
                        message: "document does not match the schema".to_owned(),
                    },
                )
            } else {
                let first = v.remove(0);
                ValidationOutcome::Invalid(
                    Diagnostic {
                        source: source.to_owned(),
                        position: first.position,
                        message: non_empty(first.message, "document does not match the schema"),
                    },
                )
            }
        },
    }
}

/// A compiled schema, ready to check documents, with the text it was
/// compiled from.
pub struct Validator {
    schema: relaxng_model::Schema,
    text: String,
}

impl Validator {
    /// The RELAX NG text this validator was compiled from.
    pub closed spec fn schema_text(&self) -> Seq<char> {
        self.text@
    }

    /// Compiles the schema given in RELAX NG XML syntax, once. A text beyond
    /// the parser's limits is refused with a reason, as is one that does not
    /// compile.
    pub fn new(schema_text: &str) -> (r: Result<Validator, SchemaError>)
        ensures
            r is Ok <==> accepts_schema(schema_text@),
            r is Ok ==> r->Ok_0.schema_text() == schema_text@,
            r is Err ==> r->Err_0.message@.len() > 0,
    {
        if !within_limits(schema_text) {
            proof {
                reveal_strlit("schema uses ref elements or too many elements to be compiled safely");
            }
            return Err(
                SchemaError {
                    message: "schema uses ref elements or too many elements to be compiled safely".to_owned(),
                },
            );
        }
        match parse_schema(schema_text) {
            Ok(schema) => Ok(Validator { schema, text: schema_text.to_owned() }),
            Err(e) => Err(e),
        }
    }

    /// Checks the document `doc`, named `source` in diagnostics: the outcome is
    /// what the validator's verdict on `doc` is worth, so it is valid exactly
    /// when the document conforms, and otherwise carries one diagnostic located
    /// in `source` with a non-empty message.
    pub fn validate(&self, source: &str, doc: &str) -> (r: ValidationOutcome)
        ensures
            judged(source@, verdict_of(self.schema_text(), doc@), r),
            r is Valid <==> verdict_of(self.schema_text(), doc@) is Conforms,
            verdict_of(self.schema_text(), doc@) is Violates ==> r->Invalid_0.position is Some,
    {
        let verdict = check_document(self, doc);
        judge(source, verdict)
    }
}

} // verus!
