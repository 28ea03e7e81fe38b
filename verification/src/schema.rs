use vstd::prelude::*;
use crate::text::{chars_of, contains_text, has_infix};

verus! {

/// A compiled JSON Schema of the `jsonschema` crate. Nothing of it is
/// visible to the proofs.
#[verifier::external_type_specification]
#[verifier::external_body]
pub struct ExJsonSchema(jsonschema::JSONSchema);

/// One step of the path from the root of a JSON document to a value in it.
#[derive(PartialEq, Eq, Debug)]
pub enum PathSegment {
    /// The member of an object with this name.
    Property(String),
    /// The element of an array at this position.
    Index(usize),
    /// A keyword of the schema.
    Keyword(String),
}

/// A `PathSegment` as a mathematical value.
pub enum PathSegmentView {
    Property(Seq<char>),
    Index(nat),
    Keyword(Seq<char>),
}

impl View for PathSegment {
    type V = PathSegmentView;

    open spec fn view(&self) -> PathSegmentView {
        match self {
            PathSegment::Property(name) => PathSegmentView::Property(name@),
            PathSegment::Index(index) => PathSegmentView::Index(*index as nat),
            PathSegment::Keyword(word) => PathSegmentView::Keyword(word@),
        }
    }
}

impl DeepView for PathSegment {
    type V = PathSegmentView;

    open spec fn deep_view(&self) -> PathSegmentView {
        self@
    }
}

/// Why a text is no schema.
#[derive(PartialEq, Eq, Debug)]
pub enum SchemaFault {
    /// The text is no JSON; the reader's message.
    Syntax(String),
    /// The JSON is no schema; the compiler's message.
    Rules(String),
}

/// A `SchemaFault` as a mathematical value.
pub enum SchemaFaultView {
    Syntax(Seq<char>),
    Rules(Seq<char>),
}

impl View for SchemaFault {
    type V = SchemaFaultView;

    open spec fn view(&self) -> SchemaFaultView {
        match self {
            SchemaFault::Syntax(message) => SchemaFaultView::Syntax(message@),
            SchemaFault::Rules(message) => SchemaFaultView::Rules(message@),
        }
    }
}

/// What applying a schema to a document gives: for each violation the path
/// to the value that violates the schema, or, where the document is no JSON,
/// the reader's message.
pub type Findings = Result<Vec<Vec<PathSegment>>, String>;

/// `Findings` as a mathematical value.
pub type FindingsView = Result<Seq<Seq<PathSegmentView>>, Seq<char>>;

/// The view of `findings`.
pub open spec fn findings_view(findings: Findings) -> FindingsView {
    match findings {
        Ok(paths) => Ok(paths.deep_view()),
        Err(reason) => Err(reason@),
    }
}

/// Why the JSON text `source` cannot be compiled as a schema of draft 7;
/// nothing where it can.
pub uninterp spec fn schema_fault_of(source: Seq<char>) -> Option<SchemaFaultView>;

/// What the schema compiled from `source` finds in the JSON text `document`.
pub uninterp spec fn schema_findings_of(source: Seq<char>, document: Seq<char>) -> FindingsView;

/// The keyword by which a schema refers to another schema, or to itself.
pub const REFERENCE: &'static str = "$ref";

/// The start of an escape that can spell any character, so also those of
/// `REFERENCE`.
pub const UNICODE_ESCAPE: &'static str = "\\u";

/// What is reported of a text that may hold a reference.
pub const UNSUPPORTED_REFERENCE: &'static str =
    "Unable to compile JSON schema: references (`$ref`) and unicode escapes are not supported";

/// The text `source` holds no reference, however spelled. A schema without
/// references is a finite tree, and applying it to a document ends; one with
/// a reference may lead back to itself without end.
pub open spec fn reference_free(source: Seq<char>) -> bool {
    !has_infix(source, REFERENCE@) && !has_infix(source, UNICODE_ESCAPE@)
}

/// What is reported where `source` cannot be compiled as a schema: that it
/// may hold a reference, that it is no JSON, or that the JSON is no schema.
pub open spec fn schema_error(source: Seq<char>) -> Option<Seq<char>> {
    if !reference_free(source) {
        Some(UNSUPPORTED_REFERENCE@)
    } else {
        match schema_fault_of(source) {
            Some(SchemaFaultView::Syntax(reason)) => Some(
                "Unable to parse JSON schema: "@ + reason,
            ),
            Some(SchemaFaultView::Rules(reason)) => Some(reason),
            None => None,
        }
    }
}

/// A compiled schema of draft 7, together with the text it was compiled
/// from, which holds no reference. It is compiled once and then applied to
/// any number of documents.
pub struct Schema {
    source: String,
    compiled: jsonschema::JSONSchema,
}

impl View for Schema {
    type V = Seq<char>;

    /// The text that the schema was compiled from.
    closed spec fn view(&self) -> Seq<char> {
        self.source@
    }
}

impl Schema {
    #[verifier::type_invariant]
    spec fn inv(&self) -> bool {
        reference_free(self.source@)
    }

    /// Reads `source` with `serde_json::from_str` and compiles the value with
    /// `compile` of `jsonschema::JSONSchema::options()`, set to draft 7. The
    /// contract names the failure, as a function of the text, and says that a
    /// schema that comes back was compiled from `source`. A text that may
    /// hold a reference is left out.
    #[verifier::external_body]
    pub(crate) fn compile_draft7(source: &str) -> (res: Result<Schema, SchemaFault>)
        requires
            reference_free(source@),
        ensures
            match res {
                Ok(schema) => schema@ == source@ && schema_fault_of(source@) is None,
                Err(fault) => schema_fault_of(source@) == Some(fault@),
            },
    {
        let value = serde_json::from_str::<serde_json::Value>(source).map_err(
            |e| SchemaFault::Syntax(e.to_string()),
        )?;
        let compiled = jsonschema::JSONSchema::options().with_draft(
            jsonschema::Draft::Draft7,
        ).compile(&value).map_err(|e| SchemaFault::Rules(e.to_string()))?;
        Ok(Schema { source: source.to_string(), compiled })
    }

    /// Whether `source` holds no reference, however spelled.
    pub fn is_reference_free(source: &str) -> (res: bool)
        ensures
            res == reference_free(source@),
    {
        let text = chars_of(source);
        !contains_text(&text, &chars_of(REFERENCE)) && !contains_text(
            &text,
            &chars_of(UNICODE_ESCAPE),
        )
    }

    /// Compiles the JSON text `source` as a schema of draft 7, or says why it
    /// is none. A text that holds `$ref`, or an escape by which it could be
    /// spelled, is refused.
    pub fn compile(source: &str) -> (res: Result<Schema, String>)
        ensures
            match res {
                Ok(schema) => schema@ == source@ && schema_error(source@) is None,
                Err(message) => schema_error(source@) == Some(message@),
            },
    {
        if !Self::is_reference_free(source) {
            return Err(String::from_str(UNSUPPORTED_REFERENCE));
        }
        match Self::compile_draft7(source) {
            Ok(schema) => Ok(schema),
            Err(SchemaFault::Syntax(reason)) => {
                let mut message = String::from_str("Unable to parse JSON schema: ");
                message.append(reason.as_str());
                Err(message)
            },
            Err(SchemaFault::Rules(reason)) => Err(reason),
        }
    }

    /// Applies the schema to the JSON text `document`.
    pub(crate) fn findings(&self, document: &str) -> (res: Findings)
        ensures
            findings_view(res) == schema_findings_of(self@, document@),
    {
        proof {
            use_type_invariant(self);
        }
        self.validate(document)
    }

    /// Reads `document` with `serde_json::from_str` and calls `validate` of
    /// the compiled schema on the value; of each error it hands out the
    /// instance path, segment by segment. The contract only names the
    /// outcome, as a function of the schema's text and the document. A
    /// schema that may hold a reference is left out: `validate` follows a
    /// reference wherever it leads, and need not return where it leads back.
    #[verifier::external_body]
    fn validate(&self, document: &str) -> (res: Findings)
        requires
            reference_free(self@),
        ensures
            findings_view(res) == schema_findings_of(self@, document@),
    {
        let instance = serde_json::from_str::<serde_json::Value>(document).map_err(
            |e| e.to_string(),
        )?;
        let errors = match self.compiled.validate(&instance) {
            Ok(()) => return Ok(Vec::new()),
            Err(errors) => errors,
        };
        Ok(errors.map(|e| e.instance_path.into_iter().map(|chunk| match chunk {
            jsonschema::paths::PathChunk::Property(name) => PathSegment::Property(name.into()),
            jsonschema::paths::PathChunk::Index(index) => PathSegment::Index(index),
            jsonschema::paths::PathChunk::Keyword(word) => PathSegment::Keyword(word.to_string()),
        }).collect()).collect())
    }
}

} // verus!
