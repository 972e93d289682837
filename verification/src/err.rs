use vstd::prelude::*;

verus! {

/// The kind of a deserialization failure.
#[derive(Clone, Copy, Debug, PartialEq, Eq, Structural)]
pub enum ErrKind {
    /// A required field is absent.
    MissingField,
    /// A field is present but does not have the expected JSON shape.
    WrongType,
    /// A string field holds malformed hex, base64 or decimal text, or a
    /// number lies outside the range its target accepts.
    ParseFailure,
    /// A numeric field could not be resolved under any of the encodings
    /// the flexible scalar decoders accept.
    MissingOrInvalidNumber,
    /// The configuration parameter with this number is mandatory under the
    /// active policy but absent from the input.
    MandatoryParameterMissing(u32),
    /// The configuration parameter with this number was set twice.
    DuplicateParameter(u32),
    /// A relay status tag that the receipt decoder does not recognize.
    UnknownTag,
    /// A semantic constraint on the decoded structure does not hold, such
    /// as a public key of the wrong length or inconsistent thresholds.
    SemanticInvalid,
}

/// A deserialization failure, carrying the full JSON path at which it arose.
#[derive(Debug, Clone)]
pub struct ParseError {
    pub kind: ErrKind,
    /// The path segments from the document root down to the object in which
    /// the failure arose; the first segment is the sentinel `root`.
    pub path: Vec<String>,
    /// The field or tag the failure concerns; empty when not applicable.
    pub field: String,
}

/// The mathematical content of a `ParseError`.
pub ghost struct ErrV {
    pub kind: ErrKind,
    pub path: Seq<Seq<char>>,
    pub field: Seq<char>,
}

impl View for ParseError {
    type V = ErrV;

    open spec fn view(&self) -> ErrV {
        ErrV { kind: self.kind, path: self.path.deep_view(), field: self.field@ }
    }
}

/// Shorthand for building the view of an error in specifications.
pub open spec fn errv(kind: ErrKind, path: Seq<Seq<char>>, field: Seq<char>) -> ErrV {
    ErrV { kind, path, field }
}

impl ParseError {
    /// Builds an error of the given kind at the given path and field.
    pub fn at(kind: ErrKind, path: &Vec<String>, field: &str) -> (r: ParseError)
        ensures
            r@ == errv(kind, path.deep_view(), field@),
    {
        let segs = path.clone();
        proof {
            assert forall|i: int| 0 <= i < path@.len() implies segs@[i] == path@[i] by {
                assert(cloned::<String>(path@[i], segs@[i]));
            }
            assert(segs@ =~= path@);
            assert(segs.deep_view() =~~= path.deep_view());
        }
        ParseError { kind, path: segs, field: field.to_owned() }
    }
}

/// Maps a result whose error is a `ParseError` to its specification view,
/// leaving the success value untouched.
pub open spec fn res_v<T>(r: Result<T, ParseError>) -> Result<T, ErrV> {
    match r {
        Ok(v) => Ok(v),
        Err(e) => Err(e@),
    }
}

} // verus!
