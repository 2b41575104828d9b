use vstd::prelude::*;

verus! {

/// `serde_json::Value`, the parsed form of a JSON document.  Opaque here: the
/// core only carries it from the parser to the printer.
#[verifier::external_type_specification]
#[verifier::external_body]
pub struct ExJsonValue(serde_json::Value);

/// Whether `serde_json::from_str::<Value>` accepts the text `s` as a JSON
/// document.  Parsing is a function of the text alone.
pub uninterp spec fn is_valid_json(s: Seq<char>) -> bool;

/// The pretty-printed (2-space-indented) rendering of the valid JSON text
/// `s`: what printing the value parsed from `s` yields.
pub uninterp spec fn pretty_of(s: Seq<char>) -> Seq<char>;

/// The pretty-printed rendering of the parsed value `v`.  Printing is a
/// function of the value alone; the two wrappers below share this name to
/// carry "parsed from `s`" through to "printed as `pretty_of(s)`".
pub uninterp spec fn value_pretty(v: serde_json::Value) -> Seq<char>;

/// Relies on `serde_json::from_str::<Value>`: it returns `Ok` exactly when
/// the text is one well-formed JSON document, deterministically in the text,
/// and the value it returns renders as that text's pretty form.
#[verifier::external_body]
fn parse_json(text: &str) -> (r: Option<serde_json::Value>)
    ensures
        r is Some <==> is_valid_json(text@),
        r matches Some(v) ==> value_pretty(v) == pretty_of(text@),
{
    serde_json::from_str::<serde_json::Value>(text).ok()
}

/// Relies on `serde_json::to_string_pretty`: its documentation confines
/// failure to a `Serialize` impl that fails or a map with non-string keys,
/// and `Value` has neither, so printing a `Value` always succeeds; the output
/// is 2-space-indented and a function of the value alone.
#[verifier::external_body]
fn print_pretty(v: &serde_json::Value) -> (r: Option<String>)
    ensures
        r is Some,
        r matches Some(p) ==> p@ == value_pretty(*v),
{
    serde_json::to_string_pretty(v).ok()
}

/// The normalized display form of a response body: the body pretty-printed
/// when it is valid JSON, the body unchanged otherwise.
pub open spec fn normalized_of(t: Seq<char>) -> Seq<char> {
    if is_valid_json(t) {
        pretty_of(t)
    } else {
        t
    }
}

/// The final success value: a single display string.
#[derive(Debug)]
pub struct NormalizedResponse {
    pub data: String,
}

/// Normalize a response body for display through the ordered fallback chain:
/// parse the body as JSON; on success re-print it pretty; should re-printing
/// ever fail, or the body not parse, fall back to the raw text unchanged.
pub fn normalize_body(text: String) -> (r: NormalizedResponse)
    ensures
        r.data@ == normalized_of(text@),
        is_valid_json(text@) ==> r.data@ == pretty_of(text@),
        !is_valid_json(text@) ==> r.data@ == text@,
{
    match parse_json(text.as_str()) {
        Some(v) => match print_pretty(&v) {
            Some(p) => NormalizedResponse { data: p },
            None => NormalizedResponse { data: text },
        },
        None => NormalizedResponse { data: text },
    }
}

} // verus!
