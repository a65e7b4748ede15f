//! The closed taxonomy of recognized remote-service failures, and the
//! classification of an error envelope into it. The server reports an error
//! as a top-level `error` entry that is either a bare string or an object
//! with `type` and `reason` fields plus operation-specific extras; anything
//! it names that is not recognized here is preserved verbatim as `Unknown`.

use vstd::prelude::*;
use crate::json::JsonValue;

verus! {

/// A failure the remote service reported, as a first-class inspectable
/// value: callers branch on the kind without matching strings. `Unknown`
/// carries the server's raw kind and reason verbatim.
#[derive(Debug)]
pub enum ApiError {
    IndexNotFound { index: String },
    IndexAlreadyExists { index: String },
    DocumentMissing { index: String },
    VersionConflict { reason: String },
    MapperParsing { reason: String },
    Unknown { kind: Option<String>, reason: String },
}

/// The mathematical image of an `ApiError`, over character sequences.
pub enum ApiErrorView {
    IndexNotFound { index: Seq<char> },
    IndexAlreadyExists { index: Seq<char> },
    DocumentMissing { index: Seq<char> },
    VersionConflict { reason: Seq<char> },
    MapperParsing { reason: Seq<char> },
    Unknown { kind: Option<Seq<char>>, reason: Seq<char> },
}

impl View for ApiError {
    type V = ApiErrorView;

    open spec fn view(&self) -> ApiErrorView {
        match self {
            ApiError::IndexNotFound { index } => ApiErrorView::IndexNotFound { index: index@ },
            ApiError::IndexAlreadyExists { index } => ApiErrorView::IndexAlreadyExists {
                index: index@,
            },
            ApiError::DocumentMissing { index } => ApiErrorView::DocumentMissing { index: index@ },
            ApiError::VersionConflict { reason } => ApiErrorView::VersionConflict {
                reason: reason@,
            },
            ApiError::MapperParsing { reason } => ApiErrorView::MapperParsing { reason: reason@ },
            ApiError::Unknown { kind, reason } => ApiErrorView::Unknown {
                kind: match kind {
                    Some(k) => Some(k@),
                    None => None,
                },
                reason: reason@,
            },
        }
    }
}

/// The reason an error object gives, or empty when it gives none.
pub open spec fn spec_reason_of(e: JsonValue) -> Seq<char> {
    match e.spec_str_entry("reason"@) {
        Some(r) => r@,
        None => Seq::empty(),
    }
}

/// How an error object is mapped into the taxonomy: its `type` string is
/// held against the recognized kinds; a recognized kind takes the field it
/// carries (the offending index, or the reason), and a missing field or an
/// unrecognized kind falls back to `Unknown` with everything the server said.
pub open spec fn spec_classify_error_obj(e: JsonValue) -> ApiErrorView {
    let reason = spec_reason_of(e);
    match e.spec_str_entry("type"@) {
        None => ApiErrorView::Unknown { kind: None, reason },
        Some(t) => {
            if t@ == "index_not_found_exception"@ {
                match e.spec_str_entry("index"@) {
                    Some(i) => ApiErrorView::IndexNotFound { index: i@ },
                    None => ApiErrorView::Unknown { kind: Some(t@), reason },
                }
            } else if t@ == "index_already_exists_exception"@ {
                match e.spec_str_entry("index"@) {
                    Some(i) => ApiErrorView::IndexAlreadyExists { index: i@ },
                    None => ApiErrorView::Unknown { kind: Some(t@), reason },
                }
            } else if t@ == "document_missing_exception"@ {
                match e.spec_str_entry("index"@) {
                    Some(i) => ApiErrorView::DocumentMissing { index: i@ },
                    None => ApiErrorView::Unknown { kind: Some(t@), reason },
                }
            } else if t@ == "version_conflict_engine_exception"@ {
                ApiErrorView::VersionConflict { reason }
            } else if t@ == "mapper_parsing_exception"@ {
                ApiErrorView::MapperParsing { reason }
            } else {
                ApiErrorView::Unknown { kind: Some(t@), reason }
            }
        },
    }
}

/// How the value of a top-level `error` entry is classified: a bare string
/// is an `Unknown` whose reason is that string verbatim; an object goes
/// through the kind mapping; any other shape is not a recognized envelope.
pub open spec fn spec_classify_error(e: JsonValue) -> Option<ApiErrorView> {
    match e {
        JsonValue::Str(s) => Some(ApiErrorView::Unknown { kind: None, reason: s@ }),
        JsonValue::Obj(_) => Some(spec_classify_error_obj(e)),
        _ => None,
    }
}

/// True exactly when the string's characters are the literal's.
fn str_is(s: &String, lit: &str) -> (r: bool)
    ensures
        r == (s@ == lit@),
{
    s.eq(&lit.to_owned())
}

/// Classifies the value found under a response body's top-level `error`
/// entry. Returns nothing exactly when the value has a shape no error
/// envelope takes.
pub fn classify_error(e: &JsonValue) -> (r: Option<ApiError>)
    ensures
        match r {
            Some(err) => spec_classify_error(*e) == Some(err@),
            None => spec_classify_error(*e) is None,
        },
{
    match e {
        JsonValue::Str(s) => Some(ApiError::Unknown { kind: None, reason: s.clone() }),
        JsonValue::Obj(_) => {
            let reason = match e.str_entry("reason") {
                Some(r) => r,
                None => String::new(),
            };
            match e.str_entry("type") {
                None => Some(ApiError::Unknown { kind: None, reason }),
                Some(t) => {
                    if str_is(&t, "index_not_found_exception") {
                        match e.str_entry("index") {
                            Some(i) => Some(ApiError::IndexNotFound { index: i }),
                            None => Some(ApiError::Unknown { kind: Some(t), reason }),
                        }
                    } else if str_is(&t, "index_already_exists_exception") {
                        match e.str_entry("index") {
                            Some(i) => Some(ApiError::IndexAlreadyExists { index: i }),
                            None => Some(ApiError::Unknown { kind: Some(t), reason }),
                        }
                    } else if str_is(&t, "document_missing_exception") {
                        match e.str_entry("index") {
                            Some(i) => Some(ApiError::DocumentMissing { index: i }),
                            None => Some(ApiError::Unknown { kind: Some(t), reason }),
                        }
                    } else if str_is(&t, "version_conflict_engine_exception") {
                        Some(ApiError::VersionConflict { reason })
                    } else if str_is(&t, "mapper_parsing_exception") {
                        Some(ApiError::MapperParsing { reason })
                    } else {
                        Some(ApiError::Unknown { kind: Some(t), reason })
                    }
                },
            }
        },
        _ => None,
    }
}

} // verus!
