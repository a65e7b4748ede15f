//! The response parser and classifier: given a status code and a complete
//! body, decide between a typed success value, a recognized domain error,
//! and an unparseable response. The `error` check always comes before any
//! attempt to read a success shape, because the service can report a failure
//! inside a success-range status.

use vstd::prelude::*;
use crate::error::{classify_error, spec_classify_error, ApiError, ApiErrorView};
use crate::json::{decode_json, json_of, JsonValue};

verus! {

/// The longest diagnostic excerpt a parse failure keeps, in bytes.
pub const EXCERPT_BOUND: usize = 64;

/// A response that matched neither the expected success shape nor a
/// recognized error envelope: the status it came with, and a bounded excerpt
/// of the raw body so that nothing is discarded silently.
pub struct ParseFailure {
    pub status: u16,
    pub excerpt: Vec<u8>,
}

/// The mathematical image of a `ParseFailure`.
pub struct ParseFailureView {
    pub status: u16,
    pub excerpt: Seq<u8>,
}

impl View for ParseFailure {
    type V = ParseFailureView;

    open spec fn view(&self) -> ParseFailureView {
        ParseFailureView { status: self.status, excerpt: self.excerpt@ }
    }
}

/// The first bytes of the body, up to the excerpt bound; empty exactly when
/// the body is empty.
pub open spec fn spec_excerpt(body: Seq<u8>) -> Seq<u8> {
    if body.len() <= EXCERPT_BOUND {
        body
    } else {
        body.take(EXCERPT_BOUND as int)
    }
}

/// A parse failure never drops the raw bytes silently: its excerpt is the
/// body itself up to the bound, so it is empty only for an empty body.
pub proof fn lemma_excerpt_bounds(body: Seq<u8>)
    ensures
        spec_excerpt(body).len() <= EXCERPT_BOUND,
        (spec_excerpt(body).len() > 0) <==> (body.len() > 0),
        spec_excerpt(body) == body.take(spec_excerpt(body).len() as int),
{
    assert(body.take(body.len() as int) =~= body);
}

/// Builds the parse failure for the given response.
fn parse_failure(status: u16, body: &Vec<u8>) -> (r: ParseFailure)
    ensures
        r@ == (ParseFailureView { status, excerpt: spec_excerpt(body@) }),
{
    let n = if body.len() <= EXCERPT_BOUND {
        body.len()
    } else {
        EXCERPT_BOUND
    };
    let mut excerpt: Vec<u8> = Vec::new();
    for i in 0..n
        invariant
            n <= body@.len(),
            excerpt@ == body@.take(i as int),
    {
        excerpt.push(body[i]);
        assert(excerpt@ =~= body@.take(i as int + 1));
    }
    assert(excerpt@ =~= spec_excerpt(body@));
    ParseFailure { status, excerpt }
}

/// The typed outcome of classifying one response: terminal, no retries.
pub enum Outcome<T> {
    Success(T),
    Api(ApiError),
    Fail(ParseFailure),
}

/// The mathematical image of an `Outcome`.
pub enum OutcomeView<V> {
    Success(V),
    Api(ApiErrorView),
    Fail(ParseFailureView),
}

impl<T: View> View for Outcome<T> {
    type V = OutcomeView<<T as View>::V>;

    open spec fn view(&self) -> OutcomeView<<T as View>::V> {
        match self {
            Outcome::Success(t) => OutcomeView::Success(t@),
            Outcome::Api(e) => OutcomeView::Api(e@),
            Outcome::Fail(f) => OutcomeView::Fail(f@),
        }
    }
}

/// The success range of the wire protocol.
pub open spec fn spec_status_success(status: u16) -> bool {
    200 <= status < 300
}

/// The structured classification, shared by every structured response type:
/// a body that is not JSON, or whose `error` entry has no recognized shape,
/// is a parse failure; a recognized `error` entry is a domain error, whatever
/// the status; otherwise, under an accepted status, the expected shape is
/// decoded, and anything else is a parse failure.
pub open spec fn spec_classify_body<V>(
    status: u16,
    body: Seq<u8>,
    decode: spec_fn(JsonValue) -> Option<V>,
    ok_on_not_found: bool,
) -> OutcomeView<V> {
    let fail = OutcomeView::<V>::Fail(ParseFailureView { status, excerpt: spec_excerpt(body) });
    match json_of(body) {
        None => fail,
        Some(doc) => match doc.spec_get("error"@) {
            Some(e) => match spec_classify_error(e) {
                Some(err) => OutcomeView::Api(err),
                None => fail,
            },
            None => {
                if spec_status_success(status) || (ok_on_not_found && status == 404) {
                    match decode(doc) {
                        Some(v) => OutcomeView::Success(v),
                        None => fail,
                    }
                } else {
                    fail
                }
            },
        },
    }
}

/// The verdict of the shared envelope step, before any per-type decoding.
enum Envelope {
    NotJson,
    Error(ApiError),
    BadError,
    Doc(JsonValue),
}

/// What `classify_envelope` leaves behind, relative to the decoded body.
spec fn envelope_post(body: Seq<u8>, r: Envelope) -> bool {
    match json_of(body) {
        None => r is NotJson,
        Some(doc) => match doc.spec_get("error"@) {
            Some(e) => match spec_classify_error(e) {
                Some(err) => r matches Envelope::Error(a) && a@ == err,
                None => r is BadError,
            },
            None => r matches Envelope::Doc(d) && d == doc,
        },
    }
}

/// The shared first step of every structured parse: decode the body and
/// classify its `error` entry, if any, before anything else is read.
fn classify_envelope(body: &Vec<u8>) -> (r: Envelope)
    ensures
        envelope_post(body@, r),
{
    match decode_json(body) {
        None => Envelope::NotJson,
        Some(doc) => {
            let has_error = match doc.get("error") {
                Some(e) => match classify_error(e) {
                    Some(err) => Some(Envelope::Error(err)),
                    None => Some(Envelope::BadError),
                },
                None => None,
            };
            match has_error {
                Some(v) => v,
                None => Envelope::Doc(doc),
            }
        },
    }
}

/// An acknowledgement of a command the service carried out.
#[derive(Debug, Clone, Copy, PartialEq, Eq, Structural)]
pub struct CommandResponse {
    pub acknowledged: bool,
}

impl View for CommandResponse {
    type V = CommandResponse;

    open spec fn view(&self) -> CommandResponse {
        *self
    }
}

impl CommandResponse {
    /// Whether the command was acknowledged.
    pub fn acknowledged(&self) -> (r: bool)
        ensures
            r == self.acknowledged,
    {
        self.acknowledged
    }
}

/// The success shape of a command response: a boolean `acknowledged` entry.
pub open spec fn spec_decode_command(doc: JsonValue) -> Option<CommandResponse> {
    match doc.spec_bool_entry("acknowledged"@) {
        Some(b) => Some(CommandResponse { acknowledged: b }),
        None => None,
    }
}

fn decode_command(doc: &JsonValue) -> (r: Option<CommandResponse>)
    ensures
        r == spec_decode_command(*doc),
{
    match doc.bool_entry("acknowledged") {
        Some(b) => Some(CommandResponse { acknowledged: b }),
        None => None,
    }
}

/// The full classification of a command response.
pub open spec fn spec_parse_command(status: u16, body: Seq<u8>) -> OutcomeView<CommandResponse> {
    spec_classify_body(status, body, |d: JsonValue| spec_decode_command(d), false)
}

/// Classifies a command response from its status and complete body.
pub fn parse_command(status: u16, body: &Vec<u8>) -> (r: Outcome<CommandResponse>)
    ensures
        r@ == spec_parse_command(status, body@),
{
    match classify_envelope(body) {
        Envelope::NotJson => Outcome::Fail(parse_failure(status, body)),
        Envelope::Error(err) => Outcome::Api(err),
        Envelope::BadError => Outcome::Fail(parse_failure(status, body)),
        Envelope::Doc(doc) => {
            if 200 <= status && status < 300 {
                match decode_command(&doc) {
                    Some(v) => Outcome::Success(v),
                    None => Outcome::Fail(parse_failure(status, body)),
                }
            } else {
                Outcome::Fail(parse_failure(status, body))
            }
        },
    }
}

/// The answer to an index existence check.
#[derive(Debug, Clone, Copy, PartialEq, Eq, Structural)]
pub struct IndicesExistsResponse {
    pub present: bool,
}

impl View for IndicesExistsResponse {
    type V = IndicesExistsResponse;

    open spec fn view(&self) -> IndicesExistsResponse {
        *self
    }
}

impl IndicesExistsResponse {
    /// Whether the index is there.
    pub fn present(&self) -> (r: bool)
        ensures
            r == self.present,
    {
        self.present
    }
}

/// The status-only classification used by existence checks: the body is
/// never inspected — this spec takes the status alone — and 200 means the
/// index is there, 404 that it is not. Any other status is a classification
/// failure carrying that status and nothing else, its excerpt empty.
pub open spec fn spec_parse_index_exists(status: u16) -> OutcomeView<IndicesExistsResponse> {
    if status == 200 {
        OutcomeView::Success(IndicesExistsResponse { present: true })
    } else if status == 404 {
        OutcomeView::Success(IndicesExistsResponse { present: false })
    } else {
        OutcomeView::Fail(ParseFailureView { status, excerpt: Seq::empty() })
    }
}

/// Classifies an index existence response from its status alone: the body is
/// taken, as every parse takes one, and provably ignored.
pub fn parse_index_exists(status: u16, body: &Vec<u8>) -> (r: Outcome<IndicesExistsResponse>)
    ensures
        r@ == spec_parse_index_exists(status),
{
    if status == 200 {
        Outcome::Success(IndicesExistsResponse { present: true })
    } else if status == 404 {
        Outcome::Success(IndicesExistsResponse { present: false })
    } else {
        Outcome::Fail(ParseFailure { status, excerpt: Vec::new() })
    }
}

/// Whatever stands under `_version`: absent is allowed, a non-negative
/// integer is taken, anything else refuses the shape.
pub open spec fn spec_version_entry(doc: JsonValue) -> Option<Option<u64>> {
    match doc.spec_get("_version"@) {
        None => Some(None),
        Some(v) => match v.spec_as_int() {
            Some(n) => if n >= 0 {
                Some(Some(n as u64))
            } else {
                None
            },
            None => None,
        },
    }
}

fn version_entry(doc: &JsonValue) -> (r: Option<Option<u64>>)
    ensures
        r == spec_version_entry(*doc),
{
    match doc.get("_version") {
        None => Some(None),
        Some(v) => match v.as_int() {
            Some(n) => if n >= 0 {
                Some(Some(n as u64))
            } else {
                None
            },
            None => None,
        },
    }
}

/// The result of a document delete.
#[derive(Debug)]
pub struct DeleteResponse {
    pub index: String,
    pub ty: String,
    pub id: String,
    pub version: Option<u64>,
    pub found: bool,
}

/// The mathematical image of a `DeleteResponse`.
pub struct DeleteResponseView {
    pub index: Seq<char>,
    pub ty: Seq<char>,
    pub id: Seq<char>,
    pub version: Option<u64>,
    pub found: bool,
}

impl View for DeleteResponse {
    type V = DeleteResponseView;

    open spec fn view(&self) -> DeleteResponseView {
        DeleteResponseView {
            index: self.index@,
            ty: self.ty@,
            id: self.id@,
            version: self.version,
            found: self.found,
        }
    }
}

impl DeleteResponse {
    /// The index the document was addressed in.
    pub fn index(&self) -> (r: &str)
        ensures
            r@ == self@.index,
    {
        self.index.as_str()
    }

    /// The type the document was addressed under.
    pub fn ty(&self) -> (r: &str)
        ensures
            r@ == self@.ty,
    {
        self.ty.as_str()
    }

    /// The document's id.
    pub fn id(&self) -> (r: &str)
        ensures
            r@ == self@.id,
    {
        self.id.as_str()
    }

    /// The document's version, when the service reported one.
    pub fn version(&self) -> (r: Option<u64>)
        ensures
            r == self.version,
    {
        self.version
    }

    /// Whether a document was found and deleted.
    pub fn deleted(&self) -> (r: bool)
        ensures
            r == self.found,
    {
        self.found
    }
}

/// The success shape of a delete response: `_index`, `_type` and `_id`
/// strings, a boolean `found`, and an optional integer `_version`.
pub open spec fn spec_decode_delete(doc: JsonValue) -> Option<DeleteResponseView> {
    match doc.spec_str_entry("_index"@) {
        None => None,
        Some(index) => match doc.spec_str_entry("_type"@) {
            None => None,
            Some(ty) => match doc.spec_str_entry("_id"@) {
                None => None,
                Some(id) => match doc.spec_bool_entry("found"@) {
                    None => None,
                    Some(found) => match spec_version_entry(doc) {
                        None => None,
                        Some(version) => Some(
                            DeleteResponseView {
                                index: index@,
                                ty: ty@,
                                id: id@,
                                version,
                                found,
                            },
                        ),
                    },
                },
            },
        },
    }
}

fn decode_delete(doc: &JsonValue) -> (r: Option<DeleteResponse>)
    ensures
        match r {
            Some(v) => spec_decode_delete(*doc) == Some(v@),
            None => spec_decode_delete(*doc) is None,
        },
{
    let index = match doc.str_entry("_index") {
        Some(s) => s,
        None => {
            return None;
        },
    };
    let ty = match doc.str_entry("_type") {
        Some(s) => s,
        None => {
            return None;
        },
    };
    let id = match doc.str_entry("_id") {
        Some(s) => s,
        None => {
            return None;
        },
    };
    let found = match doc.bool_entry("found") {
        Some(b) => b,
        None => {
            return None;
        },
    };
    let version = match version_entry(doc) {
        Some(v) => v,
        None => {
            return None;
        },
    };
    Some(DeleteResponse { index, ty, id, version, found })
}

/// The full classification of a delete response. A plain miss comes back
/// with a 404 status and the same shape (`found` false), so 404 is accepted
/// alongside the success range.
pub open spec fn spec_parse_delete(status: u16, body: Seq<u8>) -> OutcomeView<DeleteResponseView> {
    spec_classify_body(status, body, |d: JsonValue| spec_decode_delete(d), true)
}

/// Classifies a delete response from its status and complete body.
pub fn parse_delete(status: u16, body: &Vec<u8>) -> (r: Outcome<DeleteResponse>)
    ensures
        r@ == spec_parse_delete(status, body@),
{
    match classify_envelope(body) {
        Envelope::NotJson => Outcome::Fail(parse_failure(status, body)),
        Envelope::Error(err) => Outcome::Api(err),
        Envelope::BadError => Outcome::Fail(parse_failure(status, body)),
        Envelope::Doc(doc) => {
            if (200 <= status && status < 300) || status == 404 {
                match decode_delete(&doc) {
                    Some(v) => Outcome::Success(v),
                    None => Outcome::Fail(parse_failure(status, body)),
                }
            } else {
                Outcome::Fail(parse_failure(status, body))
            }
        },
    }
}

/// The result of indexing one document.
#[derive(Debug)]
pub struct IndexResponse {
    pub index: String,
    pub ty: String,
    pub id: String,
    pub version: Option<u64>,
    pub created: bool,
}

/// The mathematical image of an `IndexResponse`.
pub struct IndexResponseView {
    pub index: Seq<char>,
    pub ty: Seq<char>,
    pub id: Seq<char>,
    pub version: Option<u64>,
    pub created: bool,
}

impl View for IndexResponse {
    type V = IndexResponseView;

    open spec fn view(&self) -> IndexResponseView {
        IndexResponseView {
            index: self.index@,
            ty: self.ty@,
            id: self.id@,
            version: self.version,
            created: self.created,
        }
    }
}

impl IndexResponse {
    /// The index the document went into.
    pub fn index(&self) -> (r: &str)
        ensures
            r@ == self@.index,
    {
        self.index.as_str()
    }

    /// The type the document went in under.
    pub fn ty(&self) -> (r: &str)
        ensures
            r@ == self@.ty,
    {
        self.ty.as_str()
    }

    /// The document's id.
    pub fn id(&self) -> (r: &str)
        ensures
            r@ == self@.id,
    {
        self.id.as_str()
    }

    /// The document's version, when the service reported one.
    pub fn version(&self) -> (r: Option<u64>)
        ensures
            r == self.version,
    {
        self.version
    }

    /// Whether the document was newly created, as opposed to updated.
    pub fn created(&self) -> (r: bool)
        ensures
            r == self.created,
    {
        self.created
    }
}

/// The success shape of an index response: `_index`, `_type` and `_id`
/// strings, a boolean `created`, and an optional integer `_version`.
pub open spec fn spec_decode_index(doc: JsonValue) -> Option<IndexResponseView> {
    match doc.spec_str_entry("_index"@) {
        None => None,
        Some(index) => match doc.spec_str_entry("_type"@) {
            None => None,
            Some(ty) => match doc.spec_str_entry("_id"@) {
                None => None,
                Some(id) => match doc.spec_bool_entry("created"@) {
                    None => None,
                    Some(created) => match spec_version_entry(doc) {
                        None => None,
                        Some(version) => Some(
                            IndexResponseView {
                                index: index@,
                                ty: ty@,
                                id: id@,
                                version,
                                created,
                            },
                        ),
                    },
                },
            },
        },
    }
}

fn decode_index(doc: &JsonValue) -> (r: Option<IndexResponse>)
    ensures
        match r {
            Some(v) => spec_decode_index(*doc) == Some(v@),
            None => spec_decode_index(*doc) is None,
        },
{
    let index = match doc.str_entry("_index") {
        Some(s) => s,
        None => {
            return None;
        },
    };
    let ty = match doc.str_entry("_type") {
        Some(s) => s,
        None => {
            return None;
        },
    };
    let id = match doc.str_entry("_id") {
        Some(s) => s,
        None => {
            return None;
        },
    };
    let created = match doc.bool_entry("created") {
        Some(b) => b,
        None => {
            return None;
        },
    };
    let version = match version_entry(doc) {
        Some(v) => v,
        None => {
            return None;
        },
    };
    Some(IndexResponse { index, ty, id, version, created })
}

/// The full classification of a document index response.
pub open spec fn spec_parse_index(status: u16, body: Seq<u8>) -> OutcomeView<IndexResponseView> {
    spec_classify_body(status, body, |d: JsonValue| spec_decode_index(d), false)
}

/// Classifies a document index response from its status and complete body.
pub fn parse_index(status: u16, body: &Vec<u8>) -> (r: Outcome<IndexResponse>)
    ensures
        r@ == spec_parse_index(status, body@),
{
    match classify_envelope(body) {
        Envelope::NotJson => Outcome::Fail(parse_failure(status, body)),
        Envelope::Error(err) => Outcome::Api(err),
        Envelope::BadError => Outcome::Fail(parse_failure(status, body)),
        Envelope::Doc(doc) => {
            if 200 <= status && status < 300 {
                match decode_index(&doc) {
                    Some(v) => Outcome::Success(v),
                    None => Outcome::Fail(parse_failure(status, body)),
                }
            } else {
                Outcome::Fail(parse_failure(status, body))
            }
        },
    }
}

/// A cluster ping: the node's name, the cluster's name, and the tagline.
#[derive(Debug)]
pub struct PingResponse {
    pub name: String,
    pub cluster_name: String,
    pub tagline: String,
}

/// The mathematical image of a `PingResponse`.
pub struct PingResponseView {
    pub name: Seq<char>,
    pub cluster_name: Seq<char>,
    pub tagline: Seq<char>,
}

impl View for PingResponse {
    type V = PingResponseView;

    open spec fn view(&self) -> PingResponseView {
        PingResponseView {
            name: self.name@,
            cluster_name: self.cluster_name@,
            tagline: self.tagline@,
        }
    }
}

impl PingResponse {
    /// The name of the node that answered.
    pub fn name(&self) -> (r: &str)
        ensures
            r@ == self@.name,
    {
        self.name.as_str()
    }

    /// The name of the cluster.
    pub fn cluster_name(&self) -> (r: &str)
        ensures
            r@ == self@.cluster_name,
    {
        self.cluster_name.as_str()
    }

    /// The service's tagline.
    pub fn tagline(&self) -> (r: &str)
        ensures
            r@ == self@.tagline,
    {
        self.tagline.as_str()
    }
}

/// The success shape of a ping response: `name`, `cluster_name` and
/// `tagline` strings at the top level.
pub open spec fn spec_decode_ping(doc: JsonValue) -> Option<PingResponseView> {
    match doc.spec_str_entry("name"@) {
        None => None,
        Some(name) => match doc.spec_str_entry("cluster_name"@) {
            None => None,
            Some(cluster_name) => match doc.spec_str_entry("tagline"@) {
                None => None,
                Some(tagline) => Some(
                    PingResponseView {
                        name: name@,
                        cluster_name: cluster_name@,
                        tagline: tagline@,
                    },
                ),
            },
        },
    }
}

fn decode_ping(doc: &JsonValue) -> (r: Option<PingResponse>)
    ensures
        match r {
            Some(v) => spec_decode_ping(*doc) == Some(v@),
            None => spec_decode_ping(*doc) is None,
        },
{
    let name = match doc.str_entry("name") {
        Some(s) => s,
        None => {
            return None;
        },
    };
    let cluster_name = match doc.str_entry("cluster_name") {
        Some(s) => s,
        None => {
            return None;
        },
    };
    let tagline = match doc.str_entry("tagline") {
        Some(s) => s,
        None => {
            return None;
        },
    };
    Some(PingResponse { name, cluster_name, tagline })
}

/// The full classification of a ping response.
pub open spec fn spec_parse_ping(status: u16, body: Seq<u8>) -> OutcomeView<PingResponseView> {
    spec_classify_body(status, body, |d: JsonValue| spec_decode_ping(d), false)
}

/// Embedded-error precedence: whenever the body's top level carries an
/// `error` entry of a recognized shape, every structured parse classifies
/// the response as that domain error, whatever the status — a success-range
/// status included.
pub proof fn lemma_error_precedence(
    status: u16,
    body: Seq<u8>,
    doc: JsonValue,
    e: JsonValue,
    err: ApiErrorView,
)
    requires
        json_of(body) == Some(doc),
        doc.spec_get("error"@) == Some(e),
        spec_classify_error(e) == Some(err),
    ensures
        spec_parse_command(status, body) == OutcomeView::<CommandResponse>::Api(err),
        spec_parse_delete(status, body) == OutcomeView::<DeleteResponseView>::Api(err),
        spec_parse_index(status, body) == OutcomeView::<IndexResponseView>::Api(err),
        spec_parse_ping(status, body) == OutcomeView::<PingResponseView>::Api(err),
{
}

/// Classifies a ping response from its status and complete body.
pub fn parse_ping(status: u16, body: &Vec<u8>) -> (r: Outcome<PingResponse>)
    ensures
        r@ == spec_parse_ping(status, body@),
{
    match classify_envelope(body) {
        Envelope::NotJson => Outcome::Fail(parse_failure(status, body)),
        Envelope::Error(err) => Outcome::Api(err),
        Envelope::BadError => Outcome::Fail(parse_failure(status, body)),
        Envelope::Doc(doc) => {
            if 200 <= status && status < 300 {
                match decode_ping(&doc) {
                    Some(v) => Outcome::Success(v),
                    None => Outcome::Fail(parse_failure(status, body)),
                }
            } else {
                Outcome::Fail(parse_failure(status, body))
            }
        },
    }
}

} // verus!
