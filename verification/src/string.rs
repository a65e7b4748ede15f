//! The service's `string` field type: a value with an attached mapping, and
//! the declarative mapping values that describe how string fields are
//! analyzed, stored and scored.

use vstd::prelude::*;
use core::marker::PhantomData;

verus! {

/// The base requirements of any field mapping.
pub trait ElasticMapping {

}

/// Marks a Rust type as one the service can hold under mapping `T`.
pub trait ElasticType<T> {

}

/// Whether a field may use in-memory field data for sorting, aggregations
/// or scripting.
#[derive(Debug, Clone, Copy)]
pub enum FieldData {
    /// Allow in-memory field data, with an optional loading mode.
    PagedBytes(Option<FieldDataLoading>),
    /// Disallow in-memory field data.
    Disabled,
}

impl FieldData {
    /// Reads a field-data setting from its wire name. Only the name is
    /// looked at: anything but `disabled` is the paged-bytes default.
    pub fn parse(fd: &str) -> (r: FieldData)
        ensures
            r == (if fd@ == "disabled"@ {
                FieldData::Disabled
            } else {
                FieldData::PagedBytes(None)
            }),
    {
        if fd.to_owned().eq(&String::from_str("disabled")) {
            FieldData::Disabled
        } else {
            FieldData::PagedBytes(None)
        }
    }
}

impl Default for FieldData {
    /// The default allows in-memory field data, with no loading mode set.
    fn default() -> (r: FieldData)
        ensures
            r == FieldData::PagedBytes(None),
    {
        FieldData::PagedBytes(None)
    }
}

/// When field data is loaded into memory.
#[derive(Debug, Clone, Copy)]
pub enum FieldDataLoading {
    /// Loaded only when needed.
    Lazy,
    /// Loaded before a new search segment becomes visible.
    Eager,
    /// Loaded eagerly together with the global ordinals structure.
    EagerGlobalOrdinals,
}

impl Default for FieldDataLoading {
    /// Field data is loaded lazily unless said otherwise.
    fn default() -> (r: FieldDataLoading)
        ensures
            r == FieldDataLoading::Lazy,
    {
        FieldDataLoading::Lazy
    }
}

/// What the inverted index records for a field, for search and highlighting.
#[derive(Debug, Clone, Copy)]
pub enum IndexOptions {
    /// Only the doc number.
    Docs,
    /// Doc number and term frequencies.
    Freqs,
    /// Doc number, term frequencies, and term positions.
    Positions,
    /// Doc number, term frequencies, positions, and character offsets.
    Offsets,
}

/// What stands in for an explicit null value in a field.
#[derive(Debug, Clone, Copy)]
pub enum NullValue {
    /// Missing fields are left missing.
    Null,
    /// Missing fields take this value instead.
    Substitute(&'static str),
}

/// Whether field length is taken into account when scoring queries.
#[derive(Debug, Clone, Copy)]
pub enum Norms {
    /// Norms are kept, with the given loading mode.
    Enabled { loading: NormsLoading },
    /// Norms are dropped.
    Disabled,
}

/// When norms are loaded into memory.
#[derive(Debug, Clone, Copy)]
pub enum NormsLoading {
    /// Whenever a new segment comes online.
    Eager,
    /// Lazily.
    Lazy,
}

/// What term vectors an analyzed field stores.
#[derive(Debug, Clone, Copy)]
pub enum TermVector {
    /// None.
    No,
    /// Just the terms.
    Yes,
    /// Terms and positions.
    WithPositions,
    /// Terms and character offsets.
    WithOffsets,
    /// Terms, positions, and character offsets.
    WithPositionsOffsets,
}

/// One member of a multi-field string mapping.
#[derive(Debug, Default, Clone, Copy)]
pub struct ElasticStringFieldMapping {
    pub analyzer: Option<&'static str>,
    pub fielddata: Option<FieldData>,
    pub ignore_above: Option<usize>,
    pub index_options: Option<IndexOptions>,
    pub norms: Option<Norms>,
    pub null_value: Option<NullValue>,
    pub position_increment_gap: Option<usize>,
    pub search_analyzer: Option<&'static str>,
    pub search_quote_analyzer: Option<&'static str>,
    pub similarity: Option<&'static str>,
    pub term_vector: Option<TermVector>,
}

/// The guarantee a multi-field listing inherits from the keyed map it
/// stands for: no sub-field name appears twice.
pub open spec fn fields_keys_unique(
    fields: Seq<(&'static str, ElasticStringFieldMapping)>,
) -> bool {
    forall|i: int, j: int| 0 <= i < j < fields.len() ==> fields[i].0@ != fields[j].0@
}

/// The base requirements for mapping a `string` field. Every setting
/// defaults to "not set", so a custom mapping states only what it changes.
pub trait ElasticStringMapping {
    /// The analyzer used at index and search time, unless overridden.
    fn get_analyzer() -> Option<&'static str> {
        None
    }

    /// Whether the field may use in-memory field data.
    fn get_fielddata() -> Option<FieldData> {
        None
    }

    /// Further ways the same string value is indexed, by sub-field name;
    /// every mapping keeps the sub-field names unique.
    fn get_fields() -> (r: Option<Vec<(&'static str, ElasticStringFieldMapping)>>)
        ensures
            r matches Some(fields) ==> fields_keys_unique(fields@),
    {
        None
    }

    /// Strings longer than this are neither indexed nor analyzed.
    fn get_ignore_above() -> Option<usize> {
        None
    }

    /// What the inverted index records for the field.
    fn get_index_options() -> Option<IndexOptions> {
        None
    }

    /// Whether field length affects scoring.
    fn get_norms() -> Option<Norms> {
        None
    }

    /// What stands in for explicit null values.
    fn get_null_value() -> Option<NullValue> {
        None
    }

    /// The positions gap inserted between values of a multi-valued field.
    fn get_position_increment_gap() -> Option<usize> {
        None
    }

    /// The analyzer used at search time on analyzed fields.
    fn get_search_analyzer() -> Option<&'static str> {
        None
    }

    /// The analyzer used at search time when a phrase is met.
    fn get_search_quote_analyzer() -> Option<&'static str> {
        None
    }

    /// The scoring algorithm or similarity for the field.
    fn get_similarity() -> Option<&'static str> {
        None
    }

    /// Whether term vectors are stored for an analyzed field.
    fn get_term_vector() -> Option<TermVector> {
        None
    }
}

/// The mapping a plain string gets when none is given: every setting is
/// stated absent, so nothing is emitted for it.
pub struct DefaultStringMapping;

impl ElasticStringMapping for DefaultStringMapping {
    fn get_analyzer() -> (r: Option<&'static str>)
        ensures
            r is None,
    {
        None
    }

    fn get_fielddata() -> (r: Option<FieldData>)
        ensures
            r is None,
    {
        None
    }

    fn get_fields() -> (r: Option<Vec<(&'static str, ElasticStringFieldMapping)>>)
        ensures
            r is None,
    {
        None
    }

    fn get_ignore_above() -> (r: Option<usize>)
        ensures
            r is None,
    {
        None
    }

    fn get_index_options() -> (r: Option<IndexOptions>)
        ensures
            r is None,
    {
        None
    }

    fn get_norms() -> (r: Option<Norms>)
        ensures
            r is None,
    {
        None
    }

    fn get_null_value() -> (r: Option<NullValue>)
        ensures
            r is None,
    {
        None
    }

    fn get_position_increment_gap() -> (r: Option<usize>)
        ensures
            r is None,
    {
        None
    }

    fn get_search_analyzer() -> (r: Option<&'static str>)
        ensures
            r is None,
    {
        None
    }

    fn get_search_quote_analyzer() -> (r: Option<&'static str>)
        ensures
            r is None,
    {
        None
    }

    fn get_similarity() -> (r: Option<&'static str>)
        ensures
            r is None,
    {
        None
    }

    fn get_term_vector() -> (r: Option<TermVector>)
        ensures
            r is None,
    {
        None
    }
}

impl ElasticMapping for DefaultStringMapping {

}

/// A Rust representation of the service's `string` type under mapping `T`.
pub trait ElasticStringType<T>: ElasticType<T> where Self: Sized {

}

impl ElasticType<DefaultStringMapping> for String {

}

impl ElasticStringType<DefaultStringMapping> for String {

}

/// A string value carrying a mapping in its type. Where the mapping is the
/// default one, a plain `String` does as well.
pub struct ElasticString<T: ElasticMapping + ElasticStringMapping> {
    value: String,
    phantom: PhantomData<T>,
}

impl<T: ElasticMapping + ElasticStringMapping> View for ElasticString<T> {
    type V = Seq<char>;

    closed spec fn view(&self) -> Seq<char> {
        self.value@
    }
}

impl<T: ElasticMapping + ElasticStringMapping> ElasticString<T> {
    /// Wraps a string value under this mapping.
    pub fn new(string: String) -> (r: ElasticString<T>)
        ensures
            r@ == string@,
    {
        ElasticString { value: string, phantom: PhantomData }
    }

    /// The value of the string.
    pub fn get(&self) -> (r: &str)
        ensures
            r@ == self@,
    {
        self.value.as_str()
    }

    /// Replaces the value of the string.
    pub fn set(&mut self, string: String)
        ensures
            final(self)@ == string@,
    {
        self.value = string;
    }

    /// Moves this value under another mapping; the characters are kept.
    pub fn into<TInto: ElasticMapping + ElasticStringMapping>(self) -> (r: ElasticString<TInto>)
        ensures
            r@ == self@,
    {
        ElasticString { value: self.value, phantom: PhantomData }
    }
}

impl<T: ElasticMapping + ElasticStringMapping> ElasticType<T> for ElasticString<T> {

}

impl<T: ElasticMapping + ElasticStringMapping> ElasticStringType<T> for ElasticString<T> {

}

impl From<String> for ElasticString<DefaultStringMapping> {
    fn from(string: String) -> Self {
        ElasticString { value: string, phantom: PhantomData }
    }
}

impl vstd::std_specs::convert::FromSpecImpl<String> for ElasticString<DefaultStringMapping> {
    open spec fn obeys_from_spec() -> bool {
        true
    }

    closed spec fn from_spec(v: String) -> Self {
        ElasticString { value: v, phantom: PhantomData }
    }
}

impl<T: ElasticMapping + ElasticStringMapping> From<ElasticString<T>> for String {
    fn from(string: ElasticString<T>) -> Self {
        string.value
    }
}

impl<T: ElasticMapping + ElasticStringMapping> vstd::std_specs::convert::FromSpecImpl<ElasticString<T>> for String {
    open spec fn obeys_from_spec() -> bool {
        true
    }

    closed spec fn from_spec(v: ElasticString<T>) -> Self {
        v.value
    }
}

/// Conversions with `String` keep the characters: wrapping a string under
/// the default mapping, and unwrapping a string out of any mapping, are both
/// the identity on the view.
pub proof fn lemma_string_conversions<T: ElasticMapping + ElasticStringMapping>(
    s: String,
    e: ElasticString<T>,
)
    ensures
        (<ElasticString<DefaultStringMapping> as vstd::std_specs::convert::FromSpec<
            String,
        >>::from_spec(s))@ == s@,
        (<String as vstd::std_specs::convert::FromSpec<ElasticString<T>>>::from_spec(e))@ == e@,
{
}

} // verus!
