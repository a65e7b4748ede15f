//! Tests of the string field type, the declarative mapping values, and the
//! attribute metadata helpers.

use elastic::meta::{
    expect_ident, expect_list, expect_name_value, get_elastic_meta_items, get_ident_from_lit,
    get_str_from_lit, get_tokens_from_lit, MetaItem, MetaLit, NestedMetaItem,
};
use elastic::string::{DefaultStringMapping, ElasticString, ElasticStringMapping, FieldData};
use elastic::transport::TransportError;

#[test]
fn field_data_parse_reads_only_the_name() {
    assert!(matches!(FieldData::parse("disabled"), FieldData::Disabled));
    assert!(matches!(FieldData::parse("paged_bytes"), FieldData::PagedBytes(None)));
    assert!(matches!(FieldData::parse("anything else"), FieldData::PagedBytes(None)));
}

#[test]
fn field_data_default_is_paged_bytes() {
    assert!(matches!(FieldData::default(), FieldData::PagedBytes(None)));
}

#[test]
fn elastic_string_new_get_set() {
    let mut s = ElasticString::<DefaultStringMapping>::new("my string value".to_string());
    assert_eq!("my string value", s.get());

    s.set("another value".to_string());
    assert_eq!("another value", s.get());
}

#[test]
fn elastic_string_from_and_into_string() {
    let e = ElasticString::<DefaultStringMapping>::from("my string value".to_string());
    assert_eq!("my string value", e.get());

    let s = String::from(e);
    assert_eq!("my string value", s);
}

#[test]
fn default_string_mapping_leaves_every_setting_absent() {
    assert!(<DefaultStringMapping as ElasticStringMapping>::get_analyzer().is_none());
    assert!(<DefaultStringMapping as ElasticStringMapping>::get_fielddata().is_none());
    assert!(<DefaultStringMapping as ElasticStringMapping>::get_fields().is_none());
    assert!(<DefaultStringMapping as ElasticStringMapping>::get_ignore_above().is_none());
    assert!(<DefaultStringMapping as ElasticStringMapping>::get_index_options().is_none());
    assert!(<DefaultStringMapping as ElasticStringMapping>::get_norms().is_none());
    assert!(<DefaultStringMapping as ElasticStringMapping>::get_null_value().is_none());
    assert!(<DefaultStringMapping as ElasticStringMapping>::get_position_increment_gap().is_none());
    assert!(<DefaultStringMapping as ElasticStringMapping>::get_search_analyzer().is_none());
    assert!(<DefaultStringMapping as ElasticStringMapping>::get_search_quote_analyzer().is_none());
    assert!(<DefaultStringMapping as ElasticStringMapping>::get_similarity().is_none());
    assert!(<DefaultStringMapping as ElasticStringMapping>::get_term_vector().is_none());
}

#[test]
fn lit_error_message_is_fixed() {
    assert_eq!(Err("Unable to get str from lit"), get_str_from_lit(&MetaLit::Other));
    assert_eq!(Err("Unable to get str from lit"), get_ident_from_lit(&MetaLit::Other));
    assert_eq!(Err("Unable to get str from lit"), get_tokens_from_lit(&MetaLit::Other));
}

#[test]
fn elastic_string_into_keeps_the_value() {
    let s = ElasticString::<DefaultStringMapping>::new("my string".to_string());
    let t: ElasticString<DefaultStringMapping> = s.into();
    assert_eq!("my string", t.get());
}

#[test]
fn elastic_meta_items_are_flattened_in_order() {
    let attrs = vec![
        MetaItem::Word("other".to_string()),
        MetaItem::List(
            "elastic".to_string(),
            vec![NestedMetaItem::MetaItem(MetaItem::Word("first".to_string()))],
        ),
        MetaItem::List(
            "serde".to_string(),
            vec![NestedMetaItem::MetaItem(MetaItem::Word("skipped".to_string()))],
        ),
        MetaItem::List(
            "elastic".to_string(),
            vec![NestedMetaItem::MetaItem(MetaItem::NameValue(
                "ty".to_string(),
                MetaLit::Str("keyword".to_string()),
            ))],
        ),
    ];

    let items = get_elastic_meta_items(attrs);
    assert_eq!(2, items.len());
    assert!(expect_ident("first", &items[0]));
    assert!(expect_name_value("ty", &items[1]).is_some());
}

#[test]
fn expect_name_value_picks_only_the_named_pair() {
    let item = NestedMetaItem::MetaItem(MetaItem::NameValue(
        "ty".to_string(),
        MetaLit::Str("keyword".to_string()),
    ));

    let lit = expect_name_value("ty", &item).unwrap();
    assert_eq!("keyword", get_str_from_lit(lit).unwrap());
    assert!(expect_name_value("other", &item).is_none());
}

#[test]
fn expect_list_picks_only_the_named_list() {
    let item = NestedMetaItem::MetaItem(MetaItem::List(
        "mapping".to_string(),
        vec![NestedMetaItem::Literal(MetaLit::Str("raw".to_string()))],
    ));

    let list = expect_list("mapping", &item).unwrap();
    assert_eq!(1, list.len());
    assert!(expect_list("other", &item).is_none());
}

#[test]
fn lit_helpers_refuse_non_string_literals() {
    let lit = MetaLit::Other;
    assert!(get_str_from_lit(&lit).is_err());
    assert!(get_ident_from_lit(&lit).is_err());
    assert!(get_tokens_from_lit(&lit).is_err());

    let lit = MetaLit::Str("date_format".to_string());
    assert_eq!("date_format", get_ident_from_lit(&lit).unwrap());
    assert_eq!("date_format", get_tokens_from_lit(&lit).unwrap());
}

#[test]
fn transport_error_carries_its_cause() {
    let err = TransportError::new("connection refused".to_string());
    assert_eq!("connection refused", err.cause());
}
