//! A model of the attribute metadata that schema derivation reads off a
//! type: nested meta items as they stand inside an attribute, and the
//! helpers that pick named values, lists and idents out of them.

use vstd::prelude::*;

verus! {

/// A literal inside an attribute; only string literals are ever read.
#[derive(Debug)]
pub enum MetaLit {
    Str(String),
    Other,
}

/// One meta item of an attribute: a bare word, a named list, or a
/// name/value pair.
#[derive(Debug)]
pub enum MetaItem {
    Word(String),
    List(String, Vec<NestedMetaItem>),
    NameValue(String, MetaLit),
}

/// An entry of a meta-item list: a nested meta item, or a bare literal.
#[derive(Debug)]
pub enum NestedMetaItem {
    MetaItem(MetaItem),
    Literal(MetaLit),
}

/// The entries of every list named `elastic` among the given attribute meta
/// items, flattened in order; everything else contributes nothing.
pub open spec fn spec_elastic_items(attrs: Seq<MetaItem>) -> Seq<NestedMetaItem>
    decreases attrs.len(),
{
    if attrs.len() == 0 {
        Seq::empty()
    } else {
        (match attrs[0] {
            MetaItem::List(name, list) => if name@ == "elastic"@ {
                list@
            } else {
                Seq::empty()
            },
            _ => Seq::empty(),
        }) + spec_elastic_items(attrs.drop_first())
    }
}

/// Collects the entries of every attribute list named `elastic`, in order.
pub fn get_elastic_meta_items(attrs: Vec<MetaItem>) -> (r: Vec<NestedMetaItem>)
    ensures
        r@ == spec_elastic_items(attrs@),
{
    let ghost orig = attrs@;
    let mut rest = attrs;
    let mut out: Vec<NestedMetaItem> = Vec::new();
    while rest.len() > 0
        invariant
            spec_elastic_items(orig) =~= out@ + spec_elastic_items(rest@),
        decreases rest@.len(),
    {
        let ghost prev = rest@;
        let item = rest.remove(0);
        proof {
            assert(prev.remove(0) =~= prev.drop_first());
        }
        match item {
            MetaItem::List(name, list) => {
                if name.eq(&String::from_str("elastic")) {
                    let ghost out0 = out@;
                    let mut list = list;
                    out.append(&mut list);
                    proof {
                        assert(out0 + (prev[0]->List_1@ + spec_elastic_items(rest@)) =~= out@
                            + spec_elastic_items(rest@));
                    }
                }
            },
            _ => {},
        }
    }
    proof {
        assert(spec_elastic_items(rest@) =~= Seq::empty());
        assert(out@ + Seq::<NestedMetaItem>::empty() =~= out@);
    }
    out
}

/// The literal under the given name, when the item is a name/value pair
/// bearing that name.
pub open spec fn spec_name_value(name: Seq<char>, item: NestedMetaItem) -> Option<MetaLit> {
    match item {
        NestedMetaItem::MetaItem(MetaItem::NameValue(k, lit)) => if k@ == name {
            Some(lit)
        } else {
            None
        },
        _ => None,
    }
}

/// Picks the literal out of a name/value meta item with the given name.
pub fn expect_name_value<'a>(name: &str, meta_item: &'a NestedMetaItem) -> (r: Option<&'a MetaLit>)
    ensures
        match r {
            Some(l) => spec_name_value(name@, *meta_item) == Some(*l),
            None => spec_name_value(name@, *meta_item) is None,
        },
{
    match meta_item {
        NestedMetaItem::MetaItem(MetaItem::NameValue(k, lit)) => {
            if k.eq(&name.to_owned()) {
                Some(lit)
            } else {
                None
            }
        },
        _ => None,
    }
}

/// The entries under the given name, when the item is a list bearing that
/// name.
pub open spec fn spec_list(name: Seq<char>, item: NestedMetaItem) -> Option<Vec<NestedMetaItem>> {
    match item {
        NestedMetaItem::MetaItem(MetaItem::List(k, list)) => if k@ == name {
            Some(list)
        } else {
            None
        },
        _ => None,
    }
}

/// Picks the entries out of a list meta item with the given name.
pub fn expect_list<'a>(name: &str, meta_item: &'a NestedMetaItem) -> (r: Option<
    &'a Vec<NestedMetaItem>,
>)
    ensures
        match r {
            Some(l) => spec_list(name@, *meta_item) == Some(*l),
            None => spec_list(name@, *meta_item) is None,
        },
{
    match meta_item {
        NestedMetaItem::MetaItem(MetaItem::List(k, list)) => {
            if k.eq(&name.to_owned()) {
                Some(list)
            } else {
                None
            }
        },
        _ => None,
    }
}

/// Whether the item is the bare word given.
pub open spec fn spec_is_ident(name: Seq<char>, item: NestedMetaItem) -> bool {
    match item {
        NestedMetaItem::MetaItem(MetaItem::Word(w)) => w@ == name,
        _ => false,
    }
}

/// Tests whether a meta item is exactly the bare word given.
pub fn expect_ident(name: &str, meta_item: &NestedMetaItem) -> (r: bool)
    ensures
        r == spec_is_ident(name@, *meta_item),
{
    match meta_item {
        NestedMetaItem::MetaItem(MetaItem::Word(w)) => w.eq(&name.to_owned()),
        _ => false,
    }
}

/// Reads the string out of a literal; only string literals carry one, and
/// every other kind fails with the one fixed message.
pub fn get_str_from_lit<'a>(lit: &'a MetaLit) -> (r: Result<&'a String, &'static str>)
    ensures
        match r {
            Ok(s) => *lit == MetaLit::Str(*s),
            Err(m) => *lit is Other && m@ == "Unable to get str from lit"@,
        },
{
    match lit {
        MetaLit::Str(s) => Ok(s),
        MetaLit::Other => Err("Unable to get str from lit"),
    }
}

/// Reads an ident out of a literal: the string it carries, when it is one;
/// any other kind propagates the string reader's failure unchanged.
pub fn get_ident_from_lit(lit: &MetaLit) -> (r: Result<String, &'static str>)
    ensures
        match r {
            Ok(s) => *lit == MetaLit::Str(s),
            Err(m) => *lit is Other && m@ == "Unable to get str from lit"@,
        },
{
    match get_str_from_lit(lit) {
        Ok(s) => Ok(s.clone()),
        Err(e) => Err(e),
    }
}

/// Reads a raw token string out of a literal, when it is a string literal;
/// any other kind propagates the string reader's failure unchanged.
pub fn get_tokens_from_lit(lit: &MetaLit) -> (r: Result<String, &'static str>)
    ensures
        match r {
            Ok(s) => *lit == MetaLit::Str(s),
            Err(m) => *lit is Other && m@ == "Unable to get str from lit"@,
        },
{
    match get_str_from_lit(lit) {
        Ok(s) => Ok(s.clone()),
        Err(e) => Err(e),
    }
}

} // verus!
