//! What holds of the library as a whole, stated over the models that
//! its functions are specified with.

use vstd::prelude::*;
use crate::collection::{answers_to, Collection};
use crate::enums::{Category, Label};
use crate::error::ParseFault;
use crate::fold::{lemma_fold_keeps, lemma_map_kept, lemma_map_refused, try_map, value_of};
use crate::loader::{gzipped_xml_collection, gzipped_yaml_collection};
use crate::model::{CollectionView, Component, ComponentView};
use crate::outside::gzip_content;
use crate::sets::{lemma_categories_distinct, lemma_insert_once_distinct};
use crate::xml_tree::{ElementView, NodeView};
use crate::yaml_tree::{has_entry, YamlValue};

verus! {

/// A lookup returns exactly the components that answer to the
/// identifier, by that identifier or by it with `.desktop` appended:
/// each of them, and nothing else.
pub proof fn lemma_lookup_finds_all(collection: Collection, id: Seq<char>)
    ensures
        forall|i: int|
            0 <= i < collection.components@.len() && answers_to(
                (#[trigger] collection.components@[i]).id.deep_view(),
                id,
            ) ==> collection.matching(id).contains(collection.components@[i]),
        forall|j: int|
            0 <= j < collection.matching(id).len() ==> answers_to(
                (#[trigger] collection.matching(id)[j]).id.deep_view(),
                id,
            ) && collection.components@.contains(collection.matching(id)[j]),
        collection.matching(id).len() <= collection.components@.len(),
{
    let pred = |c: Component| answers_to(c.id.deep_view(), id);
    let all = collection.components@;
    all.lemma_filter_len(pred);
    assert forall|i: int|
        0 <= i < all.len() && answers_to((#[trigger] all[i]).id.deep_view(), id) implies all.filter(
        pred,
    ).contains(all[i]) by {
        all.lemma_filter_contains(pred, i);
    }
    assert forall|j: int| 0 <= j < all.filter(pred).len() implies answers_to(
        (#[trigger] all.filter(pred)[j]).id.deep_view(),
        id,
    ) && all.contains(all.filter(pred)[j]) by {
        all.lemma_filter_pred(pred, j);
        assert(all.filter(pred).contains(all.filter(pred)[j]));
        all.lemma_filter_contains_rev(pred, all.filter(pred)[j]);
    }
}

/// In a collection of one component, a lookup for that component's
/// identifier returns the one component.
pub proof fn lemma_lookup_single(collection: Collection, id: Seq<char>)
    requires
        collection.components@.len() == 1,
        collection.components@[0].id.deep_view() == id,
    ensures
        collection.matching(id) == collection.components@,
{
    reveal(Seq::filter);
    let pred = |c: Component| answers_to(c.id.deep_view(), id);
    let all = collection.components@;
    assert(all.drop_last().len() == 0);
    assert(all.drop_last().filter(pred) =~= Seq::<Component>::empty());
    assert(all.last() == all[0]);
    assert(pred(all.last()));
    assert(all.filter(pred) =~= all);
}

/// Where a second component repeats the identifier with `.desktop`
/// appended, a lookup returns both, in document order.
pub proof fn lemma_lookup_alias(collection: Collection, id: Seq<char>)
    requires
        collection.components@.len() == 2,
        collection.components@[0].id.deep_view() == id,
        collection.components@[1].id.deep_view() == id + ".desktop"@,
    ensures
        collection.matching(id) == collection.components@,
{
    reveal_with_fuel(Seq::filter, 3);
    let pred = |c: Component| answers_to(c.id.deep_view(), id);
    let all = collection.components@;
    let head = all.drop_last();
    assert(head.len() == 1);
    assert(head.drop_last().len() == 0);
    assert(head.last() == all[0]);
    assert(all.last() == all[1]);
    assert(pred(all[0]));
    assert(pred(all[1]));
    assert(head.drop_last().filter(pred) =~= Seq::<Component>::empty());
    assert(head.filter(pred) =~= head);
    assert(all.filter(pred) =~= all);
}

/// A header that leaves out `Origin` and `MediaBaseUrl` gives a
/// collection without them: no failure comes from their absence, and a
/// header alone with a version is a collection.
pub proof fn lemma_header_may_omit_origin(documents: Seq<YamlValue>)
    requires
        documents.len() > 0,
        documents[0].as_mapping() is Some,
        !has_entry(documents[0].as_mapping().unwrap(), "Origin"@),
        !has_entry(documents[0].as_mapping().unwrap(), "MediaBaseUrl"@),
    ensures
        crate::yaml::collection_of(documents) matches Ok(collection) ==> collection.origin is None
            && collection.media_base_url is None,
        documents.len() == 1 && crate::yaml::filled_text(documents[0], "Version"@) is Some
            ==> crate::yaml::collection_of(documents) is Ok,
{
    assert(documents[0].get("Origin"@) == YamlValue::Bad);
    assert(documents[0].get("MediaBaseUrl"@) == YamlValue::Bad);
    if documents.len() == 1 {
        assert(documents.skip(1).len() == 0);
    }
}

/// A stream that cannot be decompressed is a decompression failure
/// for either encoding, and a malformed tree is only ever reported of
/// a stream that was decompressed.
pub proof fn lemma_broken_stream_is_no_malformed_tree(bytes: Seq<u8>)
    ensures
        gzip_content(bytes) is None ==> gzipped_xml_collection(bytes) == Err::<
            CollectionView,
            ParseFault,
        >(ParseFault::DecompressionFailure) && gzipped_yaml_collection(bytes) == Err::<
            CollectionView,
            ParseFault,
        >(ParseFault::DecompressionFailure),
        gzipped_xml_collection(bytes) == Err::<CollectionView, ParseFault>(
            ParseFault::MalformedTree,
        ) ==> gzip_content(bytes) is Some,
        gzipped_yaml_collection(bytes) == Err::<CollectionView, ParseFault>(
            ParseFault::MalformedTree,
        ) ==> gzip_content(bytes) is Some,
{
}

/// A category token outside the vocabulary is no failure in either
/// encoding: it is kept as it was written.
pub proof fn lemma_unlisted_category_is_kept(token: Seq<char>, element: ElementView)
    requires
        !Category::is_registered(token),
        element.name == "category"@,
        element.text() == Some(token),
    ensures
        Category::label_of(token) == (Label { known: false, name: token }),
        crate::yaml::category_of(YamlValue::Text(token)) == Ok::<Label, ParseFault>(
            Label { known: false, name: token },
        ),
        crate::xml::category_each()(element) == Ok::<Option<Label>, ParseFault>(
            Some(Label { known: false, name: token }),
        ),
{
}

/// No text is refused as a category: every token gives a category
/// that carries the token.
pub proof fn lemma_every_category_parses(token: Seq<char>)
    ensures
        crate::yaml::category_of(YamlValue::Text(token)) is Ok,
        value_of(crate::yaml::category_of(YamlValue::Text(token))).name == token,
{
}

/// One component that is refused makes the whole key-mapping document
/// fail: no collection of the components before it comes out.
pub proof fn lemma_bad_document_fails_all(documents: Seq<YamlValue>, at: int)
    requires
        1 <= at < documents.len(),
        crate::yaml::component_of(
            documents[at],
            crate::yaml::filled_text(documents[0], "Origin"@),
            crate::yaml::filled_text(documents[0], "MediaBaseUrl"@),
        ) is Err,
    ensures
        crate::yaml::collection_of(documents) is Err,
{
    let origin = crate::yaml::filled_text(documents[0], "Origin"@);
    let base = crate::yaml::filled_text(documents[0], "MediaBaseUrl"@);
    let each = crate::yaml::component_maker(origin, base);
    assert(documents.skip(1)[at - 1] == documents[at]);
    lemma_map_refused(documents.skip(1), at - 1, each);
}

/// A key-mapping collection holds one component for each document
/// after the header, in document order.
pub proof fn lemma_documents_in_order(documents: Seq<YamlValue>)
    requires
        crate::yaml::collection_of(documents) is Ok,
    ensures
        value_of(crate::yaml::collection_of(documents)).components.len() == documents.len() - 1,
        forall|i: int|
            1 <= i < documents.len() ==> crate::yaml::component_of(
                documents[i],
                crate::yaml::filled_text(documents[0], "Origin"@),
                crate::yaml::filled_text(documents[0], "MediaBaseUrl"@),
            ) == Ok::<ComponentView, ParseFault>(
                #[trigger] value_of(crate::yaml::collection_of(documents)).components[i - 1],
            ),
{
    let origin = crate::yaml::filled_text(documents[0], "Origin"@);
    let base = crate::yaml::filled_text(documents[0], "MediaBaseUrl"@);
    let each = crate::yaml::component_maker(origin, base);
    let rest = documents.skip(1);
    lemma_map_kept(rest, each);
    assert forall|i: int| 1 <= i < documents.len() implies crate::yaml::component_of(
        documents[i],
        origin,
        base,
    ) == Ok::<ComponentView, ParseFault>(
        #[trigger] value_of(crate::yaml::collection_of(documents)).components[i - 1],
    ) by {
        assert(rest[i - 1] == documents[i]);
        assert(each(rest[i - 1]) == Ok::<ComponentView, ParseFault>(
            value_of(try_map(rest, each))[i - 1],
        ));
    }
}

/// A key that the key-mapping mapper does not know changes nothing
/// and is no failure.
pub proof fn lemma_unknown_key_is_ignored(
    component: ComponentView,
    key: Seq<char>,
    value: YamlValue,
    base: Option<Seq<char>>,
)
    requires
        key != "Name"@,
        key != "Summary"@,
        key != "DeveloperName"@,
        key != "Description"@,
        key != "Keywords"@,
        key != "ProjectLicense"@,
        key != "Icon"@,
        key != "ProjectGroup"@,
        key != "CompulsoryForDesktop"@,
        key != "Package"@,
        key != "SourcePackage"@,
        key != "Categories"@,
        key != "Extends"@,
        key != "Screenshots"@,
        key != "Releases"@,
    ensures
        crate::yaml::entry_applied(component, YamlValue::Text(key), value, base) == Ok::<
            ComponentView,
            ParseFault,
        >(component),
{
}

/// A node of the markup that is no element changes nothing in a
/// component and is no failure.
pub proof fn lemma_other_nodes_are_ignored(component: ComponentView, node: NodeView)
    requires
        !(node is Element),
    ensures
        crate::xml::node_step()(component, node) == Ok::<ComponentView, ParseFault>(component),
{
}

/// The categories and the compulsory desktops of a component stand
/// for sets: none is listed twice.
pub open spec fn listed_once(component: ComponentView) -> bool {
    component.categories.no_duplicates() && component.compulsory_for_desktop.no_duplicates()
}

/// A component that the key-mapping mapper makes lists no category
/// and no compulsory desktop twice.
pub proof fn lemma_key_mapping_lists_once(
    node: YamlValue,
    origin: Option<Seq<char>>,
    base: Option<Seq<char>>,
)
    requires
        crate::yaml::component_of(node, origin, base) is Ok,
    ensures
        listed_once(value_of(crate::yaml::component_of(node, origin, base))),
{
    let step = crate::yaml::entry_step(base);
    let kept = |c: ComponentView| listed_once(c);
    let kind = value_of(crate::yaml::kind_of(node));
    let id = value_of(crate::yaml::component_id_of(node));
    let start = ComponentView { kind, origin, ..ComponentView::blank(id) };
    assert forall|c: ComponentView, e: (YamlValue, YamlValue)|
        kept(c) && (#[trigger] step(c, e)) is Ok implies kept(value_of(step(c, e))) by {
        if e.0.as_text() == Some("Categories"@) {
            let labels = value_of(crate::yaml::categories_of(e.1));
            lemma_categories_distinct(labels, c.categories);
        }
        if e.0.as_text() == Some("CompulsoryForDesktop"@) {
            let desktop = value_of(crate::yaml::plain_field(e.1, "compulsory_for_desktop"@));
            lemma_insert_once_distinct(c.compulsory_for_desktop, desktop);
        }
    }
    lemma_fold_keeps(node.as_mapping().unwrap(), start, step, kept);
}

/// A component that the markup mapper makes lists no category and no
/// compulsory desktop twice.
pub proof fn lemma_markup_lists_once(element: ElementView)
    requires
        crate::xml::component_of(element) is Ok,
    ensures
        listed_once(value_of(crate::xml::component_of(element))),
{
    let step = crate::xml::node_step();
    let kept = |c: ComponentView| listed_once(c);
    let id = value_of(crate::xml::component_id_of(element));
    let start = ComponentView { kind: crate::xml::kind_of(element), ..ComponentView::blank(id) };
    assert forall|c: ComponentView, node: NodeView|
        kept(c) && (#[trigger] step(c, node)) is Ok implies kept(value_of(step(c, node))) by {
        match node {
            NodeView::Element(e) => {
                if e.name == "categories"@ {
                    let labels = value_of(
                        crate::xml::gathered(e.children, crate::xml::category_each()),
                    );
                    lemma_categories_distinct(labels, c.categories);
                }
                if e.name == "compulsory_for_desktop"@ {
                    let desktop = value_of(
                        crate::xml::required_text(e, "compulsory_for_desktop"@),
                    );
                    lemma_insert_once_distinct(c.compulsory_for_desktop, desktop);
                }
            },
            _ => {},
        }
    }
    lemma_fold_keeps(element.children, start, step, kept);
}

} // verus!
