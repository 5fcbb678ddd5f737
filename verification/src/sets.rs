//! Sequences kept free of repeats: what stands for the sets of the model.

use vstd::prelude::*;
use crate::enums::{Category, Label};
use crate::text::owned;

verus! {

/// `items` with `item` at its end, unless it is among them already.
pub open spec fn insert_once<T>(items: Seq<T>, item: T) -> Seq<T> {
    if items.contains(item) {
        items
    } else {
        items.push(item)
    }
}

/// Whether `word` is among `words`.
pub fn has_word(words: &Vec<String>, word: &str) -> (r: bool)
    ensures
        r == words.deep_view().contains(word@),
{
    let wanted = owned(word);
    let mut i: usize = 0;
    while i < words.len()
        invariant
            i <= words.len(),
            wanted@ == word@,
            forall|k: int| 0 <= k < i ==> words.deep_view()[k] != word@,
        decreases words.len() - i,
    {
        if words[i] == wanted {
            assert(words.deep_view()[i as int] == word@);
            return true;
        }
        i = i + 1;
    }
    false
}

/// Whether `category` is among `categories`.
pub fn has_category(categories: &Vec<Category>, category: &Category) -> (r: bool)
    ensures
        r == categories.deep_view().contains(category.deep_view()),
{
    let mut i: usize = 0;
    while i < categories.len()
        invariant
            i <= categories.len(),
            forall|k: int| 0 <= k < i ==> categories.deep_view()[k] != category.deep_view(),
        decreases categories.len() - i,
    {
        if categories[i].same(category) {
            assert(categories.deep_view()[i as int] == category.deep_view());
            return true;
        }
        i = i + 1;
    }
    false
}

/// The step that adds a category unless it is there already.
pub open spec fn once_step() -> spec_fn(Seq<Label>, Label) -> Seq<Label> {
    |sofar: Seq<Label>, label: Label| insert_once(sofar, label)
}

/// Adds each category of `more` to `target`, unless it is there already.
pub fn add_categories(target: &mut Vec<Category>, more: Vec<Category>)
    ensures
        final(target).deep_view() == more.deep_view().fold_left(
            old(target).deep_view(),
            once_step(),
        ),
{
    let ghost start = target.deep_view();
    let ghost all = more.deep_view();
    let mut more = more;
    let mut i: usize = 0;
    assert(all.take(0) =~= Seq::<Label>::empty());
    while i < more.len()
        invariant
            i <= more.len(),
            all == more.deep_view(),
            target.deep_view() == all.take(i as int).fold_left(start, once_step()),
        decreases more.len() - i,
    {
        proof {
            assert(all.take(i + 1).drop_last() =~= all.take(i as int));
            assert(all.take(i + 1).last() == all[i as int]);
        }
        if !has_category(target, &more[i]) {
            let ghost before = target.deep_view();
            let category = more[i].copied();
            target.push(category);
            assert(target.deep_view() =~= before.push(all[i as int]));
        }
        i = i + 1;
    }
    assert(all.take(i as int) =~= all);
}

/// Adding an item once keeps a sequence free of repeats.
pub proof fn lemma_insert_once_distinct<T>(items: Seq<T>, item: T)
    requires
        items.no_duplicates(),
    ensures
        insert_once(items, item).no_duplicates(),
        insert_once(items, item).contains(item),
{
    if !items.contains(item) {
        let after = items.push(item);
        assert forall|i: int, j: int| 0 <= i < after.len() && 0 <= j < after.len() && i != j implies after[i]
            != after[j] by {
            if i < items.len() && j < items.len() {
                assert(items[i] != items[j]);
            } else if i < items.len() {
                assert(items.contains(items[i]));
            } else {
                assert(items.contains(items[j]));
            }
        }
        assert(after[after.len() - 1] == item);
    }
}

/// Adding categories one by one, each at most once, keeps them free of repeats.
pub proof fn lemma_categories_distinct(more: Seq<Label>, start: Seq<Label>)
    requires
        start.no_duplicates(),
    ensures
        more.fold_left(start, once_step()).no_duplicates(),
    decreases more.len(),
{
    if more.len() > 0 {
        lemma_categories_distinct(more.drop_last(), start);
        lemma_insert_once_distinct(more.drop_last().fold_left(start, once_step()), more.last());
    }
}

} // verus!
