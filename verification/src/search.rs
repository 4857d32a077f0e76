//! The search filter: which of the items on screen a query lets through.
//!
//! A query is cut into words at its whitespace: at every space, tab, line
//! feed, form feed and carriage return. An item is shown when its text holds
//! every word of the query as a run of consecutive characters, in any order
//! and whatever the case of either: text and query are both put in lower
//! case before they are compared. A query without a word shows every item.

use crate::popup::{PopupState, PopupView};
use crate::state::UIState;
use std::fmt::Display;
use vstd::prelude::*;
use vstd::string::to_string_from_display_ensures;

verus! {

/// Whether `needle` stands in `text` from position `start` on.
pub open spec fn occurs_at(text: Seq<char>, needle: Seq<char>, start: int) -> bool {
    &&& 0 <= start
    &&& start + needle.len() <= text.len()
    &&& text.subrange(start, start + needle.len()) == needle
}

/// Whether `needle` occurs in `text` as a run of consecutive characters.
pub open spec fn has_substring(text: Seq<char>, needle: Seq<char>) -> bool {
    exists|start: int| occurs_at(text, needle, start)
}

/// Whether a character separates the words of a query: the space, the
/// tab, the line feed, the form feed and the carriage return do.
pub open spec fn is_separator(c: char) -> bool {
    c == ' ' || c == '\t' || c == '\n' || c == '\u{c}' || c == '\r'
}

/// The pieces of `text` between its separators, in order. A text with `n`
/// separators has `n + 1` pieces, some of them empty where separators stand
/// side by side or at an end.
pub open spec fn pieces(text: Seq<char>) -> Seq<Seq<char>>
    decreases text.len(),
{
    if text.len() == 0 {
        seq![Seq::<char>::empty()]
    } else {
        let rest = pieces(text.drop_first());
        if is_separator(text[0]) {
            seq![Seq::<char>::empty()] + rest
        } else {
            rest.update(0, seq![text[0]] + rest[0])
        }
    }
}

/// What tells a word from an empty piece.
pub open spec fn is_word() -> spec_fn(Seq<char>) -> bool {
    |piece: Seq<char>| piece.len() > 0
}

/// The words of `text`: its pieces that are not empty, in order.
pub open spec fn words(text: Seq<char>) -> Seq<Seq<char>> {
    pieces(text).filter(is_word())
}

/// Whether `text` holds every word of `query`, both taken as they stand.
pub open spec fn query_matches(text: Seq<char>, query: Seq<char>) -> bool {
    forall|i: int| 0 <= i < words(query).len() ==> has_substring(text, #[trigger] words(query)[i])
}

/// The lower-case form of a text, as `str::to_lowercase` gives it.
pub uninterp spec fn lowercase(text: Seq<char>) -> Seq<char>;

/// Whether an item with the given text is shown under `query`: whether the
/// text in lower case holds every word of the query in lower case.
pub open spec fn item_matches(text: Seq<char>, query: Seq<char>) -> bool {
    query_matches(lowercase(text), lowercase(query))
}

/// The positions of the items that are shown under `query`, in rising
/// order, where `texts` holds the text of each item.
pub open spec fn shown_indices(texts: Seq<Seq<char>>, query: Seq<char>) -> Seq<int>
    decreases texts.len(),
{
    if texts.len() == 0 {
        Seq::<int>::empty()
    } else {
        let before = shown_indices(texts.drop_last(), query);
        if item_matches(texts.last(), query) {
            before.push(texts.len() - 1)
        } else {
            before
        }
    }
}

/// The items at the given positions.
pub open spec fn picked<T>(items: Seq<T>, indices: Seq<int>) -> Seq<T> {
    Seq::new(indices.len(), |k: int| items[indices[k]])
}

/// The values behind a sequence of references.
pub open spec fn referents<T>(refs: Seq<&T>) -> Seq<T> {
    Seq::new(refs.len(), |k: int| *refs[k])
}

/// The characters of each string.
pub open spec fn text_views(texts: Seq<String>) -> Seq<Seq<char>> {
    Seq::new(texts.len(), |i: int| texts[i]@)
}

/// Whether `texts` holds, for each item, a text that the item's `Display`
/// writes.
pub open spec fn displayed_as<T: Display>(items: Seq<T>, texts: Seq<String>) -> bool {
    &&& texts.len() == items.len()
    &&& forall|i: int|
        0 <= i < items.len() ==> #[trigger] to_string_from_display_ensures::<T>(&items[i], texts[i])
}

/// `str::to_lowercase` returns the lower-case form of the string slice.
pub assume_specification[ str::to_lowercase ](text: &str) -> (lowered: String)
    ensures
        lowered@ == lowercase(text@),
;

/// `str::contains` with a string slice as the pattern: whether the pattern
/// occurs in the text.
#[verifier::external_body]
fn str_contains(text: &str, needle: &str) -> (found: bool)
    ensures
        found == has_substring(text@, needle@),
{
    text.contains(needle)
}

/// `str::split_ascii_whitespace`: the parts of the text between its ASCII
/// whitespace, in order, none of them empty. ASCII whitespace is the space,
/// the tab, the line feed, the form feed and the carriage return.
#[verifier::external_body]
fn str_split_ascii_whitespace(text: &str) -> (parts: Vec<&str>)
    ensures
        parts@.len() == words(text@).len(),
        forall|i: int| 0 <= i < parts@.len() ==> parts@[i]@ == words(text@)[i],
{
    text.split_ascii_whitespace().collect()
}

impl UIState {
    /// Whether `s` holds every word of `query`, both taken as they stand:
    /// a letter matches itself and not its other case.
    pub fn query_match(s: &str, query: &str) -> (matched: bool)
        ensures
            matched == query_matches(s@, query@),
    {
        let parts = str_split_ascii_whitespace(query);
        let ghost tokens = words(query@);
        let mut matched = true;
        let mut i: usize = 0;
        while i < parts.len()
            invariant
                i <= parts@.len(),
                parts@.len() == tokens.len(),
                forall|j: int| 0 <= j < parts@.len() ==> parts@[j]@ == tokens[j],
                matched == (forall|j: int| 0 <= j < i ==> has_substring(s@, #[trigger] tokens[j])),
            decreases parts@.len() - i,
        {
            let found = str_contains(s, parts[i]);
            proof {
                let before = i as int;
                if matched && found {
                    assert forall|j: int| 0 <= j < before + 1 implies has_substring(
                        s@,
                        #[trigger] tokens[j],
                    ) by {
                        if j == before {
                            assert(parts@[before]@ == tokens[before]);
                        }
                    }
                } else if !found {
                    assert(!has_substring(s@, tokens[before]));
                }
            }
            matched = matched && found;
            i += 1;
        }
        matched
    }

    /// Gets the items to show: all of them, in their order, unless a search
    /// popup is open, and then those whose text holds every word of the
    /// query, whatever the case of either, in their order. The result
    /// borrows from `items` and leaves it as it is.
    pub fn get_search_filtered_items<'a, T: Display>(&self, items: &'a [T]) -> (shown: Vec<&'a T>)
        ensures
            match self.popup@ {
                PopupView::ContextSearch(query) => exists|texts: Seq<String>|
                    #[trigger] displayed_as(items@, texts) && referents(shown@) == picked(
                        items@,
                        shown_indices(text_views(texts), query),
                    ),
                _ => referents(shown@) == items@,
            },
    {
        let mut shown: Vec<&'a T> = Vec::new();
        let mut i: usize = 0;
        match &self.popup {
            PopupState::ContextSearch(query) => {
                let lowered_query = query.as_str().to_lowercase();
                let ghost mut texts = Seq::<String>::empty();
                while i < items.len()
                    invariant
                        i <= items@.len(),
                        texts.len() == i,
                        forall|j: int|
                            0 <= j < i ==> #[trigger] to_string_from_display_ensures::<T>(
                                &items@[j],
                                texts[j],
                            ),
                        lowered_query@ == lowercase(query@),
                        shown@.len() == shown_indices(text_views(texts), query@).len(),
                        forall|k: int|
                            0 <= k < shown@.len() ==> *#[trigger] shown@[k] == items@[shown_indices(
                                text_views(texts),
                                query@,
                            )[k]],
                    decreases items@.len() - i,
                {
                    let text = items[i].to_string();
                    let lowered = text.as_str().to_lowercase();
                    if Self::query_match(lowered.as_str(), lowered_query.as_str()) {
                        shown.push(&items[i]);
                    }
                    proof {
                        assert(text_views(texts.push(text)).drop_last() =~= text_views(texts));
                        texts = texts.push(text);
                    }
                    i += 1;
                }
                proof {
                    assert(displayed_as(items@, texts));
                    assert(referents(shown@) =~= picked(
                        items@,
                        shown_indices(text_views(texts), query@),
                    ));
                }
            },
            _ => {
                while i < items.len()
                    invariant
                        i <= items@.len(),
                        shown@.len() == i,
                        forall|k: int| 0 <= k < i ==> *#[trigger] shown@[k] == items@[k],
                    decreases items@.len() - i,
                {
                    shown.push(&items[i]);
                    i += 1;
                }
                proof {
                    assert(referents(shown@) =~= items@);
                }
            },
        }
        shown
    }
}

/// A text without a separator is its own single piece, and its own single
/// word unless it is empty.
pub proof fn lemma_words_without_separator(text: Seq<char>)
    requires
        forall|i: int| 0 <= i < text.len() ==> !is_separator(#[trigger] text[i]),
    ensures
        pieces(text) == seq![text],
        words(text) == if text.len() > 0 {
            seq![text]
        } else {
            Seq::<Seq<char>>::empty()
        },
    decreases text.len(),
{
    if text.len() == 0 {
        assert(text =~= Seq::<char>::empty());
    } else {
        let tail = text.drop_first();
        assert forall|i: int| 0 <= i < tail.len() implies !is_separator(#[trigger] tail[i]) by {
            assert(tail[i] == text[i + 1]);
        }
        lemma_words_without_separator(tail);
        assert(seq![text[0]] + tail =~= text);
        assert(seq![tail].update(0, text) =~= seq![text]);
    }
    assert(seq![text] =~= Seq::<Seq<char>>::empty().push(text));
    Seq::<Seq<char>>::empty().lemma_filter_push(text, is_word());
    assert(Seq::<Seq<char>>::empty().filter(is_word()) =~= Seq::<Seq<char>>::empty()) by {
        Seq::<Seq<char>>::empty().lemma_filter_len(is_word());
    }
}

/// A text has at least one piece.
pub proof fn lemma_pieces_not_empty(text: Seq<char>)
    ensures
        pieces(text).len() >= 1,
    decreases text.len(),
{
    if text.len() > 0 {
        lemma_pieces_not_empty(text.drop_first());
    }
}

/// Cutting goes through a separator: the pieces of two texts joined by a
/// separator are the pieces of the first followed by those of the second,
/// and so are the words.
pub proof fn lemma_words_of_joined(left: Seq<char>, separator: char, right: Seq<char>)
    requires
        is_separator(separator),
    ensures
        pieces(left + seq![separator] + right) == pieces(left) + pieces(right),
        words(left + seq![separator] + right) == words(left) + words(right),
    decreases left.len(),
{
    let text = left + seq![separator] + right;
    if left.len() == 0 {
        assert(text.drop_first() =~= right);
        assert(text[0] == separator);
    } else {
        let tail = left.drop_first();
        lemma_words_of_joined(tail, separator, right);
        lemma_pieces_not_empty(tail);
        assert(text.drop_first() =~= tail + seq![separator] + right);
        assert(text[0] == left[0]);
    }
    assert(pieces(text) =~= pieces(left) + pieces(right));
    Seq::filter_distributes_over_add(pieces(left), pieces(right), is_word());
}

/// No piece holds a separator, and no word holds one or is empty.
pub proof fn lemma_words_hold_no_separator(text: Seq<char>)
    ensures
        forall|k: int, j: int|
            0 <= k < pieces(text).len() && 0 <= j < pieces(text)[k].len() ==> !is_separator(
                #[trigger] pieces(text)[k][j],
            ),
        forall|k: int| 0 <= k < words(text).len() ==> (#[trigger] words(text)[k]).len() > 0,
        forall|k: int, j: int|
            0 <= k < words(text).len() && 0 <= j < words(text)[k].len() ==> !is_separator(
                #[trigger] words(text)[k][j],
            ),
    decreases text.len(),
{
    let all = pieces(text);
    let kept = words(text);
    if text.len() > 0 {
        let rest = pieces(text.drop_first());
        lemma_words_hold_no_separator(text.drop_first());
        lemma_pieces_not_empty(text.drop_first());
        assert forall|k: int, j: int| 0 <= k < all.len() && 0 <= j < all[k].len() implies !is_separator(
            #[trigger] all[k][j],
        ) by {
            if is_separator(text[0]) {
                assert(all[k] == rest[k - 1]);
                assert(all[k][j] == rest[k - 1][j]);
            } else if k == 0 {
                if j > 0 {
                    assert(all[k][j] == rest[0][j - 1]);
                }
            } else {
                assert(all[k][j] == rest[k][j]);
            }
        }
    }
    assert forall|k: int| 0 <= k < kept.len() implies (#[trigger] kept[k]).len() > 0 by {
        all.lemma_filter_pred(is_word(), k);
    }
    assert forall|k: int, j: int| 0 <= k < kept.len() && 0 <= j < kept[k].len() implies !is_separator(
        #[trigger] kept[k][j],
    ) by {
        assert(kept.contains(kept[k]));
        all.lemma_filter_contains_rev(is_word(), kept[k]);
        let i = choose|i: int| 0 <= i < all.len() && all[i] == kept[k];
        assert(all[i][j] == kept[k][j]);
    }
}

/// The empty text occurs in every text.
pub proof fn lemma_empty_text_occurs(text: Seq<char>)
    ensures
        has_substring(text, Seq::<char>::empty()),
{
    assert(text.subrange(0, 0) =~= Seq::<char>::empty());
    assert(occurs_at(text, Seq::<char>::empty(), 0));
}

/// Empty pieces ask for nothing: a text holds every word of a query just
/// when it holds every piece of it.
pub proof fn lemma_words_or_pieces(text: Seq<char>, query: Seq<char>)
    ensures
        query_matches(text, query) <==> (forall|i: int|
            0 <= i < pieces(query).len() ==> has_substring(text, #[trigger] pieces(query)[i])),
{
    let all = pieces(query);
    let kept = words(query);
    if query_matches(text, query) {
        assert forall|i: int| 0 <= i < all.len() implies has_substring(text, #[trigger] all[i]) by {
            if all[i].len() > 0 {
                all.lemma_filter_contains(is_word(), i);
                let k = choose|k: int| 0 <= k < kept.len() && kept[k] == all[i];
                assert(has_substring(text, kept[k]));
            } else {
                assert(all[i] =~= Seq::<char>::empty());
                lemma_empty_text_occurs(text);
            }
        }
    }
    if forall|i: int| 0 <= i < all.len() ==> has_substring(text, #[trigger] all[i]) {
        assert forall|k: int| 0 <= k < kept.len() implies has_substring(text, #[trigger] kept[k]) by {
            assert(kept.contains(kept[k]));
            all.lemma_filter_contains_rev(is_word(), kept[k]);
            let i = choose|i: int| 0 <= i < all.len() && all[i] == kept[k];
            assert(has_substring(text, all[i]));
        }
    }
}

/// A query without a word, such as the empty query or one made of spaces,
/// asks for nothing: every text matches it.
pub proof fn lemma_wordless_query_matches(text: Seq<char>, query: Seq<char>)
    requires
        forall|i: int| 0 <= i < query.len() ==> is_separator(#[trigger] query[i]),
    ensures
        words(query).len() == 0,
        query_matches(text, query),
    decreases query.len(),
{
    if query.len() == 0 {
        lemma_words_without_separator(query);
    } else {
        let init = query.drop_last();
        let nothing = Seq::<char>::empty();
        assert(query =~= init + seq![query.last()] + nothing);
        lemma_wordless_query_matches(text, init);
        lemma_words_of_joined(init, query.last(), nothing);
        lemma_words_without_separator(nothing);
    }
}

/// What the shown positions are: they stand in rising order, each is the
/// position of an item that matches, and the position of every item that
/// matches is among them.
pub proof fn lemma_shown_indices(texts: Seq<Seq<char>>, query: Seq<char>)
    ensures
        forall|j: int, k: int|
            0 <= j < k < shown_indices(texts, query).len() ==> shown_indices(texts, query)[j]
                < shown_indices(texts, query)[k],
        forall|k: int|
            0 <= k < shown_indices(texts, query).len() ==> {
                &&& 0 <= #[trigger] shown_indices(texts, query)[k] < texts.len()
                &&& item_matches(texts[shown_indices(texts, query)[k]], query)
            },
        forall|i: int|
            0 <= i < texts.len() && item_matches(#[trigger] texts[i], query) ==> shown_indices(
                texts,
                query,
            ).contains(i),
    decreases texts.len(),
{
    if texts.len() > 0 {
        let shorter = texts.drop_last();
        let before = shown_indices(shorter, query);
        let indices = shown_indices(texts, query);
        lemma_shown_indices(shorter, query);
        assert forall|i: int|
            0 <= i < texts.len() && item_matches(#[trigger] texts[i], query) implies indices.contains(
            i,
        ) by {
            if i < texts.len() - 1 {
                assert(item_matches(shorter[i], query));
                let k = choose|k: int| 0 <= k < before.len() && before[k] == i;
                assert(indices[k] == i);
            } else {
                assert(indices[indices.len() - 1] == i);
            }
        }
    }
}

/// Under a query whose lower-case form has no word every item is shown.
pub proof fn lemma_wordless_query_shows_all(texts: Seq<Seq<char>>, query: Seq<char>)
    requires
        words(lowercase(query)).len() == 0,
    ensures
        shown_indices(texts, query) == Seq::new(texts.len(), |i: int| i),
    decreases texts.len(),
{
    if texts.len() > 0 {
        lemma_wordless_query_shows_all(texts.drop_last(), query);
        assert(item_matches(texts.last(), query));
    }
    assert(shown_indices(texts, query) =~= Seq::new(texts.len(), |i: int| i));
}

} // verus!
