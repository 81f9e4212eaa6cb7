//! Locale fallback: from a requested locale tag to the ordered list of tags
//! to look for.

use vstd::prelude::*;

verus! {

/// The characters that part the subtags of a locale tag.
pub open spec fn is_separator(c: char) -> bool {
    c == '-' || c == '_'
}

/// The subtags of a locale tag, in order. There is always at least one; two
/// separators in a row, or one at either end, give an empty subtag.
pub open spec fn subtags(tag: Seq<char>) -> Seq<Seq<char>>
    decreases tag.len(),
{
    if tag.len() == 0 {
        seq![Seq::empty()]
    } else {
        let before = subtags(tag.drop_last());
        if is_separator(tag.last()) {
            before.push(Seq::empty())
        } else {
            before.drop_last().push(before.last().push(tag.last()))
        }
    }
}

/// The subtags put together again, with `_` between neighbours.
pub open spec fn joined(parts: Seq<Seq<char>>) -> Seq<char>
    decreases parts.len(),
{
    if parts.len() == 0 {
        Seq::empty()
    } else if parts.len() == 1 {
        parts[0]
    } else {
        joined(parts.drop_last()).push('_') + parts.last()
    }
}

/// Every tag has a first subtag.
pub proof fn lemma_subtags_nonempty(tag: Seq<char>)
    ensures
        subtags(tag).len() >= 1,
    decreases tag.len(),
{
    if tag.len() > 0 {
        lemma_subtags_nonempty(tag.drop_last());
    }
}

/// Parts `tag` at each `-` and `_`.
pub fn split_subtags(tag: &str) -> (parts: Vec<String>)
    ensures
        parts.deep_view() == subtags(tag@),
{
    let total: usize = tag.unicode_len();
    let mut parts: Vec<String> = Vec::new();
    let mut start: usize = 0;
    let mut at: usize = 0;
    proof {
        assert(tag@.take(0) =~= Seq::<char>::empty());
    }
    for c in it: tag.chars()
        invariant
            it.seq() == tag@,
            total == tag@.len(),
            at == it.index(),
            start <= at,
            subtags(tag@.take(at as int)) == parts.deep_view().push(
                tag@.subrange(start as int, at as int),
            ),
    {
        proof {
            assert(tag@.take(at + 1).drop_last() =~= tag@.take(at as int));
        }
        if c == '-' || c == '_' {
            parts.push(String::from_str(tag.substring_char(start, at)));
            start = at + 1;
            proof {
                assert(tag@.subrange(at + 1, at + 1) =~= Seq::<char>::empty());
            }
        } else {
            proof {
                assert(tag@.subrange(start as int, at as int).push(c) =~= tag@.subrange(
                    start as int,
                    at + 1,
                ));
            }
        }
        at = at + 1;
    }
    proof {
        assert(tag@.take(at as int) =~= tag@);
    }
    parts.push(String::from_str(tag.substring_char(start, at)));
    parts
}

/// The fallback chain of a tag with these subtags: all of them joined, then
/// all but the last, and so on down to the first alone.
pub open spec fn fallback_chain(parts: Seq<Seq<char>>) -> Seq<Seq<char>> {
    Seq::new(parts.len(), |i: int| joined(parts.take(parts.len() - i)))
}

/// The tag of the language of last resort.
pub open spec fn english() -> Seq<char> {
    "en"@
}

/// The chain followed by English, unless English is in the chain already.
pub open spec fn with_english(chain: Seq<Seq<char>>) -> Seq<Seq<char>> {
    if chain.contains(english()) {
        chain
    } else {
        chain.push(english())
    }
}

/// The tags to look for, most specific first, for a locale tag that is
/// already in lower case.
pub open spec fn candidates_of(lowered: Seq<char>) -> Seq<Seq<char>> {
    with_english(fallback_chain(subtags(lowered)))
}

/// Joins the subtags with `_` between neighbours.
pub fn join_subtags(parts: &Vec<String>) -> (tag: String)
    ensures
        tag@ == joined(parts.deep_view()),
{
    let mut tag = String::new();
    let mut i: usize = 0;
    while i < parts.len()
        invariant
            i <= parts.len(),
            tag@ == joined(parts.deep_view().take(i as int)),
        decreases parts.len() - i,
    {
        proof {
            assert(parts.deep_view().take(i + 1).drop_last() =~= parts.deep_view().take(i as int));
        }
        if i > 0 {
            proof {
                reveal_strlit("_");
            }
            tag.append("_");
        }
        tag.append(parts[i].as_str());
        i = i + 1;
    }
    proof {
        assert(parts.deep_view().take(i as int) =~= parts.deep_view());
    }
    tag
}

/// Whether `tag` is among `tags`.
pub fn contains_tag(tags: &Vec<String>, tag: &str) -> (found: bool)
    ensures
        found == tags.deep_view().contains(tag@),
{
    let wanted = String::from_str(tag);
    let mut i: usize = 0;
    while i < tags.len()
        invariant
            i <= tags.len(),
            wanted@ == tag@,
            forall|k: int| 0 <= k < i ==> tags.deep_view()[k] != tag@,
        decreases tags.len() - i,
    {
        if tags[i] == wanted {
            assert(tags.deep_view()[i as int] == tag@);
            return true;
        }
        i = i + 1;
    }
    false
}

/// The tags to look for, most specific first, for a locale tag that is
/// already in lower case: the subtags joined, then again without the last
/// subtag, down to the first subtag alone, and `en` at the end unless it is
/// one of these.
pub fn candidates_from_lowered(lowered: &str) -> (tags: Vec<String>)
    ensures
        tags.deep_view() == candidates_of(lowered@),
{
    let mut parts = split_subtags(lowered);
    let ghost all = parts.deep_view();
    let mut tags: Vec<String> = Vec::new();
    while parts.len() > 0
        invariant
            tags.len() + parts.len() == all.len(),
            parts.deep_view() == all.take(all.len() - tags.len()),
            tags.deep_view() == fallback_chain(all).take(tags.len() as int),
        decreases parts.len(),
    {
        tags.push(join_subtags(&parts));
        parts.pop();
    }
    proof {
        assert(tags.deep_view() =~= fallback_chain(all));
    }
    if !contains_tag(&tags, "en") {
        tags.push(String::from_str("en"));
    }
    tags
}

/// The lower-case form of a text, as `str::to_lowercase` of the standard
/// library gives it.
pub uninterp spec fn lowercased(text: Seq<char>) -> Seq<char>;

/// `str::to_lowercase` of the standard library: the result is the lower-case
/// form of the text, which depends on the text alone. What that form is, is
/// left to the standard library and its Unicode tables.
pub assume_specification[ str::to_lowercase ](text: &str) -> (lowered: String)
    ensures
        lowered@ == lowercased(text@),
;

/// The tags to look for, most specific first, for the locale tag `raw`: the
/// candidates of its lower-case form.
pub fn locale_candidates(raw: &str) -> (tags: Vec<String>)
    ensures
        tags.deep_view() == candidates_of(lowercased(raw@)),
{
    let lowered = raw.to_lowercase();
    candidates_from_lowered(lowered.as_str())
}

/// The tag with `_` in place of each separator.
pub open spec fn with_underscores(tag: Seq<char>) -> Seq<char> {
    tag.map_values(|c: char| if is_separator(c) { '_' } else { c })
}

/// No subtag holds a separator.
pub proof fn lemma_subtags_hold_no_separator(tag: Seq<char>)
    ensures
        forall|i: int, k: int|
            0 <= i < subtags(tag).len() && 0 <= k < subtags(tag)[i].len() ==> !is_separator(
                #[trigger] subtags(tag)[i][k],
            ),
    decreases tag.len(),
{
    if tag.len() > 0 {
        lemma_subtags_hold_no_separator(tag.drop_last());
        lemma_subtags_nonempty(tag.drop_last());
    }
}

/// There is one subtag more than there are separators.
pub proof fn lemma_subtags_count(tag: Seq<char>)
    ensures
        subtags(tag).len() == tag.filter(|c: char| is_separator(c)).len() + 1,
    decreases tag.len(),
{
    reveal(Seq::filter);
    if tag.len() > 0 {
        lemma_subtags_count(tag.drop_last());
    }
}

/// A character added to the last subtag is added to the joined tag.
proof fn lemma_joined_grows(parts: Seq<Seq<char>>, c: char)
    requires
        parts.len() >= 1,
    ensures
        joined(parts.drop_last().push(parts.last().push(c))) == joined(parts).push(c),
{
    if parts.len() > 1 {
        let grown = parts.drop_last().push(parts.last().push(c));
        assert(grown.drop_last() =~= parts.drop_last());
    }
}

/// Splitting a tag and joining its subtags again changes nothing but the
/// separators, each of which comes back as `_`.
pub proof fn lemma_joined_subtags(tag: Seq<char>)
    ensures
        joined(subtags(tag)) == with_underscores(tag),
    decreases tag.len(),
{
    if tag.len() > 0 {
        let before = subtags(tag.drop_last());
        lemma_joined_subtags(tag.drop_last());
        lemma_subtags_nonempty(tag.drop_last());
        if is_separator(tag.last()) {
            assert(before.push(Seq::empty()).drop_last() =~= before);
        } else {
            lemma_joined_grows(before, tag.last());
        }
    }
}

/// Two or more subtags joined hold a `_`.
pub proof fn lemma_joined_holds_underscore(parts: Seq<Seq<char>>)
    requires
        parts.len() >= 2,
    ensures
        joined(parts).contains('_'),
{
    let head = joined(parts.drop_last());
    assert(joined(parts)[head.len() as int] == '_');
}

/// Each tag of the chain is the next one, a `_`, and one more subtag.
pub proof fn lemma_chain_narrows(parts: Seq<Seq<char>>, i: int)
    requires
        0 <= i,
        i + 1 < parts.len(),
    ensures
        fallback_chain(parts)[i] == fallback_chain(parts)[i + 1].push('_') + parts[parts.len() - 1
            - i],
{
    let longer = parts.take(parts.len() - i);
    assert(longer.drop_last() =~= parts.take(parts.len() - (i + 1)));
}

/// The candidates end in English, and English stands nowhere else among
/// them: whatever is asked for, the last thing looked for is `en`.
pub proof fn lemma_candidates_end_in_english(lowered: Seq<char>)
    ensures
        candidates_of(lowered).len() >= 1,
        candidates_of(lowered).last() == english(),
        forall|i: int|
            0 <= i < candidates_of(lowered).len() - 1 ==> candidates_of(lowered)[i] != english(),
{
    let parts = subtags(lowered);
    let chain = fallback_chain(parts);
    lemma_subtags_nonempty(lowered);
    reveal_strlit("en");
    assert forall|i: int| 0 <= i < chain.len() - 1 implies chain[i] != english() by {
        lemma_joined_holds_underscore(parts.take(parts.len() - i));
        if chain[i] == english() {
            let k = choose|k: int| 0 <= k < chain[i].len() && chain[i][k] == '_';
            assert(english()[k] == '_');
        }
    }
    if chain.contains(english()) {
        let i = choose|i: int| 0 <= i < chain.len() && chain[i] == english();
        assert(i == chain.len() - 1);
    }
}

/// The first candidate is the whole tag, with `_` for each separator.
pub proof fn lemma_candidates_start_with_whole_tag(lowered: Seq<char>)
    ensures
        candidates_of(lowered)[0] == with_underscores(lowered),
{
    let parts = subtags(lowered);
    lemma_subtags_nonempty(lowered);
    lemma_joined_subtags(lowered);
    assert(parts.take(parts.len() - 0) =~= parts);
}

} // verus!
