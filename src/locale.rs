use vstd::prelude::*;

verus! {

broadcast use vstd::string::to_string_from_display_ensures_for_str;

/// A character that ends the language part of a locale tag.
pub open spec fn is_separator(c: char) -> bool {
    c == '_' || c == '-'
}

/// `lang` is the language part of the locale tag `tag`: everything before
/// the first `_` or `-`, or the whole tag when it has neither.
pub open spec fn is_language_of(lang: Seq<char>, tag: Seq<char>) -> bool {
    &&& lang.len() <= tag.len()
    &&& lang == tag.subrange(0, lang.len() as int)
    &&& forall|i: int| 0 <= i < lang.len() ==> !is_separator(#[trigger] lang[i])
    &&& lang.len() < tag.len() ==> is_separator(tag[lang.len() as int])
}

/// The language part of a locale tag such as `en-US` or `pt_BR`.
pub fn language_of(tag: &str) -> (r: String)
    ensures
        is_language_of(r@, tag@),
{
    let n = tag.unicode_len();
    let mut i: usize = 0;
    let mut found = false;
    while i < n && !found
        invariant
            n == tag@.len(),
            i <= n,
            found ==> i < n && is_separator(tag@[i as int]),
            forall|j: int| 0 <= j < i ==> !is_separator(#[trigger] tag@[j]),
        decreases n - i, (if found { 0int } else { 1int }),
    {
        let c = tag.get_char(i);
        if c == '_' || c == '-' {
            found = true;
        } else {
            i = i + 1;
        }
    }
    let r = tag.substring_char(0, i).to_string();
    assert(forall|j: int| 0 <= j < i ==> r@[j] == tag@[j]);
    r
}

/// The language to report for the host's locale tag, if the host gave one;
/// the empty string when it gave none.
pub fn locale_language(tag: Option<String>) -> (r: String)
    ensures
        tag is None ==> r@.len() == 0,
        tag is Some ==> is_language_of(r@, tag->0@),
{
    match tag {
        Some(t) => language_of(t.as_str()),
        None => String::new(),
    }
}

} // verus!
