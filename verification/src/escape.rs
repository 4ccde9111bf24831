//! HTML escaping of text that is placed into markup.

use crate::markup::angle_free;
use vstd::prelude::*;
use vstd::string::*;

verus! {

/// The characters that have a meaning of their own in markup.
pub open spec fn is_markup_char(c: char) -> bool {
    c == '&' || c == '<' || c == '>' || c == '"'
}

/// What one character of text becomes in markup: the four markup characters
/// become entities, every other character stays as it is.
pub open spec fn escape_char(c: char) -> Seq<char> {
    if c == '&' {
        seq!['&', 'a', 'm', 'p', ';']
    } else if c == '<' {
        seq!['&', 'l', 't', ';']
    } else if c == '>' {
        seq!['&', 'g', 't', ';']
    } else if c == '"' {
        seq!['&', 'q', 'u', 'o', 't', ';']
    } else {
        seq![c]
    }
}

/// What a text becomes in markup: each character escaped, in order.
pub open spec fn escape_text(text: Seq<char>) -> Seq<char>
    decreases text.len(),
{
    if text.len() == 0 {
        Seq::empty()
    } else {
        escape_text(text.drop_last()) + escape_char(text.last())
    }
}

/// No character of `text` has a meaning of its own in markup.
pub open spec fn is_plain(text: Seq<char>) -> bool {
    forall|i: int| 0 <= i < text.len() ==> !is_markup_char(#[trigger] text[i])
}

/// No character of `s` can end the text or the attribute value that `s`
/// stands in, nor begin a tag.
pub open spec fn is_inert(s: Seq<char>) -> bool {
    forall|i: int| 0 <= i < s.len() ==> #[trigger] s[i] != '<' && s[i] != '>' && s[i] != '"'
}

/// One of the four entities stands in `s` at `i`.
pub open spec fn entity_at(s: Seq<char>, i: int) -> bool {
    exists|c: char|
        is_markup_char(c) && 0 <= i && i + escape_char(c).len() <= s.len() && #[trigger] s.subrange(
            i,
            i + escape_char(c).len(),
        ) == escape_char(c)
}

/// Escaped text cannot break out of the place it stands in: it holds no `<`,
/// no `>` and no `"`, whatever the text was.
pub proof fn lemma_escaped_is_inert(text: Seq<char>)
    ensures
        is_inert(escape_text(text)),
        angle_free(escape_text(text)),
    decreases text.len(),
{
    if text.len() > 0 {
        lemma_escaped_is_inert(text.drop_last());
        let front = escape_text(text.drop_last());
        let tail = escape_char(text.last());
        let whole = escape_text(text);
        assert forall|i: int| 0 <= i < whole.len() implies #[trigger] whole[i] != '<' && whole[i]
            != '>' && whole[i] != '"' by {
            if i < front.len() {
                assert(whole[i] == front[i]);
            } else {
                assert(whole[i] == tail[i - front.len()]);
            }
        }
    }
}

/// Every `&` in escaped text begins an entity: none is left that a reader
/// could take for the start of something else.
pub proof fn lemma_ampersands_begin_entities(text: Seq<char>)
    ensures
        forall|i: int|
            0 <= i < escape_text(text).len() && escape_text(text)[i] == '&' ==> entity_at(
                escape_text(text),
                i,
            ),
    decreases text.len(),
{
    if text.len() > 0 {
        lemma_ampersands_begin_entities(text.drop_last());
        let front = escape_text(text.drop_last());
        let c = text.last();
        let tail = escape_char(c);
        let whole = escape_text(text);
        assert forall|i: int| 0 <= i < whole.len() && whole[i] == '&' implies entity_at(
            whole,
            i,
        ) by {
            if i < front.len() {
                assert(front[i] == '&');
                assert(entity_at(front, i));
                let e = choose|e: char|
                    is_markup_char(e) && 0 <= i && i + escape_char(e).len() <= front.len()
                        && #[trigger] front.subrange(i, i + escape_char(e).len()) == escape_char(e);
                assert(whole.subrange(i, i + escape_char(e).len()) =~= front.subrange(
                    i,
                    i + escape_char(e).len(),
                ));
            } else {
                assert(whole[i] == tail[i - front.len()]);
                assert(i == front.len());
                assert(is_markup_char(c));
                assert(whole.subrange(i, i + tail.len()) =~= tail);
            }
        }
    }
}

/// Text without markup characters is its own escaped form, character for
/// character.
pub proof fn lemma_plain_text_unchanged(text: Seq<char>)
    requires
        is_plain(text),
    ensures
        escape_text(text) == text,
    decreases text.len(),
{
    if text.len() > 0 {
        lemma_plain_text_unchanged(text.drop_last());
        assert(!is_markup_char(text.last()));
        assert(text.drop_last() + seq![text.last()] =~= text);
    }
}

/// Appends `text` to `buffer` as `maud::Render::render_to` does for a `str`:
/// `&`, `<`, `>` and `"` are written as `&amp;`, `&lt;`, `&gt;` and `&quot;`,
/// every other character is written unchanged, and what `buffer` held stays
/// in front.
#[verifier::external_body]
pub(crate) fn push_escaped(text: &str, buffer: &mut String)
    ensures
        final(buffer)@ == old(buffer)@ + escape_text(text@),
{
    maud::Render::render_to(text, buffer);
}

/// Escapes `text` for use in markup.
pub fn escape(text: &str) -> (escaped: String)
    ensures
        escaped@ == escape_text(text@),
{
    let mut escaped = String::new();
    push_escaped(text, &mut escaped);
    escaped
}

} // verus!
