//! How a document reads: which of its characters form tags and which form
//! text. The renderers state their results as character sequences; the
//! functions here say what a reader of such a sequence finds in it.

use vstd::prelude::*;

verus! {

/// The two characters that delimit a tag.
pub open spec fn is_angle(c: char) -> bool {
    c == '<' || c == '>'
}

/// No character of `s` delimits a tag.
pub open spec fn angle_free(s: Seq<char>) -> bool {
    forall|i: int| 0 <= i < s.len() ==> !is_angle(#[trigger] s[i])
}

/// `t` is one tag: it opens with `<`, closes with `>`, and holds neither of
/// the two in between.
pub open spec fn is_tag(t: Seq<char>) -> bool {
    &&& t.len() >= 2
    &&& t[0] == '<'
    &&& t.last() == '>'
    &&& forall|i: int| 0 < i < t.len() - 1 ==> !is_angle(#[trigger] t[i])
}

/// `p` is the front of a tag: `<` and what follows it, up to a value that is
/// still to come.
pub open spec fn opens_tag(p: Seq<char>) -> bool {
    &&& p.len() >= 1
    &&& p[0] == '<'
    &&& forall|i: int| 0 < i < p.len() ==> !is_angle(#[trigger] p[i])
}

/// `p` is the end of a tag: what follows a value, up to and with `>`.
pub open spec fn closes_tag(p: Seq<char>) -> bool {
    &&& p.len() >= 1
    &&& p.last() == '>'
    &&& forall|i: int| 0 <= i < p.len() - 1 ==> !is_angle(#[trigger] p[i])
}

/// `f` is a run of whole elements: empty, or from the `<` of a tag to the `>`
/// of a tag.
pub open spec fn is_fragment(f: Seq<char>) -> bool {
    f.len() == 0 || (f[0] == '<' && f.last() == '>')
}

/// The reader is inside a tag at the end of `doc`: the last angle bracket of
/// `doc` is a `<`.
pub open spec fn ends_in_tag(doc: Seq<char>) -> bool
    decreases doc.len(),
{
    if doc.len() == 0 {
        false
    } else if doc.last() == '<' {
        true
    } else if doc.last() == '>' {
        false
    } else {
        ends_in_tag(doc.drop_last())
    }
}

/// The last character of `doc` is a character of text.
pub open spec fn ends_in_text(doc: Seq<char>) -> bool {
    doc.len() > 0 && !is_angle(doc.last()) && !ends_in_tag(doc)
}

/// The tag that `doc` ends inside, as far as `doc` holds it: from the last
/// `<` on.
pub open spec fn open_tag(doc: Seq<char>) -> Seq<char>
    decreases doc.len(),
{
    if doc.len() == 0 {
        Seq::empty()
    } else if doc.last() == '<' {
        seq!['<']
    } else {
        open_tag(doc.drop_last()).push(doc.last())
    }
}

/// The tags of `doc`, in order, each from its `<` to its `>`.
pub open spec fn tags(doc: Seq<char>) -> Seq<Seq<char>>
    decreases doc.len(),
{
    if doc.len() == 0 {
        Seq::empty()
    } else if doc.last() == '>' && ends_in_tag(doc.drop_last()) {
        tags(doc.drop_last()).push(open_tag(doc.drop_last()).push('>'))
    } else {
        tags(doc.drop_last())
    }
}

/// The text nodes of `doc`, in order: the longest runs of characters that
/// stand outside every tag. A `>` outside a tag belongs to no node.
pub open spec fn text_nodes(doc: Seq<char>) -> Seq<Seq<char>>
    decreases doc.len(),
{
    if doc.len() == 0 {
        Seq::empty()
    } else {
        let front = doc.drop_last();
        let nodes = text_nodes(front);
        if is_angle(doc.last()) || ends_in_tag(front) {
            nodes
        } else if ends_in_text(front) {
            nodes.drop_last().push(nodes.last().push(doc.last()))
        } else {
            nodes.push(seq![doc.last()])
        }
    }
}

/// The text node that `text` makes when it stands between two tags: none
/// when it is empty.
pub open spec fn node(text: Seq<char>) -> Seq<Seq<char>> {
    if text.len() == 0 {
        Seq::empty()
    } else {
        seq![text]
    }
}

/// An element with text for its content.
pub open spec fn element(open: Seq<char>, text: Seq<char>, close: Seq<char>) -> Seq<char> {
    open + text + close
}

/// `f` is a run of whole elements whose tags are `ts` and whose text nodes
/// are `ns`.
pub open spec fn reads_as(f: Seq<char>, ts: Seq<Seq<char>>, ns: Seq<Seq<char>>) -> bool {
    is_fragment(f) && tags(f) == ts && text_nodes(f) == ns
}

/// `b` can follow `a` without the two running into each other: `a` ends
/// outside a tag, and where it ends in text, `b` begins with a tag.
pub open spec fn joins(a: Seq<char>, b: Seq<char>) -> bool {
    !ends_in_tag(a) && (ends_in_text(a) ==> b.len() == 0 || b[0] == '<')
}

/// A document that ends in text has a text node for it.
pub proof fn lemma_text_run(doc: Seq<char>)
    requires
        ends_in_text(doc),
    ensures
        text_nodes(doc).len() > 0,
    decreases doc.len(),
{
    let front = doc.drop_last();
    if ends_in_text(front) {
        lemma_text_run(front);
    }
}

/// Where two documents join, the tags and the text nodes of the whole are
/// those of the first followed by those of the second.
pub proof fn lemma_concat(a: Seq<char>, b: Seq<char>)
    requires
        joins(a, b),
    ensures
        tags(a + b) == tags(a) + tags(b),
        text_nodes(a + b) == text_nodes(a) + text_nodes(b),
        ends_in_tag(a + b) == ends_in_tag(b),
        ends_in_tag(b) ==> open_tag(a + b) == open_tag(b),
        b.len() > 0 ==> ends_in_text(a + b) == ends_in_text(b),
    decreases b.len(),
{
    if b.len() == 0 {
        assert(a + b =~= a);
        assert(tags(a) + tags(b) =~= tags(a));
        assert(text_nodes(a) + text_nodes(b) =~= text_nodes(a));
    } else {
        let front = b.drop_last();
        let c = b.last();
        let whole = a + b;
        assert(whole.drop_last() =~= a + front);
        assert(whole.last() == c);
        lemma_concat(a, front);
        if front.len() == 0 {
            assert(a + front =~= a);
        }
        if c == '>' && ends_in_tag(front) {
            assert(tags(whole) =~= tags(a) + tags(b));
        }
        if !is_angle(c) && !ends_in_tag(front) {
            if ends_in_text(front) {
                lemma_text_run(front);
                assert(text_nodes(whole) =~= text_nodes(a) + text_nodes(b));
            } else {
                assert(!ends_in_text(a + front));
                assert(text_nodes(whole) =~= text_nodes(a) + text_nodes(b));
            }
        }
    }
}

/// The first `k` characters of a tag, short of its `>`, leave the reader
/// inside the tag with nothing read yet but the tag's front.
proof fn lemma_inside_tag(t: Seq<char>, k: int)
    requires
        is_tag(t),
        1 <= k < t.len(),
    ensures
        ends_in_tag(t.take(k)),
        open_tag(t.take(k)) == t.take(k),
        tags(t.take(k)) == Seq::<Seq<char>>::empty(),
        text_nodes(t.take(k)) == Seq::<Seq<char>>::empty(),
    decreases k,
{
    let p = t.take(k);
    if k == 1 {
        let nothing = Seq::<char>::empty();
        assert(p.drop_last() =~= nothing);
        assert(p.last() == '<');
        assert(open_tag(p) =~= p);
        assert(tags(nothing) =~= Seq::empty());
        assert(text_nodes(nothing) =~= Seq::empty());
        assert(tags(p) == tags(nothing));
        assert(text_nodes(p) == text_nodes(nothing));
    } else {
        let front = t.take(k - 1);
        lemma_inside_tag(t, k - 1);
        assert(p.drop_last() =~= front);
        assert(p.last() == t[k - 1]);
        assert(!is_angle(t[k - 1]));
        assert(open_tag(p) =~= p);
        assert(tags(p) == tags(front));
        assert(text_nodes(p) == text_nodes(front));
    }
}

/// A tag reads as one tag and no text.
pub proof fn lemma_tag(t: Seq<char>)
    requires
        is_tag(t),
    ensures
        reads_as(t, seq![t], Seq::empty()),
{
    let front = t.take(t.len() - 1);
    lemma_inside_tag(t, t.len() - 1);
    assert(t.drop_last() =~= front);
    assert(front.push('>') =~= t);
    assert(tags(t) =~= seq![t]);
}

/// Text without angle brackets reads as one text node, or as none when it is
/// empty, and as no tag.
pub proof fn lemma_text(text: Seq<char>)
    requires
        angle_free(text),
    ensures
        tags(text) == Seq::<Seq<char>>::empty(),
        text_nodes(text) == node(text),
        !ends_in_tag(text),
    decreases text.len(),
{
    if text.len() > 0 {
        let front = text.drop_last();
        lemma_text(front);
        assert(!is_angle(text.last()));
        if front.len() == 0 {
            assert(text =~= seq![text.last()]);
        } else {
            assert(!is_angle(front.last()));
            assert(ends_in_text(front));
            assert(front.push(text.last()) =~= text);
            assert(text_nodes(text) =~= seq![text]);
        }
    }
}

/// Text between two tags reads as the two tags and the text's node.
pub proof fn lemma_element(open: Seq<char>, text: Seq<char>, close: Seq<char>)
    requires
        is_tag(open),
        angle_free(text),
        is_tag(close),
    ensures
        reads_as(element(open, text, close), seq![open, close], node(text)),
{
    lemma_tag(open);
    lemma_text(text);
    lemma_tag(close);
    lemma_concat(open, text);
    if text.len() > 0 {
        assert((open + text).last() == text.last());
    } else {
        assert(open + text =~= open);
    }
    lemma_concat(open + text, close);
    assert(tags(element(open, text, close)) =~= seq![open, close]);
    assert(text_nodes(element(open, text, close)) =~= node(text));
}

/// The front of a tag stays the front of a tag when more without angle
/// brackets follows it.
pub proof fn lemma_tag_front(front: Seq<char>, more: Seq<char>)
    requires
        opens_tag(front),
        angle_free(more),
    ensures
        opens_tag(front + more),
{
    let t = front + more;
    assert forall|i: int| 0 < i < t.len() implies !is_angle(#[trigger] t[i]) by {
        if i < front.len() {
            assert(t[i] == front[i]);
        } else {
            assert(t[i] == more[i - front.len()]);
        }
    }
}

/// The front of a tag and the end of a tag make a tag.
pub proof fn lemma_tag_closed(front: Seq<char>, end: Seq<char>)
    requires
        opens_tag(front),
        closes_tag(end),
    ensures
        is_tag(front + end),
{
    let t = front + end;
    assert forall|i: int| 0 < i < t.len() - 1 implies !is_angle(#[trigger] t[i]) by {
        if i < front.len() {
            assert(t[i] == front[i]);
        } else {
            assert(t[i] == end[i - front.len()]);
        }
    }
}

/// Two runs of whole elements, one after the other, read as the tags and the
/// text nodes of the first followed by those of the second.
pub proof fn lemma_then(a: Seq<char>, b: Seq<char>)
    requires
        is_fragment(a),
        is_fragment(b),
    ensures
        is_fragment(a + b),
        tags(a + b) == tags(a) + tags(b),
        text_nodes(a + b) == text_nodes(a) + text_nodes(b),
{
    if a.len() > 0 {
        assert(!ends_in_tag(a));
    }
    lemma_concat(a, b);
    if b.len() == 0 {
        assert(a + b =~= a);
    }
}

/// A tag after a run of whole elements adds itself to the tags and nothing
/// to the text.
pub proof fn lemma_then_tag(a: Seq<char>, t: Seq<char>)
    requires
        is_fragment(a),
        is_tag(t),
    ensures
        is_fragment(a + t),
        tags(a + t) == tags(a).push(t),
        text_nodes(a + t) == text_nodes(a),
{
    lemma_tag(t);
    lemma_then(a, t);
    assert(tags(a) + seq![t] =~= tags(a).push(t));
    assert(text_nodes(a) + Seq::<Seq<char>>::empty() =~= text_nodes(a));
}

/// An element with text for its content, after a run of whole elements, adds
/// its two tags to the tags and its text to the text nodes.
pub proof fn lemma_then_element(a: Seq<char>, open: Seq<char>, text: Seq<char>, close: Seq<char>)
    requires
        is_fragment(a),
        is_tag(open),
        angle_free(text),
        is_tag(close),
    ensures
        is_fragment(a + element(open, text, close)),
        tags(a + element(open, text, close)) == tags(a).push(open).push(close),
        text_nodes(a + element(open, text, close)) == text_nodes(a) + node(text),
{
    lemma_element(open, text, close);
    lemma_then(a, element(open, text, close));
    assert(tags(a) + seq![open, close] =~= tags(a).push(open).push(close));
}

} // verus!
