//! Expansion of templates such as `%tracknumber%. %title%.mp3`.
//!
//! A template is split on the marker `%` into segments. Segments alternate in
//! role, starting with a literal: the even ones are copied as they stand, the
//! odd ones name a field whose text takes their place. A template that begins
//! with the marker thus starts with an empty literal and then a field. Every
//! segment is kept: a marker with no partner makes the rest of the template a
//! field name, and trailing literal text is copied.
use vstd::prelude::*;
use vstd::string::*;
use crate::metadata::{Metadata, field_text, fmt_field};

verus! {

/// The character that delimits field names.
pub open spec fn is_marker(c: char) -> bool {
    c == '%'
}

/// Whether `s` holds no marker.
pub open spec fn marker_free(s: Seq<char>) -> bool {
    forall|i: int| 0 <= i < s.len() ==> !is_marker(#[trigger] s[i])
}

/// The index of the first marker in `s`, or its length where it holds none.
pub open spec fn first_marker(s: Seq<char>) -> nat
    decreases s.len(),
{
    if s.len() == 0 {
        0
    } else if is_marker(s[0]) {
        0
    } else {
        1 + first_marker(s.drop_first())
    }
}

/// `s` split on the marker: one more segment than `s` holds markers.
pub open spec fn segments(s: Seq<char>) -> Seq<Seq<char>>
    decreases s.len(),
{
    let k = first_marker(s);
    if k >= s.len() {
        seq![s]
    } else {
        seq![s.take(k as int)] + segments(s.skip(k + 1 as int))
    }
}

/// What one segment contributes: its own text for a literal, the field's
/// text for a field reference.
pub open spec fn piece(seg: Seq<char>, is_field: bool, m: Metadata) -> Seq<char> {
    if is_field {
        field_text(m, seg)
    } else {
        seg
    }
}

/// The pieces of `segs` concatenated, their roles alternating from `is_field`.
pub open spec fn render(segs: Seq<Seq<char>>, is_field: bool, m: Metadata) -> Seq<char>
    decreases segs.len(),
{
    if segs.len() == 0 {
        Seq::empty()
    } else {
        piece(segs[0], is_field, m) + render(segs.drop_first(), !is_field, m)
    }
}

/// The expansion of template `t` against `m`.
pub open spec fn expansion(t: Seq<char>, m: Metadata) -> Seq<char> {
    render(segments(t), false, m)
}

/// `first_marker` is the index of the first marker, given that none comes
/// before `j` and that `j` is a marker or the end.
pub proof fn lemma_first_marker(s: Seq<char>, j: int)
    requires
        0 <= j <= s.len(),
        forall|i: int| 0 <= i < j ==> !is_marker(#[trigger] s[i]),
        j == s.len() || is_marker(s[j]),
    ensures
        first_marker(s) == j,
    decreases j,
{
    if j > 0 {
        let t = s.drop_first();
        assert forall|i: int| 0 <= i < j - 1 implies !is_marker(#[trigger] t[i]) by {
            assert(t[i] == s[i + 1]);
        }
        if j - 1 < t.len() {
            assert(t[j - 1] == s[j]);
        }
        lemma_first_marker(t, j - 1);
    }
}

/// A marker-free string is one segment.
pub proof fn lemma_segments_marker_free(x: Seq<char>)
    requires
        marker_free(x),
    ensures
        segments(x) == seq![x],
{
    lemma_first_marker(x, x.len() as int);
}

/// Splitting at the first marker: a marker-free `x` followed by a marker is
/// the first segment, and the segments of `y` follow it.
pub proof fn lemma_segments_split(x: Seq<char>, y: Seq<char>)
    requires
        marker_free(x),
    ensures
        segments(x + seq!['%'] + y) == seq![x] + segments(y),
{
    let t = x + seq!['%'] + y;
    assert forall|i: int| 0 <= i < x.len() implies !is_marker(#[trigger] t[i]) by {
        assert(t[i] == x[i]);
    }
    assert(t[x.len() as int] == '%');
    lemma_first_marker(t, x.len() as int);
    assert(t.take(x.len() as int) =~= x);
    assert(t.skip(x.len() + 1 as int) =~= y);
}

/// Rendering peels off the first segment in its role.
pub proof fn lemma_render_cons(x: Seq<char>, rest: Seq<Seq<char>>, is_field: bool, m: Metadata)
    ensures
        render(seq![x] + rest, is_field, m) == piece(x, is_field, m) + render(rest, !is_field, m),
{
    let segs = seq![x] + rest;
    assert(segs[0] == x);
    assert(segs.drop_first() =~= rest);
}

/// A template without markers expands to itself, whatever the metadata.
pub proof fn lemma_marker_free_unchanged(t: Seq<char>, m: Metadata)
    requires
        marker_free(t),
    ensures
        expansion(t, m) == t,
{
    lemma_segments_marker_free(t);
    lemma_render_cons(t, Seq::empty(), false, m);
    assert(seq![t] + Seq::<Seq<char>>::empty() =~= seq![t]);
    assert(render(Seq::<Seq<char>>::empty(), true, m) == Seq::<char>::empty());
    assert(t + Seq::<char>::empty() =~= t);
}

/// A template that begins with the marker starts with an empty literal
/// segment, which contributes nothing; what follows the marker is rendered
/// starting with a field reference.
pub proof fn lemma_leading_marker(t: Seq<char>, m: Metadata)
    requires
        t.len() > 0,
        is_marker(t[0]),
    ensures
        segments(t)[0] == Seq::<char>::empty(),
        expansion(t, m) == render(segments(t.drop_first()), true, m),
{
    let rest = t.drop_first();
    assert(t =~= Seq::<char>::empty() + seq!['%'] + rest);
    lemma_segments_split(Seq::empty(), rest);
    lemma_render_cons(Seq::empty(), segments(rest), false, m);
    assert(Seq::<char>::empty() + render(segments(rest), true, m) =~= render(segments(rest), true, m));
}

/// A field placed between two marker-free literals expands to the first
/// literal, the field's text and the second literal, in that order.
pub proof fn lemma_field_between(a: Seq<char>, name: Seq<char>, b: Seq<char>, m: Metadata)
    requires
        marker_free(a),
        marker_free(name),
        marker_free(b),
    ensures
        expansion(a + seq!['%'] + name + seq!['%'] + b, m) == a + field_text(m, name) + b,
{
    let t2 = name + seq!['%'] + b;
    assert(a + seq!['%'] + name + seq!['%'] + b =~= a + seq!['%'] + t2);
    lemma_segments_split(a, t2);
    lemma_segments_split(name, b);
    lemma_segments_marker_free(b);
    let empty = Seq::<Seq<char>>::empty();
    assert(seq![b] =~= seq![b] + empty);
    lemma_render_cons(a, seq![name] + seq![b], false, m);
    lemma_render_cons(name, seq![b], true, m);
    lemma_render_cons(b, empty, false, m);
    assert(render(empty, true, m) == Seq::<char>::empty());
    assert(a + (field_text(m, name) + (b + Seq::<char>::empty())) =~= a + field_text(m, name) + b);
}

/// A template that is one `title` field expands to the title's text.
pub proof fn lemma_title_alone(m: Metadata)
    ensures
        expansion("%title%"@, m) == field_text(m, "title"@),
{
    reveal_strlit("%title%");
    reveal_strlit("title");
    let e = Seq::<char>::empty();
    assert("%title%"@ =~= e + seq!['%'] + "title"@ + seq!['%'] + e);
    lemma_field_between(e, "title"@, e, m);
    assert(e + field_text(m, "title"@) + e =~= field_text(m, "title"@));
}

/// A `title` field between the literals `A` and `B` expands to `A`, the
/// title's text and `B`.
pub proof fn lemma_title_between(m: Metadata)
    ensures
        expansion("A%title%B"@, m) == "A"@ + field_text(m, "title"@) + "B"@,
{
    reveal_strlit("A%title%B");
    reveal_strlit("title");
    reveal_strlit("A");
    reveal_strlit("B");
    assert("A%title%B"@ =~= "A"@ + seq!['%'] + "title"@ + seq!['%'] + "B"@);
    lemma_field_between("A"@, "title"@, "B"@, m);
}

/// Expands `fmt_str`: literal segments are copied, field segments resolved
/// against `meta`. Never fails.
pub fn format(fmt_str: &str, meta: &Metadata) -> (r: String)
    ensures
        r@ == expansion(fmt_str@, *meta),
{
    let n = fmt_str.unicode_len();
    let mut out = String::new();
    let mut pos: usize = 0;
    let mut is_field = false;
    assert(fmt_str@.skip(0) =~= fmt_str@);
    assert(out@ + expansion(fmt_str@, *meta) =~= expansion(fmt_str@, *meta));
    loop
        invariant_except_break
            n == fmt_str@.len(),
            pos <= n,
            out@ + render(segments(fmt_str@.skip(pos as int)), is_field, *meta)
                == expansion(fmt_str@, *meta),
        ensures
            out@ == expansion(fmt_str@, *meta),
        decreases n - pos,
    {
        let mut k: usize = pos;
        while k < n && fmt_str.get_char(k) != '%'
            invariant
                n == fmt_str@.len(),
                pos <= k <= n,
                forall|i: int| pos <= i < k ==> !is_marker(#[trigger] fmt_str@[i]),
            decreases n - k,
        {
            k = k + 1;
        }
        let ghost rest = fmt_str@.skip(pos as int);
        proof {
            assert forall|i: int| 0 <= i < k - pos implies !is_marker(#[trigger] rest[i]) by {
                assert(rest[i] == fmt_str@[pos + i]);
            }
            if k < n {
                assert(rest[k - pos] == fmt_str@[k as int]);
            }
            lemma_first_marker(rest, k - pos);
        }
        let seg = fmt_str.substring_char(pos, k);
        let ghost before = out@;
        if is_field {
            let text = fmt_field(seg, meta);
            out.append(text.as_str());
        } else {
            out.append(seg);
        }
        if k == n {
            proof {
                assert(seg@ =~= rest);
                lemma_render_cons(rest, Seq::empty(), is_field, *meta);
                assert(seq![rest] + Seq::<Seq<char>>::empty() =~= seq![rest]);
                assert(render(Seq::<Seq<char>>::empty(), !is_field, *meta) == Seq::<char>::empty());
                assert(out@ =~= before + piece(rest, is_field, *meta));
            }
            break;
        }
        proof {
            let head = rest.take(k - pos);
            let tail = rest.skip(k - pos + 1);
            assert(seg@ =~= head);
            assert(tail =~= fmt_str@.skip(k + 1));
            lemma_render_cons(head, segments(tail), is_field, *meta);
            assert(out@ =~= before + piece(head, is_field, *meta));
        }
        pos = k + 1;
        is_field = !is_field;
    }
    out
}

} // verus!
