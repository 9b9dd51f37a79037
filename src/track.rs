//! A track on disk: the path where its file lies, and the metadata that was
//! read from it. The path changes only once a move of the file succeeded.
use vstd::prelude::*;
use vstd::string::*;
use crate::metadata::{Metadata, field_text};
use crate::template::{
    expansion, marker_free, render, lemma_render_cons, lemma_segments_marker_free,
    lemma_segments_split, segments,
};

verus! {

/// The template that a track's new file name is built from.
pub const NAME_TEMPLATE: &'static str = "%tracknumber%. %title%.mp3";

/// A file and its metadata.
pub struct Track {
    path: String,
    tag: Metadata,
}

/// The name template gives the track number, `. `, the title and `.mp3`,
/// each field empty where the tag lacks it.
pub proof fn lemma_name_template(m: Metadata)
    ensures
        expansion(NAME_TEMPLATE@, m) == field_text(m, "tracknumber"@) + ". "@ + field_text(
            m,
            "title"@,
        ) + ".mp3"@,
{
    reveal_strlit("%tracknumber%. %title%.mp3");
    reveal_strlit("tracknumber");
    reveal_strlit(". ");
    reveal_strlit("title");
    reveal_strlit(".mp3");
    let e = Seq::<char>::empty();
    let (n1, l1, n2, l2) = ("tracknumber"@, ". "@, "title"@, ".mp3"@);
    assert(NAME_TEMPLATE@ =~= e + seq!['%'] + (n1 + seq!['%'] + (l1 + seq!['%'] + (n2 + seq![
        '%',
    ] + l2))));
    assert(marker_free(e));
    assert(marker_free(n1));
    assert(marker_free(l1));
    assert(marker_free(n2));
    assert(marker_free(l2));
    lemma_segments_split(n2, l2);
    lemma_segments_split(l1, n2 + seq!['%'] + l2);
    lemma_segments_split(n1, l1 + seq!['%'] + (n2 + seq!['%'] + l2));
    lemma_segments_split(e, n1 + seq!['%'] + (l1 + seq!['%'] + (n2 + seq!['%'] + l2)));
    lemma_segments_marker_free(l2);
    let none = Seq::<Seq<char>>::empty();
    assert(seq![l2] =~= seq![l2] + none);
    lemma_render_cons(e, seq![n1] + (seq![l1] + (seq![n2] + seq![l2])), false, m);
    lemma_render_cons(n1, seq![l1] + (seq![n2] + seq![l2]), true, m);
    lemma_render_cons(l1, seq![n2] + seq![l2], false, m);
    lemma_render_cons(n2, seq![l2], true, m);
    lemma_render_cons(l2, none, false, m);
    assert(render(none, true, m) == e);
    assert(segments(NAME_TEMPLATE@) =~= seq![e] + (seq![n1] + (seq![l1] + (seq![n2] + seq![l2]))));
    assert(expansion(NAME_TEMPLATE@, m) =~= field_text(m, n1) + l1 + field_text(m, n2) + l2);
}

impl Track {
    /// The path recorded for the file.
    pub closed spec fn recorded_path(&self) -> Seq<char> {
        self.path@
    }

    /// The metadata read from the file.
    pub closed spec fn metadata(&self) -> Metadata {
        self.tag
    }

    /// The track at `path`, given the outcome of reading its tag: the track
    /// where it was read, the reader's error where it was not.
    pub fn from_path<E>(path: &str, loaded: Result<Metadata, E>) -> (r: Result<Track, E>)
        ensures
            loaded is Ok <==> r is Ok,
            r is Ok ==> r->Ok_0.recorded_path() == path@ && r->Ok_0.metadata() == loaded->Ok_0,
            r is Err ==> r->Err_0 == loaded->Err_0,
    {
        match loaded {
            Ok(tag) => Ok(Track { path: String::from_str(path), tag }),
            Err(e) => Err(e),
        }
    }

    /// The path recorded for the file.
    pub fn path(&self) -> (r: &str)
        ensures
            r@ == self.recorded_path(),
    {
        self.path.as_str()
    }

    /// The metadata read from the file.
    pub fn tag(&self) -> (r: &Metadata)
        ensures
            *r == self.metadata(),
    {
        &self.tag
    }

    /// Records the outcome of moving the file to `new_path`: on success the
    /// recorded path becomes `new_path`, on failure it stays as it was. The
    /// outcome is handed back for the caller to act on.
    pub fn rename<E>(&mut self, new_path: &str, moved: Result<(), E>) -> (r: Result<(), E>)
        ensures
            r == moved,
            moved is Ok ==> final(self).recorded_path() == new_path@,
            moved is Err ==> final(self).recorded_path() == old(self).recorded_path(),
            final(self).metadata() == old(self).metadata(),
    {
        if moved.is_ok() {
            self.path = String::from_str(new_path);
        }
        moved
    }

    /// The file name that the track is renamed to: `NAME_TEMPLATE`
    /// expanded against its metadata.
    pub fn target_name(&self) -> (r: String)
        ensures
            r@ == expansion(NAME_TEMPLATE@, self.metadata()),
    {
        crate::template::format(NAME_TEMPLATE, &self.tag)
    }
}

} // verus!
