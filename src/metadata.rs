//! The metadata read from a track's tag, and the lookup of its fields by name.
use vstd::prelude::*;
use vstd::string::*;

verus! {

/// The fields of a track's tag that templates can refer to. Each may be
/// absent from the tag.
pub struct Metadata {
    pub track: Option<u32>,
    pub artist: Option<String>,
    pub title: Option<String>,
}

/// The decimal digit for `d`, which is below ten.
pub open spec fn digit_char(d: nat) -> char {
    if d == 0 {
        '0'
    } else if d == 1 {
        '1'
    } else if d == 2 {
        '2'
    } else if d == 3 {
        '3'
    } else if d == 4 {
        '4'
    } else if d == 5 {
        '5'
    } else if d == 6 {
        '6'
    } else if d == 7 {
        '7'
    } else if d == 8 {
        '8'
    } else {
        '9'
    }
}

/// `n` written in decimal, without leading zeros (`0` is written `"0"`).
pub open spec fn decimal(n: nat) -> Seq<char>
    decreases n,
{
    if n < 10 {
        seq![digit_char(n)]
    } else {
        decimal(n / 10).push(digit_char(n % 10))
    }
}

/// The decimal text of a track number.
pub fn decimal_text(n: u32) -> (r: String)
    ensures
        r@ == decimal(n as nat),
    decreases n,
{
    let digits = "0123456789";
    proof {
        reveal_strlit("0123456789");
    }
    let d = (n % 10) as usize;
    let last = digits.substring_char(d, d + 1);
    assert(last@ =~= seq![digit_char(d as nat)]);
    if n < 10 {
        String::from_str(last)
    } else {
        let mut r = decimal_text(n / 10);
        r.append(last);
        r
    }
}

/// The text of an optional field: empty where it is absent.
pub open spec fn text_or_empty(s: Option<String>) -> Seq<char> {
    match s {
        Some(v) => v@,
        None => Seq::empty(),
    }
}

/// The text that the field called `name` resolves to: the track number in
/// decimal, the artist or the title, and empty where that field is absent
/// or the name is none of `tracknumber`, `artist` and `title`.
pub open spec fn field_text(m: Metadata, name: Seq<char>) -> Seq<char> {
    if name == "tracknumber"@ {
        match m.track {
            Some(t) => decimal(t as nat),
            None => Seq::empty(),
        }
    } else if name == "artist"@ {
        text_or_empty(m.artist)
    } else if name == "title"@ {
        text_or_empty(m.title)
    } else {
        Seq::empty()
    }
}

/// A name that is none of `tracknumber`, `artist` and `title` resolves to
/// the empty text, whatever the metadata holds.
pub proof fn lemma_unknown_field(m: Metadata, name: Seq<char>)
    requires
        name != "tracknumber"@,
        name != "artist"@,
        name != "title"@,
    ensures
        field_text(m, name) == Seq::<char>::empty(),
{
}

/// Whether two strings hold the same characters.
pub fn same_text(a: &str, b: &str) -> (r: bool)
    ensures
        r == (a@ == b@),
{
    let n = a.unicode_len();
    if n != b.unicode_len() {
        return false;
    }
    let mut i: usize = 0;
    while i < n
        invariant
            n == a@.len(),
            n == b@.len(),
            i <= n,
            forall|j: int| 0 <= j < i ==> a@[j] == b@[j],
        decreases n - i,
    {
        if a.get_char(i) != b.get_char(i) {
            return false;
        }
        i = i + 1;
    }
    assert(a@ =~= b@);
    true
}

/// A copy of an optional field's text, empty where it is absent.
fn copy_or_empty(s: &Option<String>) -> (r: String)
    ensures
        r@ == text_or_empty(*s),
{
    match s {
        Some(v) => v.clone(),
        None => String::new(),
    }
}

/// Resolves the field called `field` against `meta`. Never fails: an absent
/// field, or a name that is not recognised, gives the empty string.
pub fn fmt_field(field: &str, meta: &Metadata) -> (r: String)
    ensures
        r@ == field_text(*meta, field@),
{
    if same_text(field, "tracknumber") {
        match meta.track {
            Some(t) => decimal_text(t),
            None => String::new(),
        }
    } else if same_text(field, "artist") {
        copy_or_empty(&meta.artist)
    } else if same_text(field, "title") {
        copy_or_empty(&meta.title)
    } else {
        String::new()
    }
}

} // verus!
