//! Text handling shared by the loader: trimming, newline collapsing and
//! splitting, stated over sequences of characters.
//!
//! The three private functions at the end of this file hand the work to
//! `str::trim`, `str::replace` and `str::split`. Their contracts are taken
//! from the standard library's documentation and are not proved here; all
//! other functions are verified against them.

use vstd::prelude::*;

verus! {

/// Whether a character has the Unicode `White_Space` property, which is the
/// notion of whitespace that `str::trim` documents. The table itself is the
/// standard library's; nothing is claimed here about any particular character.
pub uninterp spec fn white_space(c: char) -> bool;

/// `s` without its leading whitespace.
pub open spec fn trim_start(s: Seq<char>) -> Seq<char>
    decreases s.len(),
{
    if s.len() > 0 && white_space(s.first()) {
        trim_start(s.drop_first())
    } else {
        s
    }
}

/// `s` without its trailing whitespace.
pub open spec fn trim_end(s: Seq<char>) -> Seq<char>
    decreases s.len(),
{
    if s.len() > 0 && white_space(s.last()) {
        trim_end(s.drop_last())
    } else {
        s
    }
}

/// `s` without its leading and trailing whitespace.
pub open spec fn trimmed(s: Seq<char>) -> Seq<char> {
    trim_end(trim_start(s))
}

/// `s` with every occurrence of the character `from` replaced by the text `to`.
pub open spec fn replaced(s: Seq<char>, from: char, to: Seq<char>) -> Seq<char>
    decreases s.len(),
{
    if s.len() == 0 {
        Seq::empty()
    } else if s.last() == from {
        replaced(s.drop_last(), from, to) + to
    } else {
        replaced(s.drop_last(), from, to).push(s.last())
    }
}

/// The pieces of `s` between occurrences of `sep`, in order. There is always
/// one piece more than there are separators, so the empty text has one (empty)
/// piece, and neighbouring separators enclose an empty piece.
pub open spec fn pieces(s: Seq<char>, sep: char) -> Seq<Seq<char>>
    decreases s.len(),
{
    if s.len() == 0 {
        seq![Seq::empty()]
    } else {
        let before = pieces(s.drop_last(), sep);
        if s.last() == sep {
            before.push(Seq::empty())
        } else {
            before.drop_last().push(before.last().push(s.last()))
        }
    }
}

/// A field after cleaning: trimmed, and with each embedded newline turned into
/// a space.
pub open spec fn cleaned(s: Seq<char>) -> Seq<char> {
    replaced(trimmed(s), '\n', seq![' '])
}

/// A field is blank when nothing is left of it after cleaning.
pub open spec fn is_blank(s: Seq<char>) -> bool {
    cleaned(s).len() == 0
}

/// The cleaned field, or `None` for a blank one: an empty text never stands
/// for a value.
pub open spec fn clean(s: Seq<char>) -> Option<Seq<char>> {
    if is_blank(s) {
        None
    } else {
        Some(cleaned(s))
    }
}

/// Whether a piece of a dosage list counts as a form.
pub open spec fn is_form(piece: Seq<char>) -> bool {
    piece.len() > 0
}

/// The dosage forms named by a raw comma-separated field: each piece trimmed,
/// empty pieces dropped, order kept.
pub open spec fn dosage_forms_of(raw: Seq<char>) -> Seq<Seq<char>> {
    pieces(raw, ',').map_values(|p: Seq<char>| trimmed(p)).filter(|p: Seq<char>| is_form(p))
}

/// Trims a field and collapses its embedded newlines to spaces; a field that
/// is empty afterwards is absent.
pub fn clean_string(s: &str) -> (result: Option<String>)
    ensures
        result.deep_view() == clean(s@),
{
    proof {
        reveal_strlit(" ");
        assert(" "@ =~= seq![' ']);
    }
    let cleaned = replace(trim(s), '\n', " ");
    if cleaned.as_str().is_empty() {
        None
    } else {
        Some(cleaned)
    }
}

/// Splits a raw dosage field on commas into its forms: each piece is trimmed
/// and empty pieces are discarded, in order of appearance.
pub fn dosage_forms(raw: &str) -> (forms: Vec<String>)
    ensures
        forms.deep_view() == dosage_forms_of(raw@),
{
    let parts = split(raw, ',');
    let ghost all = pieces(raw@, ',').map_values(|p: Seq<char>| trimmed(p));
    let mut forms: Vec<String> = Vec::new();
    let mut i: usize = 0;
    assert(all.take(0) =~= Seq::<Seq<char>>::empty());
    assert(forms.deep_view() =~= Seq::<Seq<char>>::empty());
    while i < parts.len()
        invariant
            i <= parts.len(),
            parts.len() == pieces(raw@, ',').len(),
            forall|k: int| 0 <= k < parts.len() ==> (#[trigger] parts[k])@ == pieces(raw@, ',')[k],
            all == pieces(raw@, ',').map_values(|p: Seq<char>| trimmed(p)),
            forms.deep_view() == all.take(i as int).filter(|p: Seq<char>| is_form(p)),
        decreases parts.len() - i,
    {
        let piece = trim(parts[i]);
        proof {
            assert(all.take(i + 1) =~= all.take(i as int).push(all[i as int]));
            all.take(i as int).lemma_filter_push(all[i as int], |p: Seq<char>| is_form(p));
            assert(piece@ == all[i as int]);
        }
        if !piece.is_empty() {
            let ghost before = forms.deep_view();
            forms.push(piece.to_owned());
            assert(forms.deep_view() =~= before.push(piece@));
        }
        i += 1;
    }
    assert(all.take(i as int) =~= all);
    forms
}

/// Trimming from the end leaves the start of the text alone, and leaves no
/// whitespace at the end.
pub proof fn lemma_trim_end_edges(s: Seq<char>)
    ensures
        trim_end(s).len() <= s.len(),
        trim_end(s) == s.subrange(0, trim_end(s).len() as int),
        trim_end(s).len() > 0 ==> !white_space(trim_end(s).last()),
    decreases s.len(),
{
    if s.len() > 0 && white_space(s.last()) {
        lemma_trim_end_edges(s.drop_last());
        let t = trim_end(s.drop_last());
        assert(t =~= s.subrange(0, t.len() as int));
    } else {
        assert(s =~= s.subrange(0, s.len() as int));
    }
}

/// Trimming from the start leaves no whitespace at the start.
pub proof fn lemma_trim_start_edges(s: Seq<char>)
    ensures
        trim_start(s).len() > 0 ==> !white_space(trim_start(s).first()),
    decreases s.len(),
{
    if s.len() > 0 && white_space(s.first()) {
        lemma_trim_start_edges(s.drop_first());
    }
}

/// What is left of a text after trimming neither starts nor ends with
/// whitespace.
pub proof fn lemma_trimmed_edges(s: Seq<char>)
    ensures
        trimmed(s).len() > 0 ==> !white_space(trimmed(s).first()) && !white_space(
            trimmed(s).last(),
        ),
{
    lemma_trim_start_edges(s);
    lemma_trim_end_edges(trim_start(s));
}

/// Replacing a character by a single character keeps the length of the text
/// and leaves no occurrence of the replaced character, unless it is put back.
pub proof fn lemma_replaced_by_one(s: Seq<char>, from: char, to: char)
    ensures
        replaced(s, from, seq![to]).len() == s.len(),
        forall|i: int|
            0 <= i < s.len() ==> #[trigger] replaced(s, from, seq![to])[i] == if s[i] == from {
                to
            } else {
                s[i]
            },
    decreases s.len(),
{
    if s.len() > 0 {
        lemma_replaced_by_one(s.drop_last(), from, to);
    }
}

/// A cleaned field holds no newline, and is as long as the trimmed field: a
/// field is blank exactly when trimming leaves nothing of it.
pub proof fn lemma_cleaned_is_one_line(s: Seq<char>)
    ensures
        cleaned(s).len() == trimmed(s).len(),
        is_blank(s) <==> trimmed(s).len() == 0,
        forall|i: int| 0 <= i < cleaned(s).len() ==> #[trigger] cleaned(s)[i] != '\n',
{
    lemma_replaced_by_one(trimmed(s), '\n', ' ');
}

/// `str::trim`: the slice of `s` that is left when leading and trailing
/// characters with the `White_Space` property are removed, so that what is
/// left neither starts nor ends with such a character.
#[verifier::external_body]
pub(crate) fn trim(s: &str) -> (r: &str)
    ensures
        r@ == trimmed(s@),
        r@.len() > 0 ==> !white_space(r@.first()) && !white_space(r@.last()),
{
    s.trim()
}

/// `str::replace` with a single character as the pattern: a new string in
/// which every occurrence of `from` has been replaced by `to`.
#[verifier::external_body]
fn replace(s: &str, from: char, to: &str) -> (r: String)
    ensures
        r@ == replaced(s@, from, to@),
{
    s.replace(from, to)
}

/// `str::split` with a single character as the pattern: the substrings of `s`
/// that the separator delimits, in order, empty ones included.
#[verifier::external_body]
fn split(s: &str, sep: char) -> (parts: Vec<&str>)
    ensures
        parts.len() == pieces(s@, sep).len(),
        forall|k: int| 0 <= k < parts.len() ==> (#[trigger] parts[k])@ == pieces(s@, sep)[k],
{
    s.split(sep).collect()
}

} // verus!
