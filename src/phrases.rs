//! Recognizing the wake phrase and the phrases that end a follow-up window.
use vstd::prelude::*;

verus! {

/// The phrase that wakes the assistant, in lower case.
pub const WAKE_PHRASE: &'static str = "hey jackson";

/// The index reported for [`WAKE_PHRASE`]; it is the only phrase listened for.
pub const WAKE_PHRASE_INDEX: usize = 0;

/// The lower-case form of a text, as `str::to_lowercase` produces it.
pub uninterp spec fn lower_of(s: Seq<char>) -> Seq<char>;

/// Relies on `str::to_lowercase`: the result is the lower-case form of the
/// text and depends on its characters alone.
#[verifier::external_body]
fn lowercase(s: &str) -> (r: String)
    ensures
        r@ == lower_of(s@),
{
    s.to_lowercase()
}

/// `needle` stands in `hay` starting at position `i`.
pub open spec fn occurs_at(hay: Seq<char>, needle: Seq<char>, i: int) -> bool {
    0 <= i && i + needle.len() <= hay.len() && hay.subrange(i, i + needle.len()) == needle
}

/// `needle` is a contiguous part of `hay`.
pub open spec fn contains_seq(hay: Seq<char>, needle: Seq<char>) -> bool {
    exists|i: int| occurs_at(hay, needle, i)
}

/// The phrases that end a follow-up window, in lower case.
pub open spec fn stop_phrases() -> Seq<Seq<char>> {
    seq!["stop listening"@, "goodbye"@, "bye"@]
}

/// An already lower-cased text asks to end the follow-up window.
pub open spec fn names_stop_phrase(folded: Seq<char>) -> bool {
    exists|k: int| 0 <= k < stop_phrases().len() && contains_seq(folded, #[trigger] stop_phrases()[k])
}

fn chars_of(s: &str) -> (r: Vec<char>)
    ensures
        r@ == s@,
{
    let n = s.unicode_len();
    let mut out: Vec<char> = Vec::new();
    let mut i: usize = 0;
    while i < n
        invariant
            n == s@.len(),
            i <= n,
            out@ == s@.subrange(0, i as int),
        decreases n - i,
    {
        out.push(s.get_char(i));
        i = i + 1;
        assert(out@ =~= s@.subrange(0, i as int));
    }
    assert(out@ =~= s@);
    out
}

fn occurs_at_exec(hay: &Vec<char>, needle: &Vec<char>, i: usize) -> (r: bool)
    requires
        i + needle@.len() <= hay@.len(),
    ensures
        r == occurs_at(hay@, needle@, i as int),
{
    let m = needle.len();
    let hn = hay.len();
    let mut j: usize = 0;
    while j < m
        invariant
            m == needle@.len(),
            hn == hay@.len(),
            i + m <= hay@.len(),
            j <= m,
            forall|k: int| 0 <= k < j ==> hay@[i + k] == needle@[k],
        decreases m - j,
    {
        if hay[i + j] != needle[j] {
            assert(hay@.subrange(i as int, i + m)[j as int] != needle@[j as int]);
            return false;
        }
        j = j + 1;
    }
    assert(hay@.subrange(i as int, i + m) =~= needle@);
    true
}

/// Whether `needle` occurs as a contiguous part of `hay`.
pub fn contains_text(hay: &str, needle: &str) -> (r: bool)
    ensures
        r == contains_seq(hay@, needle@),
{
    let h = chars_of(hay);
    let nd = chars_of(needle);
    let n = h.len();
    let m = nd.len();
    if m > n {
        assert forall|i: int| !occurs_at(hay@, needle@, i) by {}
        return false;
    }
    let last = n - m;
    let mut i: usize = 0;
    loop
        invariant
            n == hay@.len(),
            m == needle@.len(),
            last == n - m,
            h@ == hay@,
            nd@ == needle@,
            i <= last,
            forall|k: int| 0 <= k < i ==> !occurs_at(hay@, needle@, k),
        decreases last - i,
    {
        if occurs_at_exec(&h, &nd, i) {
            return true;
        }
        if i == last {
            assert forall|k: int| !occurs_at(hay@, needle@, k) by {
                if 0 <= k <= i {
                }
            }
            return false;
        }
        i = i + 1;
    }
}

/// Whether an already lower-cased text holds the wake phrase.
pub fn is_wake_phrase_folded(folded: &str) -> (r: bool)
    ensures
        r == contains_seq(folded@, WAKE_PHRASE@),
{
    contains_text(folded, WAKE_PHRASE)
}

/// Whether a recognized text holds the wake phrase, in any letter case.
pub fn is_wake_phrase(text: &str) -> (r: bool)
    ensures
        r == contains_seq(lower_of(text@), WAKE_PHRASE@),
{
    let folded = lowercase(text);
    is_wake_phrase_folded(folded.as_str())
}

/// Whether an already lower-cased utterance holds one of the stop phrases.
pub fn is_stop_command_folded(folded: &str) -> (r: bool)
    ensures
        r == names_stop_phrase(folded@),
{
    let a = contains_text(folded, "stop listening");
    let b = contains_text(folded, "goodbye");
    let c = contains_text(folded, "bye");
    proof {
        assert(stop_phrases()[0] == "stop listening"@);
        assert(stop_phrases()[1] == "goodbye"@);
        assert(stop_phrases()[2] == "bye"@);
    }
    a || b || c
}

/// Whether an utterance holds one of the stop phrases, in any letter case.
pub fn is_stop_command(text: &str) -> (r: bool)
    ensures
        r == names_stop_phrase(lower_of(text@)),
{
    let folded = lowercase(text);
    is_stop_command_folded(folded.as_str())
}

} // verus!
