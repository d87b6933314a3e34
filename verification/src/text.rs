use vstd::prelude::*;
use vstd::std_specs::iter::IteratorSpec;

verus! {

/// Whether `c` has the Unicode `White_Space` property: the 25 code points U+0009 to
/// U+000D, U+0020, U+0085, U+00A0, U+1680, U+2000 to U+200A, U+2028, U+2029, U+202F,
/// U+205F and U+3000.
pub open spec fn char_is_whitespace(c: char) -> bool {
    let u = c as u32;
    ||| 0x09 <= u <= 0x0d
    ||| u == 0x20
    ||| u == 0x85
    ||| u == 0xa0
    ||| u == 0x1680
    ||| 0x2000 <= u <= 0x200a
    ||| u == 0x2028
    ||| u == 0x2029
    ||| u == 0x202f
    ||| u == 0x205f
    ||| u == 0x3000
}

/// `char::is_whitespace`: true exactly for the characters with the Unicode `White_Space`
/// property, which `char_is_whitespace` lists.
pub assume_specification[ char::is_whitespace ](c: char) -> (res: bool)
    ensures
        res == char_is_whitespace(c),
;

/// `String::push` appends the given char to the end of the string.
pub assume_specification[ String::push ](string: &mut String, ch: char)
    ensures
        final(string)@ == old(string)@.push(ch),
;

/// The character shown in place of `c`: whitespace of any kind becomes a plain space.
pub open spec fn display_char(c: char) -> char {
    if char_is_whitespace(c) {
        ' '
    } else {
        c
    }
}

/// The name shown for a file called `name`.
pub open spec fn display_name(name: Seq<char>) -> Seq<char> {
    name.map_values(|c: char| display_char(c))
}

/// Replaces every Unicode whitespace character of `name` (such as the narrow no-break
/// space that macOS puts in screenshot names) by a plain space, so that a font without
/// those glyphs can show the name.
pub fn display_file_name(name: &str) -> (shown: String)
    ensures
        shown@ == display_name(name@),
{
    let mut shown = String::new();
    let mut chars = name.chars();
    let ghost mut done: int = 0;
    loop
        invariant
            0 <= done <= name@.len(),
            chars.remaining() == name@.skip(done),
            shown@ == display_name(name@.take(done)),
        ensures
            shown@ == display_name(name@),
        decreases name@.len() - done,
    {
        match chars.next() {
            Some(c) => {
                let shown_c = if c.is_whitespace() { ' ' } else { c };
                shown.push(shown_c);
                proof {
                    assert(name@.take(done + 1) =~= name@.take(done).push(c));
                    assert(name@.skip(done + 1) =~= name@.skip(done).drop_first());
                    done = done + 1;
                }
            },
            None => {
                assert(name@.take(done) =~= name@);
                break;
            },
        }
    }
    shown
}

/// Shown names keep the length of the file name and every character that is not
/// whitespace; the only whitespace left in them is the plain space.
pub proof fn lemma_display_name_shape(name: Seq<char>)
    ensures
        display_name(name).len() == name.len(),
        forall|i: int|
            0 <= i < name.len() && !char_is_whitespace(name[i]) ==> #[trigger] display_name(
                name,
            )[i] == name[i],
        forall|i: int|
            0 <= i < name.len() && char_is_whitespace(name[i]) ==> #[trigger] display_name(
                name,
            )[i] == ' ',
        forall|i: int|
            0 <= i < name.len() ==> #[trigger] display_name(name)[i] == ' '
                || !char_is_whitespace(display_name(name)[i]),
{
}

/// Showing a shown name again changes nothing.
pub proof fn lemma_display_name_idempotent(name: Seq<char>)
    ensures
        display_name(display_name(name)) == display_name(name),
{
    assert(display_name(display_name(name)) =~= display_name(name));
}

/// `t` is `s` with its leading and trailing whitespace removed.
pub open spec fn is_trim_of(t: Seq<char>, s: Seq<char>) -> bool {
    exists|start: int, end: int|
        {
            &&& 0 <= start <= end <= s.len()
            &&& t == s.subrange(start, end)
            &&& forall|k: int| 0 <= k < start ==> char_is_whitespace(#[trigger] s[k])
            &&& forall|k: int| end <= k < s.len() ==> char_is_whitespace(#[trigger] s[k])
            &&& start < end ==> !char_is_whitespace(s[start]) && !char_is_whitespace(s[end - 1])
        }
}

/// `str::trim`: the slice of `s` without its leading and trailing whitespace, whitespace
/// being what `char::is_whitespace` accepts.
#[verifier::external_body]
pub(crate) fn trim_whitespace(s: &str) -> (t: &str)
    ensures
        is_trim_of(t@, s@),
{
    s.trim()
}

} // verus!
