//! Checks on the links that payloads carry.

use vstd::prelude::*;

use crate::error::Error;

verus! {

/// Whether the character is white space, as `str::trim` of the standard
/// library takes it: whether it has the property `White_Space` of Unicode.
/// These are the tab, the line feed, the vertical tab, the form feed, the
/// carriage return, the space, the next line, the no-break space, the Ogham
/// space mark, the spaces from the en quad to the hair space, the line and
/// the paragraph separator, the narrow no-break space, the medium
/// mathematical space and the ideographic space.
pub open spec fn white_space(c: char) -> bool {
    let code = c as u32;
    ||| 0x09 <= code <= 0x0d
    ||| code == 0x20
    ||| code == 0x85
    ||| code == 0xa0
    ||| code == 0x1680
    ||| 0x2000 <= code <= 0x200a
    ||| code == 0x2028
    ||| code == 0x2029
    ||| code == 0x202f
    ||| code == 0x205f
    ||| code == 0x3000
}

/// `rest` is what is left of `text` when the white space at both ends is
/// taken off, and it begins at `start`: all around it is white space, and
/// `rest` itself, unless it is empty, begins and ends with other characters.
pub open spec fn trims_at(text: Seq<char>, rest: Seq<char>, start: int) -> bool {
    &&& 0 <= start <= text.len() - rest.len()
    &&& rest == text.subrange(start, start + rest.len())
    &&& forall|i: int|
        0 <= i < text.len() && !(start <= i < start + rest.len()) ==> white_space(
            #[trigger] text[i],
        )
    &&& rest.len() > 0 ==> !white_space(rest[0]) && !white_space(rest[rest.len() - 1])
}

/// `rest` is `text` with the white space at both ends taken off.
pub open spec fn trims_to(text: Seq<char>, rest: Seq<char>) -> bool {
    exists|start: int| trims_at(text, rest, start)
}

/// `text` begins with one of the two schemes of the web.
pub open spec fn has_web_scheme(text: Seq<char>) -> bool {
    "http://"@.is_prefix_of(text) || "https://"@.is_prefix_of(text)
}

/// A link, once trimmed, is acceptable when it is not empty and names a
/// resource of the web.
pub open spec fn valid_trimmed_url(url: Seq<char>) -> bool {
    url.len() > 0 && has_web_scheme(url)
}

/// A link is acceptable when it is so once the white space around it is
/// taken off.
pub open spec fn valid_resource_url(url: Seq<char>) -> bool {
    exists|rest: Seq<char>| #[trigger] trims_to(url, rest) && valid_trimmed_url(rest)
}

/// A text has one trimmed form only.
pub proof fn lemma_trim_unique(text: Seq<char>, a: Seq<char>, b: Seq<char>)
    requires
        trims_to(text, a),
        trims_to(text, b),
    ensures
        a == b,
{
    let sa = choose|start: int| trims_at(text, a, start);
    let sb = choose|start: int| trims_at(text, b, start);
    // Where both are not empty they begin and end at the same places: a
    // character that one of them begins or ends with would else be white
    // space for the other. Where one is empty, all of the text is white
    // space, and so the other is empty too.
    assert(a.len() > 0 && b.len() > 0 ==> sa == sb && a.len() == b.len());
    assert(a.len() == 0 <==> b.len() == 0);
}

/// A text that begins with a scheme of the web and does not end in white
/// space is an acceptable link as it stands.
pub proof fn lemma_plain_link(url: Seq<char>)
    requires
        has_web_scheme(url),
        !white_space(url[url.len() - 1]),
    ensures
        valid_resource_url(url),
{
    reveal_strlit("http://");
    reveal_strlit("https://");
    assert(url.len() >= 7);
    assert(url[0] == 'h') by {
        if "http://"@.is_prefix_of(url) {
            assert(url.subrange(0, 7)[0] == "http://"@[0]);
        } else {
            assert(url.subrange(0, 8)[0] == "https://"@[0]);
        }
    }
    assert(url.subrange(0, url.len() as int) =~= url);
    assert(trims_at(url, url, 0));
    assert(trims_to(url, url));
}

/// `str::trim` of the standard library: the slice that is left when the white
/// space at both ends of `text` is taken off, white space being what Unicode
/// lists under that name.
#[verifier::external_body]
fn trim<'a>(text: &'a str) -> (rest: &'a str)
    ensures
        exists|start: int|
            0 <= start <= text@.len() - rest@.len() && rest@ == #[trigger] text@.subrange(
                start,
                start + rest@.len(),
            ) && (forall|i: int|
                0 <= i < text@.len() && !(start <= i < start + rest@.len()) ==> white_space(
                    #[trigger] text@[i],
                )) && (rest@.len() > 0 ==> !white_space(rest@[0]) && !white_space(
                rest@[rest@.len() - 1],
            )),
{
    text.trim()
}

/// `str::starts_with` of the standard library, for a text as the pattern:
/// whether `text` begins with the characters of `prefix`.
#[verifier::external_body]
fn starts_with(text: &str, prefix: &str) -> (yes: bool)
    ensures
        yes == prefix@.is_prefix_of(text@),
{
    text.starts_with(prefix)
}

/// Accepts a link from which the surrounding white space has been taken.
pub fn check_trimmed_url(url: &str) -> (res: Result<(), Error>)
    ensures
        res == (if valid_trimmed_url(url@) {
            Ok::<(), Error>(())
        } else {
            Err::<(), Error>(Error::InvalidInput)
        }),
{
    if url.is_empty() {
        return Err(Error::InvalidInput);
    }
    if starts_with(url, "http://") || starts_with(url, "https://") {
        Ok(())
    } else {
        Err(Error::InvalidInput)
    }
}

/// Accepts a link to a resource of the web, whatever white space surrounds
/// it, and refuses every other text.
pub fn assert_valid_resource_url(url: &str) -> (res: Result<(), Error>)
    ensures
        res == (if valid_resource_url(url@) {
            Ok::<(), Error>(())
        } else {
            Err::<(), Error>(Error::InvalidInput)
        }),
{
    let rest = trim(url);
    proof {
        let start = choose|start: int|
            0 <= start <= url@.len() - rest@.len() && rest@ == #[trigger] url@.subrange(
                start,
                start + rest@.len(),
            ) && (forall|i: int|
                0 <= i < url@.len() && !(start <= i < start + rest@.len()) ==> white_space(
                    #[trigger] url@[i],
                )) && (rest@.len() > 0 ==> !white_space(rest@[0]) && !white_space(
                rest@[rest@.len() - 1],
            ));
        assert(trims_at(url@, rest@, start));
        assert(trims_to(url@, rest@));
        if valid_resource_url(url@) {
            let other = choose|other: Seq<char>| #[trigger]
                trims_to(url@, other) && valid_trimmed_url(other);
            lemma_trim_unique(url@, rest@, other);
        }
    }
    check_trimmed_url(rest)
}

} // verus!
