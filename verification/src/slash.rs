//! Joining two texts with a slash.

use vstd::prelude::*;

verus! {

/// `text` with a slash added at its end, unless it ends with one already.
pub open spec fn with_end_slash(text: Seq<char>) -> Seq<char> {
    if text.len() > 0 && text.last() == '/' {
        text
    } else {
        text.push('/')
    }
}

/// `text` without its first character where that is a slash; a text of a
/// single character stays as it is.
pub open spec fn without_start_slash(text: Seq<char>) -> Seq<char> {
    if text.len() > 1 && text[0] == '/' {
        text.subrange(1, text.len() as int)
    } else {
        text
    }
}

/// `text` without its last character where that is a slash; a text of a
/// single character stays as it is.
pub open spec fn without_end_slash(text: Seq<char>) -> Seq<char> {
    if text.len() > 1 && text.last() == '/' {
        text.drop_last()
    } else {
        text
    }
}

/// `left` and `right` joined by a slash: `left` gets a slash at its end if it
/// has none, `right` loses one slash at its start, and the whole loses one
/// slash at its end.
pub open spec fn join_with_slash(left: Seq<char>, right: Seq<char>) -> Seq<char> {
    without_end_slash(with_end_slash(left) + without_start_slash(right))
}

/// Calls `slash_formatter::concat_with_slash_in_place`.
///
/// Trusted, not proved: the contract restates the three steps of that
/// function. It pushes a slash onto `left` unless `left` ends with one,
/// appends `right` without its leading slash (which is kept where `right` is
/// the slash alone), and then cuts one trailing slash off, unless the slash is
/// all that is left.
#[verifier::external_body]
pub(crate) fn concat_with_slash(left: &mut String, right: &str)
    ensures
        final(left)@ == join_with_slash(old(left)@, right@),
{
    slash_formatter::concat_with_slash_in_place(left, right);
}

/// Two texts are joined by exactly one slash: whether or not the left one
/// ends with a slash and the right one starts with one, the result is the
/// left text without its closing slash, a slash, and the right text without
/// its opening slash. This holds where the right text is not empty and does
/// not itself end with a slash.
pub proof fn lemma_join_single_separator(left: Seq<char>, right: Seq<char>)
    requires
        right.len() > 0,
        right.last() != '/',
    ensures
        join_with_slash(left, right) == (if left.len() > 0 && left.last() == '/' {
            left.drop_last()
        } else {
            left
        }) + seq!['/'] + without_start_slash(right),
{
}

} // verus!
