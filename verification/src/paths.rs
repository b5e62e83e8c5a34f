//! Finding the file paths that a text mentions, done by `regex`.

use crate::text::option_view;
use crate::message::{lemma_texts_push, texts_view};
use vstd::prelude::*;

verus! {

/// The views of a list of optional texts, in order.
pub open spec fn options_view(items: Seq<Option<String>>) -> Seq<Option<Seq<char>>> {
    Seq::new(items.len(), |i: int| option_view(items[i]))
}

/// What capture group `group` of the regular expression `pattern` holds in
/// each successive non-overlapping match in `text`, from left to right;
/// `None` for a match in which the group took no part. The whole is `None`
/// where `pattern` is not a regular expression that `regex` accepts.
pub uninterp spec fn regex_captures(pattern: Seq<char>, group: usize, text: Seq<char>) -> Option<
    Seq<Option<Seq<char>>>,
>;

/// Compiles `pattern` with `regex::Regex::new`, walks the matches in `text`
/// with `Regex::captures_iter` and takes group `group` of each with
/// `Captures::get` and `Match::as_str`. The contract claims only that the
/// outcome is a function of the arguments, which it calls `regex_captures`.
#[verifier::external_body]
pub(crate) fn capture_group(pattern: &str, group: usize, text: &str) -> (found: Option<
    Vec<Option<String>>,
>)
    ensures
        match found {
            Some(items) => regex_captures(pattern@, group, text@) == Some(options_view(items@)),
            None => regex_captures(pattern@, group, text@) is None,
        },
{
    let re = regex::Regex::new(pattern).ok()?;
    Some(
        re.captures_iter(text).map(|c| c.get(group).map(|m| m.as_str().to_string())).collect(),
    )
}

/// The pattern of a path-like token: after the start of a line, a blank or
/// a quote, a run of word characters, dashes, dots and slashes that ends in
/// one of the recognised extensions. The path is the second group.
pub const PATH_PATTERN: &'static str =
    "(?m)(^|\\s|['`])([\\w\\-\\./]+\\.(rs|toml|yaml|md|txt|json|lock|sh|ps1))\\b";

/// Each capture as a text: one that took no part counts as empty.
pub open spec fn captured_texts(items: Seq<Option<Seq<char>>>) -> Seq<Seq<char>> {
    Seq::new(
        items.len(),
        |i: int|
            match items[i] {
                Some(t) => t,
                None => Seq::empty(),
            },
    )
}

/// The paths that `captures`, the outcome of a search for the path
/// pattern, stands for: none where the search could not be made.
pub open spec fn paths_of(captures: Option<Seq<Option<Seq<char>>>>) -> Seq<Seq<char>> {
    match captures {
        Some(items) => captured_texts(items),
        None => Seq::empty(),
    }
}

/// The path-like tokens that `text` mentions, in order of appearance and
/// with repetitions.
pub open spec fn mentioned(text: Seq<char>) -> Seq<Seq<char>> {
    paths_of(regex_captures(PATH_PATTERN@, 2, text))
}

/// Turns the outcome of a search for the path pattern into the list of
/// paths.
pub fn paths_from_captures(captures: Option<Vec<Option<String>>>) -> (paths: Vec<String>)
    ensures
        texts_view(paths@) == paths_of(
            match captures {
                Some(items) => Some(options_view(items@)),
                None => None,
            },
        ),
{
    let mut paths: Vec<String> = Vec::new();
    match captures {
        Some(items) => {
            let n: usize = items.len();
            let mut i: usize = 0;
            while i < n
                invariant
                    i <= n,
                    n == items.len(),
                    texts_view(paths@) == captured_texts(options_view(items@)).take(i as int),
                decreases n - i,
            {
                let path = match &items[i] {
                    Some(t) => t.clone(),
                    None => String::new(),
                };
                proof {
                    lemma_texts_push(paths@, path);
                    assert(captured_texts(options_view(items@)).take(i + 1)
                        =~= captured_texts(options_view(items@)).take(i as int).push(path@));
                }
                paths.push(path);
                i = i + 1;
            }
            assert(captured_texts(options_view(items@)).take(n as int) =~= captured_texts(
                options_view(items@),
            ));
        },
        None => {
            assert(texts_view(paths@) =~= Seq::<Seq<char>>::empty());
        },
    }
    paths
}

/// Finds the path-like tokens that `text` mentions.
pub fn mentioned_paths(text: &str) -> (paths: Vec<String>)
    ensures
        texts_view(paths@) == mentioned(text@),
{
    paths_from_captures(capture_group(PATH_PATTERN, 2, text))
}

} // verus!
