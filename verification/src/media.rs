//! Media types, guessed from file extensions by `mime_guess`.

use vstd::prelude::*;
use crate::text::push_char;

verus! {

/// The media type that `mime_guess` lists first for a file extension, if it
/// knows the extension.
pub uninterp spec fn first_media_type(extension: Seq<char>) -> Option<Seq<char>>;

/// Asks `mime_guess::from_ext` for the media types of an extension and takes
/// the first, as `MimeGuess::first_raw` gives it. The answer comes from a
/// table compiled into that crate and depends on the extension alone.
#[verifier::external_body]
pub(crate) fn guess_media_type(extension: &str) -> (out: Option<String>)
    ensures
        match out {
            Some(name) => first_media_type(extension@) == Some(name@),
            None => first_media_type(extension@) is None,
        },
{
    mime_guess::from_ext(extension).first_raw().map(str::to_owned)
}

/// The extension of the file that a path names: what follows the last dot of
/// its last segment, unless that dot begins the segment.
pub open spec fn extension(path: Seq<char>) -> Option<Seq<char>>
    decreases path.len(),
{
    if path.len() == 0 || path.last() == '/' {
        None
    } else if path.last() == '.' {
        if path.len() == 1 || path[path.len() - 2] == '/' {
            None
        } else {
            Some(Seq::empty())
        }
    } else {
        match extension(path.drop_last()) {
            Some(tail) => Some(tail.push(path.last())),
            None => None,
        }
    }
}

/// An extension is the end of the path, holds neither dot nor slash, and
/// stands behind a dot that does not begin a segment.
pub proof fn extension_ends_the_path(path: Seq<char>)
    ensures
        extension(path) matches Some(tail) ==> {
            let dot = path.len() - tail.len() - 1;
            &&& 0 < dot < path.len()
            &&& path[dot] == '.'
            &&& path[dot - 1] != '/'
            &&& tail == path.skip(dot + 1)
            &&& !tail.contains('.')
            &&& !tail.contains('/')
        },
    decreases path.len(),
{
    if path.len() > 0 && path.last() != '/' && path.last() != '.' {
        let init = path.drop_last();
        extension_ends_the_path(init);
        match extension(init) {
            Some(tail) => {
                let dot = init.len() - tail.len() - 1;
                let grown = tail.push(path.last());
                assert(grown =~= path.skip(dot + 1));
                assert(path[dot] == init[dot]);
                assert(path[dot - 1] == init[dot - 1]);
                if grown.contains('.') {
                    let k = choose|k: int| 0 <= k < grown.len() && grown[k] == '.';
                    assert(tail[k] == '.');
                    assert(tail.contains('.'));
                }
                if grown.contains('/') {
                    let k = choose|k: int| 0 <= k < grown.len() && grown[k] == '/';
                    assert(tail[k] == '/');
                    assert(tail.contains('/'));
                }
            },
            None => {},
        }
    } else if path.len() > 1 && path.last() == '.' && path[path.len() - 2] != '/' {
        assert(Seq::<char>::empty() =~= path.skip(path.len() as int));
    }
}

/// Reads the extension off a path.
pub fn extension_of(path: &str) -> (out: Option<String>)
    ensures
        match out {
            Some(tail) => extension(path@) == Some(tail@),
            None => extension(path@) is None,
        },
{
    let mut tail: Option<String> = None;
    let mut at_start: bool = true;
    assert(path@.take(0) == Seq::<char>::empty());
    for c in it: path.chars()
        invariant
            it.seq() == path@,
            at_start == (it.index() == 0 || path@[it.index() - 1] == '/'),
            match tail {
                Some(tail) => extension(path@.take(it.index())) == Some(tail@),
                None => extension(path@.take(it.index())) is None,
            },
    {
        let ghost read = path@.take(it.index());
        let ghost next = path@.take(it.index() + 1);
        assert(next.drop_last() == read);
        assert(next.last() == c);
        assert(it.index() > 0 ==> next[next.len() - 2] == path@[it.index() - 1]);
        if c == '/' {
            tail = None;
        } else if c == '.' {
            if at_start {
                tail = None;
            } else {
                tail = Some(String::new());
            }
        } else {
            match tail {
                Some(mut grown) => {
                    push_char(&mut grown, c);
                    tail = Some(grown);
                },
                None => {},
            }
        }
        at_start = c == '/';
    }
    assert(path@.take(path@.len() as int) == path@);
    tail
}

} // verus!
