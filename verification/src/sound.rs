//! Sound paths given on the command line or as aliases: where a path leans
//! on the home directory.

use crate::text::{starts_with, to_chars};
use vstd::prelude::*;
use vstd::string::StrSliceExecFns;

verus! {

/// How a path relates to the home directory.
#[derive(Clone, Debug, PartialEq, Eq)]
pub enum TildePath {
    /// The path is `~`: the home directory itself.
    Home,
    /// The path begins with `~/`: `rest`, what follows, is to be appended
    /// to the home directory.
    InHome { rest: String },
    /// The path does not lean on the home directory.
    Plain,
}

/// The mathematical content of a [`TildePath`].
pub enum TildePathView {
    Home,
    InHome { rest: Seq<char> },
    Plain,
}

impl View for TildePath {
    type V = TildePathView;

    open spec fn view(&self) -> TildePathView {
        match self {
            TildePath::Home => TildePathView::Home,
            TildePath::InHome { rest } => TildePathView::InHome { rest: rest@ },
            TildePath::Plain => TildePathView::Plain,
        }
    }
}

/// How a path relates to the home directory.
pub open spec fn tilde_form(path: Seq<char>) -> TildePathView {
    if path == seq!['~'] {
        TildePathView::Home
    } else if starts_with(path, seq!['~', '/']) {
        TildePathView::InHome { rest: path.skip(2) }
    } else {
        TildePathView::Plain
    }
}

/// Tells how a path relates to the home directory.
pub fn expand_tilde(path: &str) -> (form: TildePath)
    ensures
        form@ == tilde_form(path@),
{
    let chars = to_chars(path);
    let text = chars.as_slice();
    let len = text.len();
    if len == 1 && text[0] == '~' {
        assert(path@ =~= seq!['~']);
        TildePath::Home
    } else if len >= 2 && text[0] == '~' && text[1] == '/' {
        assert(path@.subrange(0, 2) =~= seq!['~', '/']);
        assert(path@.subrange(2, len as int) =~= path@.skip(2));
        TildePath::InHome { rest: path.substring_char(2, len).to_owned() }
    } else {
        assert(!starts_with(path@, seq!['~', '/'])) by {
            if starts_with(path@, seq!['~', '/']) {
                let head = path@.subrange(0, 2);
                assert(head[0] == '~' && head[1] == '/');
            }
        }
        TildePath::Plain
    }
}

} // verus!
