//! The Index View: the home page's fixed content fragment.
//!
//! The fragment is one `article` element styled with the `prose` class,
//! holding one heading and one paragraph of fixed text.  The lemma here pins
//! that shape down: exactly one element carries the `prose` class and exactly
//! one heading appears, with the text `Index`.

use vstd::prelude::*;

use crate::page::Fragment;
use crate::text::{lemma_match_chars, matches_at};

verus! {

/// The fragment the Index View renders to.
pub open spec fn spec_index_fragment() -> Seq<char> {
    "<article class=\"prose\"><h1>Index</h1><p>Hello</p></article>"@
}

/// Render the home page's content fragment.
#[allow(non_snake_case)]
pub fn Index() -> (r: String)
    ensures
        r@ == spec_index_fragment(),
{
    String::from_str("<article class=\"prose\"><h1>Index</h1><p>Hello</p></article>")
}

/// The Index View as a fragment-producing type.
pub struct IndexView;

impl Fragment for IndexView {
    open spec fn spec_fragment(&self) -> Seq<char> {
        spec_index_fragment()
    }

    fn fragment(&self) -> (r: String) {
        Index()
    }
}

/// Law: the Index View's fragment holds exactly one element styled with the
/// `prose` class — the `article` whose opening tag starts the fragment — and
/// exactly one heading element, whose text is `Index`.
pub proof fn lemma_index_fragment_shape()
    ensures
        ({
            let frag = spec_index_fragment();
            &&& matches_at(frag, "<article class=\"prose\">"@, 0)
            &&& forall|j: int| matches_at(frag, "<article"@, j) ==> j == 0
            &&& forall|j: int| matches_at(frag, "class=\"prose\""@, j) ==> j == 9
            &&& matches_at(frag, "<h1>Index</h1>"@, 23)
            &&& forall|j: int| matches_at(frag, "<h"@, j) ==> j == 23
        }),
{
    reveal_strlit("<article class=\"prose\"><h1>Index</h1><p>Hello</p></article>");
    reveal_strlit("<article class=\"prose\">");
    reveal_strlit("<article");
    reveal_strlit("class=\"prose\"");
    reveal_strlit("<h1>Index</h1>");
    reveal_strlit("<h");
    let frag = spec_index_fragment();
    assert(frag.subrange(0, 23) =~= "<article class=\"prose\">"@);
    assert(frag.subrange(23, 37) =~= "<h1>Index</h1>"@);
    assert forall|j: int| matches_at(frag, "<article"@, j) implies j == 0 by {
        lemma_match_chars(frag, "<article"@, j);
        if j != 0 {
            assert("<article"@[0] == '<' && "<article"@[1] == 'a');
            assert(frag[j] == '<' && frag[j + 1] == 'a');
            assert(false);
        }
    }
    assert forall|j: int| matches_at(frag, "class=\"prose\""@, j) implies j == 9 by {
        lemma_match_chars(frag, "class=\"prose\""@, j);
        if j != 9 {
            assert("class=\"prose\""@[0] == 'c' && "class=\"prose\""@[1] == 'l'
                && "class=\"prose\""@[2] == 'a');
            assert(frag[j] == 'c' && frag[j + 1] == 'l' && frag[j + 2] == 'a');
            assert(false);
        }
    }
    assert forall|j: int| matches_at(frag, "<h"@, j) implies j == 23 by {
        lemma_match_chars(frag, "<h"@, j);
        if j != 23 {
            assert("<h"@[0] == '<' && "<h"@[1] == 'h');
            assert(frag[j] == '<' && frag[j + 1] == 'h');
            assert(false);
        }
    }
}

} // verus!
