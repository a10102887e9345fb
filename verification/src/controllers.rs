//! Request handlers for the page routes.

use vstd::prelude::*;

use crate::page::index::{spec_index_fragment, IndexView};
use crate::page::{
    body_region_at, close_title_tag, lemma_body_region_verbatim, lemma_title_element,
    open_title_tag, render_view, spec_after_body, spec_before_title, spec_between, spec_render,
    title_inner_at, title_open_at,
};
use crate::text::{contains_seq, lemma_match_chars, matches_at};

verus! {

/// The fixed title every page of this site carries.
pub open spec fn spec_site_title() -> Seq<char> {
    "Lachlan's Blog"@
}

/// The site title as a string slice.
pub fn site_title() -> (r: &'static str)
    ensures
        r@ == spec_site_title(),
{
    "Lachlan's Blog"
}

/// Handle `GET /`: the Index View rendered inside the page skeleton under the
/// site title.
pub fn index() -> (r: String)
    ensures
        r@ == spec_render(spec_index_fragment(), spec_site_title()),
{
    render_view(&IndexView, site_title())
}

/// Law: the home-page document is the fixed skeleton around the Index View's
/// fragment — outside the body region it is exactly the skeleton pieces with
/// the site title, and the body region is the fragment, verbatim.
pub proof fn lemma_home_page_document()
    ensures
        ({
            let out = spec_render(spec_index_fragment(), spec_site_title());
            let bs = body_region_at(spec_site_title().len() as int);
            &&& out.subrange(0, bs) == spec_before_title() + spec_site_title() + spec_between()
            &&& out.subrange(bs, bs + spec_index_fragment().len()) == spec_index_fragment()
            &&& out.subrange(bs + spec_index_fragment().len(), out.len() as int)
                == spec_after_body()
        }),
{
    lemma_body_region_verbatim(spec_index_fragment(), spec_site_title());
}

/// Law: the home-page document holds exactly one `<title>` element, and its
/// text is the site title — the site title and the Index View's fragment hold
/// no title tag of their own, so the general title law applies to them.
pub proof fn lemma_home_page_title()
    ensures
        ({
            let out = spec_render(spec_index_fragment(), spec_site_title());
            &&& matches_at(out, open_title_tag(), title_open_at())
            &&& forall|j: int| matches_at(out, open_title_tag(), j) ==> j == title_open_at()
            &&& out.subrange(title_inner_at(), title_inner_at() + spec_site_title().len())
                == spec_site_title()
        }),
{
    reveal_strlit("Lachlan's Blog");
    reveal_strlit("<article class=\"prose\"><h1>Index</h1><p>Hello</p></article>");
    reveal_strlit("<title>");
    reveal_strlit("</title>");
    let t = spec_site_title();
    let frag = spec_index_fragment();
    if contains_seq(t, open_title_tag()) {
        let j = choose|j: int| matches_at(t, open_title_tag(), j);
        lemma_match_chars(t, open_title_tag(), j);
        assert(open_title_tag()[0] == '<');
        assert(t[j] == '<');
        assert(false);
    }
    if contains_seq(t, close_title_tag()) {
        let j = choose|j: int| matches_at(t, close_title_tag(), j);
        lemma_match_chars(t, close_title_tag(), j);
        assert(close_title_tag()[0] == '<');
        assert(t[j] == '<');
        assert(false);
    }
    if contains_seq(frag, open_title_tag()) {
        let j = choose|j: int| matches_at(frag, open_title_tag(), j);
        lemma_match_chars(frag, open_title_tag(), j);
        assert(open_title_tag()[0] == '<' && open_title_tag()[1] == 't');
        assert(frag[j] == '<' && frag[j + 1] == 't');
        assert(false);
    }
    lemma_title_element(spec_index_fragment(), spec_site_title());
}

} // verus!
