//! The page renderer: wraps a body fragment and a title into a complete HTML
//! document.
//!
//! The document is the concatenation of three fixed skeleton pieces with the
//! title and the body substituted verbatim (no escaping: body and title are
//! trusted, pre-rendered markup).  The contracts pin the output down to the
//! exact character sequence, and the lemmas here state the document-shape
//! guarantees: the title element is unique with the given inner text, and the
//! body region reproduces the body byte-for-byte.

use vstd::prelude::*;

use crate::text::{contains_seq, lemma_match_chars, matches_at};

pub mod index;

verus! {

/// A view that produces an HTML fragment: any concrete page content need only
/// say what fragment string it renders to.
pub trait Fragment {
    /// The fragment this view renders to.
    spec fn spec_fragment(&self) -> Seq<char>;

    /// Render the view to its HTML fragment.
    fn fragment(&self) -> (r: String)
        ensures
            r@ == self.spec_fragment(),
    ;
}

/// Render a view inside the page skeleton under the given title.
pub fn render_view<F: Fragment>(view: &F, title: &str) -> (r: String)
    ensures
        r@ == spec_render(view.spec_fragment(), title@),
{
    let body = view.fragment();
    root_html(body.as_str(), title)
}

/// Skeleton up to and including the opening `<title>` tag.
pub open spec fn spec_before_title() -> Seq<char> {
    "<!DOCTYPE html>\n<html lang=\"en\">\n\n<head>\n  <title>"@
}

/// Skeleton from the closing `</title>` tag up to the body slot.
pub open spec fn spec_between() -> Seq<char> {
    "</title>\n  <meta charset=\"UTF-8\">\n  <meta name=\"viewport\" content=\"width=device-width, initial-scale=1\">\n  <link href=\"/assets/css/style.css\" rel=\"stylesheet\">\n</head>\n\n<body>\n  "@
}

/// Skeleton after the body slot.
pub open spec fn spec_after_body() -> Seq<char> {
    "\n</body>\n\n</html>"@
}

/// The complete document produced for a body fragment and a title.
pub open spec fn spec_render(body: Seq<char>, title: Seq<char>) -> Seq<char> {
    spec_before_title() + title + spec_between() + body + spec_after_body()
}

/// The opening tag of the title element.
pub open spec fn open_title_tag() -> Seq<char> {
    "<title>"@
}

/// The closing tag of the title element.
pub open spec fn close_title_tag() -> Seq<char> {
    "</title>"@
}

/// Wrap `body` and `title` into the fixed HTML skeleton.
///
/// Both strings are embedded verbatim; the result is exactly
/// `spec_render(body, title)`.
pub fn root_html(body: &str, title: &str) -> (r: String)
    ensures
        r@ == spec_render(body@, title@),
{
    let mut out = String::from_str(
        "<!DOCTYPE html>\n<html lang=\"en\">\n\n<head>\n  <title>",
    );
    out.append(title);
    out.append(
        "</title>\n  <meta charset=\"UTF-8\">\n  <meta name=\"viewport\" content=\"width=device-width, initial-scale=1\">\n  <link href=\"/assets/css/style.css\" rel=\"stylesheet\">\n</head>\n\n<body>\n  ",
    );
    out.append(body);
    out.append("\n</body>\n\n</html>");
    out
}

/// Index where the `<title>` tag starts inside the rendered document.
pub open spec fn title_open_at() -> int {
    spec_before_title().len() - open_title_tag().len()
}

/// Index where the title's inner content starts inside the rendered document.
pub open spec fn title_inner_at() -> int {
    spec_before_title().len() as int
}

/// Facts about the leading skeleton piece: it is 50 characters long, it ends
/// with the one `<title>` tag, and every other `<` in it is followed by `!`
/// or `h`, so no other `<title>` can start in it.
proof fn lemma_before_title_facts()
    ensures
        spec_before_title().len() == 50,
        spec_before_title().subrange(43, 50) == open_title_tag(),
        forall|j: int|
            0 <= j < 50 && #[trigger] spec_before_title()[j] == '<' ==> j == 0 || j == 16 || j
                == 34 || j == 43,
        spec_before_title()[1] == '!',
        spec_before_title()[17] == 'h',
        spec_before_title()[35] == 'h',
{
    reveal_strlit("<!DOCTYPE html>\n<html lang=\"en\">\n\n<head>\n  <title>");
    reveal_strlit("<title>");
    assert(spec_before_title().subrange(43, 50) =~= open_title_tag());
}

/// Facts about the middle skeleton piece: it begins with the one `</title>`
/// tag, no `<` in it is immediately followed by `t`, and it ends in a space,
/// so no `<title>` can start inside it or hang over its end.
proof fn lemma_between_facts()
    ensures
        spec_between().len() >= 8,
        spec_between().subrange(0, 8) == close_title_tag(),
        spec_between()[0] == '<',
        forall|j: int|
            0 <= j < spec_between().len() - 1 ==> !(#[trigger] spec_between()[j] == '<'
                && spec_between()[j + 1] == 't'),
        spec_between()[spec_between().len() - 1] != '<',
{
    reveal_strlit(
        "</title>\n  <meta charset=\"UTF-8\">\n  <meta name=\"viewport\" content=\"width=device-width, initial-scale=1\">\n  <link href=\"/assets/css/style.css\" rel=\"stylesheet\">\n</head>\n\n<body>\n  ",
    );
    reveal_strlit("</title>");
    assert(spec_between().subrange(0, 8) =~= close_title_tag());
}

/// Facts about the trailing skeleton piece: it begins with a newline and no
/// `<` in it is immediately followed by `t`.
proof fn lemma_after_body_facts()
    ensures
        spec_after_body().len() == 17,
        spec_after_body()[0] == '\n',
        forall|j: int|
            0 <= j < spec_after_body().len() - 1 ==> !(#[trigger] spec_after_body()[j] == '<'
                && spec_after_body()[j + 1] == 't'),
{
    reveal_strlit("\n</body>\n\n</html>");
}

/// Law: the rendered document contains exactly one `<title>` element, and its
/// inner content — the characters between the one `<title>` tag and the first
/// `</title>` tag after it — is the given title, verbatim and unescaped.
///
/// Titles or bodies that themselves contain a literal `<title>` or `</title>`
/// tag would introduce a second tag into the document, so those are the only
/// inputs left out.
pub proof fn lemma_title_element(body: Seq<char>, title: Seq<char>)
    requires
        !contains_seq(title, open_title_tag()),
        !contains_seq(title, close_title_tag()),
        !contains_seq(body, open_title_tag()),
    ensures
        ({
            let out = spec_render(body, title);
            &&& matches_at(out, open_title_tag(), title_open_at())
            &&& forall|j: int| matches_at(out, open_title_tag(), j) ==> j == title_open_at()
            &&& out.subrange(title_inner_at(), title_inner_at() + title.len()) == title
            &&& matches_at(out, close_title_tag(), title_inner_at() + title.len())
            &&& forall|j: int|
                title_inner_at() <= j < title_inner_at() + title.len() ==> !matches_at(
                    out,
                    close_title_tag(),
                    j,
                )
        }),
{
    lemma_before_title_facts();
    lemma_between_facts();
    lemma_after_body_facts();
    lemma_tag_facts();
    let out = spec_render(body, title);
    let a = spec_before_title();
    let mid = spec_between();
    let tail = spec_after_body();
    let lt = title.len() as int;
    let lm = mid.len() as int;
    let lb = body.len() as int;

    // Region boundaries inside the document.
    let t0 = 50;  // title content
    let m0 = 50 + lt;  // middle skeleton piece
    let b0 = 50 + lt + lm;  // body content
    let c0 = 50 + lt + lm + lb;  // trailing skeleton piece
    assert(out.len() == c0 + 17);
    assert(forall|i: int| 0 <= i < 50 ==> out[i] == a[i]);
    assert(forall|i: int| t0 <= i < m0 ==> out[i] == title[i - t0]);
    assert(forall|i: int| m0 <= i < b0 ==> out[i] == mid[i - m0]);
    assert(forall|i: int| b0 <= i < c0 ==> out[i] == body[i - b0]);
    assert(forall|i: int| c0 <= i < out.len() ==> out[i] == tail[i - c0]);

    // The one opening tag, at the end of the leading skeleton piece.
    assert(out.subrange(43, 50) =~= open_title_tag());
    assert(matches_at(out, open_title_tag(), 43));

    // The title content sits right after it, verbatim.
    assert(out.subrange(t0, t0 + lt) =~= title);

    // The closing tag right after the content.
    assert(out.subrange(m0, m0 + 8) =~= close_title_tag());
    assert(matches_at(out, close_title_tag(), m0));

    // No other occurrence of the opening tag anywhere in the document.
    assert forall|j: int| matches_at(out, open_title_tag(), j) implies j == 43 by {
        lemma_match_chars(out, open_title_tag(), j);
        if j != 43 {
            assert(out[j] == '<');
            assert(out[j + 1] == 't');
            if j + 7 <= 50 {
                // Entirely inside the leading piece: its `<`s sit at known
                // spots, none but 43 followed by `t`.
                assert(a[j] == '<');
                assert(false);
            } else if j < 50 {
                // Hangs over the end of the leading piece: the characters of
                // `title>` are not `<`.
                assert(a[j] == '<');
                assert(false);
            } else if j + 7 <= m0 {
                // Entirely inside the title: the title holds no `<title>`.
                assert(title.subrange(j - t0, j - t0 + 7) =~= open_title_tag());
                assert(matches_at(title, open_title_tag(), j - t0));
                assert(false);
            } else if j < m0 {
                // Starts in the title, reaches the middle piece: the tag
                // character facing the middle piece's leading `<` is not `<`.
                let m = m0 - j;
                assert(out[j + m] == mid[0]);
                assert(open_title_tag()[m] == '<');
                assert(false);
            } else if j < b0 {
                // Starts in the middle piece: no `<` there is followed by
                // `t`, and its last character is a space.
                let p = j - m0;
                assert(mid[p] == '<');
                if p < lm - 1 {
                    assert(mid[p + 1] == 't');
                } else {
                    assert(mid[lm - 1] == '<');
                }
                assert(false);
            } else if j + 7 <= c0 {
                // Entirely inside the body: the body holds no `<title>`.
                assert(body.subrange(j - b0, j - b0 + 7) =~= open_title_tag());
                assert(matches_at(body, open_title_tag(), j - b0));
                assert(false);
            } else if j < c0 {
                // Starts in the body, reaches the trailing piece, whose first
                // character is a newline: no tag character is a newline.
                let m = c0 - j;
                assert(out[j + m] == tail[0]);
                assert(open_title_tag()[m] == '\n');
                assert(false);
            } else {
                // Entirely inside the trailing piece: no `<` there is
                // followed by `t`.
                let p = j - c0;
                assert(tail[p] == '<');
                assert(tail[p + 1] == 't');
                assert(false);
            }
        }
    }

    // No closing tag starts inside the title content, so the one right after
    // the content is the first: the element's inner content is exactly the
    // title.
    assert forall|j: int| t0 <= j < t0 + lt implies !matches_at(out, close_title_tag(), j) by {
        if matches_at(out, close_title_tag(), j) {
            lemma_match_chars(out, close_title_tag(), j);
            if j + 8 <= m0 {
                assert(title.subrange(j - t0, j - t0 + 8) =~= close_title_tag());
                assert(matches_at(title, close_title_tag(), j - t0));
                assert(false);
            } else {
                let m = m0 - j;
                assert(out[j + m] == mid[0]);
                assert(close_title_tag()[m] == '<');
                assert(false);
            }
        }
    }
}

/// Index where the body region starts inside the rendered document, for a
/// title of the given length.
pub open spec fn body_region_at(title_len: int) -> int {
    spec_before_title().len() + title_len + spec_between().len()
}

/// Law: the rendered document is the fixed skeleton with the body dropped in
/// verbatim — the region between the skeleton's head and tail equals the body
/// character for character, and everything around it is the skeleton alone,
/// for every body and title.
pub proof fn lemma_body_region_verbatim(body: Seq<char>, title: Seq<char>)
    ensures
        ({
            let out = spec_render(body, title);
            let bs = body_region_at(title.len() as int);
            &&& out.len() == bs + body.len() + spec_after_body().len()
            &&& out.subrange(bs, bs + body.len()) == body
            &&& out.subrange(0, bs) == spec_before_title() + title + spec_between()
            &&& out.subrange(bs + body.len(), out.len() as int) == spec_after_body()
        }),
{
    let out = spec_render(body, title);
    let bs = body_region_at(title.len() as int);
    assert(out.subrange(bs, bs + body.len()) =~= body);
    assert(out.subrange(0, bs) =~= spec_before_title() + title + spec_between());
    assert(out.subrange(bs + body.len(), out.len() as int) =~= spec_after_body());
}

/// Law: rendering is a pure function — the document is determined by the body
/// and the title alone, so two calls on identical inputs yield identical
/// output.
pub proof fn lemma_render_deterministic(
    body1: Seq<char>,
    title1: Seq<char>,
    body2: Seq<char>,
    title2: Seq<char>,
)
    requires
        body1 == body2,
        title1 == title2,
    ensures
        spec_render(body1, title1) == spec_render(body2, title2),
{
}

/// Character facts about the two title tags themselves: only their first
/// character is `<`, and neither contains a newline.
proof fn lemma_tag_facts()
    ensures
        open_title_tag().len() == 7,
        close_title_tag().len() == 8,
        open_title_tag()[0] == '<',
        open_title_tag()[1] == 't',
        forall|m: int| 1 <= m < 7 ==> #[trigger] open_title_tag()[m] != '<',
        forall|m: int| 1 <= m < 7 ==> #[trigger] open_title_tag()[m] != '\n',
        forall|m: int| 1 <= m < 8 ==> #[trigger] close_title_tag()[m] != '<',
{
    reveal_strlit("<title>");
    reveal_strlit("</title>");
}

} // verus!
