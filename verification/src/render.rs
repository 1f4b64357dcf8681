//! Content renderer: turns a chapter's raw fragments, title and language
//! code into one self-contained XHTML document.

use vstd::prelude::*;

verus! {

/// One fragment wrapped as its own paragraph block.
pub open spec fn spec_paragraph(frag: Seq<char>) -> Seq<char> {
    "<p>"@ + frag + "</p>"@
}

/// The body content: every fragment wrapped individually as a paragraph
/// block, in fragment order, concatenated with nothing in between.
pub open spec fn spec_content_html(frags: Seq<Seq<char>>) -> Seq<char>
    decreases frags.len(),
{
    if frags.len() == 0 {
        Seq::empty()
    } else {
        spec_content_html(frags.drop_last()) + spec_paragraph(frags.last())
    }
}

/// The rendered content holds exactly one paragraph block per fragment, in
/// fragment order, with no separators besides the wrapping markup itself,
/// whatever the fragments hold (empty fragments included): rendering no
/// fragments gives the empty text, and rendering one more fragment appends
/// exactly that fragment's paragraph block.
pub proof fn lemma_content_html_blocks(frags: Seq<Seq<char>>, frag: Seq<char>)
    ensures
        spec_content_html(Seq::<Seq<char>>::empty()) == Seq::<char>::empty(),
        spec_content_html(frags.push(frag)) == spec_content_html(frags) + spec_paragraph(frag),
{
    let pushed = frags.push(frag);
    assert(pushed.drop_last() =~= frags);
    assert(pushed.last() == frag);
}

/// The paragraph blocks for a sequence of fragments.
pub fn gen_content_html(html_input: &Vec<String>) -> (r: String)
    ensures
        r@ == spec_content_html(html_input.deep_view()),
{
    let ghost frags = html_input.deep_view();
    let mut r = String::new();
    let mut i: usize = 0;
    while i < html_input.len()
        invariant
            i <= html_input.len(),
            frags == html_input.deep_view(),
            frags.len() == html_input@.len(),
            r@ == spec_content_html(frags.take(i as int)),
        decreases html_input.len() - i,
    {
        r.append("<p>");
        r.append(html_input[i].as_str());
        r.append("</p>");
        i = i + 1;
        proof {
            assert(frags[i - 1] == html_input@[i - 1]@);
            assert(frags.take(i as int).drop_last() =~= frags.take(i - 1));
            assert(frags.take(i as int).last() == frags[i - 1]);
        }
    }
    proof {
        assert(frags.take(html_input@.len() as int) =~= frags);
    }
    r
}

/// The whole chapter document: a fixed declaration header; a head section
/// carrying the language code as both the document-language and the inline
/// language attribute, the chapter title, and a reference to the shared
/// `stylesheet.css` resource; and a body holding the title as a heading
/// followed by the paragraph blocks of the fragments.
pub open spec fn spec_compose_html(frags: Seq<Seq<char>>, title: Seq<char>, lang: Seq<char>) -> Seq<
    char,
> {
    "<?xml version='1.0' encoding='utf-8'?>\n<html xmlns:epub=\"http://www.idpf.org/2007/ops\" xmlns=\"http://www.w3.org/1999/xhtml\" xml:lang=\""@
        + lang + "\" lang=\""@ + lang + "\">\n    <head>\n        <title>"@ + title
        + "</title>\n        <link rel=\"stylesheet\" type=\"text/css\" href=\"stylesheet.css\" />\n        <meta http-equiv=\"Content-Type\" content=\"text/html; charset=utf-8\"/>\n    </head>\n    <body>\n        <h2>"@
        + title + "</h2>\n        "@ + spec_content_html(frags) + "\n    \n\t</body>\n</html>"@
}

/// Renders one chapter document from its fragments, its title and the run's
/// language code. Pure and total; the title and the fragments are taken
/// verbatim, with no escaping beyond what they already carry.
pub fn compose_html(html_input: &Vec<String>, title: &str, lang: &str) -> (r: String)
    ensures
        r@ == spec_compose_html(html_input.deep_view(), title@, lang@),
{
    let mut r =
        "<?xml version='1.0' encoding='utf-8'?>\n<html xmlns:epub=\"http://www.idpf.org/2007/ops\" xmlns=\"http://www.w3.org/1999/xhtml\" xml:lang=\"".to_owned();
    r.append(lang);
    r.append("\" lang=\"");
    r.append(lang);
    r.append("\">\n    <head>\n        <title>");
    r.append(title);
    r.append(
        "</title>\n        <link rel=\"stylesheet\" type=\"text/css\" href=\"stylesheet.css\" />\n        <meta http-equiv=\"Content-Type\" content=\"text/html; charset=utf-8\"/>\n    </head>\n    <body>\n        <h2>",
    );
    r.append(title);
    r.append("</h2>\n        ");
    let content = gen_content_html(html_input);
    r.append(content.as_str());
    r.append("\n    \n\t</body>\n</html>");
    r
}

} // verus!
