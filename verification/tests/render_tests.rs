use novel_epub::render::compose_html;
use novel_epub::render::gen_content_html;

#[test]
fn content_html_wraps_each_fragment_in_order() {
    let frags = vec!["hello".to_string(), "".to_string(), "world".to_string()];
    let html = gen_content_html(&frags);
    assert_eq!(html, "<p>hello</p><p></p><p>world</p>");
    assert_eq!(html.matches("<p>").count(), frags.len());
    assert_eq!(html.matches("</p>").count(), frags.len());
}

#[test]
fn content_html_of_no_fragments_is_empty() {
    let frags: Vec<String> = Vec::new();
    assert_eq!(gen_content_html(&frags), "");
}

#[test]
fn content_html_keeps_markup_verbatim() {
    let frags = vec!["<b>x</b>".to_string()];
    assert_eq!(gen_content_html(&frags), "<p><b>x</b></p>");
}

#[test]
fn compose_html_exact_document() {
    let frags = vec!["hello".to_string()];
    let doc = compose_html(&frags, "Ch1", "ja");
    let expected = "<?xml version='1.0' encoding='utf-8'?>\n<html xmlns:epub=\"http://www.idpf.org/2007/ops\" xmlns=\"http://www.w3.org/1999/xhtml\" xml:lang=\"ja\" lang=\"ja\">\n    <head>\n        <title>Ch1</title>\n        <link rel=\"stylesheet\" type=\"text/css\" href=\"stylesheet.css\" />\n        <meta http-equiv=\"Content-Type\" content=\"text/html; charset=utf-8\"/>\n    </head>\n    <body>\n        <h2>Ch1</h2>\n        <p>hello</p>\n    \n\t</body>\n</html>";
    assert_eq!(doc, expected);
}

#[test]
fn compose_html_embeds_language_and_stylesheet_reference() {
    let frags = vec!["a".to_string(), "b".to_string()];
    let doc = compose_html(&frags, "Title", "en");
    assert!(doc.contains("xml:lang=\"en\""));
    assert!(doc.contains("lang=\"en\""));
    assert!(doc.contains("href=\"stylesheet.css\""));
    assert!(doc.contains("<h2>Title</h2>"));
    assert!(doc.contains("<p>a</p><p>b</p>"));
    assert_eq!(doc.matches("<p>").count(), 2);
}
