use std::cell::RefCell;

use novel_epub::epub::gen_epub;
use novel_epub::epub::pipeline_step;
use novel_epub::epub::EpubError;
use novel_epub::epub::StepOutcome;
use novel_epub::model::Chapter;
use novel_epub::model::FetchError;
use novel_epub::model::NovelMetadata;
use novel_epub::model::NovelSource;
use novel_epub::render::compose_html;

struct ScriptedSource {
    script: RefCell<Vec<Result<Chapter, FetchError>>>,
    seen_urls: RefCell<Vec<String>>,
}

impl ScriptedSource {
    fn new(script: Vec<Result<Chapter, FetchError>>) -> ScriptedSource {
        ScriptedSource { script: RefCell::new(script), seen_urls: RefCell::new(Vec::new()) }
    }
}

impl NovelSource for ScriptedSource {
    fn download_current_chapter(&self, url: &str) -> Result<Chapter, FetchError> {
        self.seen_urls.borrow_mut().push(url.to_string());
        let mut script = self.script.borrow_mut();
        assert!(!script.is_empty(), "the source was fetched past its script");
        script.remove(0)
    }
}

fn found(title: &str, frags: &[&str], next: &str) -> Result<Chapter, FetchError> {
    Ok(Chapter {
        title: title.to_string(),
        content: frags.iter().map(|f| f.to_string()).collect(),
        next_chapter_url: next.to_string(),
        any_chapter_left: true,
    })
}

fn exhausted() -> Result<Chapter, FetchError> {
    Ok(Chapter {
        title: String::new(),
        content: Vec::new(),
        next_chapter_url: String::new(),
        any_chapter_left: false,
    })
}

fn metadata(lang: &str) -> NovelMetadata {
    NovelMetadata {
        novel_name: "Test".to_string(),
        novel_author: "A".to_string(),
        novel_language: lang.to_string(),
        first_chapter_url: "A0".to_string(),
    }
}

fn contains_bytes(haystack: &[u8], needle: &[u8]) -> bool {
    haystack.windows(needle.len()).any(|w| w == needle)
}

#[test]
fn step_registers_found_chapter() {
    let page = Chapter {
        title: "T".to_string(),
        content: vec!["x".to_string(), "y".to_string()],
        next_chapter_url: "N".to_string(),
        any_chapter_left: true,
    };
    match pipeline_step(page, 5, "en") {
        StepOutcome::Register { resource_name, toc_title, document, next_address } => {
            assert_eq!(resource_name, "5.html");
            assert_eq!(toc_title, "T");
            assert_eq!(next_address, "N");
            let frags = vec!["x".to_string(), "y".to_string()];
            assert_eq!(document, compose_html(&frags, "T", "en"));
        }
        StepOutcome::Finish => panic!("a found chapter must be registered"),
    }
}

#[test]
fn step_finishes_when_nothing_found() {
    let page = Chapter {
        title: "ignored".to_string(),
        content: vec!["ignored".to_string()],
        next_chapter_url: "ignored".to_string(),
        any_chapter_left: false,
    };
    assert!(matches!(pipeline_step(page, 0, "en"), StepOutcome::Finish));
}

#[test]
fn walk_registers_three_chapters_in_order() {
    let source = ScriptedSource::new(vec![
        found("T0", &["a0"], "A1"),
        found("T1", &["b0", "b1"], "A2"),
        found("T2", &["c0"], "A3"),
        exhausted(),
    ]);
    let art = gen_epub(&source, metadata("en")).unwrap();
    assert_eq!(art.chapter_names, ["0.html", "1.html", "2.html"]);
    assert_eq!(art.chapter_titles, ["T0", "T1", "T2"]);
    assert_eq!(*source.seen_urls.borrow(), ["A0", "A1", "A2", "A3"]);
    assert!(art.bytes.starts_with(b"PK"));
    assert!(contains_bytes(&art.bytes, b"OEBPS/0.html"));
    assert!(contains_bytes(&art.bytes, b"OEBPS/1.html"));
    assert!(contains_bytes(&art.bytes, b"OEBPS/2.html"));
    assert!(!contains_bytes(&art.bytes, b"OEBPS/3.html"));
    assert!(contains_bytes(&art.bytes, b"OEBPS/toc.xhtml"));
}

#[test]
fn empty_novel_still_finalizes() {
    let source = ScriptedSource::new(vec![exhausted()]);
    let art = gen_epub(&source, metadata("en")).unwrap();
    assert!(art.chapter_names.is_empty());
    assert!(art.chapter_titles.is_empty());
    assert!(art.bytes.starts_with(b"PK"));
    assert!(!contains_bytes(&art.bytes, b"OEBPS/0.html"));
    assert!(contains_bytes(&art.bytes, b"OEBPS/toc.xhtml"));
    assert_eq!(*source.seen_urls.borrow(), ["A0"]);
}

#[test]
fn fetch_failure_on_second_call_aborts_run() {
    let source = ScriptedSource::new(vec![
        found("T0", &["x"], "A1"),
        Err(FetchError { message: "boom".to_string() }),
    ]);
    match gen_epub(&source, metadata("en")) {
        Err(EpubError::Fetch(e)) => assert_eq!(e.message, "boom"),
        Err(_) => panic!("the failure must be reported as a fetch failure"),
        Ok(_) => panic!("a fetch failure must abort the run with no artifact"),
    }
    assert_eq!(*source.seen_urls.borrow(), ["A0", "A1"]);
}

#[test]
fn japanese_one_chapter_scenario() {
    let source = ScriptedSource::new(vec![found("Ch1", &["hello"], ""), exhausted()]);
    let art = gen_epub(&source, metadata("ja")).unwrap();
    assert_eq!(art.chapter_names, ["0.html"]);
    assert_eq!(art.chapter_titles, ["Ch1"]);
    assert!(art.bytes.starts_with(b"PK"));
    assert!(contains_bytes(&art.bytes, b"OEBPS/0.html"));
    assert!(contains_bytes(&art.bytes, b"OEBPS/stylesheet.css"));
    let frags = vec!["hello".to_string()];
    let doc = compose_html(&frags, "Ch1", "ja");
    assert!(doc.contains("<p>hello</p>"));
    assert_eq!(*source.seen_urls.borrow(), ["A0", ""]);
}
