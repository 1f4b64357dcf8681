//! Data model of the pipeline: the novel's metadata, one fetched chapter
//! page, and the chapter source that resolves a chapter's address.

use vstd::prelude::*;

verus! {

/// The novel's front matter, loaded once before the walk starts.
pub struct NovelMetadata {
    /// Title of the novel.
    pub novel_name: String,
    /// Author of the novel.
    pub novel_author: String,
    /// Language code of the novel, driving the layout policy.
    pub novel_language: String,
    /// Address of the first chapter page.
    pub first_chapter_url: String,
}

/// One chapter page as the chapter source hands it back. When
/// `any_chapter_left` is false the walk is over and the other fields carry
/// no meaning.
pub struct Chapter {
    /// The chapter's title.
    pub title: String,
    /// The chapter's content fragments, each an independent block of markup,
    /// in reading order.
    pub content: Vec<String>,
    /// The address of the next chapter page.
    pub next_chapter_url: String,
    /// Whether a chapter was actually found at the fetched address.
    pub any_chapter_left: bool,
}

/// A transport or parse failure reported by a chapter source. Such a
/// failure aborts the whole run; exhaustion is never signalled this way but
/// through `Chapter::any_chapter_left`.
#[derive(Debug)]
pub struct FetchError {
    /// What went wrong, as the source reports it.
    pub message: String,
}

/// A source of chapter pages: resolves one chapter's content and the
/// address of the next chapter from a given address.
pub trait NovelSource {
    /// Fetches the chapter page at `url`. An `Err` means a transport or
    /// parse failure; "no more chapters" is reported with a page whose
    /// `any_chapter_left` is false, never as an error.
    fn download_current_chapter(&self, url: &str) -> Result<Chapter, FetchError>;
}

} // verus!
