//! Container writer: the in-progress EPUB package. The container itself is
//! built and serialized by the `epub_builder` crate; this module holds the
//! trusted boundary around it. The contracts speak of `registered_docs`,
//! the sequence of linear text documents (resource name and
//! table-of-contents label) registered so far, in registration order.

use vstd::prelude::*;

verus! {

/// What the container holds of the reading order: for every registered
/// linear text document, its internal resource name and its
/// table-of-contents label, in registration order.
pub uninterp spec fn registered_docs(w: ContainerWriter) -> Seq<(Seq<char>, Seq<char>)>;

/// The in-progress EPUB container, exclusively owned by one pipeline run.
/// It accumulates metadata, one stylesheet, one reading direction, extra
/// metadata entries and the ordered registered documents, and is finalized
/// exactly once into a byte stream.
#[verifier::external_body]
pub struct ContainerWriter {
    inner: epub_builder::EpubBuilder<epub_builder::ZipLibrary>,
}

#[verifier::external_type_specification]
#[verifier::external_body]
pub struct ExEpubError(epub_builder::Error);

#[verifier::external_type_specification]
#[verifier::external_body]
pub struct ExZipLibrary(epub_builder::ZipLibrary);

/// Relies on epub_builder::ZipLibrary::new: opens the in-memory zip archive
/// that backs one container.
#[verifier::external_body]
pub fn new_zip_library() -> (r: Result<epub_builder::ZipLibrary, epub_builder::Error>) {
    epub_builder::ZipLibrary::new()
}

impl ContainerWriter {
    /// Relies on epub_builder::EpubBuilder::new: a fresh builder starts with
    /// no content file, so no linear text document is registered yet.
    #[verifier::external_body]
    pub fn new(zip: epub_builder::ZipLibrary) -> (r: Result<
        ContainerWriter,
        epub_builder::Error,
    >)
        ensures
            r matches Ok(w) ==> registered_docs(w) == Seq::<(Seq<char>, Seq<char>)>::empty(),
    {
        match epub_builder::EpubBuilder::new(zip) {
            Ok(inner) => Ok(ContainerWriter { inner }),
            Err(e) => Err(e),
        }
    }

    /// Relies on epub_builder::EpubBuilder::metadata: it only stores the
    /// key's value, never touching the content files, and the keys `title`,
    /// `author` and `lang` are always accepted.
    #[verifier::external_body]
    pub fn set_metadata(&mut self, key: &str, value: &str) -> (r: Result<(), epub_builder::Error>)
        ensures
            registered_docs(*final(self)) == registered_docs(*old(self)),
            (key@ == "title"@ || key@ == "author"@ || key@ == "lang"@) ==> r is Ok,
    {
        match self.inner.metadata(key, value) {
            Ok(_) => Ok(()),
            Err(e) => Err(e),
        }
    }

    /// Relies on epub_builder::EpubBuilder::epub_version: it only sets the
    /// container's format version.
    #[verifier::external_body]
    pub fn set_version_30(&mut self)
        ensures
            registered_docs(*final(self)) == registered_docs(*old(self)),
    {
        self.inner.epub_version(epub_builder::EpubVersion::V30);
    }

    /// Relies on epub_builder::EpubBuilder::epub_direction: it only sets the
    /// container-level page-progression direction.
    #[verifier::external_body]
    pub fn set_direction_rtl(&mut self)
        ensures
            registered_docs(*final(self)) == registered_docs(*old(self)),
    {
        self.inner.epub_direction(epub_builder::PageDirection::Rtl);
    }

    /// Relies on epub_builder::EpubBuilder::add_metadata_opf: it only pushes
    /// the `<meta>` entry with the given name and content.
    #[verifier::external_body]
    pub fn add_extra_metadata(&mut self, name: &str, content: &str)
        ensures
            registered_docs(*final(self)) == registered_docs(*old(self)),
    {
        self.inner.add_metadata_opf(Box::new(epub_builder::MetadataOpf {
            name: name.to_string(),
            content: content.to_string(),
        }));
    }

    /// Relies on epub_builder::EpubBuilder::stylesheet: it stores the text
    /// as the shared `stylesheet.css` resource, which is not a linear text
    /// document, whether it succeeds or fails.
    #[verifier::external_body]
    pub fn set_stylesheet(&mut self, css: &str) -> (r: Result<(), epub_builder::Error>)
        ensures
            registered_docs(*final(self)) == registered_docs(*old(self)),
    {
        match self.inner.stylesheet(css.as_bytes()) {
            Ok(_) => Ok(()),
            Err(e) => Err(e),
        }
    }

    /// Relies on epub_builder::EpubBuilder::add_content: on success it
    /// appends exactly one linear text document, under `href` and labelled
    /// `title`; on failure it appends nothing.
    #[verifier::external_body]
    pub fn add_chapter(&mut self, href: &str, title: &str, document: &str) -> (r: Result<
        (),
        epub_builder::Error,
    >)
        ensures
            r is Ok ==> registered_docs(*final(self)) == registered_docs(*old(self)).push(
                (href@, title@),
            ),
            r is Err ==> registered_docs(*final(self)) == registered_docs(*old(self)),
    {
        let content = epub_builder::EpubContent::new(href, document.as_bytes()).title(
            title,
        ).reftype(epub_builder::ReferenceType::Text);
        match self.inner.add_content(content) {
            Ok(_) => Ok(()),
            Err(e) => Err(e),
        }
    }

    /// Relies on epub_builder::EpubBuilder::inline_toc: it registers the
    /// table-of-contents page, which is not a linear text document, to be
    /// built from the registered documents in registration order.
    #[verifier::external_body]
    pub fn add_inline_toc(&mut self)
        ensures
            registered_docs(*final(self)) == registered_docs(*old(self)),
    {
        self.inner.inline_toc();
    }

    /// Relies on epub_builder::EpubBuilder::generate: it serializes the
    /// finished container into the byte stream of the packaged artifact.
    #[verifier::external_body]
    pub fn into_bytes(self) -> (r: Result<Vec<u8>, epub_builder::Error>) {
        let mut out: Vec<u8> = Vec::new();
        match self.inner.generate(&mut out) {
            Ok(()) => Ok(out),
            Err(e) => Err(e),
        }
    }
}

} // verus!
