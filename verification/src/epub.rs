//! Pipeline driver: walks the linked chapter sequence one page at a time,
//! renders each found chapter, registers it into the container under a name
//! derived from its sequence index, and finalizes the container when the
//! source signals exhaustion.

use vstd::prelude::*;
use crate::container::ContainerWriter;
use crate::container::new_zip_library;
use crate::container::registered_docs;
use crate::model::Chapter;
use crate::model::FetchError;
use crate::model::NovelMetadata;
use crate::model::NovelSource;
use crate::naming::chapter_resource_name;
use crate::naming::spec_resource_name;
use crate::policy::ReadingDirection;
use crate::policy::policy;
use crate::render::compose_html;
use crate::render::spec_compose_html;

verus! {

/// The two states of the walk: `Walking` holds one live current address to
/// fetch next; `Done` is terminal. There is no retry state and no backward
/// transition.
#[derive(Clone, Copy, PartialEq, Eq, Structural, Debug)]
pub enum PipelineState {
    /// A current chapter address is at hand and will be fetched.
    Walking,
    /// The source signalled exhaustion; nothing more is fetched.
    Done,
}

/// What one transition of the walk does with a fetched page.
pub enum StepOutcome {
    /// The page held a chapter: register the rendered document and keep
    /// walking at the page's next address.
    Register {
        /// Resource name derived from the chapter's sequence index.
        resource_name: String,
        /// Table-of-contents label: the page's title.
        toc_title: String,
        /// The rendered chapter document.
        document: String,
        /// The address to fetch next.
        next_address: String,
    },
    /// The page held no chapter: the walk is over, and nothing is
    /// registered for this fetch.
    Finish,
}

/// The transition function of the walk, pure and total: a found page yields
/// exactly one registration, named after the sequence index, labelled with
/// the page's title, holding the page's fragments rendered under the run's
/// language code; a page with nothing found ends the walk.
pub fn pipeline_step(page: Chapter, index: usize, lang: &str) -> (o: StepOutcome)
    ensures
        page.any_chapter_left ==> (o matches StepOutcome::Register {
            resource_name,
            toc_title,
            document,
            next_address,
        } && resource_name@ == spec_resource_name(index as nat) && toc_title@ == page.title@
            && document@ == spec_compose_html(page.content.deep_view(), page.title@, lang@)
            && next_address@ == page.next_chapter_url@),
        !page.any_chapter_left ==> o is Finish,
{
    if page.any_chapter_left {
        let document = compose_html(&page.content, page.title.as_str(), lang);
        StepOutcome::Register {
            resource_name: chapter_resource_name(index),
            toc_title: page.title,
            document,
            next_address: page.next_chapter_url,
        }
    } else {
        StepOutcome::Finish
    }
}

/// Why a run failed. Every failure aborts the whole run at once: no partial
/// artifact, no retry.
#[derive(Debug)]
pub enum EpubError {
    /// The chapter source reported a transport or parse failure.
    Fetch(FetchError),
    /// The container could not be set up, extended or serialized.
    Container,
    /// The walk fetched more pages than the machine can count (more than
    /// `usize::MAX`); unreachable in any real run, stated only so that the
    /// walk is bounded on this machine.
    ChapterLimit,
}

/// The finished artifact of a successful run.
pub struct EpubArtifact {
    /// The bytes of the packaged EPUB document.
    pub bytes: Vec<u8>,
    /// The registered chapters' internal resource names, in registration
    /// order.
    pub chapter_names: Vec<String>,
    /// The registered chapters' table-of-contents labels, in registration
    /// order.
    pub chapter_titles: Vec<String>,
}

impl EpubArtifact {
    /// The chapters are numbered 0, 1, 2, ... in registration order, with
    /// no gap and no reordering: the document at position `i` is registered
    /// under the decimal numeral of `i` followed by `.html`, and the titles
    /// list one label per document. Distinct positions give distinct
    /// numerals, so no two chapters collide.
    pub open spec fn wf(self) -> bool {
        &&& self.chapter_names@.len() == self.chapter_titles@.len()
        &&& forall|i: int|
            0 <= i < self.chapter_names@.len() ==> (#[trigger] self.chapter_names@[i])@
                == spec_resource_name(i as nat)
    }
}

/// In a finished artifact no two chapter documents share a resource name:
/// the numbering leaves nothing to collide, however many chapters the walk
/// found.
pub proof fn lemma_artifact_names_unique(art: EpubArtifact, i: int, j: int)
    requires
        art.wf(),
        0 <= i < art.chapter_names@.len(),
        0 <= j < art.chapter_names@.len(),
        i != j,
    ensures
        art.chapter_names@[i]@ != art.chapter_names@[j]@,
{
    crate::naming::lemma_resource_names_distinct(i as nat, j as nat);
}

/// The registered documents that `names` and `titles` describe, position by
/// position.
pub open spec fn docs_of(names: Seq<String>, titles: Seq<String>) -> Seq<(Seq<char>, Seq<char>)> {
    Seq::new(names.len(), |i: int| (names[i]@, titles[i]@))
}

/// Runs the whole pipeline: applies the novel's metadata and the language
/// layout policy to a fresh container, walks the chapter sequence from the
/// first address until the source signals exhaustion, registers each
/// rendered chapter in walk order, and serializes the container with an
/// inline table of contents. A fetch failure or a container failure aborts
/// the run: no artifact is handed back. An empty novel (nothing found at
/// the first address) is not an error.
pub fn gen_epub<S: NovelSource>(novel: &S, novel_metadata: NovelMetadata) -> (r: Result<
    EpubArtifact,
    EpubError,
>)
    ensures
        r matches Ok(art) ==> art.wf(),
{
    let NovelMetadata { novel_name, novel_author, novel_language, first_chapter_url } =
        novel_metadata;
    let pol = policy(novel_language.as_str());
    let zip = match new_zip_library() {
        Ok(z) => z,
        Err(_) => {
            return Err(EpubError::Container);
        },
    };
    let mut writer = match ContainerWriter::new(zip) {
        Ok(w) => w,
        Err(_) => {
            return Err(EpubError::Container);
        },
    };
    writer.set_metadata("title", novel_name.as_str()).unwrap();
    writer.set_metadata("author", novel_author.as_str()).unwrap();
    writer.set_metadata("lang", novel_language.as_str()).unwrap();
    writer.set_version_30();
    match writer.set_stylesheet(pol.stylesheet.as_str()) {
        Ok(()) => {},
        Err(_) => {
            return Err(EpubError::Container);
        },
    }
    if pol.direction == ReadingDirection::RightToLeft {
        writer.set_direction_rtl();
    }
    let mut j: usize = 0;
    while j < pol.extra_metadata.len()
        invariant
            registered_docs(writer) == Seq::<(Seq<char>, Seq<char>)>::empty(),
        decreases pol.extra_metadata.len() - j,
    {
        let entry = &pol.extra_metadata[j];
        writer.add_extra_metadata(entry.0.as_str(), entry.1.as_str());
        j = j + 1;
    }
    let mut names: Vec<String> = Vec::new();
    let mut titles: Vec<String> = Vec::new();
    let mut current_url = first_chapter_url;
    let mut state = PipelineState::Walking;
    let mut fuel: usize = usize::MAX;
    while state == PipelineState::Walking
        invariant
            names@.len() == titles@.len(),
            forall|i: int|
                0 <= i < names@.len() ==> (#[trigger] names@[i])@ == spec_resource_name(i as nat),
            registered_docs(writer) == docs_of(names@, titles@),
        decreases fuel,
    {
        if fuel == 0 {
            return Err(EpubError::ChapterLimit);
        }
        fuel = fuel - 1;
        let page = match novel.download_current_chapter(current_url.as_str()) {
            Ok(c) => c,
            Err(e) => {
                return Err(EpubError::Fetch(e));
            },
        };
        match pipeline_step(page, names.len(), novel_language.as_str()) {
            StepOutcome::Register { resource_name, toc_title, document, next_address } => {
                match writer.add_chapter(
                    resource_name.as_str(),
                    toc_title.as_str(),
                    document.as_str(),
                ) {
                    Ok(()) => {},
                    Err(_) => {
                        return Err(EpubError::Container);
                    },
                }
                names.push(resource_name);
                titles.push(toc_title);
                current_url = next_address;
                proof {
                    assert(registered_docs(writer) =~= docs_of(names@, titles@));
                }
            },
            StepOutcome::Finish => {
                state = PipelineState::Done;
            },
        }
    }
    writer.add_inline_toc();
    let bytes = match writer.into_bytes() {
        Ok(b) => b,
        Err(_) => {
            return Err(EpubError::Container);
        },
    };
    Ok(EpubArtifact { bytes, chapter_names: names, chapter_titles: titles })
}

} // verus!
