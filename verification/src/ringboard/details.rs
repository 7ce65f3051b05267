//! Looking at one entry: its revision, its details or a thumbnail of it.
use crate::backend::{BackendErrorKind, BackendResult};
use crate::bytes;
use crate::classification::INSPECTION_LIMIT;
use crate::model::{EntryDetails, EntrySummary};
use crate::ringboard;
use crate::ringboard::content::{
    thumbnail_edge, thumbnail_source, FileProbe, ResolvedContent, ResolvedImage, ThumbnailSource,
    MAX_THUMBNAIL_BYTES,
};
use crate::ringboard::content;
use crate::ringboard::mutation;
use crate::ringboard::mutation::Loaded;
use crate::ringboard::projection::{IdentityBinding, ResolvedEntry};
use crate::ringboard::screenshot::operation_error;
use crate::ringboard::{details_read_limit, entry_details, RingboardBackend, MAX_DETAILS_BYTES};
use crate::text;
use vstd::prelude::*;
use vstd::string::*;
use vstd::utf8::*;

verus! {

/// What is looked at.
#[derive(Debug, Clone, Copy, PartialEq, Eq, Structural)]
pub enum Glance {
    Revision,
    Details { max_text_bytes: usize },
    Thumbnail { edge: u32 },
}

/// What a look waits for.
pub enum GlanceStage {
    /// The entry, read again.
    Loading { binding: IdentityBinding },
    /// Its beginning.
    Heading { summary: EntrySummary },
    /// What is found out about the files that it names.
    Probing { summary: EntrySummary, head: Vec<u8> },
    Over,
}

/// What a look needs next.
pub enum GlanceAction {
    Load { raw_id: u64 },
    /// The beginning of the entry at this place, of at most this many bytes.
    ReadHead { raw_id: u64, limit: usize },
    Probe(Vec<Option<Vec<u8>>>),
    /// Nothing: this is the outcome.
    Done(BackendResult<Seen>),
}

/// What was seen.
pub enum Seen {
    Revision(u64),
    Details(EntryDetails),
    /// The entry, of which a thumbnail with this edge is made from this source.
    Thumbnail { summary: EntrySummary, source: ThumbnailSource, edge: u32 },
}

/// What a look was given.
pub enum GlanceEvent {
    Loaded(Loaded),
    Head(BackendResult<Vec<u8>>),
    Probed(Vec<FileProbe>),
}

/// A look at an entry.
pub struct GlanceJob {
    pub glance: Glance,
    pub id: String,
    pub revision: Option<u64>,
    pub stage: GlanceStage,
}

impl GlanceJob {
    /// The look is the same one, further on.
    pub open spec fn continues(self, before: GlanceJob) -> bool {
        self.glance == before.glance && self.id == before.id && self.revision == before.revision
    }

    fn at(self, stage: GlanceStage) -> (job: GlanceJob)
        ensures
            job.continues(self),
            job.stage == stage,
    {
        GlanceJob { glance: self.glance, id: self.id, revision: self.revision, stage }
    }
}

/// How many bytes are looked at.
pub open spec fn glance_limit(glance: Glance) -> usize {
    match glance {
        Glance::Details { max_text_bytes } => ringboard::details_limit(max_text_bytes),
        _ => INSPECTION_LIMIT,
    }
}

fn shown_limit(glance: Glance) -> (limit: usize)
    ensures
        limit == glance_limit(glance),
{
    match glance {
        Glance::Details { max_text_bytes } => if max_text_bytes <= MAX_DETAILS_BYTES {
            max_text_bytes
        } else {
            MAX_DETAILS_BYTES
        },
        _ => INSPECTION_LIMIT,
    }
}

/// What is done once the entry was selected.
pub open spec fn glance_selected(
    job: GlanceJob,
    raw_id: u64,
    summary: EntrySummary,
    next: GlanceJob,
    action: GlanceAction,
) -> bool {
    match job.glance {
        Glance::Revision => next.stage is Over && action == GlanceAction::Done(
            Ok(Seen::Revision(summary.revision)),
        ),
        Glance::Details { max_text_bytes } => {
            &&& next.stage == (GlanceStage::Heading { summary })
            &&& action == (GlanceAction::ReadHead {
                raw_id,
                limit: (ringboard::details_limit(max_text_bytes) + 1) as usize,
            })
        },
        Glance::Thumbnail { .. } => {
            &&& next.stage == (GlanceStage::Heading { summary })
            &&& action == (GlanceAction::ReadHead { raw_id, limit: INSPECTION_LIMIT })
        },
    }
}

/// What a look shows, once it is known what the content means.
pub open spec fn glance_shows(
    glance: Glance,
    summary: EntrySummary,
    head: Seq<u8>,
    content: ResolvedContent,
    result: BackendResult<Seen>,
) -> bool {
    let shown = bytes::head_of(head, glance_limit(glance));
    match glance {
        Glance::Thumbnail { edge } => match content.image {
            Some(ResolvedImage::LocalFile(image)) if summary.kind is Image => result matches Ok(
                Seen::Thumbnail { summary: of, source: ThumbnailSource::File(path), edge: size },
            ) && of == summary && path@ == image.path@ && size == content::thumbnail_edge_of(edge),
            Some(ResolvedImage::Inline { .. }) if summary.kind is Image && summary.byte_size
                <= MAX_THUMBNAIL_BYTES => result matches Ok(
                Seen::Thumbnail { summary: of, source: ThumbnailSource::Stored, edge: size },
            ) && of == summary && size == content::thumbnail_edge_of(edge),
            _ => result matches Err(error) && error.is(
                BackendErrorKind::InvalidData,
                "Clipboard entry cannot be thumbnailed"@,
            ),
        },
        _ => {
            &&& result matches Ok(Seen::Details(details))
            &&& details.entry == summary
            &&& text::maybe(details.text) == if valid_utf8(shown) {
                Some(decode_utf8(shown))
            } else {
                None
            }
            &&& details.preview_truncated == (head.len() > glance_limit(glance))
            &&& details.files@ == content.files@
            &&& details.image == match content.image {
                Some(ResolvedImage::Inline { dimensions, .. }) => dimensions,
                Some(ResolvedImage::LocalFile(source)) => Some(source.dimensions),
                None => None,
            }
        },
    }
}

/// What `event` makes of a look.
pub open spec fn glance_advanced(
    before: RingboardBackend,
    job: GlanceJob,
    event: GlanceEvent,
    after: RingboardBackend,
    next: GlanceJob,
    action: GlanceAction,
) -> bool {
    &&& next.continues(job)
    &&& match (job.stage, event) {
        (GlanceStage::Loading { binding }, GlanceEvent::Loaded(loaded)) => exists|
            result: BackendResult<ResolvedEntry>,
        | #[trigger]
            mutation::selects(
                before,
                after,
                job.id@,
                job.revision,
                binding,
                loaded,
                result,
            ) && match result {
                Err(error) => next.stage is Over && action == GlanceAction::Done(Err(error)),
                Ok(resolved) => glance_selected(
                    job,
                    binding.raw_id,
                    resolved.summary,
                    next,
                    action,
                ),
            },
        (GlanceStage::Heading { summary }, GlanceEvent::Head(Ok(head))) => {
            &&& mutation::unchanged(before, after)
            &&& next.stage == (GlanceStage::Probing { summary, head })
            &&& action matches GlanceAction::Probe(paths) && mutation::names_paths(
                paths@,
                summary.mime@,
                bytes::head_of(head@, glance_limit(job.glance)),
            )
        },
        (GlanceStage::Heading { .. }, GlanceEvent::Head(Err(error))) => {
            &&& mutation::unchanged(before, after)
            &&& next.stage is Over
            &&& action == GlanceAction::Done(Err(error))
        },
        (GlanceStage::Probing { summary, head }, GlanceEvent::Probed(probes)) => {
            &&& mutation::unchanged(before, after)
            &&& next.stage is Over
            &&& exists|content: ResolvedContent| #[trigger]
                content.resolves(
                    summary.mime@,
                    bytes::head_of(head@, glance_limit(job.glance)),
                    MAX_THUMBNAIL_BYTES,
                    probes@,
                ) && action is Done && glance_shows(
                    job.glance,
                    summary,
                    head@,
                    content,
                    action->Done_0,
                )
        },
        _ => {
            &&& mutation::unchanged(before, after)
            &&& next.stage is Over
            &&& action matches GlanceAction::Done(Err(error)) && error.is(
                BackendErrorKind::OperationFailed,
                "Clipboard operation is out of order"@,
            )
        },
    }
}

impl RingboardBackend {
    /// Begins to look at an entry that was shown.
    pub fn begin_glance(&self, glance: Glance, id: String, revision: Option<u64>) -> (next: (
        GlanceJob,
        GlanceAction,
    ))
        ensures
            next.0.glance == glance,
            next.0.id == id,
            next.0.revision == revision,
            if self.ids@.contains_key(id@) {
                let binding = self.ids@[id@];
                &&& next.0.stage == (GlanceStage::Loading { binding })
                &&& next.1 == (GlanceAction::Load { raw_id: binding.raw_id })
            } else {
                &&& next.0.stage is Over
                &&& next.1 matches GlanceAction::Done(Err(error)) && error.is(
                    BackendErrorKind::NotFound,
                    "Clipboard entry ID is unknown or stale"@,
                )
            },
    {
        match self.resolve(id.as_str()) {
            Ok(binding) => (
                GlanceJob { glance, id, revision, stage: GlanceStage::Loading { binding } },
                GlanceAction::Load { raw_id: binding.raw_id },
            ),
            Err(error) => (
                GlanceJob { glance, id, revision, stage: GlanceStage::Over },
                GlanceAction::Done(Err(error)),
            ),
        }
    }

    /// What a look shows, once it is known what was found out.
    fn glance_seen(
        glance: Glance,
        summary: EntrySummary,
        head: &[u8],
        probes: &[FileProbe],
    ) -> (result: BackendResult<Seen>)
        requires
            !(glance is Revision),
        ensures
            exists|content: ResolvedContent| #[trigger]
                content.resolves(
                    summary.mime@,
                    bytes::head_of(head@, glance_limit(glance)),
                    MAX_THUMBNAIL_BYTES,
                    probes@,
                ) && glance_shows(glance, summary, head@, content, result),
    {
        match glance {
            Glance::Thumbnail { edge } => {
                let shown = bytes::first_bytes(head, INSPECTION_LIMIT);
                let content = ResolvedContent::resolve(
                    summary.mime.as_str(),
                    shown.as_slice(),
                    MAX_THUMBNAIL_BYTES,
                    probes,
                );
                assert(content.resolves(
                    summary.mime@,
                    bytes::head_of(head@, glance_limit(glance)),
                    MAX_THUMBNAIL_BYTES,
                    probes@,
                ));
                let result = match thumbnail_source(&content, summary.kind, summary.byte_size) {
                    Ok(source) => Ok(
                        Seen::Thumbnail { summary, source, edge: thumbnail_edge(edge) },
                    ),
                    Err(error) => Err(error),
                };
                assert(glance_shows(glance, summary, head@, content, result));
                result
            },
            Glance::Details { max_text_bytes } => {
                let details = entry_details(summary, head, max_text_bytes, probes);
                let result = Ok(Seen::Details(details));
                proof {
                    let content = choose|content: ResolvedContent| #[trigger]
                        content.resolves(
                            summary.mime@,
                            bytes::head_of(head@, glance_limit(glance)),
                            MAX_THUMBNAIL_BYTES,
                            probes@,
                        ) && details.files@ == content.files@ && details.image
                            == match content.image {
                            Some(ResolvedImage::Inline { dimensions, .. }) => dimensions,
                            Some(ResolvedImage::LocalFile(source)) => Some(source.dimensions),
                            None => None,
                        };
                    assert(glance_shows(glance, summary, head@, content, result));
                }
                result
            },
            Glance::Revision => Ok(Seen::Revision(summary.revision)),
        }
    }

    /// The entry was read again.
    fn glance_loaded(&mut self, job: GlanceJob, binding: IdentityBinding, loaded: Loaded) -> (next: (
        GlanceJob,
        GlanceAction,
    ))
        ensures
            final(self).artifacts == old(self).artifacts,
            next.0.continues(job),
            exists|result: BackendResult<ResolvedEntry>| #[trigger]
                mutation::selects(
                    *old(self),
                    *final(self),
                    job.id@,
                    job.revision,
                    binding,
                    loaded,
                    result,
                ) && match result {
                    Err(error) => next.0.stage is Over && next.1 == GlanceAction::Done(Err(error)),
                    Ok(resolved) => glance_selected(
                        job,
                        binding.raw_id,
                        resolved.summary,
                        next.0,
                        next.1,
                    ),
                },
    {
        let result = self.select(job.id.as_str(), job.revision, binding, loaded);
        assert(mutation::selects(
            *old(self),
            *self,
            job.id@,
            job.revision,
            binding,
            loaded,
            result,
        ));
        let summary = match result {
            Ok(resolved) => resolved.summary,
            Err(error) => {
                return (job.at(GlanceStage::Over), GlanceAction::Done(Err(error)));
            },
        };
        let raw_id = binding.raw_id;
        match job.glance {
            Glance::Revision => {
                let revision = summary.revision;
                (job.at(GlanceStage::Over), GlanceAction::Done(Ok(Seen::Revision(revision))))
            },
            Glance::Details { max_text_bytes } => {
                let limit = details_read_limit(max_text_bytes);
                (
                    job.at(GlanceStage::Heading { summary }),
                    GlanceAction::ReadHead { raw_id, limit },
                )
            },
            Glance::Thumbnail { .. } => (
                job.at(GlanceStage::Heading { summary }),
                GlanceAction::ReadHead { raw_id, limit: INSPECTION_LIMIT },
            ),
        }
    }

    /// Takes in what a look was given, and says what it needs next.
    pub fn advance_glance(&mut self, job: GlanceJob, event: GlanceEvent) -> (next: (
        GlanceJob,
        GlanceAction,
    ))
        requires
            job.glance is Revision ==> job.stage is Loading || job.stage is Over,
        ensures
            final(self).artifacts == old(self).artifacts,
            next.0.glance is Revision ==> next.0.stage is Over,
            glance_advanced(*old(self), job, event, *final(self), next.0, next.1),
    {
        let GlanceJob { glance, id, revision, stage } = job;
        let job = GlanceJob { glance, id, revision, stage: GlanceStage::Over };
        match (stage, event) {
            (GlanceStage::Loading { binding }, GlanceEvent::Loaded(loaded)) => self.glance_loaded(
                job,
                binding,
                loaded,
            ),
            (GlanceStage::Heading { summary }, GlanceEvent::Head(Ok(head))) => {
                let shown = bytes::first_bytes(head.as_slice(), shown_limit(job.glance));
                let paths = ResolvedContent::paths_to_probe(
                    summary.mime.as_str(),
                    shown.as_slice(),
                );
                (job.at(GlanceStage::Probing { summary, head }), GlanceAction::Probe(paths))
            },
            (GlanceStage::Heading { .. }, GlanceEvent::Head(Err(error))) => (
                job,
                GlanceAction::Done(Err(error)),
            ),
            (GlanceStage::Probing { summary, head }, GlanceEvent::Probed(probes)) => {
                let result = RingboardBackend::glance_seen(
                    job.glance,
                    summary,
                    head.as_slice(),
                    probes.as_slice(),
                );
                (job, GlanceAction::Done(result))
            },
            _ => (
                job,
                GlanceAction::Done(Err(operation_error("Clipboard operation is out of order"))),
            ),
        }
    }
}

} // verus!
