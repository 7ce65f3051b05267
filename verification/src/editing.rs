//! Edits of text entries: one is begun with the text as it is, and committed
//! once.
use crate::lease;
use crate::lease::{deadline, Leases, Taken};
use crate::model::{fresh_id, EntryDetails, EntryKind};
use crate::text;
use vstd::prelude::*;
use vstd::string::*;
use vstd::utf8::*;

verus! {

/// The longest text that can be edited, in bytes.
pub const MAX_EDIT_BYTES: usize = 262_144;

/// How long an edit stays open, in milliseconds.
pub const EDIT_TTL: u64 = 60_000;

/// What an edit makes of an entry.
#[derive(Debug, PartialEq, Eq)]
pub struct EditCommit {
    pub entry_id: String,
    pub revision: u64,
    pub mime: String,
    pub value: String,
}

/// An edit as its user sees it.
#[derive(Debug, PartialEq, Eq)]
pub struct EditView {
    pub id: String,
    pub entry_id: String,
    pub revision: u64,
    pub mime: String,
    pub value: String,
    pub max_bytes: usize,
    pub expires_in_ms: u64,
}

/// The edits that are open.
pub struct EditManager {
    pub leases: Leases<EditCommit>,
}

/// Entries of this kind are text.
pub open spec fn text_like(kind: EntryKind) -> bool {
    kind is Text || kind is Link || kind is Html || kind is Json || kind is Color
}

/// Why an entry cannot be edited, where it cannot.
pub open spec fn edit_refusal(details: EntryDetails) -> Option<Seq<char>> {
    if !text_like(details.entry.kind) || details.preview_truncated {
        Some("Clipboard entry is not safely editable"@)
    } else {
        match details.text {
            None => Some("Clipboard entry is not valid UTF-8 text"@),
            Some(value) => if encode_utf8(value@).len() > MAX_EDIT_BYTES {
                Some("Clipboard entry exceeds the editable text limit"@)
            } else {
                None
            },
        }
    }
}

/// Whether entries of this kind are text.
pub fn editable(kind: EntryKind) -> (result: bool)
    ensures
        result == text_like(kind),
{
    matches!(
        kind,
        EntryKind::Text | EntryKind::Link | EntryKind::Html | EntryKind::Json | EntryKind::Color
    )
}

/// The text of an entry that can be edited, or why it cannot.
pub fn editable_value(details: &EntryDetails) -> (value: Result<String, &'static str>)
    ensures
        match value {
            Ok(value) => edit_refusal(*details) is None && details.text == Some(value),
            Err(message) => edit_refusal(*details) == Some(message@),
        },
{
    if !editable(details.entry.kind) || details.preview_truncated {
        return Err("Clipboard entry is not safely editable");
    }
    let value = match &details.text {
        Some(value) => value,
        None => {
            return Err("Clipboard entry is not valid UTF-8 text");
        },
    };
    if value.as_str().as_bytes().len() > MAX_EDIT_BYTES {
        return Err("Clipboard entry exceeds the editable text limit");
    }
    Ok(value.clone())
}

impl EditManager {
    pub open spec fn wf(self) -> bool {
        self.leases.wf()
    }

    pub fn new() -> (manager: Self)
        ensures
            manager.wf(),
            manager.leases.list@.len() == 0,
    {
        EditManager { leases: Leases::new() }
    }

    /// Opens an edit of an entry under an identifier that is given.
    pub fn begin_as(&mut self, id: String, details: &EntryDetails, now: u64) -> (view: Result<
        EditView,
        &'static str,
    >)
        requires
            old(self).wf(),
        ensures
            final(self).wf(),
            match view {
                Ok(view) => {
                    &&& edit_refusal(*details) is None
                    &&& shows(view, id@, *details)
                    &&& opened(*old(self), *final(self), id@, *details, now)
                },
                Err(message) => edit_refusal(*details) == Some(message@) && *final(self) == *old(
                    self,
                ),
            },
    {
        let value = match editable_value(details) {
            Ok(value) => value,
            Err(message) => {
                return Err(message);
            },
        };
        let commit = EditCommit {
            entry_id: details.entry.id.clone(),
            revision: details.entry.revision,
            mime: details.entry.mime.clone(),
            value: value.clone(),
        };
        let view = EditView {
            id: id.clone(),
            entry_id: details.entry.id.clone(),
            revision: details.entry.revision,
            mime: details.entry.mime.clone(),
            value,
            max_bytes: MAX_EDIT_BYTES,
            expires_in_ms: EDIT_TTL,
        };
        self.leases.issue(id, commit, deadline(now, EDIT_TTL));
        assert(self.leases.list@.drop_last() =~= old(self).leases.without(id@));
        Ok(view)
    }

    /// Opens an edit of an entry.
    pub fn begin(&mut self, details: &EntryDetails, now: u64) -> (view: Result<
        EditView,
        &'static str,
    >)
        requires
            old(self).wf(),
        ensures
            final(self).wf(),
            match view {
                Ok(view) => {
                    &&& edit_refusal(*details) is None
                    &&& text::begins(view.id@, "edit-"@)
                    &&& shows(view, view.id@, *details)
                    &&& opened(*old(self), *final(self), view.id@, *details, now)
                },
                Err(message) => edit_refusal(*details) == Some(message@) && *final(self) == *old(
                    self,
                ),
            },
    {
        let fresh = fresh_id();
        let id = text::join("edit-", fresh.as_str());
        assert(id@.take("edit-"@.len() as int) =~= "edit-"@);
        self.begin_as(id, details, now)
    }

    /// Closes an edit, with the new text. It is closed even where the text is
    /// refused.
    pub fn commit(&mut self, id: &str, value: String, now: u64) -> (commit: Result<
        EditCommit,
        &'static str,
    >)
        requires
            old(self).wf(),
        ensures
            final(self).wf(),
            final(self).leases.list@ == old(self).leases.without(id@),
            lease::place(final(self).leases.list@, id@) == final(self).leases.list@.len(),
            ({
                let list = old(self).leases.list@;
                let at = lease::place(list, id@);
                if at == list.len() {
                    commit matches Err(message) && message@
                        == "Edit session is unknown or already used"@
                } else if list[at].expires <= now {
                    commit matches Err(message) && message@ == "Edit session expired"@
                } else if encode_utf8(value@).len() > MAX_EDIT_BYTES {
                    commit matches Err(message) && message@
                        == "Edited text exceeds the configured limit"@
                } else {
                    commit == Ok::<EditCommit, &'static str>(EditCommit { value, ..list[at].value })
                }
            }),
    {
        let commit = match self.leases.take(id, now) {
            Taken::Granted(commit) => commit,
            Taken::Expired => {
                return Err("Edit session expired");
            },
            Taken::Unknown => {
                return Err("Edit session is unknown or already used");
            },
        };
        if value.as_str().as_bytes().len() > MAX_EDIT_BYTES {
            return Err("Edited text exceeds the configured limit");
        }
        Ok(
            EditCommit {
                entry_id: commit.entry_id,
                revision: commit.revision,
                mime: commit.mime,
                value,
            },
        )
    }

    /// Closes an edit without a change; whether there was one.
    pub fn cancel(&mut self, id: &str) -> (cancelled: bool)
        requires
            old(self).wf(),
        ensures
            final(self).wf(),
            final(self).leases.list@ == old(self).leases.without(id@),
            lease::place(final(self).leases.list@, id@) == final(self).leases.list@.len(),
            cancelled == (lease::place(old(self).leases.list@, id@)
                < old(self).leases.list@.len()),
    {
        self.leases.cancel(id)
    }

    /// Forgets the edits that have expired.
    pub fn expire(&mut self, now: u64)
        requires
            old(self).wf(),
        ensures
            final(self).wf(),
            final(self).leases.list@ == lease::lasting(old(self).leases.list@, now),
    {
        self.leases.expire(now);
    }

    /// Closes every edit.
    pub fn clear(&mut self)
        ensures
            final(self).wf(),
            final(self).leases.list@.len() == 0,
    {
        self.leases.clear();
    }
}

/// `view` shows an edit under `id` of this entry.
pub open spec fn shows(view: EditView, id: Seq<char>, details: EntryDetails) -> bool {
    &&& view.id@ == id
    &&& view.entry_id == details.entry.id
    &&& view.revision == details.entry.revision
    &&& view.mime == details.entry.mime
    &&& details.text == Some(view.value)
    &&& view.max_bytes == MAX_EDIT_BYTES
    &&& view.expires_in_ms == EDIT_TTL
}

/// `after` differs from `before` in an edit that was opened under `id`.
pub open spec fn opened(
    before: EditManager,
    after: EditManager,
    id: Seq<char>,
    details: EntryDetails,
    now: u64,
) -> bool {
    let list = after.leases.list@;
    &&& list.len() > 0
    &&& list.drop_last() == before.leases.without(id)
    &&& list.last().id@ == id
    &&& list.last().expires == lease::after(now, EDIT_TTL)
    &&& list.last().value.entry_id == details.entry.id
    &&& list.last().value.revision == details.entry.revision
    &&& list.last().value.mime == details.entry.mime
    &&& details.text == Some(list.last().value.value)
    &&& lease::place(list, id) == list.len() - 1
}

/// An edit that was opened can be committed while it lasts: the commit is of
/// the same state of the same entry.
pub proof fn edits_commit_to_what_was_opened(
    before: EditManager,
    opened_now: EditManager,
    id: Seq<char>,
    details: EntryDetails,
    now: u64,
)
    requires
        opened(before, opened_now, id, details, now),
        now <= u64::MAX - EDIT_TTL,
    ensures
        ({
            let list = opened_now.leases.list@;
            let lease = list[lease::place(list, id)];
            &&& lease.value.entry_id == details.entry.id
            &&& lease.value.revision == details.entry.revision
            &&& lease.expires == now + EDIT_TTL
        }),
{
}

} // verus!
