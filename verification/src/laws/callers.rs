//! What a caller's request leads to, step by step.
use crate::actions::{ActionParams, ApiError, EntryParams, QueryParams};
use crate::api;
use crate::api::{ApiAction, ApiEvent, ApiService, Data, Method, Pending, Request, StoreCall};
use crate::backend::{BackendMutation, BackendResult};
use crate::editing::EditCommit;
use crate::lease;
use crate::model::{EntryDetails, EntryThumbnail, HistoryPage, OperationResult, ReplacementResult};
use crate::session;
use crate::settings;
use crate::text;
use vstd::prelude::*;
use vstd::string::*;
use vstd::utf8::*;

verus! {

/// Each method is found under its name.
pub proof fn methods_have_their_names(name: &str, method: Result<Method, ApiError>)
    requires
        call_ensures(api::route, (name,), method),
    ensures
        name@ == "clipboard.session.begin"@ ==> method == Ok::<Method, ApiError>(Method::SessionBegin),
        name@ == "clipboard.session.end"@ ==> method == Ok::<Method, ApiError>(Method::SessionEnd),
        name@ == "clipboard.session.hidden"@ ==> method == Ok::<Method, ApiError>(Method::SessionHidden),
        name@ == "clipboard.history.query"@ ==> method == Ok::<Method, ApiError>(Method::Query),
        name@ == "clipboard.entry.details"@ ==> method == Ok::<Method, ApiError>(Method::Details),
        name@ == "clipboard.entry.thumbnail"@ ==> method == Ok::<Method, ApiError>(Method::Thumbnail),
        name@ == "clipboard.entry.action"@ ==> method == Ok::<Method, ApiError>(Method::Action),
        name@ == "clipboard.entry.edit.begin"@ ==> method == Ok::<Method, ApiError>(Method::EditBegin),
        name@ == "clipboard.entry.edit.commit"@ ==> method == Ok::<Method, ApiError>(Method::EditCommit),
        name@ == "clipboard.entry.edit.cancel"@ ==> method == Ok::<Method, ApiError>(Method::EditCancel),
        name@ == "clipboard.entries.delete"@ ==> method == Ok::<Method, ApiError>(Method::Delete),
        name@ == "clipboard.selection.publishText"@ ==> method == Ok::<Method, ApiError>(Method::PublishText),
        name@ == "clipboard.selection.publishFiles"@ ==> method == Ok::<Method, ApiError>(Method::PublishFiles),
        name@ == "clipboard.capture.setPaused"@ ==> method == Ok::<Method, ApiError>(Method::SetPaused),
        name@ == "clipboard.capture.screenshot"@ ==> method == Ok::<Method, ApiError>(Method::Screenshot),
        name@ == "clipboard.capture.interactive"@ ==> method == Ok::<Method, ApiError>(Method::Interactive),
        name@ == "clipboard.settings.get"@ ==> method == Ok::<Method, ApiError>(Method::SettingsGet),
        name@ == "clipboard.settings.update"@ ==> method == Ok::<Method, ApiError>(Method::SettingsUpdate),
        name@ == "clipboard.history.wipe.prepare"@ ==> method == Ok::<Method, ApiError>(Method::WipePrepare),
        name@ == "clipboard.history.wipe.commit"@ ==> method == Ok::<Method, ApiError>(Method::WipeCommit),
        method matches Err(error) ==> error.code@ == "unsupported-method"@ && !error.retryable,
{
    reveal_strlit("clipboard.session.begin");
    assert("clipboard.session.begin"@.len() == 23);
    reveal_strlit("clipboard.session.end");
    assert("clipboard.session.end"@.len() == 21);
    reveal_strlit("clipboard.session.hidden");
    assert("clipboard.session.hidden"@.len() == 24);
    reveal_strlit("clipboard.history.query");
    assert("clipboard.history.query"@.len() == 23);
    reveal_strlit("clipboard.entry.details");
    assert("clipboard.entry.details"@.len() == 23);
    reveal_strlit("clipboard.entry.thumbnail");
    assert("clipboard.entry.thumbnail"@.len() == 25);
    reveal_strlit("clipboard.entry.action");
    assert("clipboard.entry.action"@.len() == 22);
    reveal_strlit("clipboard.entry.edit.begin");
    assert("clipboard.entry.edit.begin"@.len() == 26);
    reveal_strlit("clipboard.entry.edit.commit");
    assert("clipboard.entry.edit.commit"@.len() == 27);
    reveal_strlit("clipboard.entry.edit.cancel");
    assert("clipboard.entry.edit.cancel"@.len() == 27);
    reveal_strlit("clipboard.entries.delete");
    assert("clipboard.entries.delete"@.len() == 24);
    reveal_strlit("clipboard.selection.publishText");
    assert("clipboard.selection.publishText"@.len() == 31);
    reveal_strlit("clipboard.selection.publishFiles");
    assert("clipboard.selection.publishFiles"@.len() == 32);
    reveal_strlit("clipboard.capture.setPaused");
    assert("clipboard.capture.setPaused"@.len() == 27);
    reveal_strlit("clipboard.capture.screenshot");
    assert("clipboard.capture.screenshot"@.len() == 28);
    reveal_strlit("clipboard.capture.interactive");
    assert("clipboard.capture.interactive"@.len() == 29);
    reveal_strlit("clipboard.settings.get");
    assert("clipboard.settings.get"@.len() == 22);
    reveal_strlit("clipboard.settings.update");
    assert("clipboard.settings.update"@.len() == 25);
    reveal_strlit("clipboard.history.wipe.prepare");
    assert("clipboard.history.wipe.prepare"@.len() == 30);
    reveal_strlit("clipboard.history.wipe.commit");
    assert("clipboard.history.wipe.commit"@.len() == 29);
    assert("clipboard.history.query"@[10] != "clipboard.session.begin"@[10]);
    assert("clipboard.entry.details"@[10] != "clipboard.session.begin"@[10]);
    assert("clipboard.entry.details"@[10] != "clipboard.history.query"@[10]);
    assert("clipboard.entry.edit.cancel"@[22] != "clipboard.entry.edit.commit"@[22]);
    assert("clipboard.entries.delete"@[10] != "clipboard.session.hidden"@[10]);
    assert("clipboard.capture.setPaused"@[10] != "clipboard.entry.edit.commit"@[10]);
    assert("clipboard.capture.setPaused"@[10] != "clipboard.entry.edit.cancel"@[10]);
    assert("clipboard.settings.get"@[10] != "clipboard.entry.action"@[10]);
    assert("clipboard.settings.update"@[10] != "clipboard.entry.thumbnail"@[10]);
    assert("clipboard.history.wipe.commit"@[10] != "clipboard.capture.interactive"@[10]);
}

/// A query asks the store for the page that the caller asked for, and collapses echoes
/// as the settings say; the page that comes back is the answer.
pub proof fn queries_are_passed_on(
    before: ApiService,
    params: QueryParams,
    owner: Option<String>,
    now: u64,
    after: ApiService,
    pending: Pending,
    action: ApiAction,
    reply: BackendResult<HistoryPage>,
    later: ApiService,
    over: Pending,
    answer: ApiAction,
)
    requires
        before.wf(),
        before.settings.load_error is None,
        !params.fuzzy,
        1 <= params.limit <= 200,
        encode_utf8(params.query@).len() <= 4_096,
        api::began(before, Request::Query(params), owner, now, after, pending, action),
        api::resumed(after, pending, ApiEvent::Page(reply), now, later, over, answer),
    ensures
        action matches ApiAction::Store(StoreCall::Query(query)) && query.query@ == params.query@
            && query.generation == params.generation && query.offset == params.offset && query.limit
            == params.limit && query.collapse_self_echoes
            == before.settings.value.collapse_self_echoes,
        reply matches Ok(page) ==> answer == ApiAction::Done(Ok(Data::History(page))),
        reply matches Err(reason) ==> (answer matches ApiAction::Done(Err(error)) && error.message@
            == reason.message@),
        later == before,
{
}

/// The details of an entry are those of the entry that was named, in the revision that
/// the caller saw, where they named one.
pub proof fn details_are_passed_on(
    before: ApiService,
    params: EntryParams,
    owner: Option<String>,
    now: u64,
    after: ApiService,
    pending: Pending,
    action: ApiAction,
    details: EntryDetails,
    later: ApiService,
    over: Pending,
    answer: ApiAction,
)
    requires
        params.entry_id@.len() > 0,
        api::began(before, Request::Details(params), owner, now, after, pending, action),
        api::resumed(after, pending, ApiEvent::Details(Ok(details)), now, later, over, answer),
    ensures
        action == ApiAction::Store(
            StoreCall::Details { entry_id: params.entry_id, max_text_bytes: 262_144 },
        ),
        params.revision is None || params.revision->0 == details.entry.revision ==> answer
            == ApiAction::Done(Ok(Data::Entry(details))),
        params.revision is Some && params.revision->0 != details.entry.revision ==> (
        answer matches ApiAction::Done(Err(error)) && error.code@ == "stale-entry"@),
{
    reveal_strlit("");
}

/// A thumbnail is made of the entry that was named, in the state that it has, with the
/// edge that was asked for or 512 pixels; one of a state that the caller did not see
/// is refused.
pub proof fn thumbnails_are_passed_on(
    before: ApiService,
    params: EntryParams,
    owner: Option<String>,
    now: u64,
    after: ApiService,
    pending: Pending,
    action: ApiAction,
    revision: u64,
    later: ApiService,
    waiting: Pending,
    asked: ApiAction,
    thumbnail: EntryThumbnail,
    last: ApiService,
    over: Pending,
    answer: ApiAction,
)
    requires
        params.entry_id@.len() > 0,
        api::began(before, Request::Thumbnail(params), owner, now, after, pending, action),
        api::resumed(after, pending, ApiEvent::Revision(Ok(revision)), now, later, waiting, asked),
        api::resumed(later, waiting, ApiEvent::Thumbnail(Ok(thumbnail)), now, last, over, answer),
    ensures
        action == ApiAction::Store(StoreCall::Revision { entry_id: params.entry_id }),
        params.revision is None || params.revision->0 == revision ==> asked == ApiAction::Store(
            StoreCall::Thumbnail {
                entry_id: params.entry_id,
                revision: Some(revision),
                edge: if params.edge is Some {
                    params.edge->0
                } else {
                    512
                },
            },
        ) && answer == ApiAction::Done(Ok(Data::Thumbnail(thumbnail))),
        params.revision is Some && params.revision->0 != revision ==> (asked matches ApiAction::Done(
            Err(error),
        ) && error.code@ == "stale-entry"@),
{
    reveal_strlit("");
}

/// An entry has to be named.
pub proof fn unnamed_entries_are_refused(
    before: ApiService,
    request: Request,
    owner: Option<String>,
    now: u64,
    after: ApiService,
    pending: Pending,
    action: ApiAction,
)
    requires
        before.settings.load_error is None,
        match request {
            Request::Details(params) => params.entry_id@.len() == 0,
            Request::Thumbnail(params) => params.entry_id@.len() == 0,
            Request::Action(params) => params.entry_id@.len() == 0,
            Request::EditBegin(params) => params.entry_id@.len() == 0,
            _ => false,
        },
        api::began(before, request, owner, now, after, pending, action),
    ensures
        action matches ApiAction::Done(Err(error)) && error.code@ == "validation-error"@,
{
    reveal_strlit("");
    match request {
        Request::Details(params) => {
            assert(params.entry_id@ =~= ""@);
        },
        Request::Thumbnail(params) => {
            assert(params.entry_id@ =~= ""@);
        },
        Request::Action(params) => {
            assert(params.entry_id@ =~= ""@);
        },
        Request::EditBegin(params) => {
            assert(params.entry_id@ =~= ""@);
        },
        _ => {},
    }
}

/// Nothing that depends on the settings is done while they cannot be used.
pub proof fn unusable_settings_stop_requests(
    before: ApiService,
    request: Request,
    owner: Option<String>,
    now: u64,
    after: ApiService,
    pending: Pending,
    action: ApiAction,
)
    requires
        before.settings.load_error is Some,
        request is Query || request is Action || request is EditBegin || request is EditCommit
            || request is EditCancel || request is PublishText || request is Publish
            || request is PublishFiles || request is Screenshot || request is Interactive
            || request is SettingsGet,
        api::began(before, request, owner, now, after, pending, action),
    ensures
        action matches ApiAction::Done(Err(error)) && error.code@ == "settings-error"@
            && error.message@ == before.settings.load_error->0@,
        after == before,
{
}

/// Deleting an entry, marking it and the like are asked of the store for the entry and
/// the revision that the caller named, and nothing else is.
pub proof fn actions_reach_the_store(
    before: ApiService,
    params: ActionParams,
    max_bytes: u64,
    details: EntryDetails,
    now: u64,
    after: ApiService,
    pending: Pending,
    action: ApiAction,
)
    requires
        api::resumed(
            before,
            Pending::ActionDetails { params, max_bytes },
            ApiEvent::Details(Ok(details)),
            now,
            after,
            pending,
            action,
        ),
    ensures
        params.revision != details.entry.revision ==> (action matches ApiAction::Done(Err(error))
            && error.code@ == "stale-entry"@),
        params.revision == details.entry.revision && params.action@ == "delete"@ ==> action
            == ApiAction::Store(
            StoreCall::Mutate {
                entry_id: params.entry_id,
                revision: Some(params.revision),
                mutation: BackendMutation::Remove,
            },
        ),
        params.revision == details.entry.revision && (params.action@ == "favorite"@ || params.action@
            == "pin-current"@) ==> action == ApiAction::Store(
            StoreCall::Mutate {
                entry_id: params.entry_id,
                revision: Some(params.revision),
                mutation: BackendMutation::SetFavorite(true),
            },
        ),
        params.revision == details.entry.revision && params.action@ == "unfavorite"@ ==> action
            == ApiAction::Store(
            StoreCall::Mutate {
                entry_id: params.entry_id,
                revision: Some(params.revision),
                mutation: BackendMutation::SetFavorite(false),
            },
        ),
        params.revision == details.entry.revision && params.action@ == "copy"@ ==> action
            == ApiAction::Store(
            StoreCall::Mutate {
                entry_id: params.entry_id,
                revision: Some(params.revision),
                mutation: BackendMutation::Restore { max_bytes },
            },
        ),
        params.revision == details.entry.revision && params.action@ == "annotate"@
            && details.entry.kind is Image ==> action == ApiAction::Store(
            StoreCall::Mutate {
                entry_id: params.entry_id,
                revision: Some(params.revision),
                mutation: BackendMutation::Annotate { max_bytes },
            },
        ),
        params.action@ == "paste"@ && params.session_id is None ==> (action matches ApiAction::Done(
            Err(_),
        )),
        (action matches ApiAction::Store(call)) ==> (action matches ApiAction::Store(
            StoreCall::Mutate { entry_id, revision, .. },
        ) && entry_id@ == params.entry_id@ && revision == Some(params.revision)),
{
    names_of_actions();
}

proof fn names_of_actions()
    ensures
        "delete"@ != "copy"@ && "delete"@ != "paste"@,
        forall|i: int|
            0 <= i < 6 ==> #[trigger] stored_actions()[i] != "open-url"@ && stored_actions()[i]
                != "open-file"@ && stored_actions()[i] != "reveal-file"@ && stored_actions()[i]
                != "paste"@ && stored_actions()[i] != "image-as-file"@,
        stored_actions()[0] == "delete"@ && stored_actions()[1] == "favorite"@
            && stored_actions()[2] == "pin-current"@ && stored_actions()[3] == "unfavorite"@
            && stored_actions()[4] == "copy"@ && stored_actions()[5] == "annotate"@,
        "favorite"@ != "copy"@ && "favorite"@ != "annotate"@ && "favorite"@ != "delete"@,
        "pin-current"@ != "copy"@ && "pin-current"@ != "annotate"@ && "pin-current"@ != "delete"@,
        "unfavorite"@ != "copy"@ && "unfavorite"@ != "annotate"@ && "unfavorite"@ != "delete"@
            && "unfavorite"@ != "favorite"@ && "unfavorite"@ != "pin-current"@,
        "annotate"@ != "copy"@ && "annotate"@ != "delete"@,
        "paste"@ != "open-url"@ && "paste"@ != "open-file"@ && "paste"@ != "reveal-file"@,
{
    reveal_strlit("copy");
    reveal_strlit("delete");
    reveal_strlit("favorite");
    reveal_strlit("unfavorite");
    reveal_strlit("pin-current");
    reveal_strlit("paste");
    reveal_strlit("image-as-file");
    reveal_strlit("annotate");
    reveal_strlit("open-url");
    reveal_strlit("open-file");
    reveal_strlit("reveal-file");
    assert("copy"@.len() == 4);
    assert("delete"@.len() == 6);
    assert("favorite"@.len() == 8);
    assert("unfavorite"@.len() == 10);
    assert("pin-current"@.len() == 11);
    assert("paste"@.len() == 5);
    assert("image-as-file"@.len() == 13);
    assert("annotate"@.len() == 8);
    assert("open-url"@.len() == 8);
    assert("open-file"@.len() == 9);
    assert("reveal-file"@.len() == 11);
    assert("favorite"@[0] != "annotate"@[0]);
    assert("favorite"@[0] != "open-url"@[0]);
    assert("annotate"@[0] != "open-url"@[0]);
    assert("pin-current"@[0] != "reveal-file"@[0]);
}

/// The actions that are handed to the store without a session.
pub open spec fn stored_actions() -> Seq<Seq<char>> {
    seq!["delete"@, "favorite"@, "pin-current"@, "unfavorite"@, "copy"@, "annotate"@]
}

/// What the store did is told under the name of the action that was asked for.
pub proof fn actions_are_told_under_their_name(
    before: ApiService,
    name: String,
    outcome: BackendResult<OperationResult>,
    now: u64,
    after: ApiService,
    pending: Pending,
    action: ApiAction,
)
    requires
        api::resumed(
            before,
            Pending::Mutated { action: name },
            ApiEvent::Operation(outcome),
            now,
            after,
            pending,
            action,
        ),
    ensures
        outcome matches Ok(operation) ==> (action matches ApiAction::Done(Ok(Data::Operation(told)))
            && told.action@ == name@ && told.id == operation.id && told.status == operation.status
            && told.message == operation.message && told.path == operation.path && told.warning
            == operation.warning),
        outcome matches Err(reason) ==> (action matches ApiAction::Done(Err(error)) && error.message@
            == reason.message@ && (error.retryable <==> reason.kind is Unavailable)),
{
}

/// A session is armed only once its content is on the clipboard; where it could not be
/// put there, the session is left unarmed and the failure is told.
pub proof fn sessions_are_armed_once_published(
    before: ApiService,
    name: String,
    session_id: String,
    at: int,
    outcome: BackendResult<OperationResult>,
    now: u64,
    after: ApiService,
    pending: Pending,
    action: ApiAction,
)
    requires
        0 <= at < before.sessions.sessions@.len(),
        before.sessions.sessions@[at].id@ == session_id@,
        before.sessions.sessions@[at].expires > now,
        forall|i: int|
            0 <= i < at ==> (#[trigger] before.sessions.sessions@[i]).id@ != session_id@,
        api::resumed(
            before,
            Pending::Pasted { action: name, session_id },
            ApiEvent::Operation(outcome),
            now,
            after,
            pending,
            action,
        ),
    ensures
        outcome is Ok ==> after.sessions.sessions@[at].paste_pending,
        outcome is Err ==> !after.sessions.sessions@[at].paste_pending,
        after.sessions.sessions@[at].target == before.sessions.sessions@[at].target,
        outcome matches Ok(operation) ==> (action matches ApiAction::Done(Ok(Data::Operation(told)))
            && told.action@ == name@ && told.id == operation.id && (
        before.sessions.sessions@[at].target is Some ==> told.status@ == "paste-prepared"@) && (
        before.sessions.sessions@[at].target is None ==> told.status@ == "completed"@)),
        outcome matches Err(reason) ==> (action matches ApiAction::Done(Err(error)) && error.message@
            == reason.message@),
{
    first_session(before.sessions.sessions@, session_id@);
    let found = session::session_index(before.sessions.sessions@, session_id@);
    if found < at {
        assert(before.sessions.sessions@[found].id@ != session_id@);
    }
    assert(found == at);
}

proof fn first_session(sessions: Seq<session::Session>, id: Seq<char>)
    ensures
        0 <= session::session_index(sessions, id) <= sessions.len(),
        session::session_index(sessions, id) < sessions.len() ==> sessions[session::session_index(
            sessions,
            id,
        )].id@ == id,
        forall|i: int|
            0 <= i < session::session_index(sessions, id) ==> (#[trigger] sessions[i]).id@ != id,
    decreases sessions.len(),
{
    if sessions.len() > 0 && sessions[0].id@ != id {
        let rest = sessions.drop_first();
        first_session(rest, id);
        assert forall|i: int| 0 <= i < session::session_index(sessions, id) implies (
        #[trigger] sessions[i]).id@ != id by {
            if i > 0 {
                assert(rest[i - 1] == sessions[i]);
            }
        }
    }
}

/// What is to be deleted together, published, or captured reaches the store as the
/// caller asked, with the size limit of the settings.
pub proof fn requests_reach_the_store(
    before: ApiService,
    request: Request,
    owner: Option<String>,
    now: u64,
    after: ApiService,
    pending: Pending,
    action: ApiAction,
)
    requires
        before.settings.load_error is None,
        api::began(before, request, owner, now, after, pending, action),
    ensures
        request matches Request::Delete(targets) ==> (action == ApiAction::Store(
            StoreCall::RemoveMany(targets),
        ) || action matches ApiAction::Done(Err(_))),
        request matches Request::PublishText(value) ==> value@.len() > 0 ==> (
        action matches ApiAction::Store(StoreCall::Publish { mime, content, max_bytes }) && mime@
            == "text/plain;charset=utf-8"@ && content@ == encode_utf8(value@) && max_bytes
            == before.settings.value.max_entry_bytes),
        request matches Request::Publish { mime, content } ==> content@.len() > 0 ==> action
            == ApiAction::Store(
            StoreCall::Publish { mime, content, max_bytes: before.settings.value.max_entry_bytes },
        ),
        request matches Request::Publish { mime, content } ==> content@.len() == 0 ==> (
        action matches ApiAction::Done(Err(_))),
        request matches Request::PublishFiles(params) ==> (action matches ApiAction::Done(Err(_)))
            || (action matches ApiAction::Store(StoreCall::PublishFiles { selection, max_bytes })
            && selection.paths@ == params.paths@ && max_bytes
            == before.settings.value.max_entry_bytes && (selection.operation is Cut
            <==> params.operation@ == "cut"@)),
        request matches Request::Screenshot(region) ==> 1 <= region.width <= 16_384 && 1
            <= region.height <= 16_384 && region.width * region.height <= 33_554_432 ==> action
            == ApiAction::Store(
            StoreCall::Screenshot { region, max_bytes: before.settings.value.max_entry_bytes },
        ),
        request matches Request::Interactive(screenshot) ==> action == ApiAction::Store(
            StoreCall::Interactive { screenshot, max_bytes: before.settings.value.max_entry_bytes },
        ),
        request is Delete || request is PublishText || request is Publish || request is PublishFiles
            || request is Screenshot || request is Interactive ==> after == before,
{
    reveal_strlit("copy");
    reveal_strlit("cut");
    assert("copy"@.len() != "cut"@.len());
    if let Request::PublishText(value) = request {
        if value@.len() > 0 {
            something_takes_bytes(value@);
        }
    }
}

proof fn something_takes_bytes(s: Seq<char>)
    requires
        s.len() > 0,
    ensures
        encode_utf8(s).len() > 0,
{
    if encode_utf8(s).len() == 0 {
        assert(encode_utf8(Seq::<char>::empty()) =~= encode_utf8(s));
        text::encoding_is_injective(s, Seq::empty());
    }
}

/// What the store says of such a request is the answer.
pub proof fn outcomes_are_passed_on(
    before: ApiService,
    outcome: BackendResult<OperationResult>,
    replaced: BackendResult<ReplacementResult>,
    now: u64,
    after: ApiService,
    pending: Pending,
    action: ApiAction,
    later: ApiService,
    over: Pending,
    answer: ApiAction,
)
    requires
        api::resumed(
            before,
            Pending::Operation,
            ApiEvent::Operation(outcome),
            now,
            after,
            pending,
            action,
        ),
        api::resumed(
            before,
            Pending::Replaced,
            ApiEvent::Replaced(replaced),
            now,
            later,
            over,
            answer,
        ),
    ensures
        outcome matches Ok(operation) ==> action == ApiAction::Done(Ok(Data::Operation(operation))),
        outcome matches Err(reason) ==> (action matches ApiAction::Done(Err(error)) && error.message@
            == reason.message@),
        replaced matches Ok(result) ==> answer == ApiAction::Done(Ok(Data::Replaced(result))),
        replaced matches Err(reason) ==> (answer matches ApiAction::Done(Err(error))
            && error.message@ == reason.message@),
{
}

/// An edit replaces the entry that was opened only where that is still in the state
/// that was opened, and with the text that was committed.
pub proof fn edits_replace_what_was_opened(
    before: ApiService,
    commit: EditCommit,
    revision: u64,
    now: u64,
    after: ApiService,
    pending: Pending,
    action: ApiAction,
)
    requires
        api::resumed(
            before,
            Pending::CommitRevision(commit),
            ApiEvent::Revision(Ok(revision)),
            now,
            after,
            pending,
            action,
        ),
    ensures
        commit.revision == revision ==> action == ApiAction::Store(StoreCall::Replace(commit)),
        commit.revision != revision ==> (action matches ApiAction::Done(Err(error)) && error.code@
            == "stale-entry"@),
{
}

/// An edit that is open is committed with its new text, to the entry that it was opened
/// for, and is then gone.
pub proof fn open_edits_are_committed(
    before: ApiService,
    edit_id: String,
    value: String,
    owner: Option<String>,
    now: u64,
    after: ApiService,
    pending: Pending,
    action: ApiAction,
)
    requires
        before.settings.load_error is None,
        encode_utf8(value@).len() <= 262_144,
        api::began(
            before,
            Request::EditCommit { edit_id, value },
            owner,
            now,
            after,
            pending,
            action,
        ),
    ensures
        pending matches Pending::CommitRevision(commit) ==> commit.value@ == value@ && exists|i: int|
            0 <= i < before.edits.leases.list@.len() && (
            #[trigger] before.edits.leases.list@[i]).id@ == edit_id@
                && before.edits.leases.list@[i].expires > now && commit.entry_id
                == before.edits.leases.list@[i].value.entry_id && commit.revision
                == before.edits.leases.list@[i].value.revision && commit.mime
                == before.edits.leases.list@[i].value.mime,
        (exists|i: int|
            0 <= i < before.edits.leases.list@.len() && (
            #[trigger] before.edits.leases.list@[i]).id@ == edit_id@
                && before.edits.leases.list@[i].expires > now) ==> pending is CommitRevision,
        !(pending is CommitRevision) ==> (action matches ApiAction::Done(Err(error)) && error.code@
            == "edit-error"@),
{
    let all = before.edits.leases.list@;
    let list = lease::lasting(all, now);
    first_lease(list, edit_id@);
    let at = lease::place(list, edit_id@);
    if at < list.len() {
        what_lasts_was_there(all, now, at);
    }
    if exists|i: int| 0 <= i < all.len() && (#[trigger] all[i]).id@ == edit_id@ && all[i].expires > now {
        let i = choose|i: int|
            0 <= i < all.len() && (#[trigger] all[i]).id@ == edit_id@ && all[i].expires > now;
        what_is_good_lasts(all, now, i);
        let k = choose|k: int| 0 <= k < list.len() && list[k] == all[i];
        assert(list[k].id@ == edit_id@);
    }
}

proof fn first_lease<T>(list: Seq<lease::Lease<T>>, id: Seq<char>)
    ensures
        0 <= lease::place(list, id) <= list.len(),
        lease::place(list, id) < list.len() ==> list[lease::place(list, id)].id@ == id,
        forall|i: int| 0 <= i < lease::place(list, id) ==> (#[trigger] list[i]).id@ != id,
    decreases list.len(),
{
    if list.len() > 0 && list[0].id@ != id {
        let rest = list.drop_first();
        first_lease(rest, id);
        assert forall|i: int| 0 <= i < lease::place(list, id) implies (
        #[trigger] list[i]).id@ != id by {
            if i > 0 {
                assert(rest[i - 1] == list[i]);
            }
        }
    }
}

proof fn what_lasts_was_there<T>(list: Seq<lease::Lease<T>>, now: u64, k: int)
    requires
        0 <= k < lease::lasting(list, now).len(),
    ensures
        lease::lasting(list, now)[k].expires > now,
        exists|i: int| 0 <= i < list.len() && #[trigger] list[i] == lease::lasting(list, now)[k],
    decreases list.len(),
{
    let front = list.drop_last();
    let kept = lease::lasting(front, now);
    let all = lease::lasting(list, now);
    if k < kept.len() {
        assert(all[k] == kept[k]);
        what_lasts_was_there(front, now, k);
        let i = choose|i: int| 0 <= i < front.len() && #[trigger] front[i] == kept[k];
        assert(list[i] == front[i]);
    } else {
        assert(all[k] == list.last());
        assert(list[list.len() - 1] == list.last());
    }
}

proof fn what_is_good_lasts<T>(list: Seq<lease::Lease<T>>, now: u64, i: int)
    requires
        0 <= i < list.len(),
        list[i].expires > now,
    ensures
        exists|k: int|
            0 <= k < lease::lasting(list, now).len() && #[trigger] lease::lasting(list, now)[k]
                == list[i],
    decreases list.len(),
{
    let front = list.drop_last();
    let kept = lease::lasting(front, now);
    let all = lease::lasting(list, now);
    if i < front.len() {
        assert(front[i] == list[i]);
        what_is_good_lasts(front, now, i);
        let k = choose|k: int| 0 <= k < kept.len() && #[trigger] kept[k] == list[i];
        assert(all[k] == kept[k]);
    } else {
        assert(all[all.len() - 1] == list[i]);
    }
}

/// The history is wiped only by the word for it, with a challenge that was handed out
/// and has not expired; the capture is stopped first, within the limit of the settings,
/// and a challenge can be met once.
pub proof fn wipes_need_a_challenge(
    before: ApiService,
    challenge_id: String,
    response: String,
    owner: Option<String>,
    now: u64,
    after: ApiService,
    pending: Pending,
    action: ApiAction,
)
    requires
        api::began(
            before,
            Request::WipeCommit { challenge_id, response },
            owner,
            now,
            after,
            pending,
            action,
        ),
    ensures
        ({
            let met = response@ == "WIPE"@ && exists|i: int|
                0 <= i < before.challenges.list@.len() && (
                #[trigger] before.challenges.list@[i]).id@ == challenge_id@
                    && before.challenges.list@[i].expires > now && forall|j: int|
                    0 <= j < i ==> (#[trigger] before.challenges.list@[j]).id@ != challenge_id@;
            &&& met ==> pending == (Pending::WipeFence { paused: false }) && action
                == ApiAction::Settings(
                settings::Action::Control {
                    paused: true,
                    max_bytes: before.settings.value.max_entry_bytes,
                },
            )
            &&& !met ==> (action matches ApiAction::Done(Err(_)))
        }),
        response@ == "WIPE"@ ==> after.challenges.list@.len() < before.challenges.list@.len()
            || action matches ApiAction::Done(Err(_)),
{
    let list = before.challenges.list@;
    first_lease(list, challenge_id@);
    let at = lease::place(list, challenge_id@);
    if at < list.len() && list[at].expires > now && response@ == "WIPE"@ {
        assert(list[at].id@ == challenge_id@);
    }
    if exists|i: int|
        0 <= i < list.len() && (#[trigger] list[i]).id@ == challenge_id@ && list[i].expires > now
            && forall|j: int| 0 <= j < i ==> (#[trigger] list[j]).id@ != challenge_id@ {
        let i = choose|i: int|
            0 <= i < list.len() && (#[trigger] list[i]).id@ == challenge_id@ && list[i].expires
                > now && forall|j: int|
                0 <= j < i ==> (#[trigger] list[j]).id@ != challenge_id@;
        if at < i {
            assert(list[at].id@ != challenge_id@);
        }
        assert(at == i);
    }
}

/// A challenge can be met for thirty seconds.
pub proof fn challenges_last_thirty_seconds(
    before: ApiService,
    owner: Option<String>,
    now: u64,
    after: ApiService,
    pending: Pending,
    action: ApiAction,
)
    requires
        now <= u64::MAX - 30_000,
        api::began(before, Request::WipePrepare, owner, now, after, pending, action),
    ensures
        action matches ApiAction::Done(Ok(Data::Challenge { id })) && after.challenges.list@.len() > 0
            && after.challenges.list@.last().id@ == id@ && after.challenges.list@.last().expires
            == now + 30_000,
{
}

/// The history is wiped, all of it, exactly where the capture said that it has stopped;
/// open edits are closed with it.
pub proof fn wipes_follow_the_stop(
    before: ApiService,
    answer: Result<bool, String>,
    now: u64,
    after: ApiService,
    pending: Pending,
    action: ApiAction,
)
    requires
        api::resumed(
            before,
            Pending::WipeFence { paused: true },
            ApiEvent::Settings(settings::Event::Paused(answer)),
            now,
            after,
            pending,
            action,
        ),
    ensures
        answer == Ok::<bool, String>(true) ==> (action matches ApiAction::Store(
            StoreCall::Mutate { mutation, revision, .. },
        ) && mutation == BackendMutation::Wipe && revision is None)
            && after.edits.leases.list@.len() == 0,
        answer != Ok::<bool, String>(true) ==> (action matches ApiAction::Done(Err(error))
            && error.code@ == "settings-error"@) && !after.settings.capture_verified,
{
}

/// After a wipe the capture is brought back to what the settings say, whatever came of
/// the wipe, and what came of it is told.
pub proof fn captures_go_on_after_a_wipe(
    before: ApiService,
    outcome: BackendResult<OperationResult>,
    now: u64,
    after: ApiService,
    pending: Pending,
    action: ApiAction,
)
    requires
        before.settings.load_error is None,
        api::resumed(
            before,
            Pending::Wiped,
            ApiEvent::Operation(outcome),
            now,
            after,
            pending,
            action,
        ),
    ensures
        action == ApiAction::Settings(
            settings::Action::Control {
                paused: before.settings.value.capture_paused,
                max_bytes: before.settings.value.max_entry_bytes,
            },
        ),
        pending matches Pending::WipeRecovery { outcome: kept, .. } && kept == outcome,
{
}

/// A service begins with its settings, and with nothing handed out.
pub proof fn services_begin_with_nothing(
    settings: settings::SettingsManager,
    key: [u8; 16],
    service: ApiService,
)
    requires
        call_ensures(ApiService::new, (settings, key), service),
    ensures
        service.settings == settings,
        service.challenges.list@.len() == 0 && service.edits.leases.list@.len() == 0,
        service.sessions.sessions@.len() == 0,
        service.search.key == key && service.search.running == 0,
{
}

} // verus!
