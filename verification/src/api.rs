//! The requests that callers make, and what each of them leads to. The daemon
//! performs one action at a time for a request, and hands back what came of it.
//!
//! Times are milliseconds from the start of the process.
use crate::actions;
use crate::actions::{
    file_selection, launch_command, launched, open_file, open_link, paste_feedback,
    validate_action, validate_content, validate_entry_id, validate_query, validate_region,
    validate_revision, validate_targets, ActionParams, ApiError, EntryParams, Launch,
    LaunchCommand, LaunchOutcome, PublishFilesParams, QueryParams,
};
use crate::backend::{
    BackendError, BackendMutation, BackendResult, ClipboardBackend, EntryTarget, FileSelection, HistoryQuery,
    InteractiveScreenshot, ScreenshotRegion,
};
use crate::bytes;
use crate::editing;
use crate::editing::{EditCommit, EditManager, EditView, MAX_EDIT_BYTES};
use crate::history_search;
use crate::history_search::{
    HistorySearch, Search, SearchAction, SearchEvent, SearchItem, SearchPage,
};
use crate::lease;
use crate::lease::{deadline, Leases, Taken};
use crate::model::{
    fresh_id, EntryDetails, EntryThumbnail, HistoryPage, OperationResult, ReplacementResult,
};
use crate::protocol;
use crate::ringboard::ipc::EngineLimits;
use crate::session;
use crate::session::{Hidden, SessionManager, SessionView, Target};
use crate::settings;
use crate::settings::{
    CaptureState, ClipboardSettings, RetentionState, SettingsManager, SettingsUpdate,
};
use crate::text;
use vstd::prelude::*;
use vstd::string::*;
use vstd::utf8::*;

verus! {

/// The name of the protocol.
pub const PROTOCOL: &'static str = protocol::NAME;

/// The version of the protocol.
pub const VERSION: u8 = protocol::VERSION;

/// How long a challenge to wipe the history can be met, in milliseconds.
pub const CHALLENGE_TTL: u64 = 30_000;

/// A method of the protocol.
#[derive(Debug, Clone, Copy, PartialEq, Eq, Structural)]
pub enum Method {
    SessionBegin,
    SessionEnd,
    SessionHidden,
    Query,
    Details,
    Thumbnail,
    Action,
    EditBegin,
    EditCommit,
    EditCancel,
    Delete,
    PublishText,
    PublishFiles,
    SetPaused,
    Screenshot,
    Interactive,
    SettingsGet,
    SettingsUpdate,
    WipePrepare,
    WipeCommit,
}

/// The method with this name.
pub open spec fn method_named(name: Seq<char>) -> Option<Method> {
    if name == "clipboard.session.begin"@ {
        Some(Method::SessionBegin)
    } else if name == "clipboard.session.end"@ {
        Some(Method::SessionEnd)
    } else if name == "clipboard.session.hidden"@ {
        Some(Method::SessionHidden)
    } else if name == "clipboard.history.query"@ {
        Some(Method::Query)
    } else if name == "clipboard.entry.details"@ {
        Some(Method::Details)
    } else if name == "clipboard.entry.thumbnail"@ {
        Some(Method::Thumbnail)
    } else if name == "clipboard.entry.action"@ {
        Some(Method::Action)
    } else if name == "clipboard.entry.edit.begin"@ {
        Some(Method::EditBegin)
    } else if name == "clipboard.entry.edit.commit"@ {
        Some(Method::EditCommit)
    } else if name == "clipboard.entry.edit.cancel"@ {
        Some(Method::EditCancel)
    } else if name == "clipboard.entries.delete"@ {
        Some(Method::Delete)
    } else if name == "clipboard.selection.publishText"@ {
        Some(Method::PublishText)
    } else if name == "clipboard.selection.publishFiles"@ {
        Some(Method::PublishFiles)
    } else if name == "clipboard.capture.setPaused"@ {
        Some(Method::SetPaused)
    } else if name == "clipboard.capture.screenshot"@ {
        Some(Method::Screenshot)
    } else if name == "clipboard.capture.interactive"@ {
        Some(Method::Interactive)
    } else if name == "clipboard.settings.get"@ {
        Some(Method::SettingsGet)
    } else if name == "clipboard.settings.update"@ {
        Some(Method::SettingsUpdate)
    } else if name == "clipboard.history.wipe.prepare"@ {
        Some(Method::WipePrepare)
    } else if name == "clipboard.history.wipe.commit"@ {
        Some(Method::WipeCommit)
    } else {
        None
    }
}

/// What is said of a method that there is not.
pub open spec fn unsupported(name: Seq<char>) -> Seq<char> {
    if text::begins(name, "clipboard.entry."@) {
        "Unsupported entry method"@
    } else if text::begins(name, "clipboard.session."@) {
        "Unsupported session method"@
    } else if text::begins(name, "clipboard.history.wipe."@) {
        "Unsupported wipe method"@
    } else {
        "Unsupported clip-api method: "@ + name
    }
}

/// Finds the method with this name.
pub fn route(name: &str) -> (method: Result<Method, ApiError>)
    ensures
        match method {
            Ok(method) => method_named(name@) == Some(method),
            Err(error) => method_named(name@) is None && error.is(
                "unsupported-method"@,
                unsupported(name@),
            ),
        },
{
    if text::same(name, "clipboard.session.begin") {
        Ok(Method::SessionBegin)
    } else if text::same(name, "clipboard.session.end") {
        Ok(Method::SessionEnd)
    } else if text::same(name, "clipboard.session.hidden") {
        Ok(Method::SessionHidden)
    } else if text::same(name, "clipboard.history.query") {
        Ok(Method::Query)
    } else if text::same(name, "clipboard.entry.details") {
        Ok(Method::Details)
    } else if text::same(name, "clipboard.entry.thumbnail") {
        Ok(Method::Thumbnail)
    } else if text::same(name, "clipboard.entry.action") {
        Ok(Method::Action)
    } else if text::same(name, "clipboard.entry.edit.begin") {
        Ok(Method::EditBegin)
    } else if text::same(name, "clipboard.entry.edit.commit") {
        Ok(Method::EditCommit)
    } else if text::same(name, "clipboard.entry.edit.cancel") {
        Ok(Method::EditCancel)
    } else if text::same(name, "clipboard.entries.delete") {
        Ok(Method::Delete)
    } else if text::same(name, "clipboard.selection.publishText") {
        Ok(Method::PublishText)
    } else if text::same(name, "clipboard.selection.publishFiles") {
        Ok(Method::PublishFiles)
    } else if text::same(name, "clipboard.capture.setPaused") {
        Ok(Method::SetPaused)
    } else if text::same(name, "clipboard.capture.screenshot") {
        Ok(Method::Screenshot)
    } else if text::same(name, "clipboard.capture.interactive") {
        Ok(Method::Interactive)
    } else if text::same(name, "clipboard.settings.get") {
        Ok(Method::SettingsGet)
    } else if text::same(name, "clipboard.settings.update") {
        Ok(Method::SettingsUpdate)
    } else if text::same(name, "clipboard.history.wipe.prepare") {
        Ok(Method::WipePrepare)
    } else if text::same(name, "clipboard.history.wipe.commit") {
        Ok(Method::WipeCommit)
    } else if text::starts_with(name, "clipboard.entry.") {
        Err(ApiError::unsupported("Unsupported entry method"))
    } else if text::starts_with(name, "clipboard.session.") {
        Err(ApiError::unsupported("Unsupported session method"))
    } else if text::starts_with(name, "clipboard.history.wipe.") {
        Err(ApiError::unsupported("Unsupported wipe method"))
    } else {
        Err(ApiError::unsupported(text::join("Unsupported clip-api method: ", name).as_str()))
    }
}

/// What is asked for under this name is bounded by the settings, so that nothing
/// of the request is looked at before they are: whatever is done with an entry
/// but to show it, and a screenshot.
pub open spec fn bounded_by_settings(name: Seq<char>) -> bool {
    ||| text::begins(name, "clipboard.entry."@) && name != "clipboard.entry.details"@ && name
        != "clipboard.entry.thumbnail"@
    ||| name == "clipboard.capture.screenshot"@
}

/// What is asked of the store.
pub enum StoreCall {
    ChangeToken,
    Query(HistoryQuery),
    Revision { entry_id: String },
    Details { entry_id: String, max_text_bytes: usize },
    Thumbnail { entry_id: String, revision: Option<u64>, edge: u32 },
    Screenshot { region: ScreenshotRegion, max_bytes: u64 },
    Interactive { screenshot: InteractiveScreenshot, max_bytes: u64 },
    Publish { mime: String, content: Vec<u8>, max_bytes: u64 },
    PublishFiles { selection: FileSelection, max_bytes: u64 },
    Mutate { entry_id: String, revision: Option<u64>, mutation: BackendMutation },
    RemoveMany(Vec<EntryTarget>),
    Replace(EditCommit),
}

/// What a request needs next.
pub enum ApiAction {
    Store(StoreCall),
    Settings(settings::Action),
    /// The limits that the engine enforces.
    Limits,
    /// Whether the file of this exists.
    Exists(Launch),
    Launch(LaunchCommand),
    /// The order of these items.
    Rank(Vec<SearchItem>),
    /// Nothing: this is the outcome.
    Done(Result<Data, ApiError>),
}

/// What a request was given.
pub enum ApiEvent {
    Token(BackendResult<u64>),
    Page(BackendResult<HistoryPage>),
    Revision(BackendResult<u64>),
    Details(BackendResult<EntryDetails>),
    Thumbnail(BackendResult<EntryThumbnail>),
    Operation(BackendResult<OperationResult>),
    Replaced(BackendResult<ReplacementResult>),
    Settings(settings::Event),
    Limits(Result<EngineLimits, String>),
    Exists(bool),
    Launched(LaunchOutcome),
    Ranked(Option<Vec<String>>),
}

/// What a request returns.
pub enum Data {
    History(HistoryPage),
    Found(SearchPage),
    Entry(EntryDetails),
    Thumbnail(EntryThumbnail),
    Operation(OperationResult),
    Replaced(ReplacementResult),
    Edit(EditView),
    EditCancelled { id: String, cancelled: bool },
    Session(SessionView),
    Hidden(Hidden),
    Challenge { id: String },
    Paused { settings: ClipboardSettings },
    Updated { settings: ClipboardSettings },
    Settings { settings: ClipboardSettings, capture: CaptureState, retention: RetentionState },
}

/// A request.
pub enum Request {
    /// Begins a paste session for the window that is active, where there is one.
    SessionBegin { target: Option<Target> },
    SessionEnd { session_id: String },
    SessionHidden { session_id: String },
    Query(QueryParams),
    Details(EntryParams),
    Thumbnail(EntryParams),
    Action(ActionParams),
    EditBegin(EntryParams),
    EditCommit { edit_id: String, value: String },
    EditCancel { edit_id: String },
    Delete(Vec<EntryTarget>),
    PublishText(String),
    Publish { mime: String, content: Vec<u8> },
    PublishFiles(PublishFilesParams),
    SetPaused { paused: bool, private_mode: bool },
    Screenshot(ScreenshotRegion),
    Interactive(InteractiveScreenshot),
    SettingsGet,
    SettingsUpdate(SettingsUpdate),
    WipePrepare,
    WipeCommit { challenge_id: String, response: String },
}

/// What a request waits for.
pub enum Pending {
    /// A page of the history.
    Query,
    Search(Search),
    /// An entry, in this revision.
    Details { revision: Option<u64> },
    /// The revision of an entry, to make a thumbnail of it.
    ThumbnailRevision(EntryParams),
    Thumbnail,
    /// An entry, to do something with it.
    ActionDetails { params: ActionParams, max_bytes: u64 },
    /// Whether a file exists.
    LaunchExists { action: String, launch: Launch },
    Launched { action: String },
    /// The store, which does something with an entry.
    Mutated { action: String },
    /// The clipboard, for a paste in this session.
    Pasted { action: String, session_id: String },
    /// An entry, to edit it.
    EditDetails { revision: Option<u64> },
    /// The revision of an edited entry.
    CommitRevision(EditCommit),
    Replaced,
    /// An operation.
    Operation,
    SetPaused(settings::Task),
    Update(settings::Task),
    /// The limits that the engine enforces.
    Settings,
    /// The capture to stop before the history is wiped.
    WipeFence { paused: bool },
    /// The store, which wipes the history.
    Wiped,
    /// The capture to go on after that.
    WipeRecovery { task: settings::Task, outcome: BackendResult<OperationResult> },
    Over,
}

/// What the daemon knows of its callers' requests.
pub struct ApiService {
    pub challenges: Leases<()>,
    pub settings: SettingsManager,
    pub edits: EditManager,
    pub sessions: SessionManager,
    pub search: HistorySearch,
}

impl ApiService {
    pub open spec fn wf(self) -> bool {
        &&& self.challenges.wf()
        &&& self.settings.wf()
        &&& self.edits.wf()
        &&& session::distinct(self.sessions.sessions@)
    }

    /// A service with these settings, and a key for its cursors.
    pub fn new(settings: SettingsManager, key: [u8; 16]) -> (service: Self)
        requires
            settings.wf(),
        ensures
            service.wf(),
            service.settings == settings,
            service.challenges.list@.len() == 0,
            service.edits.leases.list@.len() == 0,
            service.sessions.sessions@.len() == 0,
            service.search.key == key,
            service.search.running == 0,
    {
        ApiService {
            challenges: Leases::new(),
            settings,
            edits: EditManager::new(),
            sessions: SessionManager::new(),
            search: HistorySearch::with_key(key),
        }
    }
}

/// The settings cannot be used, for this reason.
pub open spec fn settings_failure(error: ApiError, message: Seq<char>) -> bool {
    error.is("settings-error"@, message)
}

fn settings_error(message: String) -> (error: ApiError)
    ensures
        settings_failure(error, message@),
{
    ApiError::new("settings-error", message.as_str())
}

/// The edit cannot be made, for this reason.
pub open spec fn edit_failure(error: ApiError, message: Seq<char>) -> bool {
    error.is("edit-error"@, message)
}

/// The session cannot be used, for this reason.
pub open spec fn stale_target(error: ApiError, message: Seq<char>) -> bool {
    error.is("stale-target"@, message)
}

/// The request is over, and failed.
pub open spec fn fails(pending: Pending, action: ApiAction, error: ApiError) -> bool {
    pending is Over && action == ApiAction::Done(Err(error))
}

/// The request is over, and returns this.
pub open spec fn answers(pending: Pending, action: ApiAction, data: Data) -> bool {
    pending is Over && action == ApiAction::Done(Ok(data))
}

/// A request that is over, and failed.
fn failed(error: ApiError) -> (next: (Pending, ApiAction))
    ensures
        fails(next.0, next.1, error),
{
    (Pending::Over, ApiAction::Done(Err(error)))
}

/// A request that is over, and returns this.
fn done(data: Data) -> (next: (Pending, ApiAction))
    ensures
        answers(next.0, next.1, data),
{
    (Pending::Over, ApiAction::Done(Ok(data)))
}

/// Everything but the edits is as before.
pub open spec fn but_edits(before: ApiService, after: ApiService) -> bool {
    &&& after.challenges == before.challenges
    &&& after.settings == before.settings
    &&& after.sessions == before.sessions
    &&& after.search == before.search
}

/// Everything but the sessions is as before.
pub open spec fn but_sessions(before: ApiService, after: ApiService) -> bool {
    &&& after.challenges == before.challenges
    &&& after.settings == before.settings
    &&& after.edits == before.edits
    &&& after.search == before.search
}

/// Everything but the searches is as before.
pub open spec fn but_search(before: ApiService, after: ApiService) -> bool {
    &&& after.challenges == before.challenges
    &&& after.settings == before.settings
    &&& after.edits == before.edits
    &&& after.sessions == before.sessions
}

/// Everything but the settings is as before.
pub open spec fn but_settings(before: ApiService, after: ApiService) -> bool {
    &&& after.challenges == before.challenges
    &&& after.edits == before.edits
    &&& after.sessions == before.sessions
    &&& after.search == before.search
}

/// The edits that have expired are gone, and nothing else has changed.
pub open spec fn edits_expired(before: ApiService, after: ApiService, now: u64) -> bool {
    &&& but_edits(before, after)
    &&& after.edits.leases.list@ == lease::lasting(before.edits.leases.list@, now)
}

/// Why the settings cannot be used, where they cannot.
pub open spec fn settings_refusal(service: ApiService) -> Option<Seq<char>> {
    text::maybe(service.settings.load_error)
}

/// The request fails because the settings cannot be used, or goes on as `then`
/// says.
pub open spec fn with_settings(
    service: ApiService,
    pending: Pending,
    action: ApiAction,
    goes_on: bool,
) -> bool {
    match settings_refusal(service) {
        Some(message) => pending is Over && (action matches ApiAction::Done(Err(error))
            && settings_failure(error, message)),
        None => goes_on,
    }
}

/// The details of an entry are asked for, where it is named.
pub open spec fn asks_for_details(id: String, pending: Pending, action: ApiAction, waits: Pending) -> bool {
    if id@ == ""@ {
        pending is Over && (action matches ApiAction::Done(Err(error)) && error.invalid(
            "entry_id is required"@,
        ))
    } else {
        &&& pending == waits
        &&& action == ApiAction::Store(
            StoreCall::Details { entry_id: id, max_text_bytes: MAX_EDIT_BYTES },
        )
    }
}

/// Asks for the details of an entry.
fn ask_for_details(id: String, waits: Pending) -> (next: (Pending, ApiAction))
    ensures
        asks_for_details(id, next.0, next.1, waits),
{
    match validate_entry_id(id.as_str()) {
        Ok(_) => (
            waits,
            ApiAction::Store(StoreCall::Details { entry_id: id, max_text_bytes: MAX_EDIT_BYTES }),
        ),
        Err(error) => failed(error),
    }
}

/// A query begins: a search of everything, or a page of the history.
pub open spec fn query_begun(
    before: ApiService,
    params: QueryParams,
    owner: Option<String>,
    after: ApiService,
    pending: Pending,
    action: ApiAction,
) -> bool {
    let collapse = before.settings.shown().collapse_self_echoes;
    match actions::query_refusal(params) {
        Some(message) => after == before && pending is Over && (action matches ApiAction::Done(
            Err(error),
        ) && error.invalid(message)),
        None => if params.fuzzy {
            &&& but_search(before, after)
            &&& after.search.key == before.search.key
            &&& if before.search.running < history_search::MAX_SEARCHES {
                &&& after.search.running == before.search.running + 1
                &&& pending == Pending::Search(
                    Search { params, owner, collapse, stage: history_search::Stage::Opening },
                )
                &&& action == ApiAction::Store(StoreCall::ChangeToken)
            } else {
                &&& after.search.running == before.search.running
                &&& pending is Over
                &&& action matches ApiAction::Done(Err(error)) && error.is(
                    "busy"@,
                    "Clipboard search is busy"@,
                )
            }
        } else {
            &&& after == before
            &&& pending is Query
            &&& action == ApiAction::Store(
                StoreCall::Query(
                    HistoryQuery {
                        query: params.query,
                        generation: params.generation,
                        offset: params.offset,
                        limit: params.limit,
                        collapse_self_echoes: collapse,
                    },
                ),
            )
        },
    }
}

/// A change of the settings goes on, or is over.
pub open spec fn settings_stepped(
    step: settings::Step,
    paused: bool,
    pending: Pending,
    action: ApiAction,
) -> bool {
    match step.action {
        settings::Action::Done(Ok(settings)) => answers(
            pending,
            action,
            if paused {
                Data::Paused { settings }
            } else {
                Data::Updated { settings }
            },
        ),
        settings::Action::Done(Err(message)) => pending is Over && (action matches ApiAction::Done(
            Err(error),
        ) && settings_failure(error, message@)),
        _ => {
            &&& pending == if paused {
                Pending::SetPaused(step.task)
            } else {
                Pending::Update(step.task)
            }
            &&& action == ApiAction::Settings(step.action)
        },
    }
}

/// Goes on with a change of the settings.
fn settings_next(step: settings::Step, paused: bool) -> (next: (Pending, ApiAction))
    ensures
        settings_stepped(step, paused, next.0, next.1),
{
    match step.action {
        settings::Action::Done(Ok(settings)) => done(
            if paused {
                Data::Paused { settings }
            } else {
                Data::Updated { settings }
            },
        ),
        settings::Action::Done(Err(message)) => failed(settings_error(message)),
        action => (
            if paused {
                Pending::SetPaused(step.task)
            } else {
                Pending::Update(step.task)
            },
            ApiAction::Settings(action),
        ),
    }
}

/// A challenge is handed out, and those that have expired are gone.
pub open spec fn challenged(
    before: ApiService,
    now: u64,
    after: ApiService,
    pending: Pending,
    action: ApiAction,
) -> bool {
    &&& after.settings == before.settings
    &&& after.edits == before.edits
    &&& after.sessions == before.sessions
    &&& after.search == before.search
    &&& pending is Over
    &&& action matches ApiAction::Done(Ok(Data::Challenge { id })) && {
        let list = after.challenges.list@;
        &&& text::begins(id@, "challenge-"@)
        &&& list.len() > 0
        &&& lease::place(list, id@) == list.len() - 1
        &&& list.last().id@ == id@
        &&& list.last().expires == lease::after(now, CHALLENGE_TTL)
        &&& exists|lasting: Leases<()>|
            #![trigger lasting.without(id@)]
            lasting.list@ == lease::lasting(before.challenges.list@, now) && list.drop_last()
                == lasting.without(id@)
    }
}

/// A challenge is met: the capture is to be stopped, or why not.
pub open spec fn wipe_begun(
    before: ApiService,
    challenge_id: Seq<char>,
    response: Seq<char>,
    now: u64,
    after: ApiService,
    pending: Pending,
    action: ApiAction,
) -> bool {
    if response != "WIPE"@ {
        after == before && pending is Over && (action matches ApiAction::Done(Err(error))
            && error.invalid("wipe confirmation must be WIPE"@))
    } else {
        let list = before.challenges.list@;
        let at = lease::place(list, challenge_id);
        &&& after.settings == before.settings
        &&& after.edits == before.edits
        &&& after.sessions == before.sessions
        &&& after.search == before.search
        &&& after.challenges.list@ == before.challenges.without(challenge_id)
        &&& lease::place(after.challenges.list@, challenge_id) == after.challenges.list@.len()
        &&& if at == list.len() {
            pending is Over && (action matches ApiAction::Done(Err(error)) && error.is(
                "stale-action"@,
                "wipe challenge is unknown or already used"@,
            ))
        } else if list[at].expires <= now {
            pending is Over && (action matches ApiAction::Done(Err(error)) && error.is(
                "stale-action"@,
                "wipe challenge expired"@,
            ))
        } else {
            &&& pending == (Pending::WipeFence { paused: false })
            &&& action == ApiAction::Settings(
                settings::Action::Control {
                    paused: true,
                    max_bytes: before.settings.value.max_entry_bytes,
                },
            )
        }
    }
}

/// What `request` of `owner` leads to first.
pub open spec fn began(
    before: ApiService,
    request: Request,
    owner: Option<String>,
    now: u64,
    after: ApiService,
    pending: Pending,
    action: ApiAction,
) -> bool {
    let max_bytes = before.settings.value.max_entry_bytes;
    match request {
        Request::SessionBegin { target } => {
            &&& but_sessions(before, after)
            &&& pending is Over
            &&& action matches ApiAction::Done(Ok(Data::Session(view)))
            &&& session::shows(view, view.id@, target is Some, "active"@)
            &&& text::begins(view.id@, "session-"@)
            &&& session::begins(before.sessions, after.sessions, view.id@, target, now)
        },
        Request::SessionEnd { session_id } => {
            &&& but_sessions(before, after)
            &&& pending is Over
            &&& action matches ApiAction::Done(Ok(Data::Session(view))) && session::ends(
                before.sessions.sessions@,
                after.sessions.sessions@,
                session_id@,
                view,
            )
        },
        Request::SessionHidden { session_id } => {
            &&& but_sessions(before, after)
            &&& pending is Over
            &&& match action {
                ApiAction::Done(Ok(Data::Hidden(hidden))) => session::hides(
                    before.sessions.sessions@,
                    after.sessions.sessions@,
                    session_id@,
                    now,
                    Ok(hidden),
                ),
                ApiAction::Done(Err(error)) => exists|message: &'static str| #[trigger]
                    session::hides(
                        before.sessions.sessions@,
                        after.sessions.sessions@,
                        session_id@,
                        now,
                        Err(message),
                    ) && stale_target(error, message@),
                _ => false,
            }
        },
        Request::Query(params) => match settings_refusal(before) {
            Some(_) => after == before && with_settings(before, pending, action, false),
            None => query_begun(before, params, owner, after, pending, action),
        },
        Request::Details(params) => {
            &&& after == before
            &&& asks_for_details(
                params.entry_id,
                pending,
                action,
                Pending::Details { revision: params.revision },
            )
        },
        Request::Thumbnail(params) => {
            &&& after == before
            &&& if params.entry_id@ == ""@ {
                pending is Over && (action matches ApiAction::Done(Err(error)) && error.invalid(
                    "entry_id is required"@,
                ))
            } else {
                &&& pending == Pending::ThumbnailRevision(params)
                &&& action == ApiAction::Store(StoreCall::Revision { entry_id: params.entry_id })
            }
        },
        Request::Action(params) => match settings_refusal(before) {
            Some(_) => after == before && with_settings(before, pending, action, false),
            None => edits_expired(before, after, now) && asks_for_details(
                params.entry_id,
                pending,
                action,
                Pending::ActionDetails { params, max_bytes },
            ),
        },
        Request::EditBegin(params) => match settings_refusal(before) {
            Some(_) => after == before && with_settings(before, pending, action, false),
            None => edits_expired(before, after, now) && asks_for_details(
                params.entry_id,
                pending,
                action,
                Pending::EditDetails { revision: params.revision },
            ),
        },
        Request::EditCommit { edit_id, value } => match settings_refusal(before) {
            Some(_) => after == before && with_settings(before, pending, action, false),
            None => {
                let list = lease::lasting(before.edits.leases.list@, now);
                let at = lease::place(list, edit_id@);
                &&& but_edits(before, after)
                &&& lease::place(after.edits.leases.list@, edit_id@)
                    == after.edits.leases.list@.len()
                &&& after.edits.leases.list@ == if at < list.len() {
                    list.remove(at)
                } else {
                    list
                }
                &&& if at == list.len() {
                    pending is Over && (action matches ApiAction::Done(Err(error))
                        && edit_failure(error, "Edit session is unknown or already used"@))
                } else if encode_utf8(value@).len() > MAX_EDIT_BYTES {
                    pending is Over && (action matches ApiAction::Done(Err(error))
                        && edit_failure(error, "Edited text exceeds the configured limit"@))
                } else {
                    let commit = EditCommit { value, ..list[at].value };
                    &&& pending == Pending::CommitRevision(commit)
                    &&& action matches ApiAction::Store(StoreCall::Revision { entry_id })
                        && entry_id == commit.entry_id
                }
            },
        },
        Request::EditCancel { edit_id } => match settings_refusal(before) {
            Some(_) => after == before && with_settings(before, pending, action, false),
            None => {
                let list = lease::lasting(before.edits.leases.list@, now);
                let at = lease::place(list, edit_id@);
                &&& but_edits(before, after)
                &&& after.edits.leases.list@ == if at < list.len() {
                    list.remove(at)
                } else {
                    list
                }
                &&& answers(
                    pending,
                    action,
                    Data::EditCancelled { id: edit_id, cancelled: at < list.len() },
                )
            },
        },
        Request::Delete(targets) => {
            &&& after == before
            &&& if actions::deletable(targets@) {
                &&& pending is Operation
                &&& action == ApiAction::Store(StoreCall::RemoveMany(targets))
            } else {
                pending is Over && (action matches ApiAction::Done(Err(error))
                    && actions::targets_refused(targets@, error))
            }
        },
        Request::PublishText(value) => after == before && with_settings(
            before,
            pending,
            action,
            if encode_utf8(value@).len() == 0 {
                pending is Over && (action matches ApiAction::Done(Err(error)) && error.invalid(
                    "clipboard content must not be empty"@,
                ))
            } else {
                &&& pending is Operation
                &&& action matches ApiAction::Store(
                    StoreCall::Publish { mime, content, max_bytes: limit },
                ) && mime@ == "text/plain;charset=utf-8"@ && content@ == encode_utf8(value@)
                    && limit == max_bytes
            },
        ),
        Request::Publish { mime, content } => after == before && with_settings(
            before,
            pending,
            action,
            if content@.len() == 0 {
                pending is Over && (action matches ApiAction::Done(Err(error)) && error.invalid(
                    "clipboard content must not be empty"@,
                ))
            } else {
                &&& pending is Operation
                &&& action == ApiAction::Store(StoreCall::Publish { mime, content, max_bytes })
            },
        ),
        Request::PublishFiles(params) => after == before && with_settings(
            before,
            pending,
            action,
            match actions::files_refusal(params) {
                Some(message) => pending is Over && (action matches ApiAction::Done(Err(error))
                    && error.invalid(message)),
                None => {
                    &&& pending is Operation
                    &&& action matches ApiAction::Store(
                        StoreCall::PublishFiles { selection, max_bytes: limit },
                    ) && selection.operation.name() == params.operation@ && selection.paths
                        == params.paths && limit == max_bytes
                },
            },
        ),
        Request::SetPaused { paused, private_mode } => after == before && exists|
            step: settings::Step,
        | #[trigger]
            pause_begun(before.settings, paused, private_mode, step) && settings_stepped(
                step,
                true,
                pending,
                action,
            ),
        Request::Screenshot(region) => after == before && with_settings(
            before,
            pending,
            action,
            if region.bounded() {
                &&& pending is Operation
                &&& action == ApiAction::Store(StoreCall::Screenshot { region, max_bytes })
            } else {
                pending is Over && (action matches ApiAction::Done(Err(error)) && error.invalid(
                    "screenshot must be at most 16384 pixels wide and high and 32 megapixels in area"@,
                ))
            },
        ),
        Request::Interactive(screenshot) => after == before && with_settings(
            before,
            pending,
            action,
            pending is Operation && action == ApiAction::Store(
                StoreCall::Interactive { screenshot, max_bytes },
            ),
        ),
        Request::SettingsGet => after == before && with_settings(
            before,
            pending,
            action,
            pending is Settings && action is Limits,
        ),
        Request::SettingsUpdate(update) => after == before && exists|step: settings::Step| #[trigger]
            update_begun(before.settings, update, step) && settings_stepped(
                step,
                false,
                pending,
                action,
            ),
        Request::WipePrepare => challenged(before, now, after, pending, action),
        Request::WipeCommit { challenge_id, response } => wipe_begun(
            before,
            challenge_id@,
            response@,
            now,
            after,
            pending,
            action,
        ),
    }
}

/// How a change of the capture begins.
pub open spec fn pause_begun(
    manager: SettingsManager,
    paused: bool,
    private: bool,
    step: settings::Step,
) -> bool {
    &&& manager.runs(step.task)
    &&& step.task.purpose == settings::Purpose::Capture
    &&& match manager.load_error {
        Some(error) => settings::fails(step.task, step, error@),
        None => {
            let desired = ClipboardSettings {
                capture_paused: paused,
                private_mode: paused && private,
                ..manager.value
            };
            &&& step.task.desired == desired
            &&& step.task.phase is SavePreference
            &&& step.action == (settings::Action::Save { value: desired, with_engine: false })
        },
    }
}

/// How a change of the limits begins.
pub open spec fn update_begun(
    manager: SettingsManager,
    update: SettingsUpdate,
    step: settings::Step,
) -> bool {
    &&& manager.runs(step.task)
    &&& step.task.purpose == settings::Purpose::Update
    &&& match manager.load_error {
        Some(error) => settings::fails(step.task, step, error@),
        None => if !update.in_range() {
            settings::fails(
                step.task,
                step,
                "Clipboard setting is outside the supported range"@,
            )
        } else {
            let desired = update.applied(manager.value);
            &&& step.task.desired == desired
            &&& desired != manager.value ==> step.task.phase is SaveSettings && step.action == (
            settings::Action::Save { value: desired, with_engine: true })
            &&& desired == manager.value ==> step.task.phase is CheckLimits && step.action
                == settings::Action::Limits
        },
    }
}

/// What a request waits for makes sense: a change of the settings that is under
/// way is one of these settings.
pub open spec fn waits_well(service: ApiService, pending: Pending) -> bool {
    match pending {
        Pending::SetPaused(task) => service.settings.runs(task),
        Pending::Update(task) => service.settings.runs(task),
        Pending::WipeRecovery { task, .. } => service.settings.runs(task),
        _ => true,
    }
}

impl ApiService {
    /// Begins with a query.
    fn begin_query(&mut self, params: QueryParams, owner: Option<String>, collapse: bool) -> (next:
        (Pending, ApiAction))
        requires
            old(self).wf(),
            collapse == old(self).settings.shown().collapse_self_echoes,
        ensures
            final(self).wf(),
            waits_well(*final(self), next.0),
            query_begun(*old(self), params, owner, *final(self), next.0, next.1),
    {
        if let Err(error) = validate_query(&params) {
            return failed(error);
        }
        if params.fuzzy {
            return match self.search.begin(params, owner, collapse) {
                Ok(search) => (Pending::Search(search), ApiAction::Store(StoreCall::ChangeToken)),
                Err(error) => failed(error),
            };
        }
        let query = HistoryQuery {
            query: params.query,
            generation: params.generation,
            offset: params.offset,
            limit: params.limit,
            collapse_self_echoes: collapse,
        };
        (Pending::Query, ApiAction::Store(StoreCall::Query(query)))
    }

    /// Hands out a challenge to wipe the history.
    fn prepare_wipe(&mut self, now: u64) -> (next: (Pending, ApiAction))
        requires
            old(self).wf(),
        ensures
            final(self).wf(),
            waits_well(*final(self), next.0),
            challenged(*old(self), now, *final(self), next.0, next.1),
    {
        let fresh = fresh_id();
        let id = text::join("challenge-", fresh.as_str());
        assert(id@.take("challenge-"@.len() as int) =~= "challenge-"@);
        self.challenges.expire(now);
        let ghost lasting = self.challenges;
        self.challenges.issue(id.clone(), (), deadline(now, CHALLENGE_TTL));
        assert(self.challenges.list@.drop_last() =~= lasting.without(id@));
        done(Data::Challenge { id })
    }

    /// Begins to wipe the history, where the challenge is met.
    fn begin_wipe(&mut self, challenge_id: &str, response: &str, now: u64) -> (next: (
        Pending,
        ApiAction,
    ))
        requires
            old(self).wf(),
        ensures
            final(self).wf(),
            waits_well(*final(self), next.0),
            wipe_begun(
                *old(self),
                challenge_id@,
                response@,
                now,
                *final(self),
                next.0,
                next.1,
            ),
    {
        if !text::same(response, "WIPE") {
            return failed(ApiError::validation("wipe confirmation must be WIPE"));
        }
        match self.challenges.take(challenge_id, now) {
            Taken::Unknown => failed(
                ApiError::new("stale-action", "wipe challenge is unknown or already used"),
            ),
            Taken::Expired => failed(ApiError::new("stale-action", "wipe challenge expired")),
            Taken::Granted(_) => (
                Pending::WipeFence { paused: false },
                ApiAction::Settings(
                    settings::Action::Control {
                        paused: true,
                        max_bytes: self.settings.value.max_entry_bytes,
                    },
                ),
            ),
        }
    }
}

impl ApiService {
    /// Commits an edit that has not expired.
    fn commit_edit(&mut self, edit_id: String, value: String, now: u64) -> (next: (
        Pending,
        ApiAction,
    ))
        requires
            old(self).wf(),
            settings_refusal(*old(self)) is None,
        ensures
            final(self).wf(),
            waits_well(*final(self), next.0),
            began(
                *old(self),
                (Request::EditCommit { edit_id, value }),
                None,
                now,
                *final(self),
                next.0,
                next.1,
            ),
    {
        self.edits.expire(now);
        proof {
            let list = self.edits.leases.list@;
            lease::lasting_is_kept(old(self).edits.leases.list@, now);
            lease::place_is_first(list, edit_id@);
            let at = lease::place(list, edit_id@);
            assert(at < list.len() ==> list[at].expires > now);
        }
        match self.edits.commit(edit_id.as_str(), value, now) {
            Ok(commit) => {
                let entry_id = commit.entry_id.clone();
                (
                    Pending::CommitRevision(commit),
                    ApiAction::Store(StoreCall::Revision { entry_id }),
                )
            },
            Err(message) => failed(ApiError::new("edit-error", message)),
        }
    }

    /// The method that a caller asks for by this name. What is bounded by the
    /// settings is refused where they cannot be used.
    pub fn method(&self, name: &str) -> (method: Result<Method, ApiError>)
        ensures
            match settings_refusal(*self) {
                Some(message) if bounded_by_settings(name@) => method matches Err(error)
                    && settings_failure(error, message),
                _ => match method {
                    Ok(method) => method_named(name@) == Some(method),
                    Err(error) => method_named(name@) is None && error.is(
                        "unsupported-method"@,
                        unsupported(name@),
                    ),
                },
            },
    {
        let bounded: bool = text::starts_with(name, "clipboard.entry.") && !text::same(
            name,
            "clipboard.entry.details",
        ) && !text::same(name, "clipboard.entry.thumbnail") || text::same(
            name,
            "clipboard.capture.screenshot",
        );
        match &self.settings.load_error {
            Some(message) => if bounded {
                return Err(settings_error(message.clone()));
            },
            None => {},
        }
        route(name)
    }

    /// Begins with a request of `owner`.
    pub fn dispatch_owned(&mut self, request: Request, owner: Option<String>, now: u64) -> (next: (
        Pending,
        ApiAction,
    ))
        requires
            old(self).wf(),
        ensures
            final(self).wf(),
            waits_well(*final(self), next.0),
            began(*old(self), request, owner, now, *final(self), next.0, next.1),
    {
        match request {
            Request::SessionBegin { target } => {
                let view = self.sessions.begin(target, now);
                done(Data::Session(view))
            },
            Request::SessionEnd { session_id } => {
                let view = self.sessions.end(session_id.as_str());
                done(Data::Session(view))
            },
            Request::SessionHidden { session_id } => {
                match self.sessions.hidden(session_id.as_str(), now) {
                    Ok(hidden) => done(Data::Hidden(hidden)),
                    Err(message) => {
                        assert(session::hides(
                            old(self).sessions.sessions@,
                            self.sessions.sessions@,
                            session_id@,
                            now,
                            Err(message),
                        ));
                        failed(ApiError::new("stale-target", message))
                    },
                }
            },
            Request::Details(params) => ask_for_details(
                params.entry_id,
                Pending::Details { revision: params.revision },
            ),
            Request::Thumbnail(params) => {
                if let Err(error) = validate_entry_id(params.entry_id.as_str()) {
                    return failed(error);
                }
                let entry_id = params.entry_id.clone();
                (
                    Pending::ThumbnailRevision(params),
                    ApiAction::Store(StoreCall::Revision { entry_id }),
                )
            },
            Request::Delete(targets) => match validate_targets(&targets) {
                Ok(_) => (Pending::Operation, ApiAction::Store(StoreCall::RemoveMany(targets))),
                Err(error) => failed(error),
            },
            Request::SetPaused { paused, private_mode } => {
                let step = self.settings.set_paused(paused, private_mode);
                assert(pause_begun(self.settings, paused, private_mode, step));
                settings_next(step, true)
            },
            Request::SettingsUpdate(update) => {
                let step = self.settings.update(update);
                assert(update_begun(self.settings, update, step));
                settings_next(step, false)
            },
            Request::WipePrepare => self.prepare_wipe(now),
            Request::WipeCommit { challenge_id, response } => self.begin_wipe(
                challenge_id.as_str(),
                response.as_str(),
                now,
            ),
            request => match self.settings.get() {
                Ok(current) => self.dispatch_with(request, owner, now, current),
                Err(message) => failed(settings_error(message)),
            },
        }
    }

    /// Begins with a request that needs the settings.
    fn dispatch_with(
        &mut self,
        request: Request,
        owner: Option<String>,
        now: u64,
        current: ClipboardSettings,
    ) -> (next: (Pending, ApiAction))
        requires
            old(self).wf(),
            settings_refusal(*old(self)) is None,
            current == old(self).settings.shown(),
            request is Query || request is Action || request is EditBegin || request is EditCommit
                || request is EditCancel || request is PublishText || request is Publish
                || request is PublishFiles || request is Screenshot || request is Interactive
                || request is SettingsGet,
        ensures
            final(self).wf(),
            waits_well(*final(self), next.0),
            began(*old(self), request, owner, now, *final(self), next.0, next.1),
    {
        let max_bytes = current.max_entry_bytes;
        match request {
            Request::Query(params) => self.begin_query(
                params,
                owner,
                current.collapse_self_echoes,
            ),
            Request::Action(params) => {
                self.edits.expire(now);
                let id = params.entry_id.clone();
                ask_for_details(id, Pending::ActionDetails { params, max_bytes })
            },
            Request::EditBegin(params) => {
                self.edits.expire(now);
                ask_for_details(
                    params.entry_id,
                    Pending::EditDetails { revision: params.revision },
                )
            },
            Request::EditCommit { edit_id, value } => self.commit_edit(edit_id, value, now),
            Request::EditCancel { edit_id } => {
                self.edits.expire(now);
                let cancelled = self.edits.cancel(edit_id.as_str());
                done(Data::EditCancelled { id: edit_id, cancelled })
            },
            Request::PublishText(value) => {
                let mut content: Vec<u8> = Vec::new();
                content.extend_from_slice(value.as_str().as_bytes());
                assert(content@ =~= encode_utf8(value@));
                if let Err(error) = validate_content(content.as_slice()) {
                    return failed(error);
                }
                let mime = "text/plain;charset=utf-8".to_owned();
                (
                    Pending::Operation,
                    ApiAction::Store(StoreCall::Publish { mime, content, max_bytes }),
                )
            },
            Request::Publish { mime, content } => {
                if let Err(error) = validate_content(content.as_slice()) {
                    return failed(error);
                }
                (
                    Pending::Operation,
                    ApiAction::Store(StoreCall::Publish { mime, content, max_bytes }),
                )
            },
            Request::PublishFiles(params) => match file_selection(params) {
                Ok(selection) => (
                    Pending::Operation,
                    ApiAction::Store(StoreCall::PublishFiles { selection, max_bytes }),
                ),
                Err(error) => failed(error),
            },
            Request::Screenshot(region) => match validate_region(&region) {
                Ok(_) => (
                    Pending::Operation,
                    ApiAction::Store(StoreCall::Screenshot { region, max_bytes }),
                ),
                Err(error) => failed(error),
            },
            Request::Interactive(screenshot) => (
                Pending::Operation,
                ApiAction::Store(StoreCall::Interactive { screenshot, max_bytes }),
            ),
            _ => (Pending::Settings, ApiAction::Limits),
        }
    }

    /// Begins with a request of nobody in particular.
    pub fn dispatch(&mut self, request: Request, now: u64) -> (next: (Pending, ApiAction))
        requires
            old(self).wf(),
        ensures
            final(self).wf(),
            waits_well(*final(self), next.0),
            began(*old(self), request, None, now, *final(self), next.0, next.1),
    {
        self.dispatch_owned(request, None, now)
    }

    /// Begins to put content on the clipboard.
    pub fn publish_selection(&mut self, mime: &str, content: Vec<u8>, now: u64) -> (next: (
        Pending,
        ApiAction,
    ))
        requires
            old(self).wf(),
        ensures
            final(self).wf(),
            waits_well(*final(self), next.0),
            exists|named: String|
                named@ == mime@ && #[trigger] began(
                    *old(self),
                    (Request::Publish { mime: named, content }),
                    None,
                    now,
                    *final(self),
                    next.0,
                    next.1,
                ),
    {
        self.dispatch_owned(Request::Publish { mime: mime.to_owned(), content }, None, now)
    }
}

/// The request fails as the store did.
pub open spec fn fails_like(
    pending: Pending,
    action: ApiAction,
    reason: crate::backend::BackendError,
) -> bool {
    pending is Over && (action matches ApiAction::Done(Err(error)) && error.stems_from(reason))
}

/// The request fails because the entry is no longer the one that the caller
/// saw.
pub open spec fn fails_stale(pending: Pending, action: ApiAction) -> bool {
    pending is Over && (action matches ApiAction::Done(Err(error)) && error.stale_entry())
}

/// The event does not belong to what the request waits for.
pub open spec fn out_of_turn(pending: Pending, action: ApiAction) -> bool {
    pending is Over && (action matches ApiAction::Done(Err(error)) && error.is(
        "operation-failed"@,
        "Clipboard request is out of order"@,
    ))
}

/// A search goes on, or is over.
pub open spec fn search_stepped(
    search: Search,
    step: SearchAction,
    pending: Pending,
    action: ApiAction,
) -> bool {
    match step {
        SearchAction::Token => pending == Pending::Search(search) && action == ApiAction::Store(
            StoreCall::ChangeToken,
        ),
        SearchAction::Query(query) => pending == Pending::Search(search) && action
            == ApiAction::Store(StoreCall::Query(query)),
        SearchAction::Rank(items) => pending == Pending::Search(search) && action
            == ApiAction::Rank(items),
        SearchAction::Done(Ok(page)) => answers(pending, action, Data::Found(page)),
        SearchAction::Done(Err(error)) => fails(pending, action, error),
    }
}

/// Something is opened, or why not.
pub open spec fn launch_begun(
    name: String,
    result: Result<Launch, ApiError>,
    pending: Pending,
    action: ApiAction,
) -> bool {
    match result {
        Err(error) => fails(pending, action, error),
        Ok(Launch::Url(url)) => {
            &&& pending == (Pending::Launched { action: name })
            &&& action matches ApiAction::Launch(LaunchCommand::Spawn { program, argument })
                && program@ == "xdg-open"@ && argument@ == encode_utf8(url@)
        },
        Ok(launch) => {
            &&& pending matches Pending::LaunchExists { action: of, launch: what } && of == name
                && launches_same(what, launch)
            &&& action matches ApiAction::Exists(what) && launches_same(what, launch)
        },
    }
}

/// The same is opened.
pub open spec fn launches_same(one: Launch, other: Launch) -> bool {
    match (one, other) {
        (Launch::Url(one), Launch::Url(other)) => one == other,
        (
            Launch::File { path, uri, reveal },
            Launch::File { path: other_path, uri: other_uri, reveal: other_reveal },
        ) => path@ == other_path@ && uri == other_uri && reveal == other_reveal,
        _ => false,
    }
}

/// What is opened for an entry.
pub open spec fn launch_chosen(
    params: ActionParams,
    details: EntryDetails,
    pending: Pending,
    action: ApiAction,
) -> bool {
    exists|result: Result<Launch, ApiError>| #[trigger]
        launch_found(params, details, result) && launch_begun(
            params.action,
            result,
            pending,
            action,
        )
}

/// What there is to open for an entry.
pub open spec fn launch_found(
    params: ActionParams,
    details: EntryDetails,
    result: Result<Launch, ApiError>,
) -> bool {
    if params.action@ == "open-url"@ {
        actions::link_opens(details, result)
    } else {
        actions::file_opens(
            details,
            params.file_index,
            params.action@ == "reveal-file"@,
            result,
        )
    }
}

/// What is done with an entry that was looked at.
pub open spec fn action_chosen(
    before: ApiService,
    params: ActionParams,
    max_bytes: u64,
    details: EntryDetails,
    now: u64,
    after: ApiService,
    pending: Pending,
    action: ApiAction,
) -> bool {
    let name = params.action@;
    if params.revision != details.entry.revision {
        after == before && fails_stale(pending, action)
    } else if !actions::allowed(details.entry.kind, details.files@.len() > 0, name) {
        after == before && pending is Over && (action matches ApiAction::Done(Err(error))
            && error.invalid("action is unsafe for this clipboard type"@))
    } else if name == "open-url"@ || name == "open-file"@ || name == "reveal-file"@ {
        after == before && launch_chosen(params, details, pending, action)
    } else if name == "paste"@ || name == "image-as-file"@ {
        match params.session_id {
            None => after == before && pending is Over && (action matches ApiAction::Done(
                Err(error),
            ) && error.invalid("session_id is required for paste"@)),
            Some(session_id) => {
                &&& but_sessions(before, after)
                &&& exists|available: Result<bool, &'static str>| #[trigger]
                    session::checks(
                        before.sessions.sessions@,
                        after.sessions.sessions@,
                        session_id@,
                        now,
                        available,
                    ) && match available {
                        Err(message) => pending is Over && (action matches ApiAction::Done(
                            Err(error),
                        ) && stale_target(error, message@)),
                        Ok(_) => {
                            &&& pending == (Pending::Pasted { action: params.action, session_id })
                            &&& asks_to_mutate(params, max_bytes, action)
                        },
                    }
            },
        }
    } else {
        &&& after == before
        &&& pending == (Pending::Mutated { action: params.action })
        &&& asks_to_mutate(params, max_bytes, action)
    }
}

/// The store is asked to do what an action means.
pub open spec fn asks_to_mutate(params: ActionParams, max_bytes: u64, action: ApiAction) -> bool {
    &&& BackendMutation::of_action(params.action@, max_bytes) is Some
    &&& action == ApiAction::Store(
        StoreCall::Mutate {
            entry_id: params.entry_id,
            revision: Some(params.revision),
            mutation: BackendMutation::of_action(params.action@, max_bytes)->0,
        },
    )
}

/// A paste is prepared, once its content is on the clipboard.
pub open spec fn paste_prepared(
    before: ApiService,
    name: String,
    session_id: Seq<char>,
    operation: OperationResult,
    now: u64,
    after: ApiService,
    pending: Pending,
    action: ApiAction,
) -> bool {
    &&& but_sessions(before, after)
    &&& exists|available: Result<bool, &'static str>| #[trigger]
        session::arms(
            before.sessions.sessions@,
            after.sessions.sessions@,
            session_id,
            now,
            available,
        ) && match available {
            Err(message) => pending is Over && (action matches ApiAction::Done(Err(error))
                && stale_target(error, message@)),
            Ok(has_target) => {
                let feedback = actions::paste_feedback_of(
                    has_target,
                    name@ == "image-as-file"@,
                );
                &&& pending is Over
                &&& action matches ApiAction::Done(Ok(Data::Operation(told))) && told.id
                    == operation.id && told.action == name && (told.status@, told.message@)
                    == feedback && told.path == operation.path && told.warning
                    == operation.warning
            },
        }
}

/// What is told of a wiped history, once the capture was to go on.
pub open spec fn wipe_told(
    outcome: BackendResult<OperationResult>,
    recovery: Result<ClipboardSettings, String>,
    pending: Pending,
    action: ApiAction,
) -> bool {
    match outcome {
        Err(reason) => fails_like(pending, action, reason),
        Ok(operation) => {
            &&& pending is Over
            &&& action matches ApiAction::Done(Ok(Data::Operation(told))) && told.id
                == operation.id && told.action == operation.action && told.status
                == operation.status && told.message == operation.message && told.path
                == operation.path && match recovery {
                Ok(_) => told.warning == operation.warning,
                Err(message) => text::maybe(told.warning) == Some(
                    "Capture could not be resumed: "@ + message@,
                ),
            }
        },
    }
}

/// The capture is brought back after the history was wiped, or that is over.
pub open spec fn recovery_stepped(
    step: settings::Step,
    outcome: BackendResult<OperationResult>,
    pending: Pending,
    action: ApiAction,
) -> bool {
    match step.action {
        settings::Action::Done(recovery) => wipe_told(outcome, recovery, pending, action),
        _ => {
            &&& pending == (Pending::WipeRecovery { task: step.task, outcome })
            &&& action == ApiAction::Settings(step.action)
        },
    }
}

/// How the capture begins to be brought back.
pub open spec fn recovery_begun(
    before: SettingsManager,
    after: SettingsManager,
    step: settings::Step,
) -> bool {
    &&& after.runs(step.task)
    &&& step.task.purpose == settings::Purpose::Capture
    &&& match before.load_error {
        Some(error) => after == before && settings::fails(step.task, step, error@),
        None => {
            &&& settings::recorded(
                before.with_collector(
                    settings::Collector::Told { max_bytes: before.value.max_entry_bytes },
                ),
                after,
                Some("Capture transition is not yet verified"@),
            )
            &&& step.task.desired == before.value
            &&& step.task.phase is SetCapture
            &&& step.action == (settings::Action::Control {
                paused: before.value.capture_paused,
                max_bytes: before.value.max_entry_bytes,
            })
        },
    }
}

/// The history is not wiped, because the capture is not known to have stopped.
pub open spec fn fence_failed(
    before: ApiService,
    message: Seq<char>,
    after: ApiService,
    pending: Pending,
    action: ApiAction,
) -> bool {
    &&& but_settings(before, after)
    &&& settings::recorded(before.settings, after.settings, Some(message))
    &&& pending is Over
    &&& action matches ApiAction::Done(Err(error)) && settings_failure(error, message)
}

/// What `event` makes of a request.
pub open spec fn resumed(
    before: ApiService,
    waiting: Pending,
    event: ApiEvent,
    now: u64,
    after: ApiService,
    pending: Pending,
    action: ApiAction,
) -> bool {
    match (waiting, event) {
        (Pending::Query, ApiEvent::Page(Ok(page))) => after == before && answers(
            pending,
            action,
            Data::History(page),
        ),
        (Pending::Query, ApiEvent::Page(Err(reason))) => after == before && fails_like(
            pending,
            action,
            reason,
        ),
        (Pending::Search(search), ApiEvent::Token(token)) => search_resumed(
            before,
            search,
            SearchEvent::Token(token),
            now,
            after,
            pending,
            action,
        ),
        (Pending::Search(search), ApiEvent::Page(page)) => search_resumed(
            before,
            search,
            SearchEvent::Page(page),
            now,
            after,
            pending,
            action,
        ),
        (Pending::Search(search), ApiEvent::Ranked(keys)) => search_resumed(
            before,
            search,
            SearchEvent::Ranked(keys),
            now,
            after,
            pending,
            action,
        ),
        (Pending::Details { revision }, ApiEvent::Details(Ok(details))) => {
            &&& after == before
            &&& if revision is None || revision == Some(details.entry.revision) {
                answers(pending, action, Data::Entry(details))
            } else {
                fails_stale(pending, action)
            }
        },
        (Pending::Details { .. }, ApiEvent::Details(Err(reason))) => after == before && fails_like(
            pending,
            action,
            reason,
        ),
        (Pending::ThumbnailRevision(params), ApiEvent::Revision(Ok(revision))) => {
            &&& after == before
            &&& if params.revision is None || params.revision == Some(revision) {
                &&& pending is Thumbnail
                &&& action == ApiAction::Store(
                    StoreCall::Thumbnail {
                        entry_id: params.entry_id,
                        revision: Some(revision),
                        edge: match params.edge {
                            Some(edge) => edge,
                            None => 512,
                        },
                    },
                )
            } else {
                fails_stale(pending, action)
            }
        },
        (
            Pending::ThumbnailRevision(_),
            ApiEvent::Revision(Err(reason)),
        ) => after == before && fails_like(pending, action, reason),
        (Pending::Thumbnail, ApiEvent::Thumbnail(Ok(thumbnail))) => after == before && answers(
            pending,
            action,
            Data::Thumbnail(thumbnail),
        ),
        (Pending::Thumbnail, ApiEvent::Thumbnail(Err(reason))) => after == before && fails_like(
            pending,
            action,
            reason,
        ),
        (
            Pending::ActionDetails { params, max_bytes },
            ApiEvent::Details(Ok(details)),
        ) => action_chosen(
            before,
            params,
            max_bytes,
            details,
            now,
            after,
            pending,
            action,
        ),
        (
            Pending::ActionDetails { .. },
            ApiEvent::Details(Err(reason)),
        ) => after == before && fails_like(pending, action, reason),
        (Pending::LaunchExists { action: name, launch }, ApiEvent::Exists(exists)) => {
            &&& after == before
            &&& exists|result: Result<LaunchCommand, ApiError>| #[trigger]
                actions::commands(launch, exists, result) && match result {
                    Ok(command) => pending == (Pending::Launched { action: name }) && action
                        == ApiAction::Launch(command),
                    Err(error) => fails(pending, action, error),
                }
        },
        (Pending::Launched { action: name }, ApiEvent::Launched(outcome)) => {
            &&& after == before
            &&& pending is Over
            &&& match action {
                ApiAction::Done(Ok(Data::Operation(operation))) => actions::launch_told(
                    name@,
                    outcome,
                    Ok(operation),
                ),
                ApiAction::Done(Err(error)) => actions::launch_told(name@, outcome, Err(error)),
                _ => false,
            }
        },
        (Pending::Mutated { action: name }, ApiEvent::Operation(Ok(operation))) => {
            &&& after == before
            &&& answers(
                pending,
                action,
                Data::Operation(OperationResult { action: name, ..operation }),
            )
        },
        (Pending::Mutated { .. }, ApiEvent::Operation(Err(reason))) => after == before
            && fails_like(pending, action, reason),
        (
            Pending::Pasted { action: name, session_id },
            ApiEvent::Operation(Ok(operation)),
        ) => paste_prepared(
            before,
            name,
            session_id@,
            operation,
            now,
            after,
            pending,
            action,
        ),
        (Pending::Pasted { session_id, .. }, ApiEvent::Operation(Err(reason))) => {
            &&& but_sessions(before, after)
            &&& session::disarms(
                before.sessions.sessions@,
                after.sessions.sessions@,
                session_id@,
            )
            &&& fails_like(pending, action, reason)
        },
        (
            Pending::EditDetails { revision },
            ApiEvent::Details(Ok(details)),
        ) => if revision is Some && revision != Some(details.entry.revision) {
            after == before && fails_stale(pending, action)
        } else {
            match editing::edit_refusal(details) {
                Some(message) => after == before && pending is Over && (
                action matches ApiAction::Done(Err(error)) && edit_failure(error, message)),
                None => {
                    &&& but_edits(before, after)
                    &&& pending is Over
                    &&& action matches ApiAction::Done(Ok(Data::Edit(view))) && text::begins(
                        view.id@,
                        "edit-"@,
                    ) && editing::shows(view, view.id@, details) && editing::opened(
                        before.edits,
                        after.edits,
                        view.id@,
                        details,
                        now,
                    )
                },
            }
        },
        (
            Pending::EditDetails { .. },
            ApiEvent::Details(Err(reason)),
        ) => after == before && fails_like(pending, action, reason),
        (Pending::CommitRevision(commit), ApiEvent::Revision(Ok(revision))) => {
            &&& after == before
            &&& if commit.revision == revision {
                pending is Replaced && action == ApiAction::Store(StoreCall::Replace(commit))
            } else {
                fails_stale(pending, action)
            }
        },
        (
            Pending::CommitRevision(_),
            ApiEvent::Revision(Err(reason)),
        ) => after == before && fails_like(pending, action, reason),
        (Pending::Replaced, ApiEvent::Replaced(Ok(result))) => after == before && answers(
            pending,
            action,
            Data::Replaced(result),
        ),
        (Pending::Replaced, ApiEvent::Replaced(Err(reason))) => after == before && fails_like(
            pending,
            action,
            reason,
        ),
        (Pending::Operation, ApiEvent::Operation(Ok(operation))) => after == before && answers(
            pending,
            action,
            Data::Operation(operation),
        ),
        (Pending::Operation, ApiEvent::Operation(Err(reason))) => after == before && fails_like(
            pending,
            action,
            reason,
        ),
        (Pending::SetPaused(task), ApiEvent::Settings(settled)) => {
            &&& but_settings(before, after)
            &&& exists|step: settings::Step| #[trigger]
                settings::advanced(before.settings, task, settled, after.settings, step)
                    && settings_stepped(step, true, pending, action)
        },
        (Pending::Update(task), ApiEvent::Settings(settled)) => {
            &&& but_settings(before, after)
            &&& exists|step: settings::Step| #[trigger]
                settings::advanced(before.settings, task, settled, after.settings, step)
                    && settings_stepped(step, false, pending, action)
        },
        (Pending::Settings, ApiEvent::Limits(limits)) => {
            &&& after == before
            &&& with_settings(
                before,
                pending,
                action,
                pending is Over && (action matches ApiAction::Done(
                    Ok(Data::Settings { settings, capture, retention }),
                ) && settings == before.settings.shown() && capture.verified
                    == before.settings.capture_verified && capture.desired_paused
                    == before.settings.value.capture_paused && capture.desired_private_mode
                    == before.settings.value.private_mode && capture.private_mode
                    == before.settings.shown().private_mode && capture.paused == (
                if before.settings.capture_verified {
                    Some(before.settings.value.capture_paused)
                } else {
                    None
                }) && text::maybe(capture.error) == text::maybe(before.settings.capture_error)
                    && retention.desired_max_entries == before.settings.value.max_entries
                    && retention.desired_max_favorites == before.settings.value.max_favorites
                    && match limits {
                    Ok(limits) => retention.effective == Some(limits) && retention.error is None
                        && retention.synchronized == settings::in_force(
                        limits,
                        before.settings.value,
                    ),
                    Err(message) => retention.effective is None && retention.error == Some(
                        message,
                    ) && !retention.synchronized,
                }),
            )
        },
        (
            Pending::WipeFence { paused: false },
            ApiEvent::Settings(settings::Event::Done(Ok(_))),
        ) => {
            &&& after == before
            &&& pending == (Pending::WipeFence { paused: true })
            &&& action == ApiAction::Settings(settings::Action::Verify)
        },
        (
            Pending::WipeFence { paused: false },
            ApiEvent::Settings(settings::Event::Done(Err(message))),
        ) => fence_failed(before, message@, after, pending, action),
        (
            Pending::WipeFence { paused: true },
            ApiEvent::Settings(settings::Event::Paused(Ok(stopped))),
        ) => if stopped {
            &&& but_edits(before, after)
            &&& after.edits.leases.list@.len() == 0
            &&& pending is Wiped
            &&& action matches ApiAction::Store(
                StoreCall::Mutate { entry_id, revision: None, mutation: BackendMutation::Wipe },
            ) && entry_id@ == ""@
        } else {
            fence_failed(before, settings::mismatch(), after, pending, action)
        },
        (
            Pending::WipeFence { paused: true },
            ApiEvent::Settings(settings::Event::Paused(Err(message))),
        ) => fence_failed(before, message@, after, pending, action),
        (Pending::Wiped, ApiEvent::Operation(outcome)) => {
            &&& but_settings(before, after)
            &&& exists|step: settings::Step| #[trigger]
                recovery_begun(before.settings, after.settings, step) && recovery_stepped(
                    step,
                    outcome,
                    pending,
                    action,
                )
        },
        (Pending::WipeRecovery { task, outcome }, ApiEvent::Settings(settled)) => {
            &&& but_settings(before, after)
            &&& exists|step: settings::Step| #[trigger]
                settings::advanced(before.settings, task, settled, after.settings, step)
                    && recovery_stepped(step, outcome, pending, action)
        },
        _ => after == before && out_of_turn(pending, action),
    }
}

/// What an event makes of a search.
pub open spec fn search_resumed(
    before: ApiService,
    search: Search,
    event: SearchEvent,
    now: u64,
    after: ApiService,
    pending: Pending,
    action: ApiAction,
) -> bool {
    &&& but_search(before, after)
    &&& after.search.key == before.search.key
    &&& exists|next: Search, step: SearchAction| #[trigger]
        history_search::search_advanced(
            before.search.key@,
            search,
            event,
            (now / 1000) as u64,
            next,
            step,
        ) && search_stepped(next, step, pending, action) && after.search.running
            == if search.holds_place() && !next.holds_place() && before.search.running > 0 {
            before.search.running - 1
        } else {
            before.search.running as int
        }
}

impl ApiService {
    /// A search was given something.
    fn resume_search(&mut self, search: Search, event: SearchEvent, now: u64) -> (next: (
        Pending,
        ApiAction,
    ))
        requires
            old(self).wf(),
        ensures
            final(self).wf(),
            waits_well(*final(self), next.0),
            search_resumed(*old(self), search, event, now, *final(self), next.0, next.1),
    {
        let (further, step) = self.search.advance(search, event, now / 1000);
        assert(history_search::search_advanced(
            old(self).search.key@,
            search,
            event,
            (now / 1000) as u64,
            further,
            step,
        ));
        match step {
            SearchAction::Token => (
                Pending::Search(further),
                ApiAction::Store(StoreCall::ChangeToken),
            ),
            SearchAction::Query(query) => (
                Pending::Search(further),
                ApiAction::Store(StoreCall::Query(query)),
            ),
            SearchAction::Rank(items) => (Pending::Search(further), ApiAction::Rank(items)),
            SearchAction::Done(Ok(page)) => done(Data::Found(page)),
            SearchAction::Done(Err(error)) => failed(error),
        }
    }

    /// The entry that something is to be done with was looked at.
    fn choose_action(
        &mut self,
        params: ActionParams,
        max_bytes: u64,
        details: EntryDetails,
        now: u64,
    ) -> (next: (Pending, ApiAction))
        requires
            old(self).wf(),
        ensures
            final(self).wf(),
            waits_well(*final(self), next.0),
            action_chosen(
                *old(self),
                params,
                max_bytes,
                details,
                now,
                *final(self),
                next.0,
                next.1,
            ),
    {
        if let Err(error) = validate_revision(Some(params.revision), details.entry.revision) {
            return failed(error);
        }
        if let Err(error) = validate_action(&details, params.action.as_str()) {
            return failed(error);
        }
        let name = params.action.as_str();
        if text::same(name, "open-url") || text::same(name, "open-file") || text::same(
            name,
            "reveal-file",
        ) {
            return ApiService::begin_launch(params, &details);
        }
        let paste = text::same(name, "paste") || text::same(name, "image-as-file");
        let mutation = match BackendMutation::for_action(name, max_bytes) {
            Some(mutation) => mutation,
            None => {
                return failed(ApiError::validation("unsupported entry action"));
            },
        };
        let ActionParams { entry_id, revision, action, session_id, file_index: _ } = params;
        let store = ApiAction::Store(
            StoreCall::Mutate { entry_id, revision: Some(revision), mutation },
        );
        if !paste {
            return (Pending::Mutated { action }, store);
        }
        let session_id = match session_id {
            Some(session_id) => session_id,
            None => {
                return failed(ApiError::validation("session_id is required for paste"));
            },
        };
        let available = self.sessions.check(session_id.as_str(), now);
        assert(session::checks(
            old(self).sessions.sessions@,
            self.sessions.sessions@,
            session_id@,
            now,
            available,
        ));
        match available {
            Ok(_) => (Pending::Pasted { action, session_id }, store),
            Err(message) => failed(ApiError::new("stale-target", message)),
        }
    }

    /// Begins to open something of an entry.
    fn begin_launch(params: ActionParams, details: &EntryDetails) -> (next: (Pending, ApiAction))
        ensures
            !(next.0 is SetPaused || next.0 is Update || next.0 is WipeRecovery),
            launch_chosen(params, *details, next.0, next.1),
    {
        let name = params.action.as_str();
        let result = if text::same(name, "open-url") {
            open_link(details)
        } else {
            open_file(details, params.file_index, text::same(name, "reveal-file"))
        };
        assert(launch_found(params, *details, result));
        let action = params.action;
        match result {
            Err(error) => failed(error),
            Ok(Launch::Url(url)) => match launch_command(Launch::Url(url), true) {
                Ok(command) => (Pending::Launched { action }, ApiAction::Launch(command)),
                Err(error) => failed(error),
            },
            Ok(Launch::File { path, uri, reveal }) => {
                let copy = Launch::File {
                    path: bytes::first_bytes(path.as_slice(), path.len()),
                    uri: uri.clone(),
                    reveal,
                };
                (
                    Pending::LaunchExists { action, launch: Launch::File { path, uri, reveal } },
                    ApiAction::Exists(copy),
                )
            },
        }
    }

    /// The content of a paste is on the clipboard.
    fn prepare_paste(
        &mut self,
        action: String,
        session_id: &str,
        operation: OperationResult,
        now: u64,
    ) -> (next: (Pending, ApiAction))
        requires
            old(self).wf(),
        ensures
            final(self).wf(),
            waits_well(*final(self), next.0),
            paste_prepared(
                *old(self),
                action,
                session_id@,
                operation,
                now,
                *final(self),
                next.0,
                next.1,
            ),
    {
        let available = self.sessions.prepare_paste(session_id, now);
        assert(session::arms(
            old(self).sessions.sessions@,
            self.sessions.sessions@,
            session_id@,
            now,
            available,
        ));
        let has_target = match available {
            Ok(has_target) => has_target,
            Err(message) => {
                return failed(ApiError::new("stale-target", message));
            },
        };
        let (status, message) = paste_feedback(
            has_target,
            text::same(action.as_str(), "image-as-file"),
        );
        done(
            Data::Operation(
                OperationResult {
                    id: operation.id,
                    action,
                    status: status.to_owned(),
                    message: message.to_owned(),
                    path: operation.path,
                    warning: operation.warning,
                },
            ),
        )
    }

    /// Goes on to bring the capture back after the history was wiped.
    fn recover(step: settings::Step, outcome: BackendResult<OperationResult>) -> (next: (
        Pending,
        ApiAction,
    ))
        ensures
            next.0 matches Pending::WipeRecovery { task, .. } ==> task == step.task,
            !(next.0 is SetPaused || next.0 is Update),
            recovery_stepped(step, outcome, next.0, next.1),
    {
        match step.action {
            settings::Action::Done(recovery) => match outcome {
                Err(reason) => failed(ApiError::from_backend(reason)),
                Ok(operation) => {
                    let mut told = operation;
                    if let Err(message) = recovery {
                        told.warning = Some(
                            text::join("Capture could not be resumed: ", message.as_str()),
                        );
                    }
                    done(Data::Operation(told))
                },
            },
            action => (
                Pending::WipeRecovery { task: step.task, outcome },
                ApiAction::Settings(action),
            ),
        }
    }

    /// The history is not wiped.
    fn refuse_wipe(&mut self, message: &str) -> (next: (Pending, ApiAction))
        requires
            old(self).wf(),
        ensures
            final(self).wf(),
            waits_well(*final(self), next.0),
            fence_failed(*old(self), message@, *final(self), next.0, next.1),
    {
        self.settings.record_error(message);
        failed(ApiError::new("settings-error", message))
    }

    /// An entry that is to be edited was looked at.
    fn begin_edit(&mut self, revision: Option<u64>, details: EntryDetails, now: u64) -> (next: (
        Pending,
        ApiAction,
    ))
        requires
            old(self).wf(),
        ensures
            final(self).wf(),
            waits_well(*final(self), next.0),
            resumed(
                *old(self),
                (Pending::EditDetails { revision }),
                ApiEvent::Details(Ok(details)),
                now,
                *final(self),
                next.0,
                next.1,
            ),
    {
        if let Err(error) = validate_revision(revision, details.entry.revision) {
            return failed(error);
        }
        match self.edits.begin(&details, now) {
            Ok(view) => done(Data::Edit(view)),
            Err(message) => failed(ApiError::new("edit-error", message)),
        }
    }

    /// Shows the settings, given what the engine said of its limits.
    fn show_settings(&self, limits: Result<EngineLimits, String>) -> (next: (Pending, ApiAction))
        ensures
            next.0 is Over,
            resumed(
                *self,
                Pending::Settings,
                ApiEvent::Limits(limits),
                0,
                *self,
                next.0,
                next.1,
            ),
    {
        match self.settings.get() {
            Ok(settings) => match self.settings.retention_state(limits) {
                Ok(retention) => done(
                    Data::Settings { settings, capture: self.settings.capture_state(), retention },
                ),
                Err(message) => failed(settings_error(message)),
            },
            Err(message) => failed(settings_error(message)),
        }
    }

    /// Takes in what a request was given, and says what it needs next.
    pub fn resume(&mut self, waiting: Pending, event: ApiEvent, now: u64) -> (next: (
        Pending,
        ApiAction,
    ))
        requires
            old(self).wf(),
            waits_well(*old(self), waiting),
        ensures
            final(self).wf(),
            waits_well(*final(self), next.0),
            resumed(*old(self), waiting, event, now, *final(self), next.0, next.1),
    {
        match (waiting, event) {
            (Pending::Query, ApiEvent::Page(Ok(page))) => done(Data::History(page)),
            (Pending::Query, ApiEvent::Page(Err(reason))) => failed(ApiError::from_backend(reason)),
            (Pending::Search(search), ApiEvent::Token(token)) => self.resume_search(
                search,
                SearchEvent::Token(token),
                now,
            ),
            (Pending::Search(search), ApiEvent::Page(page)) => self.resume_search(
                search,
                SearchEvent::Page(page),
                now,
            ),
            (Pending::Search(search), ApiEvent::Ranked(keys)) => self.resume_search(
                search,
                SearchEvent::Ranked(keys),
                now,
            ),
            (
                Pending::Details { revision },
                ApiEvent::Details(Ok(details)),
            ) => match validate_revision(revision, details.entry.revision) {
                Ok(_) => done(Data::Entry(details)),
                Err(error) => failed(error),
            },
            (
                Pending::ThumbnailRevision(params),
                ApiEvent::Revision(Ok(revision)),
            ) => match validate_revision(params.revision, revision) {
                Ok(_) => {
                    let edge: u32 = match params.edge {
                        Some(edge) => edge,
                        None => 512,
                    };
                    (
                        Pending::Thumbnail,
                        ApiAction::Store(
                            StoreCall::Thumbnail {
                                entry_id: params.entry_id,
                                revision: Some(revision),
                                edge,
                            },
                        ),
                    )
                },
                Err(error) => failed(error),
            },
            (Pending::Thumbnail, ApiEvent::Thumbnail(Ok(thumbnail))) => done(
                Data::Thumbnail(thumbnail),
            ),
            (Pending::Thumbnail, ApiEvent::Thumbnail(Err(reason))) => failed(
                ApiError::from_backend(reason),
            ),
            (
                Pending::ActionDetails { params, max_bytes },
                ApiEvent::Details(Ok(details)),
            ) => self.choose_action(params, max_bytes, details, now),
            (Pending::LaunchExists { action, launch }, ApiEvent::Exists(exists)) => {
                let result = launch_command(launch, exists);
                assert(actions::commands(launch, exists, result));
                match result {
                    Ok(command) => (Pending::Launched { action }, ApiAction::Launch(command)),
                    Err(error) => failed(error),
                }
            },
            (Pending::Launched { action }, ApiEvent::Launched(outcome)) => match launched(
                action.as_str(),
                outcome,
            ) {
                Ok(operation) => done(Data::Operation(operation)),
                Err(error) => failed(error),
            },
            (Pending::Mutated { action }, ApiEvent::Operation(Ok(operation))) => {
                let mut told = operation;
                told.action = action;
                done(Data::Operation(told))
            },
            (
                Pending::Pasted { action, session_id },
                ApiEvent::Operation(Ok(operation)),
            ) => self.prepare_paste(action, session_id.as_str(), operation, now),
            (
                Pending::EditDetails { revision },
                ApiEvent::Details(Ok(details)),
            ) => self.begin_edit(revision, details, now),
            (
                Pending::Details { .. } | Pending::ActionDetails { .. } | Pending::EditDetails {
                    ..
                },
                ApiEvent::Details(Err(reason)),
            ) => failed(ApiError::from_backend(reason)),
            (
                Pending::CommitRevision(commit),
                ApiEvent::Revision(Ok(revision)),
            ) => match validate_revision(Some(commit.revision), revision) {
                Ok(_) => (Pending::Replaced, ApiAction::Store(StoreCall::Replace(commit))),
                Err(error) => failed(error),
            },
            (
                Pending::ThumbnailRevision(_) | Pending::CommitRevision(_),
                ApiEvent::Revision(Err(reason)),
            ) => failed(ApiError::from_backend(reason)),
            (Pending::Replaced, ApiEvent::Replaced(Ok(result))) => done(Data::Replaced(result)),
            (Pending::Replaced, ApiEvent::Replaced(Err(reason))) => failed(
                ApiError::from_backend(reason),
            ),
            (Pending::Operation, ApiEvent::Operation(Ok(operation))) => done(
                Data::Operation(operation),
            ),
            (Pending::Pasted { session_id, .. }, ApiEvent::Operation(Err(reason))) => {
                self.sessions.disarm(session_id.as_str());
                failed(ApiError::from_backend(reason))
            },
            (
                Pending::Operation | Pending::Mutated { .. },
                ApiEvent::Operation(Err(reason)),
            ) => failed(ApiError::from_backend(reason)),
            (Pending::SetPaused(task), ApiEvent::Settings(settled)) => {
                let step = self.settings.advance(task, settled);
                assert(settings::advanced(
                    old(self).settings,
                    task,
                    settled,
                    self.settings,
                    step,
                ));
                settings_next(step, true)
            },
            (Pending::Update(task), ApiEvent::Settings(settled)) => {
                let step = self.settings.advance(task, settled);
                assert(settings::advanced(
                    old(self).settings,
                    task,
                    settled,
                    self.settings,
                    step,
                ));
                settings_next(step, false)
            },
            (Pending::Settings, ApiEvent::Limits(limits)) => self.show_settings(limits),
            (
                Pending::WipeFence { paused: false },
                ApiEvent::Settings(settings::Event::Done(Ok(_))),
            ) => (
                Pending::WipeFence { paused: true },
                ApiAction::Settings(settings::Action::Verify),
            ),
            (
                Pending::WipeFence { paused: false },
                ApiEvent::Settings(settings::Event::Done(Err(message))),
            ) => self.refuse_wipe(message.as_str()),
            (
                Pending::WipeFence { paused: true },
                ApiEvent::Settings(settings::Event::Paused(Ok(stopped))),
            ) => {
                if !stopped {
                    return self.refuse_wipe("Capture service does not match the saved preference");
                }
                self.edits.clear();
                (
                    Pending::Wiped,
                    ApiAction::Store(
                        StoreCall::Mutate {
                            entry_id: "".to_owned(),
                            revision: None,
                            mutation: BackendMutation::Wipe,
                        },
                    ),
                )
            },
            (
                Pending::WipeFence { paused: true },
                ApiEvent::Settings(settings::Event::Paused(Err(message))),
            ) => self.refuse_wipe(message.as_str()),
            (Pending::Wiped, ApiEvent::Operation(outcome)) => {
                let step = self.settings.reconcile_capture();
                assert(recovery_begun(old(self).settings, self.settings, step));
                ApiService::recover(step, outcome)
            },
            (Pending::WipeRecovery { task, outcome }, ApiEvent::Settings(settled)) => {
                let step = self.settings.advance(task, settled);
                assert(settings::advanced(
                    old(self).settings,
                    task,
                    settled,
                    self.settings,
                    step,
                ));
                ApiService::recover(step, outcome)
            },
            _ => failed(ApiError::new("operation-failed", "Clipboard request is out of order")),
        }
    }
}

/// The history is wiped only where the capture was asked and has stopped.
pub proof fn a_wipe_needs_a_verified_fence(
    before: ApiService,
    waiting: Pending,
    event: ApiEvent,
    now: u64,
    after: ApiService,
    pending: Pending,
    action: ApiAction,
)
    requires
        resumed(before, waiting, event, now, after, pending, action),
        action matches ApiAction::Store(StoreCall::Mutate { mutation: BackendMutation::Wipe, .. }),
    ensures
        waiting == (Pending::WipeFence { paused: true }),
        event == ApiEvent::Settings(settings::Event::Paused(Ok(true))),
        after.edits.leases.list@.len() == 0,
{
}

/// A challenge is met once: what was taken is not there to be taken again.
pub proof fn a_challenge_is_met_once(
    before: ApiService,
    challenge_id: Seq<char>,
    now: u64,
    after: ApiService,
    pending: Pending,
    action: ApiAction,
    later: u64,
    last: ApiService,
    next: Pending,
    again: ApiAction,
)
    requires
        wipe_begun(before, challenge_id, "WIPE"@, now, after, pending, action),
        wipe_begun(after, challenge_id, "WIPE"@, later, last, next, again),
    ensures
        again matches ApiAction::Done(Err(error)) && error.is(
            "stale-action"@,
            "wipe challenge is unknown or already used"@,
        ),
{
}

/// Where the content of a paste cannot be published, its session is left
/// unarmed, whatever was pasted in it before: hiding it pastes nothing.
pub proof fn failed_publication_leaves_the_session_unarmed(
    before: ApiService,
    waiting: Pending,
    session_id: String,
    name: String,
    reason: crate::backend::BackendError,
    now: u64,
    after: ApiService,
    pending: Pending,
    action: ApiAction,
)
    requires
        before.wf(),
        waiting == (Pending::Pasted { action: name, session_id }),
        resumed(before, waiting, ApiEvent::Operation(Err(reason)), now, after, pending, action),
    ensures
        session::unarmed(after.sessions.sessions@, session_id@),
        forall|rest: Seq<session::Session>, later: u64, hidden: Hidden|
            session::hides(
                after.sessions.sessions@,
                rest,
                session_id@,
                later,
                Ok(hidden),
            ) ==> hidden.paste is None,
        action matches ApiAction::Done(Err(_)),
{
    session::disarmed_sessions_paste_nothing(
        before.sessions.sessions@,
        after.sessions.sessions@,
        session_id@,
    );
}

/// What a call gives that could not be made, for this reason.
pub fn failed_call(call: &StoreCall, error: BackendError) -> (event: ApiEvent)
    ensures
        event == (match *call {
            StoreCall::ChangeToken => ApiEvent::Token(Err(error)),
            StoreCall::Query(_) => ApiEvent::Page(Err(error)),
            StoreCall::Revision { .. } => ApiEvent::Revision(Err(error)),
            StoreCall::Details { .. } => ApiEvent::Details(Err(error)),
            StoreCall::Thumbnail { .. } => ApiEvent::Thumbnail(Err(error)),
            StoreCall::Replace(_) => ApiEvent::Replaced(Err(error)),
            _ => ApiEvent::Operation(Err(error)),
        }),
{
    match call {
        StoreCall::ChangeToken => ApiEvent::Token(Err(error)),
        StoreCall::Query(_) => ApiEvent::Page(Err(error)),
        StoreCall::Revision { .. } => ApiEvent::Revision(Err(error)),
        StoreCall::Details { .. } => ApiEvent::Details(Err(error)),
        StoreCall::Thumbnail { .. } => ApiEvent::Thumbnail(Err(error)),
        StoreCall::Replace(_) => ApiEvent::Replaced(Err(error)),
        _ => ApiEvent::Operation(Err(error)),
    }
}

/// Asks a store: makes the one call that is meant, with what it is meant with.
/// What the store answers is the event.
pub fn ask_store<B: ClipboardBackend>(store: &mut B, call: StoreCall) -> (event: ApiEvent)
    ensures
        match call {
            StoreCall::ChangeToken => {
                &&& *final(store) == *old(store)
                &&& event matches ApiEvent::Token(result) && call_ensures(
                    B::change_token,
                    (&*old(store),),
                    result,
                )
            },
            StoreCall::Query(query) => event matches ApiEvent::Page(result) && exists|
                asked: &mut B,
            |
                *asked == *old(store)
                    && *final(asked) == *final(store)
                    && #[trigger] call_ensures(B::query, (asked, query), result),
            StoreCall::Revision { entry_id } => event matches ApiEvent::Revision(result) && exists|
                asked: &mut B,
                id: &str,
            |
                *asked == *old(store)
                    && *final(asked) == *final(store)
                    && id@ == entry_id@
                    && #[trigger] call_ensures(B::revision, (asked, id), result),
            StoreCall::Details { entry_id, max_text_bytes } => event matches ApiEvent::Details(result) && exists|
                asked: &mut B,
                id: &str,
            |
                *asked == *old(store)
                    && *final(asked) == *final(store)
                    && id@ == entry_id@
                    && #[trigger] call_ensures(B::details, (asked, id, max_text_bytes), result),
            StoreCall::Thumbnail { entry_id, revision, edge } => event matches ApiEvent::Thumbnail(result) && exists|
                asked: &mut B,
                id: &str,
            |
                *asked == *old(store)
                    && *final(asked) == *final(store)
                    && id@ == entry_id@
                    && #[trigger] call_ensures(B::thumbnail, (asked, id, revision, edge), result),
            StoreCall::Screenshot { region, max_bytes } => event matches ApiEvent::Operation(result) && exists|
                asked: &mut B,
            |
                *asked == *old(store)
                    && *final(asked) == *final(store)
                    && #[trigger] call_ensures(B::capture_screenshot, (asked, region, max_bytes), result),
            StoreCall::Interactive { screenshot, max_bytes } => event matches ApiEvent::Operation(result) && exists|
                asked: &mut B,
            |
                *asked == *old(store)
                    && *final(asked) == *final(store)
                    && #[trigger] call_ensures(B::capture_interactive, (asked, screenshot, max_bytes), result),
            StoreCall::Publish { mime, content, max_bytes } => event matches ApiEvent::Operation(result) && exists|
                asked: &mut B,
                name: &str,
            |
                *asked == *old(store)
                    && *final(asked) == *final(store)
                    && name@ == mime@
                    && #[trigger] call_ensures(B::publish, (asked, name, content, max_bytes), result),
            StoreCall::PublishFiles { selection, max_bytes } => event matches ApiEvent::Operation(result) && exists|
                asked: &mut B,
            |
                *asked == *old(store)
                    && *final(asked) == *final(store)
                    && #[trigger] call_ensures(B::publish_files, (asked, selection, max_bytes), result),
            StoreCall::Mutate { entry_id, revision, mutation } => event matches ApiEvent::Operation(result) && exists|
                asked: &mut B,
                id: &str,
            |
                *asked == *old(store)
                    && *final(asked) == *final(store)
                    && id@ == entry_id@
                    && #[trigger] call_ensures(B::mutate, (asked, id, revision, mutation), result),
            StoreCall::RemoveMany(targets) => event matches ApiEvent::Operation(result) && exists|
                asked: &mut B,
                list: &[EntryTarget],
            |
                *asked == *old(store)
                    && *final(asked) == *final(store)
                    && list@ == targets@
                    && #[trigger] call_ensures(B::remove_many, (asked, list), result),
            StoreCall::Replace(commit) => event matches ApiEvent::Replaced(result) && exists|
                asked: &mut B,
                id: &str,
                mime: &str,
                content: &[u8],
            |
                *asked == *old(store)
                    && *final(asked) == *final(store)
                    && id@ == commit.entry_id@
                    && mime@ == commit.mime@
                    && content@ == encode_utf8(commit.value@)
                    && #[trigger] call_ensures(B::replace, (asked, id, commit.revision, mime, content), result),
        },
{
    match call {
        StoreCall::ChangeToken => ApiEvent::Token(store.change_token()),
        StoreCall::Query(query) => ApiEvent::Page(store.query(query)),
        StoreCall::Revision { entry_id } => ApiEvent::Revision(store.revision(entry_id.as_str())),
        StoreCall::Details { entry_id, max_text_bytes } => ApiEvent::Details(
            store.details(entry_id.as_str(), max_text_bytes),
        ),
        StoreCall::Thumbnail { entry_id, revision, edge } => ApiEvent::Thumbnail(
            store.thumbnail(entry_id.as_str(), revision, edge),
        ),
        StoreCall::Screenshot { region, max_bytes } => ApiEvent::Operation(
            store.capture_screenshot(region, max_bytes),
        ),
        StoreCall::Interactive { screenshot, max_bytes } => ApiEvent::Operation(
            store.capture_interactive(screenshot, max_bytes),
        ),
        StoreCall::Publish { mime, content, max_bytes } => ApiEvent::Operation(
            store.publish(mime.as_str(), content, max_bytes),
        ),
        StoreCall::PublishFiles { selection, max_bytes } => ApiEvent::Operation(
            store.publish_files(selection, max_bytes),
        ),
        StoreCall::Mutate { entry_id, revision, mutation } => ApiEvent::Operation(
            store.mutate(entry_id.as_str(), revision, mutation),
        ),
        StoreCall::RemoveMany(targets) => ApiEvent::Operation(
            store.remove_many(targets.as_slice()),
        ),
        StoreCall::Replace(commit) => ApiEvent::Replaced(
            store.replace(
                commit.entry_id.as_str(),
                commit.revision,
                commit.mime.as_str(),
                commit.value.as_str().as_bytes(),
            ),
        ),
    }
}

} // verus!
