//! How what is under way goes on: every step is taken by the rules that the other laws
//! speak of.
use crate::api;
use crate::api::{ApiAction, ApiEvent, ApiService, Pending, Request, StoreCall};
use crate::backend::{BackendError, BackendResult, EntryTarget};
use crate::history_search;
use crate::history_search::{HistorySearch, Search, SearchAction, SearchEvent};
use crate::policy;
use crate::ringboard::deletion;
use crate::ringboard::deletion::{
    CleanupAction, CleanupEvent, CleanupJob, DeleteAction, DeleteEvent, DeleteJob, DeleteStage,
};
use crate::ringboard::details;
use crate::ringboard::details::{GlanceAction, GlanceEvent, GlanceJob};
use crate::ringboard::mutation;
use crate::ringboard::mutation::{EntryJob, JobAction, JobEvent};
use crate::ringboard::replacement;
use crate::ringboard::replacement::{ReplaceAction, ReplaceEvent, ReplaceJob};
use crate::ringboard::RingboardBackend;
use crate::settings;
use crate::settings::{Action, Event, SettingsManager, Step, Task};
use vstd::prelude::*;
use vstd::string::*;

verus! {

/// What is done with an entry goes on by its rules.
pub proof fn jobs_go_by_their_rules(
    before: RingboardBackend,
    job: EntryJob,
    event: JobEvent,
    now: u64,
    after: RingboardBackend,
    next: (EntryJob, JobAction),
)
    requires
        exists|asked: &mut RingboardBackend|
            *asked == before && *final(asked) == after && #[trigger] call_ensures(
                RingboardBackend::advance_job,
                (asked, job, event, now),
                next,
            ),
    ensures
        mutation::job_advanced(before, job, event, now, after, next.0, next.1),
{
}

/// A replacement goes on by its rules.
pub proof fn replacements_go_by_their_rules(
    before: RingboardBackend,
    job: ReplaceJob,
    event: ReplaceEvent,
    now: u64,
    after: RingboardBackend,
    next: (ReplaceJob, ReplaceAction),
)
    requires
        exists|asked: &mut RingboardBackend|
            *asked == before && *final(asked) == after && #[trigger] call_ensures(
                RingboardBackend::advance_replacement,
                (asked, job, event, now),
                next,
            ),
    ensures
        replacement::replace_advanced(before, job, event, now, after, next.0, next.1),
{
}

/// A deletion begins with its first entry, where that was shown, and goes on by its
/// rules.
pub proof fn deletions_go_by_their_rules(
    before: RingboardBackend,
    targets: Vec<EntryTarget>,
    begun: (DeleteJob, DeleteAction),
    job: DeleteJob,
    event: DeleteEvent,
    after: RingboardBackend,
    next: (DeleteJob, DeleteAction),
)
    requires
        targets@.len() > 0,
        call_ensures(RingboardBackend::begin_deletion, (&before, targets), begun),
        exists|asked: &mut RingboardBackend|
            *asked == before && *final(asked) == after && #[trigger] call_ensures(
                RingboardBackend::advance_deletion,
                (asked, job, event),
                next,
            ),
    ensures
        begun.0.targets == targets,
        begun.0.proven@.len() == 0,
        before.ids@.contains_key(targets@[0].opaque_id@) ==> begun.1 == (DeleteAction::Load {
            raw_id: before.ids@[targets@[0].opaque_id@].raw_id,
        }) && begun.0.stage == (DeleteStage::Loading {
            binding: before.ids@[targets@[0].opaque_id@],
        }),
        !before.ids@.contains_key(targets@[0].opaque_id@) ==> (begun.1 matches DeleteAction::Done(
            Err(error),
        ) && error.kind is NotFound),
        deletion::delete_advanced(before, job, event, after, next.0, next.1),
{
}

/// Clearing goes on by its rules.
pub proof fn clearing_goes_by_its_rules(
    before: RingboardBackend,
    job: CleanupJob,
    event: CleanupEvent,
    now: u64,
    after: RingboardBackend,
    next: (CleanupJob, CleanupAction),
)
    requires
        exists|asked: &mut RingboardBackend|
            *asked == before && *final(asked) == after && #[trigger] call_ensures(
                RingboardBackend::advance_cleanup,
                (asked, job, event, now),
                next,
            ),
    ensures
        deletion::cleanup_advanced(before, job, event, now, after, next.0, next.1),
{
}

/// A look at an entry goes on by its rules.
pub proof fn looks_go_by_their_rules(
    before: RingboardBackend,
    job: GlanceJob,
    event: GlanceEvent,
    after: RingboardBackend,
    next: (GlanceJob, GlanceAction),
)
    requires
        exists|asked: &mut RingboardBackend|
            *asked == before && *final(asked) == after && #[trigger] call_ensures(
                RingboardBackend::advance_glance,
                (asked, job, event),
                next,
            ),
    ensures
        details::glance_advanced(before, job, event, after, next.0, next.1),
{
}

/// A search goes on by its rules, and gives its place back once it needs none.
pub proof fn searches_go_by_their_rules(
    before: HistorySearch,
    search: Search,
    event: SearchEvent,
    elapsed: u64,
    after: HistorySearch,
    next: (Search, SearchAction),
)
    requires
        exists|asked: &mut HistorySearch|
            *asked == before && *final(asked) == after && #[trigger] call_ensures(
                HistorySearch::advance,
                (asked, search, event, elapsed),
                next,
            ),
    ensures
        history_search::search_advanced(before.key@, search, event, elapsed, next.0, next.1),
        after.key == before.key,
        !(search.stage is Finishing || search.stage is Over) && (next.0.stage is Finishing
            || next.0.stage is Over) && before.running > 0 ==> after.running == before.running - 1,
        (search.stage is Finishing || search.stage is Over) || !(next.0.stage is Finishing
            || next.0.stage is Over) ==> after.running == before.running,
{
}

/// A change of the settings goes on by its rules.
pub proof fn changes_of_settings_go_by_their_rules(
    before: SettingsManager,
    task: Task,
    event: Event,
    after: SettingsManager,
    step: Step,
)
    requires
        exists|asked: &mut SettingsManager|
            *asked == before && *final(asked) == after && #[trigger] call_ensures(
                SettingsManager::advance,
                (asked, task, event),
                step,
            ),
    ensures
        settings::advanced(before, task, event, after, step),
{
}

/// A request begins, and goes on, by its rules, whoever makes it.
pub proof fn requests_go_by_their_rules(
    before: ApiService,
    request: Request,
    owner: Option<String>,
    now: u64,
    after: ApiService,
    next: (Pending, ApiAction),
    waiting: Pending,
    event: ApiEvent,
    resumed: ApiService,
    step: (Pending, ApiAction),
    nobody: ApiService,
    unowned: (Pending, ApiAction),
)
    requires
        exists|asked: &mut ApiService|
            *asked == before && *final(asked) == after && #[trigger] call_ensures(
                ApiService::dispatch_owned,
                (asked, request, owner, now),
                next,
            ),
        exists|asked: &mut ApiService|
            *asked == before && *final(asked) == resumed && #[trigger] call_ensures(
                ApiService::resume,
                (asked, waiting, event, now),
                step,
            ),
        exists|asked: &mut ApiService|
            *asked == before && *final(asked) == nobody && #[trigger] call_ensures(
                ApiService::dispatch,
                (asked, request, now),
                unowned,
            ),
    ensures
        api::began(before, request, owner, now, after, next.0, next.1),
        api::resumed(before, waiting, event, now, resumed, step.0, step.1),
        api::began(before, request, None, now, nobody, unowned.0, unowned.1),
{
}

/// Content that is published directly is handed to the store as it is.
pub proof fn content_is_published_as_it_is(
    before: ApiService,
    mime: &str,
    content: Vec<u8>,
    now: u64,
    after: ApiService,
    next: (Pending, ApiAction),
)
    requires
        before.settings.load_error is None,
        content@.len() > 0,
        exists|asked: &mut ApiService|
            *asked == before && *final(asked) == after && #[trigger] call_ensures(
                ApiService::publish_selection,
                (asked, mime, content, now),
                next,
            ),
    ensures
        next.1 matches ApiAction::Store(StoreCall::Publish { mime: sent, content: bytes, max_bytes })
            && sent@ == mime@ && bytes@ == content@ && max_bytes
            == before.settings.value.max_entry_bytes,
{
}

/// A call that could not be made fails as what it was to give.
pub proof fn failed_calls_fail_as_what_they_are(
    call: StoreCall,
    error: BackendError,
    event: ApiEvent,
)
    requires
        call_ensures(api::failed_call, (&call, error), event),
    ensures
        call is ChangeToken ==> event == ApiEvent::Token(Err(error)),
        call is Query ==> event == ApiEvent::Page(Err(error)),
        call is Revision ==> event == ApiEvent::Revision(Err(error)),
        call is Details ==> event == ApiEvent::Details(Err(error)),
        call is Thumbnail ==> event == ApiEvent::Thumbnail(Err(error)),
        call is Replace ==> event == ApiEvent::Replaced(Err(error)),
        call is Mutate || call is RemoveMany || call is Publish || call is PublishFiles
            || call is Screenshot || call is Interactive ==> event == ApiEvent::Operation(
            Err(error),
        ),
{
}

/// What the settings lead to at the start, and when the capture is to be brought to
/// follow them or asked: they are saved with the engine's configuration, told to the
/// capture, or the capture is asked.
pub proof fn settings_are_brought_into_force(
    manager: SettingsManager,
    saved: Step,
    asked_for: Step,
    reconciled: SettingsManager,
    told: Step,
)
    requires
        manager.load_error is None,
        call_ensures(SettingsManager::initialize_retention, (&manager,), saved),
        call_ensures(SettingsManager::refresh_capture, (&manager,), asked_for),
        exists|asked: &mut SettingsManager|
            *asked == manager && *final(asked) == reconciled && #[trigger] call_ensures(
                SettingsManager::reconcile_capture,
                (asked,),
                told,
            ),
    ensures
        saved.action == (Action::Save { value: manager.value, with_engine: true }),
        asked_for.action == Action::Verify,
        told.action == (Action::Control {
            paused: manager.value.capture_paused,
            max_bytes: manager.value.max_entry_bytes,
        }),
        saved.task.desired == manager.value,
        asked_for.task.desired == manager.value,
        told.task.desired == manager.value,
        !reconciled.capture_verified,
        reconciled.value == manager.value,
{
}

/// Settings that could not be read lead to nothing but that failure.
pub proof fn unreadable_settings_lead_to_nothing(
    manager: SettingsManager,
    saved: Step,
    asked_for: Step,
)
    requires
        manager.load_error is Some,
        call_ensures(SettingsManager::initialize_retention, (&manager,), saved),
        call_ensures(SettingsManager::refresh_capture, (&manager,), asked_for),
    ensures
        saved.action matches Action::Done(Err(message)) && message@ == manager.load_error->0@,
        asked_for.action matches Action::Done(Err(message)) && message@ == manager.load_error->0@,
{
}

/// What went wrong with the capture is what is told of it, and it counts as unverified.
pub proof fn failures_of_the_capture_are_kept(
    before: SettingsManager,
    error: &str,
    after: SettingsManager,
)
    requires
        exists|asked: &mut SettingsManager|
            *asked == before && *final(asked) == after && #[trigger] call_ensures(
                SettingsManager::record_error,
                (asked, error),
                (),
            ),
    ensures
        !after.capture_verified,
        after.capture_error matches Some(kept) && kept@ == error@,
        after.value == before.value,
{
}

/// A capture that changed the history makes what was shown count no more; one that was
/// refused, or failed, changes nothing.
pub proof fn captures_make_what_was_shown_old(
    before: RingboardBackend,
    outcome: BackendResult<Option<u64>>,
    after: RingboardBackend,
    result: Result<bool, String>,
)
    requires
        exists|asked: &mut RingboardBackend|
            *asked == before && *final(asked) == after && #[trigger] call_ensures(
                RingboardBackend::ingested,
                (asked, outcome),
                result,
            ),
    ensures
        outcome matches Ok(Some(_)) ==> result == Ok::<bool, String>(true) && after.ids@.dom()
            == Set::<Seq<char>>::empty() && after.summaries.projection is None,
        outcome matches Ok(None) ==> result == Ok::<bool, String>(false) && after.ids@
            == before.ids@,
        outcome matches Err(error) ==> result == Err::<bool, String>(error.message) && after.ids@
            == before.ids@,
{
    if outcome matches Ok(Some(_)) {
        assert(after.ids@.dom() =~= Set::<Seq<char>>::empty());
    }
}

/// An edit of an image counts only where the editor wrote one and it was not cancelled,
/// and only with the right to finish and a picture that is one.
pub proof fn edits_count_where_they_were_made(
    outcome: Result<bool, String>,
    edited: BackendResult<()>,
    begun: bool,
    valid: bool,
    accepted: BackendResult<()>,
)
    requires
        call_ensures(replacement::annotation_edited, (outcome,), edited),
        call_ensures(replacement::annotation_accepted, (begun, valid), accepted),
    ensures
        edited is Ok <==> outcome == Ok::<bool, String>(true),
        accepted is Ok <==> begun && valid,
        edited matches Err(error) ==> error.kind is OperationFailed,
        accepted matches Err(error) ==> error.kind is OperationFailed,
{
}

/// The server replaces an entry by first putting the new content in place beside it,
/// then making it the entry, and only then letting the old content go; what cannot be
/// made the entry is taken back.
pub proof fn replacements_on_the_server_go_step_by_step(
    before: policy::Replacement,
    event: policy::ReplaceEvent,
    after: policy::Replacement,
    action: policy::ReplaceAction,
)
    requires
        exists|asked: &mut policy::Replacement|
            *asked == before && *final(asked) == after && #[trigger] call_ensures(
                policy::Replacement::policy_replace,
                (asked, event),
                action,
            ),
    ensures
        action == after.action,
        before.action is Admit && event == policy::ReplaceEvent::Admission(
            policy::Admission::Admitted,
        ) ==> action is Locate,
        before.action is Admit && event != policy::ReplaceEvent::Admission(
            policy::Admission::Admitted,
        ) ==> action == policy::ReplaceAction::Finished(false),
        before.action is Stage && event == policy::ReplaceEvent::Performed(true) ==> action == (
        policy::ReplaceAction::Install { exchange: before.exchange }),
        before.action is Install && event == policy::ReplaceEvent::Performed(true)
            ==> action is Publish,
        before.action is Install && event == policy::ReplaceEvent::Performed(false)
            ==> action is Discard,
        before.action is Publish && event == policy::ReplaceEvent::Performed(true)
            ==> action is FreePrevious,
        before.action is Publish && event == policy::ReplaceEvent::Performed(false) ==> action == (
        policy::ReplaceAction::TakeBack { exchange: before.exchange }),
        before.action is FreePrevious ==> action == policy::ReplaceAction::Finished(true),
        action == policy::ReplaceAction::Finished(true) ==> before.action is FreePrevious
            || before.action == policy::ReplaceAction::Finished(true),
        action is FreePrevious ==> before.action is Publish,
{
}

} // verus!
