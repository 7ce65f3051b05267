//! What a change of the settings does.
use crate::limit;
use crate::limit::{InvalidLimit, LimitFile};
use crate::ringboard::ipc::EngineLimits;
use crate::settings;
use crate::settings::{
    import_native_settings, limits_match, validate_loaded_settings, Action, CaptureState,
    ClipboardSettings, Event, Purpose, RetentionState, SettingsManager, SettingsUpdate, Step, Task,
    WriteAction, WriteStage, Writes,
};
use crate::text;
use vstd::prelude::*;
use vstd::string::*;
use vstd::utf8::*;

verus! {

/// A change takes effect: each setting that an accepted update names has the value
/// that is named, and each that it does not name keeps its value.
pub proof fn accepted_changes_take_effect(
    update: SettingsUpdate,
    current: ClipboardSettings,
    updated: ClipboardSettings,
)
    requires
        call_ensures(SettingsUpdate::apply, (update, &current), Ok(updated)),
    ensures
        update.max_entries matches Some(value) ==> updated.max_entries == value,
        update.max_entries is None ==> updated.max_entries == current.max_entries,
        update.max_favorites matches Some(value) ==> updated.max_favorites == value,
        update.max_favorites is None ==> updated.max_favorites == current.max_favorites,
        update.max_entry_bytes matches Some(value) ==> updated.max_entry_bytes == value,
        update.max_entry_bytes is None ==> updated.max_entry_bytes == current.max_entry_bytes,
        update.collapse_self_echoes matches Some(value) ==> updated.collapse_self_echoes == value,
        update.collapse_self_echoes is None ==> updated.collapse_self_echoes
            == current.collapse_self_echoes,
        updated.capture_paused == current.capture_paused,
        updated.private_mode == current.private_mode,
{
}

/// A change is accepted exactly where each number that it names is within its
/// bounds: 1 to 131 070 entries, 1 to 1 022 favourites, 64 KiB to 512 MiB.
pub proof fn changes_within_bounds_are_accepted(
    update: SettingsUpdate,
    current: ClipboardSettings,
    result: Result<ClipboardSettings, String>,
)
    requires
        call_ensures(SettingsUpdate::apply, (update, &current), result),
    ensures
        result is Ok <==> (update.max_entries is None || 1 <= update.max_entries->0 <= 131_070) && (
        update.max_favorites is None || 1 <= update.max_favorites->0 <= 1_022) && (
        update.max_entry_bytes is None || 65_536 <= update.max_entry_bytes->0 <= 536_870_912),
{
}

/// Saved settings are taken as they are where they can be in force, and not at all
/// where they cannot.
pub proof fn saved_settings_are_taken_as_they_are(
    saved: ClipboardSettings,
    result: Result<ClipboardSettings, String>,
)
    requires
        call_ensures(validate_loaded_settings, (saved,), result),
    ensures
        result matches Ok(loaded) ==> loaded == saved,
        result is Ok <==> 1 <= saved.max_entries <= 131_070 && 1 <= saved.max_favorites <= 1_022
            && 65_536 <= saved.max_entry_bytes <= 536_870_912 && (saved.private_mode
            ==> saved.capture_paused),
{
}

/// A fresh setup keeps 750 entries and 100 favourites of up to 16 MiB, captures,
/// and collapses its own echoes.
pub proof fn fresh_settings_are_the_documented_ones(settings: ClipboardSettings)
    requires
        call_ensures(ClipboardSettings::default, (), settings),
    ensures
        settings.max_entries == 750,
        settings.max_favorites == 100,
        settings.max_entry_bytes == 16 * 1024 * 1024,
        !settings.capture_paused,
        !settings.private_mode,
        settings.collapse_self_echoes,
{
}

/// The capacities that an engine was configured with are adopted; what it was not
/// configured with is as in a fresh setup.
pub proof fn native_capacities_are_adopted(
    capacities: Option<(u32, u32)>,
    contents: Option<&[u8]>,
    settings: ClipboardSettings,
)
    requires
        call_ensures(import_native_settings, (capacities, contents), Ok(settings)),
    ensures
        capacities matches Some((main, favorites)) ==> settings.max_entries == main
            && settings.max_favorites == favorites,
        capacities is None ==> settings.max_entries == 750 && settings.max_favorites == 100,
        contents is None ==> settings.max_entry_bytes == 16_777_216,
        !settings.capture_paused && !settings.private_mode && settings.collapse_self_echoes,
{
}

/// The limit that was saved is the limit that is adopted, and the one that the
/// server and the collector go by, but for their ceiling of 64 MiB.
pub proof fn a_saved_limit_is_the_limit_in_force(
    value: ClipboardSettings,
    contents: String,
    file: Vec<u8>,
    limit: Result<u64, InvalidLimit>,
    read: &[u8],
    adopted: Result<ClipboardSettings, String>,
)
    requires
        value.in_range(),
        call_ensures(settings::limit_file, (&value,), contents),
        file@ == encode_utf8(contents@),
        read@ == file@,
        call_ensures(limit::load, (&LimitFile::Contents(file),), limit),
        call_ensures(import_native_settings, (None, Some(read)), adopted),
    ensures
        limit matches Ok(limit) && limit == (if value.max_entry_bytes <= 67_108_864 {
            value.max_entry_bytes
        } else {
            67_108_864
        }),
        adopted matches Ok(settings) && settings.max_entry_bytes == value.max_entry_bytes,
{
    settings::saved_limits_are_read_back(value);
}

/// Without a limit file the limit is 16 MiB; a file that cannot be read sets none.
pub proof fn limits_have_a_default(
    missing: Result<u64, InvalidLimit>,
    unreadable: Result<u64, InvalidLimit>,
)
    requires
        call_ensures(limit::load, (&LimitFile::Missing,), missing),
        call_ensures(limit::load, (&LimitFile::Unreadable,), unreadable),
    ensures
        missing == Ok::<u64, InvalidLimit>(16_777_216),
        unreadable is Err,
{
}

/// The engine follows the settings exactly where it keeps as many entries and
/// favourites, and takes entries as large, up to 64 MiB.
pub proof fn following_means_the_same_limits(
    limits: EngineLimits,
    desired: ClipboardSettings,
    result: bool,
)
    requires
        call_ensures(limits_match, (&limits, &desired), result),
    ensures
        result <==> limits.max_entries == desired.max_entries && limits.max_favorites
            == desired.max_favorites && (limits.max_entry_bytes matches Some(bytes) && bytes == (
        if desired.max_entry_bytes <= 67_108_864 {
            desired.max_entry_bytes
        } else {
            67_108_864
        })),
{
}

/// What is shown are the settings that are in force; that the capture is paused or
/// private is shown only once that was verified. Nothing is shown of settings that
/// could not be read.
pub proof fn settings_are_shown_as_they_are(
    manager: SettingsManager,
    result: Result<ClipboardSettings, String>,
    preferences: Result<ClipboardSettings, String>,
    allowed: Result<bool, String>,
)
    requires
        call_ensures(SettingsManager::get, (&manager,), result),
        call_ensures(SettingsManager::preferences, (&manager,), preferences),
        call_ensures(SettingsManager::capture_allowed, (&manager,), allowed),
    ensures
        result is Err <==> manager.load_error is Some,
        preferences is Err <==> manager.load_error is Some,
        result matches Ok(shown) ==> {
            &&& shown.max_entries == manager.value.max_entries
            &&& shown.max_favorites == manager.value.max_favorites
            &&& shown.max_entry_bytes == manager.value.max_entry_bytes
            &&& shown.collapse_self_echoes == manager.value.collapse_self_echoes
            &&& shown.capture_paused <==> manager.value.capture_paused && manager.capture_verified
            &&& shown.private_mode <==> manager.value.private_mode && manager.capture_verified
        },
        preferences matches Ok(chosen) ==> chosen == manager.value,
        allowed matches Ok(allowed) ==> (allowed <==> !manager.value.capture_paused),
{
}

/// What is told of the capture and of the limits: what is wanted, what is known,
/// and why more is not known.
pub proof fn states_tell_wish_and_fact_apart(
    manager: SettingsManager,
    limits: Result<EngineLimits, String>,
    capture: CaptureState,
    retention: RetentionState,
)
    requires
        call_ensures(SettingsManager::capture_state, (&manager,), capture),
        call_ensures(SettingsManager::retention_state, (&manager, limits), Ok(retention)),
    ensures
        capture.desired_paused == manager.value.capture_paused,
        capture.desired_private_mode == manager.value.private_mode,
        capture.paused is Some <==> manager.capture_verified,
        capture.paused matches Some(paused) ==> paused == manager.value.capture_paused,
        capture.private_mode ==> manager.capture_verified && manager.value.private_mode,
        capture.verified == manager.capture_verified,
        retention.desired_max_entries == manager.value.max_entries,
        retention.desired_max_favorites == manager.value.max_favorites,
        limits matches Ok(known) ==> retention.effective == Some(known) && retention.error is None,
        limits is Err ==> retention.effective is None && retention.error is Some
            && !retention.synchronized,
        retention.synchronized ==> (limits matches Ok(known) && known.max_entries
            == manager.value.max_entries && known.max_favorites == manager.value.max_favorites),
{
}

/// An update that is accepted is saved first, with the engine's configuration, as
/// the settings that it leads to; one that changes nothing saves nothing, and one
/// that is out of bounds does nothing.
pub proof fn updates_are_saved_first(
    manager: SettingsManager,
    update: SettingsUpdate,
    step: Step,
)
    requires
        manager.wf(),
        call_ensures(SettingsManager::update, (&manager, update), step),
    ensures
        step.action matches Action::Save { value, with_engine } ==> {
            &&& with_engine
            &&& update.max_entries matches Some(number) ==> value.max_entries == number
            &&& update.max_entries is None ==> value.max_entries == manager.value.max_entries
            &&& update.max_favorites matches Some(number) ==> value.max_favorites == number
            &&& update.max_favorites is None ==> value.max_favorites
                == manager.value.max_favorites
            &&& update.max_entry_bytes matches Some(number) ==> value.max_entry_bytes == number
            &&& update.max_entry_bytes is None ==> value.max_entry_bytes
                == manager.value.max_entry_bytes
            &&& update.collapse_self_echoes matches Some(collapse) ==> value.collapse_self_echoes
                == collapse
            &&& value.capture_paused == manager.value.capture_paused
            &&& value.private_mode == manager.value.private_mode
            &&& value != manager.value
            &&& step.task.desired == value
        },
        step.action is Save || step.action is Limits || (step.action matches Action::Done(Err(_))),
        step.action is Limits ==> step.task.desired == manager.value,
        manager.load_error is None && (update.max_entries matches Some(number) && 1 <= number
            <= 131_070 && number != manager.value.max_entries) && update.max_favorites is None
            && update.max_entry_bytes is None ==> step.action is Save,
{
}

/// Pausing or resuming saves that preference, and changes no other setting; private
/// means paused.
pub proof fn pauses_are_saved_first(
    manager: SettingsManager,
    paused: bool,
    private: bool,
    step: Step,
)
    requires
        manager.wf(),
        manager.load_error is None,
        call_ensures(SettingsManager::set_paused, (&manager, paused, private), step),
    ensures
        step.action matches Action::Save { value, with_engine } && !with_engine
            && value.capture_paused == paused && value.private_mode == (paused && private)
            && value.max_entries == manager.value.max_entries && value.max_favorites
            == manager.value.max_favorites && value.max_entry_bytes == manager.value.max_entry_bytes
            && value.collapse_self_echoes == manager.value.collapse_self_echoes
            && step.task.desired == value,
{
}

/// Settings that were saved are the settings from then on; those that could not be
/// saved are not.
pub proof fn saved_settings_are_in_force(
    before: SettingsManager,
    task: Task,
    saved: Result<(), String>,
    after: SettingsManager,
    step: Step,
)
    requires
        task.phase is SaveSettings || task.phase is SavePreference,
        settings::advanced(before, task, Event::Done(saved), after, step),
    ensures
        saved is Ok ==> after.value == task.desired && after.load_error is None,
        saved is Err ==> after.value == before.value && after.load_error == before.load_error,
        saved matches Err(error) ==> !(task.phase is SavePreference && task.desired.capture_paused)
            ==> (step.action matches Action::Done(Err(message)) && message@ == error@),
        task.phase is SavePreference && saved is Ok ==> step.action == (Action::Control {
            paused: task.desired.capture_paused,
            max_bytes: task.desired.max_entry_bytes,
        }),
        task.phase is SaveSettings && saved is Ok ==> step.action is Limits,
{
}

/// Nothing but saving changes the settings themselves.
pub proof fn only_saving_changes_the_settings(
    before: SettingsManager,
    task: Task,
    event: Event,
    after: SettingsManager,
    step: Step,
)
    requires
        settings::advanced(before, task, event, after, step),
        !(task.phase is SaveSettings || task.phase is SavePreference),
    ensures
        after.value == before.value,
        after.load_error == before.load_error,
        step.action is Save ==> false,
{
}

/// An engine that enforces other limits than the saved ones is restarted, with the
/// capture stopped meanwhile; one that enforces them is left alone.
pub proof fn other_limits_are_applied_by_a_restart(
    before: SettingsManager,
    task: Task,
    limits: EngineLimits,
    after: SettingsManager,
    step: Step,
)
    requires
        task.phase is CheckLimits,
        settings::advanced(before, task, Event::Limits(Ok(limits)), after, step),
    ensures
        limits.max_entries != task.desired.max_entries || limits.max_favorites
            != task.desired.max_favorites || limits.max_entry_bytes is None ==> step.action == (
        Action::Control { paused: true, max_bytes: task.desired.max_entry_bytes })
            && step.task.phase is StopCapture && !after.capture_verified,
        limits.max_entries == task.desired.max_entries && limits.max_favorites
            == task.desired.max_favorites && limits.max_entry_bytes == Some(
            task.desired.max_entry_bytes,
        ) && task.desired.max_entry_bytes <= 67_108_864 ==> !(step.task.phase is StopCapture),
{
}

/// The capture is known to be as desired exactly where it was asked and said so.
pub proof fn only_the_answer_verifies(
    before: SettingsManager,
    task: Task,
    answer: Result<bool, String>,
    after: SettingsManager,
    step: Step,
)
    requires
        task.phase is VerifyCapture || task.phase is VerifyRestart,
        settings::advanced(before, task, Event::Paused(answer), after, step),
    ensures
        after.capture_verified <==> answer == Ok::<bool, String>(task.desired.capture_paused),
        after.capture_verified ==> after.capture_error is None,
        !after.capture_verified ==> after.capture_error is Some && (step.action matches Action::Done(
            Err(_),
        )),
{
}

/// What a manager starts with is what was loaded; nothing is known of the capture.
pub proof fn a_manager_starts_with_what_was_loaded(
    loaded: Result<ClipboardSettings, String>,
    manager: SettingsManager,
)
    requires
        loaded matches Ok(value) ==> value.valid(),
        call_ensures(SettingsManager::new, (loaded,), manager),
    ensures
        loaded matches Ok(value) ==> manager.value == value && manager.load_error is None,
        loaded matches Err(error) ==> manager.load_error == Some(error),
        !manager.capture_verified,
        manager.capture_error is Some,
{
}

/// Files that are written together are put in place one after the other, all of
/// them; only then the write is done.
pub proof fn every_file_is_put_in_place(
    before: Writes,
    at: usize,
    after: Writes,
    action: WriteAction,
)
    requires
        before.stage == WriteStage::Committing(at),
        before.wf(),
        Writes::stepped(before, Ok(()), after, action),
    ensures
        at + 1 < before.labels@.len() ==> action == WriteAction::Commit((at + 1) as usize)
            && after.stage == WriteStage::Committing((at + 1) as usize),
        at + 1 == before.labels@.len() ==> action == WriteAction::Done(Ok(())),
        after.labels == before.labels,
{
}

/// A write that failed never ends as done.
pub proof fn failed_writes_are_reported(
    before: Writes,
    outcome: Result<(), String>,
    after: Writes,
    action: WriteAction,
)
    requires
        before.wf(),
        Writes::stepped(before, outcome, after, action),
        action is Done,
    ensures
        action == WriteAction::Done(Ok(())) <==> before.stage is Committing && outcome is Ok,
        before.stage matches WriteStage::Restoring { error, .. } ==> (action matches WriteAction::Done(
            Err(message),
        ) && error@.len() <= message@.len() && message@.take(error@.len() as int) == error@),
{
    if let WriteStage::Restoring { error, failures, .. } = before.stage {
        let known = match outcome {
            Ok(_) => failures@,
            Err(reason) => failures@.push(reason),
        };
        let message = settings::rollback_message(error@, known);
        assert(message.take(error@.len() as int) =~= error@);
    }
}

/// The engine is given the limits of the settings: its configuration, and the limit of
/// an entry in digits on a line.
pub proof fn engines_are_given_the_limits(
    manager: SettingsManager,
    prepared: Result<(String, String), String>,
    digits: String,
    encoded: Option<String>,
    told: Result<String, String>,
)
    requires
        call_ensures(SettingsManager::prepare_engine, (&manager,), prepared),
        call_ensures(text::format_u64, (manager.value.max_entry_bytes,), digits),
        call_ensures(settings::encoded_or_error, (encoded,), told),
    ensures
        manager.load_error is Some ==> prepared is Err,
        prepared matches Ok((config, limit)) ==> limit@ == digits@ + "\n"@
            && settings::ringboard_config_text(
            manager.value.max_entries,
            manager.value.max_favorites,
        ) == Some(config@),
        told is Ok <==> encoded is Some,
        told matches Ok(text) ==> text == encoded->0,
{
}

/// A change of the settings is for what it was asked for: the limits, the start, or the
/// capture.
pub proof fn changes_are_for_what_was_asked(
    manager: SettingsManager,
    update: SettingsUpdate,
    changed: Step,
    started: Step,
    paused: bool,
    private: bool,
    stopped: Step,
)
    requires
        call_ensures(SettingsManager::update, (&manager, update), changed),
        call_ensures(SettingsManager::initialize_retention, (&manager,), started),
        call_ensures(SettingsManager::set_paused, (&manager, paused, private), stopped),
    ensures
        changed.task.purpose == Purpose::Update,
        started.task.purpose == Purpose::Initialize,
        stopped.task.purpose == Purpose::Capture,
{
}

/// The start saves the settings for the engine too; looking after the capture asks what
/// it does, and changes nothing.
pub proof fn starts_save_and_looks_ask(manager: SettingsManager, started: Step, looked: Step)
    requires
        manager.load_error is None,
        call_ensures(SettingsManager::initialize_retention, (&manager,), started),
        call_ensures(SettingsManager::refresh_capture, (&manager,), looked),
    ensures
        started.action == (Action::Save { value: manager.value, with_engine: true }),
        started.task.phase is SaveSettings && started.task.desired == manager.value,
        looked.action == Action::Verify,
        looked.task.phase is VerifyCapture && looked.task.desired == manager.value,
        looked.task.purpose == Purpose::Capture,
{
}

} // verus!
