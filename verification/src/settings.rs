//! The clipboard settings: what is accepted, what is saved, and how the engine
//! and the capture are brought to follow them. Saved preferences alone are
//! never evidence of what is in force.
use crate::backend::MAX_WAYLAND_SELECTION_BYTES;
use crate::limit;
use crate::ringboard::ipc::EngineLimits;
use crate::text;
use clipboard_history_client_sdk::config::server;
use std::num::NonZeroU32;
use vstd::prelude::*;
use vstd::string::*;
use vstd::utf8::*;

verus! {

/// What the user chose.
#[derive(Debug, Clone, Copy, PartialEq, Eq, Structural)]
pub struct ClipboardSettings {
    pub max_entries: u32,
    pub max_favorites: u32,
    pub max_entry_bytes: u64,
    pub capture_paused: bool,
    pub private_mode: bool,
    pub collapse_self_echoes: bool,
}

/// What holds of settings that nobody chose.
pub open spec fn default_settings() -> ClipboardSettings {
    ClipboardSettings {
        max_entries: 750,
        max_favorites: 100,
        max_entry_bytes: 16_777_216,
        capture_paused: false,
        private_mode: false,
        collapse_self_echoes: true,
    }
}

impl Default for ClipboardSettings {
    fn default() -> (settings: Self)
        ensures
            settings == default_settings(),
    {
        ClipboardSettings {
            max_entries: 750,
            max_favorites: 100,
            max_entry_bytes: 16 * 1024 * 1024,
            capture_paused: false,
            private_mode: false,
            collapse_self_echoes: true,
        }
    }
}

impl ClipboardSettings {
    /// Each number is within its bounds.
    pub open spec fn in_range(self) -> bool {
        &&& 1 <= self.max_entries <= 131_070
        &&& 1 <= self.max_favorites <= 1_022
        &&& 64 * 1024 <= self.max_entry_bytes <= 512 * 1024 * 1024
    }

    /// The settings can be in force: within bounds, and private only while the
    /// capture is paused.
    pub open spec fn valid(self) -> bool {
        self.in_range() && (self.private_mode ==> self.capture_paused)
    }
}

/// A change of some of the settings.
#[derive(Debug, Clone, Copy, PartialEq, Eq, Structural)]
pub struct SettingsUpdate {
    pub max_entries: Option<u32>,
    pub max_favorites: Option<u32>,
    pub max_entry_bytes: Option<u64>,
    pub collapse_self_echoes: Option<bool>,
}

impl Default for SettingsUpdate {
    fn default() -> (update: Self)
        ensures
            update == (SettingsUpdate {
                max_entries: None,
                max_favorites: None,
                max_entry_bytes: None,
                collapse_self_echoes: None,
            }),
    {
        SettingsUpdate {
            max_entries: None,
            max_favorites: None,
            max_entry_bytes: None,
            collapse_self_echoes: None,
        }
    }
}

/// The new value where there is one, else the current one.
pub open spec fn or_current<T>(update: Option<T>, current: T) -> T {
    match update {
        Some(value) => value,
        None => current,
    }
}

impl SettingsUpdate {
    /// Each number that changes is within its bounds.
    pub open spec fn in_range(self) -> bool {
        &&& self.max_entries matches Some(value) ==> 1 <= value <= 131_070
        &&& self.max_favorites matches Some(value) ==> 1 <= value <= 1_022
        &&& self.max_entry_bytes matches Some(value) ==> 64 * 1024 <= value <= 512 * 1024 * 1024
    }

    /// The settings after the change. Whether the capture is paused is not
    /// changed this way.
    pub open spec fn applied(self, value: ClipboardSettings) -> ClipboardSettings {
        ClipboardSettings {
            max_entries: or_current(self.max_entries, value.max_entries),
            max_favorites: or_current(self.max_favorites, value.max_favorites),
            max_entry_bytes: or_current(self.max_entry_bytes, value.max_entry_bytes),
            capture_paused: value.capture_paused,
            private_mode: value.private_mode,
            collapse_self_echoes: or_current(self.collapse_self_echoes, value.collapse_self_echoes),
        }
    }

    /// Makes the change, or rejects all of it where a number is out of bounds.
    pub fn apply(self, value: &ClipboardSettings) -> (result: Result<ClipboardSettings, String>)
        ensures
            match result {
                Ok(updated) => self.in_range() && updated == self.applied(*value),
                Err(message) => !self.in_range() && message@
                    == "Clipboard setting is outside the supported range"@,
            },
    {
        let mut updated = *value;
        if let Some(entries) = self.max_entries {
            if entries < 1 || entries > 131_070 {
                return Err("Clipboard setting is outside the supported range".to_owned());
            }
            updated.max_entries = entries;
        }
        if let Some(favorites) = self.max_favorites {
            if favorites < 1 || favorites > 1_022 {
                return Err("Clipboard setting is outside the supported range".to_owned());
            }
            updated.max_favorites = favorites;
        }
        if let Some(bytes) = self.max_entry_bytes {
            if bytes < 64 * 1024 || bytes > 512 * 1024 * 1024 {
                return Err("Clipboard setting is outside the supported range".to_owned());
            }
            updated.max_entry_bytes = bytes;
        }
        if let Some(collapse) = self.collapse_self_echoes {
            updated.collapse_self_echoes = collapse;
        }
        Ok(updated)
    }
}

/// Accepts settings that were saved, where they can be in force.
pub fn validate_loaded_settings(value: ClipboardSettings) -> (result: Result<
    ClipboardSettings,
    String,
>)
    ensures
        match result {
            Ok(loaded) => value.valid() && loaded == value,
            Err(message) => !value.valid() && message@ == if !value.in_range() {
                "Clipboard setting is outside the supported range"@
            } else {
                "Private mode requires a paused capture preference"@
            },
        },
{
    let bounds = SettingsUpdate {
        max_entries: Some(value.max_entries),
        max_favorites: Some(value.max_favorites),
        max_entry_bytes: Some(value.max_entry_bytes),
        collapse_self_echoes: None,
    };
    if let Err(message) = bounds.apply(&value) {
        return Err(message);
    }
    if value.private_mode && !value.capture_paused {
        return Err("Private mode requires a paused capture preference".to_owned());
    }
    Ok(value)
}

/// The number that a capture limit file sets, where it holds one.
pub open spec fn native_limit(contents: Seq<u8>) -> Option<u64> {
    if contents.len() <= 32 && valid_utf8(contents) {
        match limit::unsigned(text::trimmed(decode_utf8(contents))) {
            Some(value) => if value <= u64::MAX {
                Some(value as u64)
            } else {
                None
            },
            None => None,
        }
    } else {
        None
    }
}

/// The settings that a native configuration amounts to: the defaults, with the
/// capacities and the capture limit that it sets.
pub open spec fn imported(capacities: Option<(u32, u32)>, max_entry_bytes: u64) -> ClipboardSettings {
    ClipboardSettings {
        max_entries: match capacities {
            Some((main, _)) => main,
            None => default_settings().max_entries,
        },
        max_favorites: match capacities {
            Some((_, favorites)) => favorites,
            None => default_settings().max_favorites,
        },
        max_entry_bytes,
        ..default_settings()
    }
}

/// Takes over a native configuration where no settings were saved yet:
/// `capacities` are those that the engine is configured with, `contents` those
/// of its capture limit file.
pub fn import_native_settings(capacities: Option<(u32, u32)>, contents: Option<&[u8]>) -> (result:
    Result<ClipboardSettings, String>)
    ensures
        ({
            let bytes = match contents {
                Some(contents) => native_limit(contents@),
                None => Some(default_settings().max_entry_bytes),
            };
            match bytes {
                Some(bytes) => {
                    let value = imported(capacities, bytes);
                    match result {
                        Ok(settings) => value.in_range() && settings == value,
                        Err(message) => !value.in_range() && message@
                            == "Clipboard setting is outside the supported range"@,
                    }
                },
                None => result matches Err(message) && message@
                    == "Native capture limit is invalid"@,
            }
        }),
{
    let mut value = ClipboardSettings::default();
    if let Some((main, favorites)) = capacities {
        value.max_entries = main;
        value.max_favorites = favorites;
    }
    if let Some(contents) = contents {
        if contents.len() > 32 {
            return Err("Native capture limit is invalid".to_owned());
        }
        let number = match text::text_of(contents) {
            Some(number) => number,
            None => {
                return Err("Native capture limit is invalid".to_owned());
            },
        };
        let trimmed = text::trim_chars(text::chars_of(number).as_slice());
        match limit::parse_unsigned(trimmed.as_slice()) {
            Some(bytes) => {
                value.max_entry_bytes = bytes;
            },
            None => {
                return Err("Native capture limit is invalid".to_owned());
            },
        }
    }
    validate_loaded_settings(value)
}

/// The contents of the capture limit file.
pub fn limit_file(value: &ClipboardSettings) -> (contents: String)
    ensures
        contents@ == text::decimal(value.max_entry_bytes as nat) + "\n"@,
{
    text::join(text::format_u64(value.max_entry_bytes).as_str(), "\n")
}

/// A saved capture limit is read back as it was.
pub proof fn saved_limits_are_read_back(value: ClipboardSettings)
    requires
        value.in_range(),
    ensures
        native_limit(encode_utf8(text::decimal(value.max_entry_bytes as nat) + "\n"@)) == Some(
            value.max_entry_bytes,
        ),
{
    let n = value.max_entry_bytes as nat;
    let digits = text::decimal(n);
    reveal_strlit("\n");
    text::numeral_of_decimal(n);
    text::decimal_is_digits(n);
    assert("\n"@ =~= seq!['\n']);
    let whole = digits + "\n"@;
    encode_utf8_decode_utf8(whole);
    encode_utf8_valid_utf8(whole);
    assert(text::trim_start(whole) == whole);
    assert(whole.last() == '\n');
    assert(whole.drop_last() =~= digits);
    assert(!text::white(digits.last()));
    assert(text::trim_end(digits) == digits);
    assert(text::trim_end(whole) == text::trim_end(whole.drop_last()));
    assert(text::trimmed(whole) == digits);
    limit_is_short(n);
    assert(is_ascii_chars(whole));
    is_ascii_chars_encode_utf8(whole);
}

/// A number within the bounds of the capture limit has at most nine digits.
proof fn limit_is_short(n: nat)
    requires
        n <= 512 * 1024 * 1024,
    ensures
        text::decimal(n).len() <= 9,
{
    reveal_with_fuel(text::decimal, 10);
}

/// The configuration that the engine reads, with these capacities.
pub uninterp spec fn ringboard_config_text(main: u32, favorites: u32) -> Option<Seq<char>>;

/// `toml::to_string_pretty` of `config::server::Stable`, made from a
/// `config::server::Config` with these capacities: the text is a function of
/// the two.
#[verifier::external_body]
fn ringboard_config(main: u32, favorites: u32) -> (text: Option<String>)
    requires
        main > 0,
        favorites > 0,
    ensures
        text::maybe(text) == ringboard_config_text(main, favorites),
{
    let config = server::Config {
        max_entries: server::MaxEntries {
            main: NonZeroU32::new(main)?,
            favorites: NonZeroU32::new(favorites)?,
        },
    };
    toml::to_string_pretty(&server::Stable::from(config)).ok()
}

/// The configuration to write, or what is said where it could not be encoded.
pub fn encoded_or_error(text: Option<String>) -> (result: Result<String, String>)
    ensures
        match text {
            Some(text) => result == Ok::<String, String>(text),
            None => result matches Err(message) && message@
                == "Ringboard settings could not be encoded"@,
        },
{
    match text {
        Some(text) => Ok(text),
        None => Err("Ringboard settings could not be encoded".to_owned()),
    }
}

/// The configuration that the engine is to read.
pub fn encoded_ringboard_config(value: &ClipboardSettings) -> (result: Result<String, String>)
    ensures
        match result {
            Ok(text) => value.max_entries > 0 && value.max_favorites > 0 && ringboard_config_text(
                value.max_entries,
                value.max_favorites,
            ) == Some(text@),
            Err(message) => message@ == if value.max_entries == 0 {
                "max_entries cannot be zero"@
            } else if value.max_favorites == 0 {
                "max_favorites cannot be zero"@
            } else {
                "Ringboard settings could not be encoded"@
            } && (value.max_entries > 0 && value.max_favorites > 0 ==> ringboard_config_text(
                value.max_entries,
                value.max_favorites,
            ) is None),
        },
{
    if value.max_entries == 0 {
        return Err("max_entries cannot be zero".to_owned());
    }
    if value.max_favorites == 0 {
        return Err("max_favorites cannot be zero".to_owned());
    }
    encoded_or_error(ringboard_config(value.max_entries, value.max_favorites))
}

/// The engine enforces what the settings ask for.
pub open spec fn in_force(limits: EngineLimits, desired: ClipboardSettings) -> bool {
    &&& limits.max_entries == desired.max_entries
    &&& limits.max_favorites == desired.max_favorites
    &&& limits.max_entry_bytes == Some(
        if desired.max_entry_bytes <= MAX_WAYLAND_SELECTION_BYTES {
            desired.max_entry_bytes
        } else {
            MAX_WAYLAND_SELECTION_BYTES
        },
    )
}

/// Whether the engine enforces what the settings ask for.
pub fn limits_match(limits: &EngineLimits, desired: &ClipboardSettings) -> (result: bool)
    ensures
        result == in_force(*limits, *desired),
{
    let bytes: u64 = if desired.max_entry_bytes <= MAX_WAYLAND_SELECTION_BYTES {
        desired.max_entry_bytes
    } else {
        MAX_WAYLAND_SELECTION_BYTES
    };
    limits.max_entries == desired.max_entries && limits.max_favorites == desired.max_favorites
        && match limits.max_entry_bytes {
        Some(limit) => limit == bytes,
        None => false,
    }
}

/// What is known of the capture.
#[derive(Debug, PartialEq, Eq)]
pub struct CaptureState {
    pub desired_paused: bool,
    pub desired_private_mode: bool,
    pub paused: Option<bool>,
    pub private_mode: bool,
    pub verified: bool,
    pub error: Option<String>,
}

/// What is known of the limits that the engine enforces.
#[derive(Debug, PartialEq, Eq)]
pub struct RetentionState {
    pub desired_max_entries: u32,
    pub desired_max_favorites: u32,
    pub effective: Option<EngineLimits>,
    pub synchronized: bool,
    pub error: Option<String>,
}

/// What a change of the settings waits for.
pub enum Phase {
    /// The settings and the engine's configuration to be saved.
    SaveSettings,
    /// The limits that the engine enforces.
    CheckLimits,
    /// The capture to stop, so that the engine can be restarted.
    StopCapture,
    RestartEngine,
    /// The limits that the restarted engine enforces.
    CheckApplied,
    /// The capture to go on as desired after a restart.
    RestoreCapture,
    /// The capture to go by another limit, without a restart.
    ResizeCapture,
    /// Whether the capture is as desired, once it was told.
    VerifyRestart,
    /// The settings alone to be saved.
    SavePreference,
    /// The capture to stop, though that could not be saved, for this reason.
    StopLocally(String),
    SetCapture,
    VerifyCapture,
    Over,
}

/// What a task is for.
#[derive(Debug, Clone, Copy, PartialEq, Eq, Structural)]
pub enum Purpose {
    Update,
    Initialize,
    Capture,
}

/// A change of the settings under way.
pub struct Task {
    pub purpose: Purpose,
    pub desired: ClipboardSettings,
    pub phase: Phase,
}

/// What is to be done next.
pub enum Action {
    /// Save these settings, and with them the engine's configuration or not.
    Save { value: ClipboardSettings, with_engine: bool },
    /// Ask the engine for the limits that it enforces.
    Limits,
    /// Pause or resume the capture.
    Control { paused: bool, max_bytes: u64 },
    /// Restart the engine, and give it a moment.
    Restart,
    /// Ask whether the capture is paused.
    Verify,
    /// Nothing: this is the outcome.
    Done(Result<ClipboardSettings, String>),
}

/// What came of it.
pub enum Event {
    /// Of saving, of controlling the capture, or of the restart.
    Done(Result<(), String>),
    Limits(Result<EngineLimits, String>),
    Paused(Result<bool, String>),
}

/// One step of a change.
pub struct Step {
    pub task: Task,
    pub action: Action,
}

/// What the capture was told last.
#[derive(Debug, Clone, Copy, PartialEq, Eq, Structural)]
pub enum Collector {
    /// Nothing yet.
    Untold,
    /// To go by this limit.
    Told { max_bytes: u64 },
    /// To stop, so that the engine can be restarted.
    Stopped,
}

/// The settings, and what is known of how they are followed.
pub struct SettingsManager {
    pub value: ClipboardSettings,
    pub load_error: Option<String>,
    pub capture_verified: bool,
    pub capture_error: Option<String>,
    pub collector: Collector,
}

/// `after` differs from `before` in what is known of the capture alone: it is
/// verified, or this error is known.
pub open spec fn recorded(
    before: SettingsManager,
    after: SettingsManager,
    error: Option<Seq<char>>,
) -> bool {
    &&& after.value == before.value
    &&& after.load_error == before.load_error
    &&& after.collector == before.collector
    &&& after.capture_verified == (error is None)
    &&& text::maybe(after.capture_error) == error
}

/// The task goes on to `phase`, with `action`.
pub open spec fn goes_on(task: Task, step: Step, phase: Phase, action: Action) -> bool {
    &&& step.task == Task { phase, ..task }
    &&& step.action == action
}

/// The task is over, and failed for this reason.
pub open spec fn fails(task: Task, step: Step, message: Seq<char>) -> bool {
    &&& step.task == Task { phase: Phase::Over, ..task }
    &&& step.action matches Action::Done(Err(error)) && error@ == message
}

/// What a failure to bring the engine to the settings is reported as.
pub open spec fn retention_failure(purpose: Purpose, error: Seq<char>) -> Seq<char> {
    if purpose == Purpose::Update {
        "Clipboard settings were saved, but "@ + error
    } else {
        error
    }
}

/// The capture is not as desired.
pub open spec fn mismatch() -> Seq<char> {
    "Capture service does not match the saved preference"@
}

/// The restarted engine does not enforce what was saved.
pub open spec fn not_applied() -> Seq<char> {
    "Running Ringboard has not applied the saved retention limits"@
}

/// The error of an event that came out of turn.
pub open spec fn out_of_turn() -> Seq<char> {
    "Clipboard settings transaction failed"@
}

impl SettingsManager {
    /// The settings are known, or why they are not; where they are known they
    /// can be in force.
    pub open spec fn wf(self) -> bool {
        self.value.valid()
    }

    /// The settings as they are shown: the capture is not said to be paused or
    /// private unless that was verified.
    pub open spec fn shown(self) -> ClipboardSettings {
        ClipboardSettings {
            capture_paused: self.capture_verified && self.value.capture_paused,
            private_mode: self.capture_verified && self.value.private_mode,
            ..self.value
        }
    }

    /// `result` is `value`, or the error with which the settings were loaded.
    pub open spec fn loaded(
        self,
        result: Result<ClipboardSettings, String>,
        value: ClipboardSettings,
    ) -> bool {
        match self.load_error {
            Some(error) => result matches Err(message) && message@ == error@,
            None => result == Ok::<ClipboardSettings, String>(value),
        }
    }

    /// The manager once settings were saved.
    pub open spec fn committed(self, value: ClipboardSettings) -> Self {
        SettingsManager {
            value,
            load_error: None,
            capture_verified: self.capture_verified && self.value.capture_paused
                == value.capture_paused && self.value.private_mode == value.private_mode,
            capture_error: self.capture_error,
            collector: self.collector,
        }
    }

    /// The manager once the capture was told something.
    pub open spec fn with_collector(self, collector: Collector) -> Self {
        SettingsManager { collector, ..self }
    }

    /// The capture goes by the limit of these settings, as far as it was told.
    pub open spec fn collector_follows(self, desired: ClipboardSettings) -> bool {
        self.collector == (Collector::Told { max_bytes: desired.max_entry_bytes })
    }

    /// A manager of what was loaded. Nothing is known of the capture yet.
    pub fn new(loaded: Result<ClipboardSettings, String>) -> (manager: Self)
        requires
            loaded matches Ok(value) ==> value.valid(),
        ensures
            manager.wf(),
            match loaded {
                Ok(value) => manager.value == value && manager.load_error is None,
                Err(error) => manager.value == default_settings() && manager.load_error == Some(
                    error,
                ),
            },
            !manager.capture_verified,
            manager.collector is Untold,
            text::maybe(manager.capture_error) == Some("Capture state has not been verified"@),
    {
        let (value, load_error) = match loaded {
            Ok(value) => (value, None),
            Err(error) => (ClipboardSettings::default(), Some(error)),
        };
        SettingsManager {
            value,
            load_error,
            capture_verified: false,
            capture_error: Some("Capture state has not been verified".to_owned()),
            collector: Collector::Untold,
        }
    }

    /// The settings as they are shown.
    pub fn get(&self) -> (result: Result<ClipboardSettings, String>)
        ensures
            self.loaded(result, self.shown()),
    {
        if let Some(error) = &self.load_error {
            return Err(error.clone());
        }
        let mut settings = self.value;
        if !self.capture_verified {
            settings.capture_paused = false;
            settings.private_mode = false;
        }
        Ok(settings)
    }

    /// The settings as they were chosen.
    pub fn preferences(&self) -> (result: Result<ClipboardSettings, String>)
        ensures
            self.loaded(result, self.value),
    {
        match &self.load_error {
            Some(error) => Err(error.clone()),
            None => Ok(self.value),
        }
    }

    /// Whether the capture may run, by what was chosen.
    pub fn capture_allowed(&self) -> (result: Result<bool, String>)
        ensures
            match self.load_error {
                Some(error) => result matches Err(message) && message@ == error@,
                None => result == Ok::<bool, String>(!self.value.capture_paused),
            },
    {
        match self.preferences() {
            Ok(value) => Ok(!value.capture_paused),
            Err(error) => Err(error),
        }
    }

    /// The contents of the engine's configuration and of its capture limit
    /// file, for an engine that is about to start.
    pub fn prepare_engine(&self) -> (result: Result<(String, String), String>)
        requires
            self.wf(),
        ensures
            match self.load_error {
                Some(error) => result matches Err(message) && message@ == error@,
                None => match result {
                    Ok((config, limit)) => ringboard_config_text(
                        self.value.max_entries,
                        self.value.max_favorites,
                    ) == Some(config@) && limit@ == text::decimal(
                        self.value.max_entry_bytes as nat,
                    ) + "\n"@,
                    Err(message) => ringboard_config_text(
                        self.value.max_entries,
                        self.value.max_favorites,
                    ) is None && message@ == "Ringboard settings could not be encoded"@,
                },
            },
    {
        let value = match self.preferences() {
            Ok(value) => value,
            Err(error) => {
                return Err(error);
            },
        };
        match encoded_ringboard_config(&value) {
            Ok(config) => Ok((config, limit_file(&value))),
            Err(error) => Err(error),
        }
    }

    /// What is known of the capture.
    pub fn capture_state(&self) -> (state: CaptureState)
        ensures
            state.desired_paused == self.value.capture_paused,
            state.desired_private_mode == self.value.private_mode,
            state.paused == if self.capture_verified {
                Some(self.value.capture_paused)
            } else {
                None
            },
            state.private_mode == self.shown().private_mode,
            state.verified == self.capture_verified,
            text::maybe(state.error) == text::maybe(self.capture_error),
    {
        CaptureState {
            desired_paused: self.value.capture_paused,
            desired_private_mode: self.value.private_mode,
            paused: if self.capture_verified {
                Some(self.value.capture_paused)
            } else {
                None
            },
            private_mode: self.capture_verified && self.value.private_mode,
            verified: self.capture_verified,
            error: self.capture_error.clone(),
        }
    }

    /// What is known of the limits, given what the engine said of them.
    pub fn retention_state(&self, limits: Result<EngineLimits, String>) -> (result: Result<
        RetentionState,
        String,
    >)
        ensures
            match self.load_error {
                Some(error) => result matches Err(message) && message@ == error@,
                None => result matches Ok(state) && {
                    &&& state.desired_max_entries == self.value.max_entries
                    &&& state.desired_max_favorites == self.value.max_favorites
                    &&& match limits {
                        Ok(limits) => state.effective == Some(limits) && state.error is None
                            && state.synchronized == in_force(limits, self.value),
                        Err(error) => state.effective is None && state.error == Some(error)
                            && !state.synchronized,
                    }
                },
            },
    {
        let desired = match self.preferences() {
            Ok(desired) => desired,
            Err(error) => {
                return Err(error);
            },
        };
        let (effective, synchronized, error) = match limits {
            Ok(limits) => (Some(limits), limits_match(&limits, &desired), None),
            Err(error) => (None, false, Some(error)),
        };
        Ok(
            RetentionState {
                desired_max_entries: desired.max_entries,
                desired_max_favorites: desired.max_favorites,
                effective,
                synchronized,
                error,
            },
        )
    }

    /// Takes over settings that were saved.
    fn commit(&mut self, value: ClipboardSettings)
        ensures
            *final(self) == old(self).committed(value),
    {
        if self.value.capture_paused != value.capture_paused || self.value.private_mode
            != value.private_mode {
            self.capture_verified = false;
        }
        self.value = value;
        self.load_error = None;
    }

    /// Takes down that the capture is not known to be as desired, and why.
    pub fn record_error(&mut self, error: &str)
        ensures
            recorded(*old(self), *final(self), Some(error@)),
    {
        self.capture_verified = false;
        self.capture_error = Some(error.to_owned());
    }

    /// Takes down that the capture is as desired.
    fn record_verified(&mut self)
        ensures
            recorded(*old(self), *final(self), None),
    {
        self.capture_verified = true;
        self.capture_error = None;
    }

    /// Where the task stands: once its settings were saved, they are those of
    /// the manager.
    pub open spec fn runs(self, task: Task) -> bool {
        &&& task.desired.valid()
        &&& match task.phase {
            Phase::SaveSettings | Phase::SavePreference | Phase::Over => true,
            Phase::StopLocally(_) => task.desired.capture_paused && task.purpose
                == Purpose::Capture,
            Phase::SetCapture | Phase::VerifyCapture => self.value == task.desired
                && self.load_error is None && task.purpose == Purpose::Capture,
            _ => self.value == task.desired && self.load_error is None && task.purpose
                != Purpose::Capture,
        }
        &&& task.phase is SaveSettings ==> task.purpose != Purpose::Capture
        &&& task.phase is SavePreference ==> task.purpose == Purpose::Capture
    }

    /// Changes settings. They are saved where they differ; what the engine
    /// enforces is compared in any case, so that a change that was saved
    /// without being applied is applied when it is asked for again.
    pub fn update(&self, update: SettingsUpdate) -> (step: Step)
        requires
            self.wf(),
        ensures
            self.runs(step.task),
            step.task.purpose == Purpose::Update,
            match self.load_error {
                Some(error) => fails(step.task, step, error@),
                None => if !update.in_range() {
                    fails(step.task, step, "Clipboard setting is outside the supported range"@)
                } else {
                    let desired = update.applied(self.value);
                    &&& step.task.desired == desired
                    &&& desired != self.value ==> step.task.phase is SaveSettings && step.action
                        == (Action::Save { value: desired, with_engine: true })
                    &&& desired == self.value ==> step.task.phase is CheckLimits && step.action
                        == Action::Limits
                },
            },
    {
        let current = match self.preferences() {
            Ok(current) => current,
            Err(error) => {
                return over(Purpose::Update, self.value, error);
            },
        };
        let desired = match update.apply(&current) {
            Ok(desired) => desired,
            Err(error) => {
                return over(Purpose::Update, self.value, error);
            },
        };
        if desired != current {
            Step {
                task: Task { purpose: Purpose::Update, desired, phase: Phase::SaveSettings },
                action: Action::Save { value: desired, with_engine: true },
            }
        } else {
            Step {
                task: Task { purpose: Purpose::Update, desired, phase: Phase::CheckLimits },
                action: Action::Limits,
            }
        }
    }

    /// Brings the engine to the settings when the daemon starts.
    pub fn initialize_retention(&self) -> (step: Step)
        requires
            self.wf(),
        ensures
            self.runs(step.task),
            step.task.purpose == Purpose::Initialize,
            match self.load_error {
                Some(error) => fails(step.task, step, error@),
                None => {
                    &&& step.task.desired == self.value
                    &&& step.task.phase is SaveSettings
                    &&& step.action == (Action::Save { value: self.value, with_engine: true })
                },
            },
    {
        match self.preferences() {
            Ok(desired) => Step {
                task: Task { purpose: Purpose::Initialize, desired, phase: Phase::SaveSettings },
                action: Action::Save { value: desired, with_engine: true },
            },
            Err(error) => over(Purpose::Initialize, self.value, error),
        }
    }

    /// Pauses or resumes the capture. It can be private only while it is
    /// paused.
    pub fn set_paused(&self, paused: bool, private: bool) -> (step: Step)
        requires
            self.wf(),
        ensures
            self.runs(step.task),
            step.task.purpose == Purpose::Capture,
            match self.load_error {
                Some(error) => fails(step.task, step, error@),
                None => {
                    let desired = ClipboardSettings {
                        capture_paused: paused,
                        private_mode: paused && private,
                        ..self.value
                    };
                    &&& step.task.desired == desired
                    &&& step.task.phase is SavePreference
                    &&& step.action == (Action::Save { value: desired, with_engine: false })
                },
            },
    {
        let mut desired = match self.preferences() {
            Ok(desired) => desired,
            Err(error) => {
                return over(Purpose::Capture, self.value, error);
            },
        };
        desired.capture_paused = paused;
        desired.private_mode = paused && private;
        Step {
            task: Task { purpose: Purpose::Capture, desired, phase: Phase::SavePreference },
            action: Action::Save { value: desired, with_engine: false },
        }
    }

    /// Brings the capture to the settings.
    pub fn reconcile_capture(&mut self) -> (step: Step)
        requires
            old(self).wf(),
        ensures
            final(self).wf(),
            final(self).runs(step.task),
            step.task.purpose == Purpose::Capture,
            match old(self).load_error {
                Some(error) => *final(self) == *old(self) && fails(step.task, step, error@),
                None => {
                    &&& recorded(
                        old(self).with_collector(
                            Collector::Told { max_bytes: old(self).value.max_entry_bytes },
                        ),
                        *final(self),
                        Some("Capture transition is not yet verified"@),
                    )
                    &&& step.task.desired == old(self).value
                    &&& step.task.phase is SetCapture
                    &&& step.action == (Action::Control {
                        paused: old(self).value.capture_paused,
                        max_bytes: old(self).value.max_entry_bytes,
                    })
                },
            },
    {
        let desired = match self.preferences() {
            Ok(desired) => desired,
            Err(error) => {
                return over(Purpose::Capture, self.value, error);
            },
        };
        self.record_error("Capture transition is not yet verified");
        self.collector = Collector::Told { max_bytes: desired.max_entry_bytes };
        Step {
            task: Task { purpose: Purpose::Capture, desired, phase: Phase::SetCapture },
            action: Action::Control {
                paused: desired.capture_paused,
                max_bytes: desired.max_entry_bytes,
            },
        }
    }

    /// Looks whether the capture still is as desired.
    pub fn refresh_capture(&self) -> (step: Step)
        requires
            self.wf(),
        ensures
            self.runs(step.task),
            step.task.purpose == Purpose::Capture,
            match self.load_error {
                Some(error) => fails(step.task, step, error@),
                None => {
                    &&& step.task.desired == self.value
                    &&& step.task.phase is VerifyCapture
                    &&& step.action == Action::Verify
                },
            },
    {
        match self.preferences() {
            Ok(desired) => Step {
                task: Task { purpose: Purpose::Capture, desired, phase: Phase::VerifyCapture },
                action: Action::Verify,
            },
            Err(error) => over(Purpose::Capture, self.value, error),
        }
    }
}

/// A task that is over, and failed.
fn over(purpose: Purpose, desired: ClipboardSettings, error: String) -> (step: Step)
    ensures
        step.task == (Task { purpose, desired, phase: Phase::Over }),
        fails(step.task, step, error@),
{
    Step {
        task: Task { purpose, desired, phase: Phase::Over },
        action: Action::Done(Err(error)),
    }
}

/// What `event` makes of a task: `before` and `after` are the manager, `step`
/// is what comes next.
pub open spec fn advanced(
    before: SettingsManager,
    task: Task,
    event: Event,
    after: SettingsManager,
    step: Step,
) -> bool {
    let desired = task.desired;
    let control = Action::Control {
        paused: desired.capture_paused,
        max_bytes: desired.max_entry_bytes,
    };
    match (task.phase, event) {
        (Phase::SaveSettings, Event::Done(Ok(_))) => {
            &&& after == before.committed(desired)
            &&& goes_on(task, step, Phase::CheckLimits, Action::Limits)
        },
        (Phase::SaveSettings, Event::Done(Err(error))) => {
            &&& after == before
            &&& fails(task, step, error@)
        },
        (Phase::CheckLimits, Event::Limits(Ok(limits))) => if !in_force(limits, desired) {
            &&& recorded(
                before.with_collector(Collector::Stopped),
                after,
                Some("Capture restart is not yet verified"@),
            )
            &&& goes_on(
                task,
                step,
                Phase::StopCapture,
                Action::Control { paused: true, max_bytes: desired.max_entry_bytes },
            )
        } else if task.purpose == Purpose::Update && !before.collector_follows(desired) {
            &&& recorded(before, after, Some("Capture transition is not yet verified"@))
            &&& goes_on(task, step, Phase::ResizeCapture, control)
        } else {
            &&& after == before
            &&& succeeds(before, task, step)
        },
        (Phase::CheckLimits, Event::Limits(Err(error))) => {
            &&& after == before
            &&& fails(task, step, retention_failure(task.purpose, error@))
        },
        (Phase::StopCapture, Event::Done(Ok(_))) => {
            &&& after == before
            &&& goes_on(task, step, Phase::RestartEngine, Action::Restart)
        },
        (Phase::RestartEngine, Event::Done(Ok(_))) => {
            &&& after == before
            &&& goes_on(task, step, Phase::CheckApplied, Action::Limits)
        },
        (Phase::CheckApplied, Event::Limits(Ok(limits))) => if in_force(limits, desired) {
            &&& after == before
            &&& goes_on(task, step, Phase::RestoreCapture, control)
        } else {
            &&& recorded(before, after, Some(not_applied()))
            &&& fails(task, step, retention_failure(task.purpose, not_applied()))
        },
        (Phase::CheckApplied, Event::Limits(Err(error))) => {
            &&& recorded(before, after, Some(error@))
            &&& fails(task, step, retention_failure(task.purpose, error@))
        },
        (Phase::RestoreCapture | Phase::ResizeCapture, Event::Done(Ok(_))) => {
            &&& after == before.with_collector(
                Collector::Told { max_bytes: desired.max_entry_bytes },
            )
            &&& goes_on(task, step, Phase::VerifyRestart, Action::Verify)
        },
        (
            Phase::StopCapture | Phase::RestartEngine | Phase::RestoreCapture
            | Phase::ResizeCapture,
            Event::Done(Err(error)),
        ) => {
            &&& recorded(before, after, Some(error@))
            &&& fails(task, step, retention_failure(task.purpose, error@))
        },
        (Phase::VerifyRestart, Event::Paused(Ok(paused))) => if paused == desired.capture_paused {
            &&& recorded(before, after, None)
            &&& succeeds(after, task, step)
        } else {
            &&& recorded(before, after, Some(mismatch()))
            &&& fails(task, step, retention_failure(task.purpose, mismatch()))
        },
        (Phase::VerifyRestart, Event::Paused(Err(error))) => {
            &&& recorded(before, after, Some(error@))
            &&& fails(task, step, retention_failure(task.purpose, error@))
        },
        (Phase::SavePreference, Event::Done(Ok(_))) => {
            &&& recorded(
                before.committed(desired).with_collector(
                    Collector::Told { max_bytes: desired.max_entry_bytes },
                ),
                after,
                Some("Capture transition is not yet verified"@),
            )
            &&& goes_on(task, step, Phase::SetCapture, control)
        },
        (Phase::SavePreference, Event::Done(Err(error))) => {
            &&& after == before
            &&& if desired.capture_paused {
                goes_on(
                    task,
                    step,
                    Phase::StopLocally(error),
                    Action::Control { paused: true, max_bytes: 0 },
                )
            } else {
                fails(task, step, error@)
            }
        },
        (Phase::StopLocally(error), _) => {
            &&& recorded(before, after, Some(error@))
            &&& fails(task, step, error@)
        },
        (Phase::SetCapture, Event::Done(Ok(_))) => {
            &&& after == before
            &&& goes_on(task, step, Phase::VerifyCapture, Action::Verify)
        },
        (Phase::SetCapture, Event::Done(Err(error))) => {
            &&& recorded(before, after, Some(error@))
            &&& fails(task, step, error@)
        },
        (Phase::VerifyCapture, Event::Paused(Ok(paused))) => if paused == desired.capture_paused {
            &&& recorded(before, after, None)
            &&& succeeds(after, task, step)
        } else {
            &&& recorded(before, after, Some(mismatch()))
            &&& fails(task, step, mismatch())
        },
        (Phase::VerifyCapture, Event::Paused(Err(error))) => {
            &&& recorded(before, after, Some(error@))
            &&& fails(task, step, error@)
        },
        _ => {
            &&& recorded(before, after, Some(out_of_turn()))
            &&& fails(task, step, out_of_turn())
        },
    }
}

/// The task is over, and the settings are as `manager` shows them.
pub open spec fn succeeds(manager: SettingsManager, task: Task, step: Step) -> bool {
    &&& step.task == Task { phase: Phase::Over, ..task }
    &&& step.action matches Action::Done(result) && manager.loaded(result, manager.shown())
}

/// What a failure to bring the engine to the settings is reported as.
fn retention_error(purpose: Purpose, error: String) -> (message: String)
    ensures
        message@ == retention_failure(purpose, error@),
{
    match purpose {
        Purpose::Update => text::join("Clipboard settings were saved, but ", error.as_str()),
        _ => error,
    }
}

impl SettingsManager {
    /// Takes down what came of the last action of a task, and says what comes
    /// next. The capture is stopped before the engine is restarted, and goes on
    /// only once the engine enforces the limits; where they are enforced without a
    /// restart, it is told of another size. It is known to be as desired only once
    /// it was asked. A pause that could not be saved still stops the capture.
    pub fn advance(&mut self, task: Task, event: Event) -> (step: Step)
        requires
            old(self).wf(),
            old(self).runs(task),
        ensures
            final(self).wf(),
            final(self).runs(step.task),
            advanced(*old(self), task, event, *final(self), step),
    {
        let purpose = task.purpose;
        let desired = task.desired;
        match (task.phase, event) {
            (Phase::SaveSettings, Event::Done(Ok(_))) => {
                self.commit(desired);
                Step {
                    task: Task { purpose, desired, phase: Phase::CheckLimits },
                    action: Action::Limits,
                }
            },
            (Phase::SaveSettings, Event::Done(Err(error))) => over(purpose, desired, error),
            (Phase::CheckLimits, Event::Limits(Ok(limits))) => {
                if !limits_match(&limits, &desired) {
                    self.record_error("Capture restart is not yet verified");
                    self.collector = Collector::Stopped;
                    Step {
                        task: Task { purpose, desired, phase: Phase::StopCapture },
                        action: Action::Control {
                            paused: true,
                            max_bytes: desired.max_entry_bytes,
                        },
                    }
                } else if purpose == Purpose::Update && self.collector != (Collector::Told {
                    max_bytes: desired.max_entry_bytes,
                }) {
                    self.record_error("Capture transition is not yet verified");
                    Step {
                        task: Task { purpose, desired, phase: Phase::ResizeCapture },
                        action: Action::Control {
                            paused: desired.capture_paused,
                            max_bytes: desired.max_entry_bytes,
                        },
                    }
                } else {
                    self.finished(purpose, desired)
                }
            },
            (Phase::CheckLimits, Event::Limits(Err(error))) => over(
                purpose,
                desired,
                retention_error(purpose, error),
            ),
            (Phase::StopCapture, Event::Done(Ok(_))) => Step {
                task: Task { purpose, desired, phase: Phase::RestartEngine },
                action: Action::Restart,
            },
            (Phase::RestartEngine, Event::Done(Ok(_))) => Step {
                task: Task { purpose, desired, phase: Phase::CheckApplied },
                action: Action::Limits,
            },
            (Phase::CheckApplied, Event::Limits(Ok(limits))) => {
                if limits_match(&limits, &desired) {
                    Step {
                        task: Task { purpose, desired, phase: Phase::RestoreCapture },
                        action: Action::Control {
                            paused: desired.capture_paused,
                            max_bytes: desired.max_entry_bytes,
                        },
                    }
                } else {
                    let error =
                        "Running Ringboard has not applied the saved retention limits".to_owned();
                    self.record_error(error.as_str());
                    over(purpose, desired, retention_error(purpose, error))
                }
            },
            (Phase::CheckApplied, Event::Limits(Err(error))) => {
                self.record_error(error.as_str());
                over(purpose, desired, retention_error(purpose, error))
            },
            (Phase::RestoreCapture | Phase::ResizeCapture, Event::Done(Ok(_))) => {
                self.collector = Collector::Told { max_bytes: desired.max_entry_bytes };
                Step {
                    task: Task { purpose, desired, phase: Phase::VerifyRestart },
                    action: Action::Verify,
                }
            },
            (
                Phase::StopCapture | Phase::RestartEngine | Phase::RestoreCapture
                | Phase::ResizeCapture,
                Event::Done(Err(error)),
            ) => {
                self.record_error(error.as_str());
                over(purpose, desired, retention_error(purpose, error))
            },
            (Phase::VerifyRestart, Event::Paused(Ok(paused))) => {
                if paused == desired.capture_paused {
                    self.record_verified();
                    self.finished(purpose, desired)
                } else {
                    let error = "Capture service does not match the saved preference".to_owned();
                    self.record_error(error.as_str());
                    over(purpose, desired, retention_error(purpose, error))
                }
            },
            (Phase::VerifyRestart, Event::Paused(Err(error))) => {
                self.record_error(error.as_str());
                over(purpose, desired, retention_error(purpose, error))
            },
            (Phase::SavePreference, Event::Done(Ok(_))) => {
                self.commit(desired);
                self.record_error("Capture transition is not yet verified");
                self.collector = Collector::Told { max_bytes: desired.max_entry_bytes };
                Step {
                    task: Task { purpose, desired, phase: Phase::SetCapture },
                    action: Action::Control {
                        paused: desired.capture_paused,
                        max_bytes: desired.max_entry_bytes,
                    },
                }
            },
            (Phase::SavePreference, Event::Done(Err(error))) => {
                if desired.capture_paused {
                    Step {
                        task: Task { purpose, desired, phase: Phase::StopLocally(error) },
                        action: Action::Control { paused: true, max_bytes: 0 },
                    }
                } else {
                    over(purpose, desired, error)
                }
            },
            (Phase::StopLocally(error), _) => {
                self.record_error(error.as_str());
                over(purpose, desired, error)
            },
            (Phase::SetCapture, Event::Done(Ok(_))) => Step {
                task: Task { purpose, desired, phase: Phase::VerifyCapture },
                action: Action::Verify,
            },
            (Phase::SetCapture, Event::Done(Err(error))) => {
                self.record_error(error.as_str());
                over(purpose, desired, error)
            },
            (Phase::VerifyCapture, Event::Paused(Ok(paused))) => {
                if paused == desired.capture_paused {
                    self.record_verified();
                    self.finished(purpose, desired)
                } else {
                    let error = "Capture service does not match the saved preference".to_owned();
                    self.record_error(error.as_str());
                    over(purpose, desired, error)
                }
            },
            (Phase::VerifyCapture, Event::Paused(Err(error))) => {
                self.record_error(error.as_str());
                over(purpose, desired, error)
            },
            _ => {
                let error = "Clipboard settings transaction failed".to_owned();
                self.record_error(error.as_str());
                over(purpose, desired, error)
            },
        }
    }

    /// A task that is over, with the settings as they are shown.
    fn finished(&self, purpose: Purpose, desired: ClipboardSettings) -> (step: Step)
        ensures
            step.task == (Task { purpose, desired, phase: Phase::Over }),
            step.action matches Action::Done(result) && self.loaded(result, self.shown()),
    {
        Step {
            task: Task { purpose, desired, phase: Phase::Over },
            action: Action::Done(self.get()),
        }
    }
}

/// The capture is never shown as private or paused unless it was verified, and
/// is shown as private only where it is shown as paused.
pub proof fn privacy_is_never_shown_unverified(manager: SettingsManager)
    requires
        manager.wf(),
    ensures
        manager.shown().private_mode || manager.shown().capture_paused ==> manager.capture_verified,
        manager.shown().private_mode ==> manager.shown().capture_paused,
{
}

/// A change of the capture is reported as done only where the capture was
/// asked, and is as desired.
pub proof fn capture_changes_are_verified(
    before: SettingsManager,
    task: Task,
    event: Event,
    after: SettingsManager,
    step: Step,
)
    requires
        before.runs(task),
        task.purpose == Purpose::Capture,
        !(task.phase is Over),
        advanced(before, task, event, after, step),
        step.action matches Action::Done(Ok(_)),
    ensures
        event == Event::Paused(Ok(task.desired.capture_paused)),
        after.capture_verified,
        step.action == Action::Done(Ok(task.desired)),
{
}

/// The capture is told to go on, or to go by another limit, only once the engine
/// was asked and enforces the limits.
pub proof fn capture_goes_on_only_within_the_limits(
    before: SettingsManager,
    task: Task,
    event: Event,
    after: SettingsManager,
    step: Step,
)
    requires
        before.runs(task),
        task.purpose != Purpose::Capture,
        advanced(before, task, event, after, step),
        step.action matches Action::Control { paused: false, .. },
    ensures
        event matches Event::Limits(Ok(limits)) && in_force(limits, task.desired),
{
}

/// A change of the limits goes on from where it stands, event by event.
pub open spec fn unfolds_as(
    managers: Seq<SettingsManager>,
    steps: Seq<Step>,
    events: Seq<Event>,
) -> bool {
    &&& steps.len() == events.len() + 1
    &&& managers.len() == steps.len()
    &&& forall|i: int|
        0 <= i < events.len() ==> #[trigger] unfolds_at(managers, steps, events, i)
}

/// The step that the event at this index leads to is the next one.
pub open spec fn unfolds_at(
    managers: Seq<SettingsManager>,
    steps: Seq<Step>,
    events: Seq<Event>,
    i: int,
) -> bool {
    &&& managers[i].runs(steps[i].task)
    &&& advanced(managers[i], steps[i].task, events[i], managers[i + 1], steps[i + 1])
}

/// The engine was asked, and enforces the limits.
pub open spec fn confirmed(events: Seq<Event>, desired: ClipboardSettings) -> bool {
    exists|i: int|
        0 <= i < events.len() && (#[trigger] events[i] matches Event::Limits(Ok(limits))
            && in_force(limits, desired))
}

/// A change of the limits is reported as done only where the engine was asked on
/// the way, and enforces them.
pub proof fn limit_changes_are_verified(
    managers: Seq<SettingsManager>,
    steps: Seq<Step>,
    events: Seq<Event>,
)
    requires
        unfolds_as(managers, steps, events),
        steps[0].task.purpose != Purpose::Capture,
        steps[0].task.phase is SaveSettings || steps[0].task.phase is CheckLimits,
        !(steps[0].action is Done),
    ensures
        steps.last().task.desired == steps[0].task.desired,
        steps.last().task.purpose == steps[0].task.purpose,
        steps.last().task.phase is RestoreCapture || steps.last().task.phase is ResizeCapture
            || steps.last().task.phase is VerifyRestart || (
        steps.last().action matches Action::Done(Ok(_))) ==> confirmed(events, steps[0].task.desired),
    decreases events.len(),
{
    if events.len() > 0 {
        let n = events.len() - 1;
        let before = events.drop_last();
        let earlier = managers.drop_last();
        let taken = steps.drop_last();
        assert forall|i: int| 0 <= i < before.len() implies #[trigger] unfolds_at(
            earlier,
            taken,
            before,
            i,
        ) by {
            assert(unfolds_at(managers, steps, events, i));
            assert(events[i] == before[i]);
            assert(earlier[i] == managers[i] && earlier[i + 1] == managers[i + 1]);
            assert(taken[i] == steps[i] && taken[i + 1] == steps[i + 1]);
        }
        assert(unfolds_as(earlier, taken, before));
        limit_changes_are_verified(earlier, taken, before);
        let task = steps[n].task;
        assert(taken.last() == steps[n]);
        assert(unfolds_at(managers, steps, events, n));
        if confirmed(before, steps[0].task.desired) {
            let i = choose|i: int|
                0 <= i < before.len() && (#[trigger] before[i] matches Event::Limits(Ok(limits))
                    && in_force(limits, steps[0].task.desired));
            assert(events[i] == before[i]);
        }
        assert(events[n] == events.last());
        assert(steps.last() == steps[n + 1]);
    }
}

/// Where the engine enforces the limits without a restart, a change succeeds only
/// once the capture goes by them too: it was told, and was asked.
pub proof fn size_changes_reach_the_capture(
    before: SettingsManager,
    task: Task,
    limits: EngineLimits,
    after: SettingsManager,
    step: Step,
)
    requires
        task.purpose == Purpose::Update,
        task.phase is CheckLimits,
        in_force(limits, task.desired),
        !before.collector_follows(task.desired),
        advanced(before, task, Event::Limits(Ok(limits)), after, step),
    ensures
        step.action == (Action::Control {
            paused: task.desired.capture_paused,
            max_bytes: task.desired.max_entry_bytes,
        }),
        step.task == (Task { phase: Phase::ResizeCapture, ..task }),
        !after.capture_verified,
{
}

/// The engine is restarted only once the capture has stopped, and from the
/// moment that the capture is told to stop until it was asked again, nothing
/// is said of it.
pub proof fn capture_is_stopped_before_a_restart(
    before: SettingsManager,
    task: Task,
    event: Event,
    after: SettingsManager,
    step: Step,
)
    requires
        advanced(before, task, event, after, step),
    ensures
        step.action is Restart ==> task.phase is StopCapture && event matches Event::Done(Ok(_)),
        step.task.phase is StopCapture ==> !after.capture_verified && step.action == (
        Action::Control { paused: true, max_bytes: task.desired.max_entry_bytes }),
        (task.phase is StopCapture || task.phase is RestartEngine || task.phase is CheckApplied
            || task.phase is RestoreCapture) && !before.capture_verified
            ==> !after.capture_verified,
{
}

/// Where a pause cannot be saved the capture is stopped all the same, the
/// request fails with the reason, and neither the settings nor what is shown
/// of them claim that the pause was kept.
pub proof fn a_pause_that_is_not_saved_still_stops_the_capture(
    before: SettingsManager,
    task: Task,
    error: String,
    stopping: SettingsManager,
    stop: Step,
    event: Event,
    after: SettingsManager,
    end: Step,
)
    requires
        before.runs(task),
        task.phase is SavePreference,
        task.desired.capture_paused,
        advanced(before, task, Event::Done(Err(error)), stopping, stop),
        advanced(stopping, stop.task, event, after, end),
    ensures
        stop.action matches Action::Control { paused: true, .. },
        end.action matches Action::Done(Err(message)) && message@ == error@,
        after.value == before.value,
        !after.capture_verified,
{
}

/// Files that are written together: where one cannot be put in place, all are
/// put back as they were.
pub struct Writes {
    pub labels: Vec<String>,
    pub stage: WriteStage,
}

pub enum WriteStage {
    /// The file at this index is being put in place.
    Committing(usize),
    /// The file at this index is being put back, for the reason `error`.
    Restoring { at: usize, error: String, failures: Vec<String> },
    Finished,
}

/// What is to be done with the files next.
pub enum WriteAction {
    Commit(usize),
    Restore(usize),
    Done(Result<(), String>),
}

/// The reasons, in order, with a semicolon between them.
pub open spec fn joined(failures: Seq<String>) -> Seq<char>
    decreases failures.len(),
{
    if failures.len() == 0 {
        Seq::empty()
    } else if failures.len() == 1 {
        failures[0]@
    } else {
        joined(failures.drop_last()) + "; "@ + failures.last()@
    }
}

/// What is said of a failed write, once the files were put back.
pub open spec fn rollback_message(error: Seq<char>, failures: Seq<String>) -> Seq<char> {
    if failures.len() == 0 {
        error
    } else {
        error + "; rollback failed: "@ + joined(failures)
    }
}

/// What is said of a failed write, once the files were put back.
fn rollback_report(error: String, failures: &Vec<String>) -> (message: String)
    ensures
        message@ == rollback_message(error@, failures@),
{
    if failures.len() == 0 {
        return error;
    }
    let mut list = failures[0].clone();
    let mut at: usize = 1;
    assert(failures@.take(1) =~= seq![failures@[0]]);
    while at < failures.len()
        invariant
            1 <= at <= failures@.len(),
            list@ == joined(failures@.take(at as int)),
        decreases failures@.len() - at,
    {
        assert(failures@.take(at + 1).drop_last() =~= failures@.take(at as int));
        list = text::join(text::join(list.as_str(), "; ").as_str(), failures[at].as_str());
        at = at + 1;
    }
    assert(failures@.take(at as int) =~= failures@);
    text::join(text::join(error.as_str(), "; rollback failed: ").as_str(), list.as_str())
}

impl Writes {
    pub open spec fn wf(self) -> bool {
        match self.stage {
            WriteStage::Committing(at) => at < self.labels@.len(),
            WriteStage::Restoring { at, .. } => at < self.labels@.len(),
            WriteStage::Finished => true,
        }
    }

    /// Begins with the first file.
    pub fn begin(labels: Vec<String>) -> (begun: (Self, WriteAction))
        ensures
            begun.0.wf(),
            begun.0.labels == labels,
            if labels@.len() == 0 {
                begun.0.stage is Finished && begun.1 == WriteAction::Done(Ok(()))
            } else {
                begun.0.stage == WriteStage::Committing(0) && begun.1 == WriteAction::Commit(0)
            },
    {
        if labels.len() == 0 {
            (Writes { labels, stage: WriteStage::Finished }, WriteAction::Done(Ok(())))
        } else {
            (Writes { labels, stage: WriteStage::Committing(0) }, WriteAction::Commit(0))
        }
    }

    /// What `outcome` makes of `before`.
    pub open spec fn stepped(
        before: Writes,
        outcome: Result<(), String>,
        after: Writes,
        action: WriteAction,
    ) -> bool {
        &&& after.labels == before.labels
        &&& match before.stage {
            WriteStage::Committing(at) => match outcome {
                Ok(_) => if at + 1 < before.labels@.len() {
                    &&& after.stage == WriteStage::Committing((at + 1) as usize)
                    &&& action == WriteAction::Commit((at + 1) as usize)
                } else {
                    &&& after.stage is Finished
                    &&& action == WriteAction::Done(Ok(()))
                },
                Err(reason) => {
                    let last = (before.labels@.len() - 1) as usize;
                    &&& after.stage matches WriteStage::Restoring { at: from, error, failures }
                        && from == last && failures@.len() == 0 && error@ == before.labels@[at as int]@
                        + " could not be committed: "@ + reason@
                    &&& action == WriteAction::Restore(last)
                },
            },
            WriteStage::Restoring { at, error, failures } => {
                let known = match outcome {
                    Ok(_) => failures@,
                    Err(reason) => failures@.push(reason),
                };
                if at > 0 {
                    &&& after.stage matches WriteStage::Restoring {
                        at: down,
                        error: kept,
                        failures: list,
                    } && down == at - 1 && kept == error && list@ == known
                    &&& action == WriteAction::Restore((at - 1) as usize)
                } else {
                    &&& after.stage is Finished
                    &&& action matches WriteAction::Done(Err(message)) && message@
                        == rollback_message(error@, known)
                }
            },
            WriteStage::Finished => {
                &&& after.stage is Finished
                &&& action matches WriteAction::Done(Err(message)) && message@ == out_of_turn()
            },
        }
    }

    /// Takes down what came of the last action, and says what comes next.
    pub fn step(self, outcome: Result<(), String>) -> (next: (Self, WriteAction))
        requires
            self.wf(),
        ensures
            next.0.wf(),
            Writes::stepped(self, outcome, next.0, next.1),
    {
        let labels = self.labels;
        match self.stage {
            WriteStage::Committing(at) => match outcome {
                Ok(_) => {
                    if at < labels.len() - 1 {
                        (
                            Writes { labels, stage: WriteStage::Committing(at + 1) },
                            WriteAction::Commit(at + 1),
                        )
                    } else {
                        (Writes { labels, stage: WriteStage::Finished }, WriteAction::Done(Ok(())))
                    }
                },
                Err(reason) => {
                    let error = text::join(
                        text::join(labels[at].as_str(), " could not be committed: ").as_str(),
                        reason.as_str(),
                    );
                    let last: usize = labels.len() - 1;
                    (
                        Writes {
                            labels,
                            stage: WriteStage::Restoring { at: last, error, failures: Vec::new() },
                        },
                        WriteAction::Restore(last),
                    )
                },
            },
            WriteStage::Restoring { at, error, failures } => {
                let mut failures = failures;
                if let Err(reason) = outcome {
                    failures.push(reason);
                }
                if at > 0 {
                    (
                        Writes {
                            labels,
                            stage: WriteStage::Restoring { at: at - 1, error, failures },
                        },
                        WriteAction::Restore(at - 1),
                    )
                } else {
                    (
                        Writes { labels, stage: WriteStage::Finished },
                        WriteAction::Done(Err(rollback_report(error, &failures))),
                    )
                }
            },
            WriteStage::Finished => (
                Writes { labels, stage: WriteStage::Finished },
                WriteAction::Done(Err("Clipboard settings transaction failed".to_owned())),
            ),
        }
    }
}

/// The stages that follow from what came of each action, with the actions.
pub open spec fn unfolds(
    stages: Seq<Writes>,
    actions: Seq<WriteAction>,
    outcomes: Seq<Result<(), String>>,
) -> bool {
    &&& stages.len() == actions.len()
    &&& stages.len() == outcomes.len() + 1
    &&& forall|i: int|
        0 <= i < outcomes.len() ==> Writes::stepped(
            stages[i],
            #[trigger] outcomes[i],
            stages[i + 1],
            actions[i + 1],
        )
}

/// After a failure every file is put back, the last one first, whatever comes
/// of each, before the failure is reported.
pub proof fn a_failed_write_puts_every_file_back(
    stages: Seq<Writes>,
    actions: Seq<WriteAction>,
    outcomes: Seq<Result<(), String>>,
    i: int,
)
    requires
        unfolds(stages, actions, outcomes),
        0 < i < stages.len(),
        stages[0].wf(),
        stages[0].stage is Committing,
        outcomes[0] is Err,
    ensures
        i <= stages[0].labels@.len() ==> actions[i] == WriteAction::Restore(
            (stages[0].labels@.len() - i) as usize,
        ) && stages[i].labels == stages[0].labels && stages[i].stage is Restoring
            && stages[i].stage->at == stages[0].labels@.len() - i,
        i == stages[0].labels@.len() + 1 ==> actions[i] matches WriteAction::Done(Err(_)),
    decreases i,
{
    let count = stages[0].labels.len();
    assert(count == stages[0].labels@.len());
    assert(Writes::stepped(
        stages[i - 1],
        outcomes[i - 1],
        stages[i - 1 + 1],
        actions[i - 1 + 1],
    ));
    if i > 1 {
        a_failed_write_puts_every_file_back(stages, actions, outcomes, i - 1);
    }
}

} // verus!
