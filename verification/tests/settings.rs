use clip_daemon::ringboard::ipc::EngineLimits;
use clip_daemon::settings::{
    encoded_or_error, encoded_ringboard_config, import_native_settings, limit_file, limits_match,
    validate_loaded_settings, Action, ClipboardSettings, Event, SettingsManager, SettingsUpdate,
    Step, WriteAction, Writes,
};

/// What is around the settings.
struct Services {
    attempts: usize,
    fail: bool,
    paused: bool,
    save: Result<(), String>,
    limits: EngineLimits,
    restarts: usize,
    applies_limits: bool,
    desired: EngineLimits,
    /// The engine goes by the size limit without a restart.
    live_size: bool,
    max_bytes: u64,
}

fn limits(settings: &ClipboardSettings) -> EngineLimits {
    EngineLimits {
        max_entries: settings.max_entries,
        max_favorites: settings.max_favorites,
        max_entry_bytes: Some(settings.max_entry_bytes),
    }
}

fn services() -> Services {
    let limits = limits(&ClipboardSettings::default());
    Services {
        attempts: 0,
        fail: false,
        paused: false,
        save: Ok(()),
        limits,
        restarts: 0,
        applies_limits: true,
        desired: limits,
        live_size: false,
        max_bytes: 0,
    }
}

impl Services {
    fn run(&mut self, manager: &mut SettingsManager, step: Step) -> Result<ClipboardSettings, String> {
        let mut step = step;
        loop {
            let event = match step.action {
                Action::Done(result) => return result,
                Action::Save { value, .. } => {
                    self.desired = limits(&value);
                    if self.live_size {
                        self.limits.max_entry_bytes = self.desired.max_entry_bytes;
                    }
                    Event::Done(self.save.clone())
                }
                Action::Limits => Event::Limits(Ok(self.limits)),
                Action::Control { paused, max_bytes } => {
                    self.attempts += 1;
                    if !paused {
                        assert_eq!(
                            (self.limits.max_entries, self.limits.max_favorites),
                            (self.desired.max_entries, self.desired.max_favorites),
                            "capture goes on within the limits"
                        );
                    }
                    self.max_bytes = max_bytes;
                    if self.fail {
                        Event::Done(Err("injected failure".into()))
                    } else {
                        self.paused = paused;
                        Event::Done(Ok(()))
                    }
                }
                Action::Restart => {
                    assert!(self.paused, "capture must be stopped first");
                    self.restarts += 1;
                    if self.applies_limits {
                        self.limits = self.desired;
                    }
                    Event::Done(Ok(()))
                }
                Action::Verify => Event::Paused(Ok(self.paused)),
            };
            step = manager.advance(step.task, event);
        }
    }

    fn set_paused(
        &mut self,
        manager: &mut SettingsManager,
        paused: bool,
        private: bool,
    ) -> Result<ClipboardSettings, String> {
        let step = manager.set_paused(paused, private);
        self.run(manager, step)
    }
}

fn manager() -> SettingsManager {
    SettingsManager::new(Ok(ClipboardSettings::default()))
}

#[test]
fn invalid_limits_are_rejected() {
    let mut manager = manager();
    let step = manager.update(SettingsUpdate {
        max_entries: Some(0),
        ..SettingsUpdate::default()
    });
    assert_eq!(
        services().run(&mut manager, step),
        Err("Clipboard setting is outside the supported range".to_owned())
    );
}

#[test]
fn failed_pause_retries_and_never_asserts_unverified_privacy() {
    let mut services = services();
    let mut manager = manager();
    services.fail = true;
    assert!(services.set_paused(&mut manager, true, true).is_err());
    assert!(!manager.get().unwrap().private_mode);
    assert!(manager.capture_state().desired_private_mode);
    assert!(!manager.capture_allowed().unwrap());
    assert_eq!(manager.capture_state().paused, None);
    services.fail = false;
    assert!(services
        .set_paused(&mut manager, true, true)
        .unwrap()
        .private_mode);
    assert_eq!(services.attempts, 2);
    // Detect an external capture restart instead of retaining a privacy claim.
    services.paused = false;
    let step = manager.refresh_capture();
    assert!(services.run(&mut manager, step).is_err());
    assert!(!manager.get().unwrap().private_mode);
    let step = manager.reconcile_capture();
    services.run(&mut manager, step).unwrap();
    assert!(manager.get().unwrap().private_mode);
    services.set_paused(&mut manager, false, false).unwrap();
    assert!(manager.capture_allowed().unwrap());
}

#[test]
fn failed_persistence_stops_capture_without_claiming_durable_privacy() {
    let mut services = services();
    let mut manager = manager();
    services.save = Err("settings cannot be replaced".into());
    assert_eq!(
        services.set_paused(&mut manager, true, true),
        Err("settings cannot be replaced".to_owned())
    );
    assert!(services.paused);
    let state = manager.capture_state();
    assert!(!state.verified);
    assert!(!state.private_mode);
    assert!(!state.desired_paused);
}

#[test]
fn malformed_settings_are_reported_instead_of_defaulted() {
    let error = "Clipboard settings file is invalid; refusing to use defaults";
    let manager = SettingsManager::new(Err(error.to_owned()));
    assert!(manager
        .get()
        .unwrap_err()
        .contains("refusing to use defaults"));
    assert!(manager.capture_allowed().is_err());
    assert!(manager.prepare_engine().is_err());
}

#[test]
fn limits_are_applied_by_a_restart_and_told_only_where_they_are_in_force() {
    let mut services = services();
    let mut manager = manager();
    let update = SettingsUpdate {
        max_entries: Some(10),
        ..SettingsUpdate::default()
    };
    services.applies_limits = false;
    let step = manager.update(update);
    assert_eq!(
        services.run(&mut manager, step),
        Err(
            "Clipboard settings were saved, but Running Ringboard has not applied the saved retention limits"
                .to_owned()
        )
    );
    assert_eq!(services.restarts, 1);
    // Nothing is captured meanwhile.
    assert!(services.paused);
    assert!(!manager.capture_state().verified);
    // The same change again is not taken for granted.
    services.applies_limits = true;
    let step = manager.update(update);
    assert_eq!(services.run(&mut manager, step).unwrap().max_entries, 10);
    assert_eq!(services.restarts, 2);
    assert!(!services.paused);
    assert!(manager.capture_state().verified);
    let step = manager.initialize_retention();
    services.run(&mut manager, step).unwrap();
    assert_eq!(services.restarts, 2);
}

#[test]
fn loaded_settings_are_checked() {
    let defaults = ClipboardSettings::default();
    assert_eq!(defaults.max_entries, 750);
    assert_eq!(validate_loaded_settings(defaults), Ok(defaults));
    assert_eq!(
        validate_loaded_settings(ClipboardSettings {
            private_mode: true,
            ..defaults
        }),
        Err("Private mode requires a paused capture preference".to_owned())
    );
    assert!(validate_loaded_settings(ClipboardSettings {
        max_entry_bytes: 1,
        ..defaults
    })
    .is_err());
}

#[test]
fn native_settings_are_taken_over() {
    let imported = import_native_settings(Some((9, 8)), Some(b" 70000\n")).unwrap();
    assert_eq!(imported.max_entries, 9);
    assert_eq!(imported.max_favorites, 8);
    assert_eq!(imported.max_entry_bytes, 70000);
    assert_eq!(
        import_native_settings(None, None),
        Ok(ClipboardSettings::default())
    );
    for contents in [&b"many"[..], &[0xff][..], &[b'1'; 33][..]] {
        assert_eq!(
            import_native_settings(None, Some(contents)),
            Err("Native capture limit is invalid".to_owned())
        );
    }
    assert!(import_native_settings(Some((0, 1)), None).is_err());
}

#[test]
fn a_saved_limit_is_read_back() {
    let settings = ClipboardSettings::default();
    let contents = limit_file(&settings);
    assert_eq!(contents, "16777216\n");
    assert_eq!(
        import_native_settings(None, Some(contents.as_bytes())),
        Ok(settings)
    );
}

#[test]
fn the_engine_configuration_holds_both_capacities() {
    let text = encoded_ringboard_config(&ClipboardSettings {
        max_entries: 4321,
        max_favorites: 987,
        ..ClipboardSettings::default()
    })
    .unwrap();
    assert!(text.contains("4321"), "{text}");
    assert!(text.contains("987"), "{text}");
    assert_eq!(
        encoded_ringboard_config(&ClipboardSettings {
            max_entries: 0,
            ..ClipboardSettings::default()
        }),
        Err("max_entries cannot be zero".to_owned())
    );
    assert_eq!(
        encoded_or_error(None),
        Err("Ringboard settings could not be encoded".to_owned())
    );
    assert!(manager().prepare_engine().is_ok());
}

#[test]
fn engine_limits_are_capped_by_what_the_clipboard_takes() {
    let settings = ClipboardSettings {
        max_entry_bytes: 512 * 1024 * 1024,
        ..ClipboardSettings::default()
    };
    let mut effective = limits(&settings);
    assert!(!limits_match(&effective, &settings));
    effective.max_entry_bytes = Some(64 * 1024 * 1024);
    assert!(limits_match(&effective, &settings));
    let state = manager()
        .retention_state(Err("engine is down".into()))
        .unwrap();
    assert!(!state.synchronized);
    assert_eq!(state.error, Some("engine is down".to_owned()));
}

#[test]
fn a_failed_write_puts_every_file_back() {
    let labels = vec!["one".to_owned(), "two".to_owned(), "three".to_owned()];
    let (writes, action) = Writes::begin(labels);
    assert!(matches!(action, WriteAction::Commit(0)));
    let (writes, action) = writes.step(Ok(()));
    assert!(matches!(action, WriteAction::Commit(1)));
    let (writes, action) = writes.step(Err("disk full".into()));
    assert!(matches!(action, WriteAction::Restore(2)));
    let (writes, action) = writes.step(Ok(()));
    assert!(matches!(action, WriteAction::Restore(1)));
    let (writes, action) = writes.step(Err("gone".into()));
    assert!(matches!(action, WriteAction::Restore(0)));
    let (_, action) = writes.step(Err("locked".into()));
    match action {
        WriteAction::Done(Err(message)) => assert_eq!(
            message,
            "two could not be committed: disk full; rollback failed: gone; locked"
        ),
        _ => panic!("the failure was not reported"),
    }
}

#[test]
fn another_size_reaches_the_capture_without_a_restart() {
    let mut services = services();
    services.live_size = true;
    let mut manager = manager();
    let step = manager.reconcile_capture();
    services.run(&mut manager, step).unwrap();
    assert_eq!((services.attempts, services.max_bytes), (1, 16 * 1024 * 1024));
    let resize = SettingsUpdate {
        max_entry_bytes: Some(1024 * 1024),
        ..SettingsUpdate::default()
    };
    services.fail = true;
    let step = manager.update(resize);
    assert_eq!(
        services.run(&mut manager, step),
        Err("Clipboard settings were saved, but injected failure".to_owned())
    );
    assert!(!manager.capture_state().verified);
    // The same change again is not taken for granted.
    services.fail = false;
    let step = manager.update(resize);
    assert_eq!(
        services.run(&mut manager, step).unwrap().max_entry_bytes,
        1024 * 1024
    );
    assert_eq!((services.attempts, services.max_bytes), (3, 1024 * 1024));
    assert!(manager.capture_state().verified);
    assert_eq!(services.restarts, 0);
    // Nothing else concerns the capture.
    let step = manager.update(SettingsUpdate {
        collapse_self_echoes: Some(false),
        ..SettingsUpdate::default()
    });
    assert!(!services.run(&mut manager, step).unwrap().collapse_self_echoes);
    assert_eq!(services.attempts, 3);
}
