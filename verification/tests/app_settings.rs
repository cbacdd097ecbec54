use fem_ui::paths::same_path;
use fem_ui::settings::{
    AppSettings, same_preferences, EnvironmentOverrides, SolverLaunchMode, SolverPreferences, parse_u16,
    preferences_from_text, settings_text_for_save,
};

fn prefs() -> SolverPreferences {
    SolverPreferences {
        executable: "C:\\Program Files\\解析's tools\\fistr1.exe".to_string(),
        partitioner: Some("/opt/frontistr/hecmw_part1".into()),
        mpi_launcher: Some("/opt/mpi/mpiexec".into()),
        launch_mode: SolverLaunchMode::Mpi,
        mpi_ranks: 8,
        openmp_threads: 4,
        last_output_directory: Some("/tmp/out".into()),
    }
}

fn same(a: &SolverPreferences, b: &SolverPreferences) -> bool {
    a.executable == b.executable
        && a.partitioner == b.partitioner
        && a.mpi_launcher == b.mpi_launcher
        && a.launch_mode == b.launch_mode
        && a.mpi_ranks == b.mpi_ranks
        && a.openmp_threads == b.openmp_threads
        && a.last_output_directory == b.last_output_directory
}

#[test]
fn save_and_reload_paths_modes_and_output_hint() {
    let text = settings_text_for_save("", &prefs()).unwrap();
    assert!(same(&preferences_from_text(&text).unwrap(), &prefs()));
    let mut next = prefs();
    next.mpi_ranks = 2;
    let text = settings_text_for_save(&text, &next).unwrap();
    assert!(same(&preferences_from_text(&text).unwrap(), &next));
}

#[test]
fn malformed_or_invalid_settings_are_not_overwritten() {
    for text in [
        "[bad",
        "[frontistr]\nmpi_ranks = 0",
        "[frontistr]\nexecutable = 42",
        "[frontistr]\nlaunch_mode = 'unknown'",
    ] {
        let mut store = AppSettings::from_loaded(Some("bevyistr.toml".into()), preferences_from_text(text));
        assert!(store.warning().is_some());
        let mut prefs = SolverPreferences::default_preferences();
        prefs.mpi_ranks = 3;
        assert!(store.save_changed(prefs.clone()));
        let result = settings_text_for_save(text, &prefs).map(|_| ());
        assert!(result.is_err());
        store.record_save(result);
        assert!(store.warning().is_some());
    }
}

#[test]
fn settings_errors_name_the_offending_key() {
    assert!(preferences_from_text("[bad").unwrap_err().starts_with("Invalid bevyistr.toml: "));
    assert_eq!(
        preferences_from_text("[frontistr]\nmpi_ranks = 0").unwrap_err(),
        "frontistr.mpi_ranks must be an integer from 1 to 4096"
    );
    assert_eq!(
        preferences_from_text("[frontistr]\nexecutable = 42").unwrap_err(),
        "frontistr.executable must be a string"
    );
    assert_eq!(
        preferences_from_text("[frontistr]\nlaunch_mode = 'unknown'").unwrap_err(),
        "frontistr.launch_mode must be 'direct' or 'mpi'"
    );
    assert_eq!(preferences_from_text("frontistr = 3").unwrap_err(), "[frontistr] must be a TOML table");
    let defaults = preferences_from_text("").unwrap();
    assert!(same(&defaults, &SolverPreferences::default_preferences()));
    assert_eq!(defaults.executable, "fistr1");
    assert_eq!(defaults.mpi_ranks, 4);
    let blank = preferences_from_text("[frontistr]\nexecutable = '  '\npartitioner = ''").unwrap();
    assert_eq!(blank.executable, "fistr1");
    assert_eq!(blank.partitioner, None);
}

#[test]
fn save_preserves_unrelated_settings() {
    let existing = "# user comment\n[view]\ncolor = 'material'\n[frontistr]\ncustom = 'keep'\n";
    let text = settings_text_for_save(existing, &SolverPreferences::default_preferences()).unwrap();
    let doc: toml_edit::DocumentMut = text.parse().unwrap();
    assert_eq!(doc["view"]["color"].as_str(), Some("material"));
    assert_eq!(doc["frontistr"]["custom"].as_str(), Some("keep"));
    assert_eq!(doc["frontistr"]["executable"].as_str(), Some("fistr1"));
    assert_eq!(doc["frontistr"]["partitioner"].as_str(), Some(""));
    assert_eq!(doc["frontistr"]["mpi_ranks"].as_integer(), Some(4));
    assert!(text.contains("# user comment"));
}

#[test]
fn unchanged_preferences_are_not_saved_and_missing_location_is_reported() {
    let mut store = AppSettings::from_loaded(None, Ok(SolverPreferences::default_preferences()));
    assert!(!store.save_changed(SolverPreferences::default_preferences()));
    assert!(store.warning().is_none());
    assert!(!store.save_changed(prefs()));
    assert_eq!(store.warning(), Some("No user configuration directory available"));
    assert_eq!(
        store.label(),
        "Settings: unavailable\nNot saved/loaded: No user configuration directory available"
    );
    let mut store = AppSettings::from_loaded(Some("/cfg/bevyistr.toml".into()), Ok(SolverPreferences::default_preferences()));
    assert!(store.save_changed(prefs()));
    store.record_save(Ok(()));
    assert_eq!(store.label(), "Settings: /cfg/bevyistr.toml\nExecution preferences are saved automatically.");
    assert!(same(store.solver(), &prefs()));
}

#[test]
fn environment_overrides_accept_only_usable_values() {
    let mut p = SolverPreferences::default_preferences();
    p.apply_environment(&EnvironmentOverrides {
        partitioner: Some(String::new()),
        mpi_launcher: Some("/usr/bin/mpirun".into()),
        executable: Some("/opt/fistr1".into()),
        launch_mode: Some("MPI".into()),
        mpi_ranks: Some("5000".into()),
        openmp_threads: Some("16".into()),
    });
    assert_eq!(p.partitioner, None);
    assert_eq!(p.mpi_launcher.as_deref(), Some("/usr/bin/mpirun"));
    assert_eq!(p.executable, "/opt/fistr1");
    assert_eq!(p.launch_mode, SolverLaunchMode::Mpi);
    assert_eq!(p.mpi_ranks, 4);
    assert_eq!(p.openmp_threads, 16);
    assert_eq!(parse_u16("+12"), Some(12));
    assert_eq!(parse_u16("65536"), None);
    assert_eq!(parse_u16(""), None);
}

#[test]
fn paths_compare_by_components() {
    assert!(same_path("/x/y", "/x/y/"));
    assert!(same_path("/x//y", "/x/y"));
    assert!(same_path("a/./b", "a/b"));
    assert!(same_path("./a", "./a/"));
    assert!(!same_path("./a", "a"));
    assert!(!same_path("/a", "a"));
    assert!(!same_path("a/b", "a/c"));
    assert!(!same_path("a/../b", "b"));
    assert!(same_path("", ""));
}

#[test]
fn a_trailing_separator_is_no_change_and_saves_nothing() {
    let mut store = AppSettings::from_loaded(Some("bevyistr.toml".into()), Ok(prefs()));
    let mut same_dir = prefs();
    same_dir.last_output_directory = Some("/tmp/out/".into());
    assert!(same_preferences(&same_dir, &prefs()));
    assert!(!store.save_changed(same_dir));
    let mut other = prefs();
    other.last_output_directory = Some("/tmp/other".into());
    assert!(!same_preferences(&other, &prefs()));
    assert!(store.save_changed(other));
}

#[test]
fn unrelated_float_keys_survive_a_save() {
    let existing = "[viewer]\nratio = 0.25\nscale = 1e-3\n";
    let text = settings_text_for_save(existing, &prefs()).unwrap();
    assert!(text.contains("ratio = 0.25"));
    assert!(text.contains("scale = 1e-3"));
}
