use wpfx::commands::{
    create_command, exit_status, get_absolute_path, lookup_env, resolve_executable, run_command,
    set_command_env, set_command_env_variables, Invocation,
};
use wpfx::config::{
    finish_create, plan_init, plan_load, prefix_dir_result, probe_resolution, App, ConfigFile,
    DirCreation, Gamescope, LoadPlan,
};
use wpfx::errors::Errors;

fn s(x: &str) -> String {
    x.to_string()
}

fn plain_app() -> App {
    let mut app = App::with_resolution(s("1920"), s("1080"));
    app.runner = s("wine");
    app.prefix = s("pfx");
    app
}

fn compositor_app(relative_mouse: bool, fullscreen: bool) -> App {
    let mut app = plain_app();
    app.gamescope = Gamescope {
        enabled: true,
        output_width: s("1920"),
        output_height: s("1080"),
        game_width: s("1280"),
        game_height: s("720"),
        fullscreen,
        relative_mouse,
    };
    app
}

fn env_of(pairs: &[(&str, &str)]) -> Vec<(String, String)> {
    pairs.iter().map(|(k, v)| (s(k), s(v))).collect()
}

#[test]
fn run_plain_runner_with_absolute_prefix() {
    let app = plain_app();
    let c = run_command(&app, Some(s("myapp.exe")), "/home/user/game", &Vec::new()).unwrap();
    assert_eq!(c.program, "wine");
    assert_eq!(c.args, vec![s("myapp.exe")]);
    assert_eq!(c.envs, env_of(&[("WINEPREFIX", "/home/user/game/pfx")]));
}

#[test]
fn run_through_gamescope() {
    let app = compositor_app(true, true);
    let c = run_command(&app, Some(s("foo.exe")), "/g", &Vec::new()).unwrap();
    assert_eq!(c.program, "gamescope");
    let expected: Vec<String> = [
        "-W", "1920", "-H", "1080", "-w", "1280", "-h", "720", "--force-grab-cursor",
        "--fullscreen", "--", "wine", "foo.exe",
    ]
    .iter()
    .map(|a| s(a))
    .collect();
    assert_eq!(c.args, expected);
}

#[test]
fn gamescope_flags_follow_settings() {
    let c = create_command(&compositor_app(false, false), "/g", &Vec::new());
    let expected: Vec<String> = ["-W", "1920", "-H", "1080", "-w", "1280", "-h", "720", "--", "wine"]
        .iter()
        .map(|a| s(a))
        .collect();
    assert_eq!(c.args, expected);
    let c = create_command(&compositor_app(false, true), "/g", &Vec::new());
    assert_eq!(c.args[8], "--fullscreen");
    assert!(!c.args.contains(&s("--force-grab-cursor")));
    let c = create_command(&compositor_app(true, false), "/g", &Vec::new());
    assert_eq!(c.args[8], "--force-grab-cursor");
    assert!(!c.args.contains(&s("--fullscreen")));
}

#[test]
fn disabled_compositor_targets_runner() {
    let mut app = compositor_app(true, true);
    app.gamescope.enabled = false;
    app.runner = s("/opt/wine/bin/wine64");
    let c = create_command(&app, "/g", &Vec::new());
    assert_eq!(c.program, "/opt/wine/bin/wine64");
    assert!(c.args.is_empty());
}

#[test]
fn existing_prefix_variable_wins() {
    let app = plain_app();
    let env = env_of(&[("HOME", "/home/u"), ("WINEPREFIX", "/data/other")]);
    let c = create_command(&app, "/g", &env);
    assert_eq!(c.envs, env_of(&[("WINEPREFIX", "/data/other")]));
}

#[test]
fn dxvk_override_set_only_when_enabled() {
    let mut app = plain_app();
    let c = create_command(&app, "/g", &Vec::new());
    assert!(c.envs.iter().all(|(k, _)| k != "WINEDLLOVERRIDES"));
    app.dxvk = true;
    let c = create_command(&app, "/g", &Vec::new());
    assert_eq!(
        c.envs,
        env_of(&[("WINEPREFIX", "/g/pfx"), ("WINEDLLOVERRIDES", "dxgi,d3d11,d3d10core,d3d9=n,b")])
    );
    let c = create_command(&app, "/g", &env_of(&[("WINEDLLOVERRIDES", "d3d9=n")]));
    assert_eq!(c.envs[1], (s("WINEDLLOVERRIDES"), s("d3d9=n")));
}

#[test]
fn set_env_variables_appends_after_existing() {
    let app = plain_app();
    let mut c = Invocation::new(s("wine"));
    c.env(s("A"), s("1"));
    set_command_env_variables(&mut c, &app, "/", &Vec::new());
    assert_eq!(c.envs, env_of(&[("A", "1"), ("WINEPREFIX", "/pfx")]));
    set_command_env(&mut c, "B", "2", &env_of(&[("B", "3")]));
    assert_eq!(c.envs[2], (s("B"), s("3")));
}

#[test]
fn lookup_takes_first_entry() {
    let env = env_of(&[("K", "1"), ("K", "2")]);
    assert_eq!(lookup_env(&env, "K"), Some(s("1")));
    assert_eq!(lookup_env(&env, "k"), None);
    assert_eq!(lookup_env(&Vec::new(), "K"), None);
}

#[test]
fn absolute_paths() {
    assert_eq!(get_absolute_path("/srv/pfx", "/home/u"), "/srv/pfx");
    assert_eq!(get_absolute_path("pfx", "/home/u"), "/home/u/pfx");
    assert_eq!(get_absolute_path("pfx", "/"), "/pfx");
    assert_eq!(get_absolute_path("a/b", "/home/u/"), "/home/u/a/b");
}

#[test]
fn executable_resolution() {
    assert_eq!(resolve_executable(Some(s("a.exe")), &Some(s("b.exe"))), Ok(s("a.exe")));
    assert_eq!(resolve_executable(None, &Some(s("b.exe"))), Ok(s("b.exe")));
    assert_eq!(resolve_executable(None, &None), Err(Errors::NoExeProvided));
    let mut app = plain_app();
    assert!(matches!(run_command(&app, None, "/", &Vec::new()), Err(Errors::NoExeProvided)));
    app.executable = Some(s("game.exe"));
    let c = run_command(&app, None, "/", &Vec::new()).unwrap();
    assert_eq!(c.args, vec![s("game.exe")]);
}

#[test]
fn child_status_is_mirrored() {
    assert_eq!(exit_status(Some(3), None), 3);
    assert_eq!(exit_status(Some(0), Some(9)), 0);
    assert_eq!(exit_status(None, Some(9)), 9);
}

#[test]
fn resolution_probe_parsing() {
    assert_eq!(probe_resolution(true, "2560x1440\n"), (s("2560"), s("1440")));
    assert_eq!(probe_resolution(true, "  800x600 "), (s("800"), s("600")));
    assert_eq!(probe_resolution(false, "2560x1440\n"), (s("1920"), s("1080")));
    assert_eq!(probe_resolution(true, ""), (s("1920"), s("1080")));
    assert_eq!(probe_resolution(true, "garbage"), (s("1920"), s("1080")));
}

#[test]
fn defaults_follow_resolution() {
    let app = App::with_resolution(s("2560"), s("1440"));
    assert_eq!(app.executable, None);
    assert_eq!(app.runner, "wine");
    assert_eq!(app.prefix, "pfx");
    assert!(!app.dxvk);
    assert!(!app.gamescope.enabled);
    assert_eq!(app.gamescope.output_width, "2560");
    assert_eq!(app.gamescope.output_height, "1440");
    assert_eq!(app.gamescope.game_width, "2560");
    assert_eq!(app.gamescope.game_height, "1440");
    assert!(app.gamescope.fullscreen);
    assert!(!app.gamescope.relative_mouse);
}

#[test]
fn missing_config_is_created_with_defaults() {
    assert!(matches!(plan_load(ConfigFile::Missing), LoadPlan::CreateDefault));
    let app = finish_create(App::with_resolution(s("1920"), s("1080")), true, true).unwrap();
    assert_eq!(app.runner, "wine");
    assert_eq!(app.gamescope.output_width, "1920");
    assert!(matches!(
        finish_create(plain_app(), false, false),
        Err(Errors::CreatingConfigFile)
    ));
    assert!(matches!(finish_create(plain_app(), true, false), Err(Errors::WritingConfigFile)));
}

#[test]
fn existing_config_is_used_as_read() {
    let mut app = plain_app();
    app.runner = s("proton");
    app.dxvk = true;
    match plan_load(ConfigFile::Parsed(app)) {
        LoadPlan::Use(a) => {
            assert_eq!(a.runner, "proton");
            assert!(a.dxvk);
        }
        _ => panic!("a parsed configuration must be used"),
    }
}

#[test]
fn invalid_config_fails_without_writing() {
    assert!(matches!(
        plan_load(ConfigFile::Unparsable),
        LoadPlan::Fail(Errors::ParsingConfigFile)
    ));
    assert!(matches!(
        plan_load(ConfigFile::Unreadable),
        LoadPlan::Fail(Errors::ReadingConfigFile)
    ));
}

#[test]
fn init_refuses_existing_config() {
    assert_eq!(plan_init(true), Err(Errors::ConfigAlreadyExists));
    assert_eq!(Errors::ConfigAlreadyExists.code(), 5);
    assert_eq!(plan_init(false), Ok(()));
}

#[test]
fn prefix_directory_outcomes() {
    assert_eq!(prefix_dir_result(DirCreation::Created), Ok(()));
    assert_eq!(prefix_dir_result(DirCreation::AlreadyExists), Ok(()));
    assert_eq!(prefix_dir_result(DirCreation::Failed), Err(Errors::CouldNotCreatePrefix));
}

#[test]
fn error_codes_and_messages() {
    let all = [
        Errors::CreatingConfigFile,
        Errors::ReadingConfigFile,
        Errors::WritingConfigFile,
        Errors::ParsingConfigFile,
        Errors::ConfigAlreadyExists,
        Errors::CouldNotExecuteWine,
        Errors::CouldNotCreatePrefix,
        Errors::NoExeProvided,
    ];
    for (i, e) in all.iter().enumerate() {
        assert_eq!(e.code(), i as i32 + 1);
    }
    assert_eq!(Errors::ParsingConfigFile.message(), "Failed parsing config file");
    assert_eq!(Errors::CouldNotExecuteWine.message(), "Failed to execute wine runner");
}
