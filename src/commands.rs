//! Assembly of the child-process invocation from a configuration record.
use vstd::prelude::*;
use vstd::string::*;

use crate::config::{App, Gamescope};
use crate::errors::Errors;

verus! {

/// A child process to start: the program, its arguments, and the variables
/// set in its environment on top of the inherited ones, in order.
#[derive(Debug)]
pub struct Invocation {
    pub program: String,
    pub args: Vec<String>,
    pub envs: Vec<(String, String)>,
}

/// The characters of each string.
pub open spec fn strs(v: Seq<String>) -> Seq<Seq<char>> {
    v.map_values(|a: String| a@)
}

/// The characters of each key and value.
pub open spec fn pairs(v: Seq<(String, String)>) -> Seq<(Seq<char>, Seq<char>)> {
    v.map_values(|p: (String, String)| (p.0@, p.1@))
}

/// The value of the first entry for `key` in an environment snapshot.
pub open spec fn env_lookup(env: Seq<(Seq<char>, Seq<char>)>, key: Seq<char>) -> Option<
    Seq<char>,
>
    decreases env.len(),
{
    if env.len() == 0 {
        None
    } else if env[0].0 == key {
        Some(env[0].1)
    } else {
        env_lookup(env.subrange(1, env.len() as int), key)
    }
}

/// The value a variable gets in the child: the one already set in the
/// calling environment, if any, else the configured default.
pub open spec fn env_value(env: Seq<(Seq<char>, Seq<char>)>, key: Seq<char>, default: Seq<char>) -> Seq<
    char,
> {
    match env_lookup(env, key) {
        Some(v) => v,
        None => default,
    }
}

/// A path is absolute when it starts at the root.
pub open spec fn is_absolute(p: Seq<char>) -> bool {
    p.len() > 0 && p[0] == '/'
}

/// `p` made absolute against the working directory `cwd`.
pub open spec fn absolute_path(p: Seq<char>, cwd: Seq<char>) -> Seq<char> {
    if is_absolute(p) {
        p
    } else if cwd.len() == 0 || cwd.last() == '/' {
        cwd + p
    } else {
        cwd + seq!['/'] + p
    }
}

/// The library overrides that make the runner load the DXVK libraries.
pub open spec fn dll_overrides() -> Seq<char> {
    "dxgi,d3d11,d3d10core,d3d9=n,b"@
}

/// The variables set in the child for `app`, given the calling environment
/// `env` and the working directory `cwd`.
pub open spec fn expected_envs(
    app: App,
    cwd: Seq<char>,
    env: Seq<(Seq<char>, Seq<char>)>,
) -> Seq<(Seq<char>, Seq<char>)> {
    seq![("WINEPREFIX"@, env_value(env, "WINEPREFIX"@, absolute_path(app.prefix@, cwd)))] + if app.dxvk {
        seq![("WINEDLLOVERRIDES"@, env_value(env, "WINEDLLOVERRIDES"@, dll_overrides()))]
    } else {
        Seq::empty()
    }
}

/// The compositor's arguments: output and game size, the optional cursor
/// grab and fullscreen flags, then the runner after a separator.
pub open spec fn gamescope_args(g: Gamescope, runner: Seq<char>) -> Seq<Seq<char>> {
    seq!["-W"@, g.output_width@, "-H"@, g.output_height@, "-w"@, g.game_width@, "-h"@, g.game_height@]
        + (if g.relative_mouse {
        seq!["--force-grab-cursor"@]
    } else {
        Seq::empty()
    }) + (if g.fullscreen {
        seq!["--fullscreen"@]
    } else {
        Seq::empty()
    }) + seq!["--"@, runner]
}

/// The program an invocation for `app` starts.
pub open spec fn expected_program(app: App) -> Seq<char> {
    if app.gamescope.enabled {
        "gamescope"@
    } else {
        app.runner@
    }
}

/// The arguments an invocation for `app` starts with.
pub open spec fn expected_args(app: App) -> Seq<Seq<char>> {
    if app.gamescope.enabled {
        gamescope_args(app.gamescope, app.runner@)
    } else {
        Seq::empty()
    }
}

/// Makes `path` absolute: an absolute path is kept as it is, a relative one
/// is joined to the working directory `cwd`.
pub fn get_absolute_path(path: &str, cwd: &str) -> (r: String)
    ensures
        r@ == absolute_path(path@, cwd@),
{
    let n = path.unicode_len();
    if n > 0 && path.get_char(0) == '/' {
        return String::from_str(path);
    }
    let m = cwd.unicode_len();
    let mut r = String::from_str(cwd);
    if m > 0 && cwd.get_char(m - 1) != '/' {
        proof {
            reveal_strlit("/");
        }
        r.append("/");
        assert(r@ == cwd@ + seq!['/']);
    }
    r.append(path);
    r
}

impl Invocation {
    /// An invocation of `program` with no arguments and no variables set.
    pub fn new(program: String) -> (r: Invocation)
        ensures
            r.program == program,
            r.args@ == Seq::<String>::empty(),
            r.envs@ == Seq::<(String, String)>::empty(),
    {
        Invocation { program, args: Vec::new(), envs: Vec::new() }
    }

    /// Appends one argument.
    pub fn arg(&mut self, a: String)
        ensures
            final(self).program == old(self).program,
            final(self).args@ == old(self).args@.push(a),
            final(self).envs@ == old(self).envs@,
    {
        self.args.push(a);
    }

    /// Sets one variable in the child's environment.
    pub fn env(&mut self, key: String, value: String)
        ensures
            final(self).program == old(self).program,
            final(self).args@ == old(self).args@,
            final(self).envs@ == old(self).envs@.push((key, value)),
    {
        self.envs.push((key, value));
    }
}

/// The value of the first entry for `key` in the environment snapshot `env`.
pub fn lookup_env(env: &Vec<(String, String)>, key: &str) -> (r: Option<String>)
    ensures
        match r {
            Some(v) => env_lookup(pairs(env@), key@) == Some(v@),
            None => env_lookup(pairs(env@), key@) is None,
        },
{
    let k = String::from_str(key);
    let n = env.len();
    let ghost e = pairs(env@);
    let mut i: usize = 0;
    assert(e.subrange(0, n as int) =~= e);
    while i < n
        invariant
            n == env@.len(),
            e == pairs(env@),
            k@ == key@,
            i <= n,
            env_lookup(e.subrange(i as int, n as int), key@) == env_lookup(e, key@),
        decreases n - i,
    {
        let entry = &env[i];
        assert(e[i as int] == (entry.0@, entry.1@));
        if entry.0 == k {
            return Some(entry.1.clone());
        }
        assert(e.subrange(i as int, n as int).subrange(1, n - i) =~= e.subrange(i + 1, n as int));
        i = i + 1;
    }
    None
}

/// Sets `key` in the child to its value in the calling environment `env`
/// when it has one there, and to `value` otherwise.
pub fn set_command_env(command: &mut Invocation, key: &str, value: &str, env: &Vec<(String, String)>)
    ensures
        final(command).program == old(command).program,
        final(command).args@ == old(command).args@,
        pairs(final(command).envs@) == pairs(old(command).envs@).push(
            (key@, env_value(pairs(env@), key@, value@)),
        ),
{
    let v = match lookup_env(env, key) {
        Some(current) => current,
        None => String::from_str(value),
    };
    command.env(String::from_str(key), v);
    proof {
        let ghost o = old(command).envs@;
        assert(pairs(command.envs@) =~= pairs(o).push((key@, env_value(pairs(env@), key@, value@))));
    }
}

/// Sets the prefix variable, made absolute against `cwd`, and the DXVK
/// overrides where they are enabled; a value already set in the calling
/// environment `env` wins over the configured one.
pub fn set_command_env_variables(
    command: &mut Invocation,
    app: &App,
    cwd: &str,
    env: &Vec<(String, String)>,
)
    ensures
        final(command).program == old(command).program,
        final(command).args@ == old(command).args@,
        pairs(final(command).envs@) == pairs(old(command).envs@) + expected_envs(*app, cwd@, pairs(env@)),
{
    proof {
        reveal_strlit("WINEPREFIX");
        reveal_strlit("WINEDLLOVERRIDES");
        reveal_strlit("dxgi,d3d11,d3d10core,d3d9=n,b");
    }
    let ghost o = pairs(command.envs@);
    let prefix = get_absolute_path(app.prefix.as_str(), cwd);
    set_command_env(command, "WINEPREFIX", prefix.as_str(), env);
    if app.dxvk {
        set_command_env(command, "WINEDLLOVERRIDES", "dxgi,d3d11,d3d10core,d3d9=n,b", env);
    }
    assert(pairs(command.envs@) =~= o + expected_envs(*app, cwd@, pairs(env@)));
}

/// The compositor wrapping the runner, with the sizes and flags of `app`.
fn gamescope_command(app: &App) -> (r: Invocation)
    ensures
        r.program@ == "gamescope"@,
        strs(r.args@) == gamescope_args(app.gamescope, app.runner@),
        r.envs@ == Seq::<(String, String)>::empty(),
{
    proof {
        reveal_strlit("gamescope");
        reveal_strlit("-W");
        reveal_strlit("-H");
        reveal_strlit("-w");
        reveal_strlit("-h");
        reveal_strlit("--force-grab-cursor");
        reveal_strlit("--fullscreen");
        reveal_strlit("--");
    }
    let g = &app.gamescope;
    let mut c = Invocation::new(String::from_str("gamescope"));
    c.arg(String::from_str("-W"));
    c.arg(g.output_width.clone());
    c.arg(String::from_str("-H"));
    c.arg(g.output_height.clone());
    c.arg(String::from_str("-w"));
    c.arg(g.game_width.clone());
    c.arg(String::from_str("-h"));
    c.arg(g.game_height.clone());
    let ghost sizes = strs(c.args@);
    if g.relative_mouse {
        c.arg(String::from_str("--force-grab-cursor"));
    }
    let ghost grabbed = strs(c.args@);
    assert(grabbed =~= sizes + (if g.relative_mouse {
        seq!["--force-grab-cursor"@]
    } else {
        Seq::empty()
    }));
    if g.fullscreen {
        c.arg(String::from_str("--fullscreen"));
    }
    let ghost full = strs(c.args@);
    assert(full =~= grabbed + (if g.fullscreen {
        seq!["--fullscreen"@]
    } else {
        Seq::empty()
    }));
    c.arg(String::from_str("--"));
    c.arg(app.runner.clone());
    assert(strs(c.args@) =~= gamescope_args(app.gamescope, app.runner@));
    c
}

/// The invocation for `app`: the runner itself, or the compositor wrapping
/// it when enabled, with the prefix and DXVK variables set as
/// `set_command_env_variables` does.
pub fn create_command(app: &App, cwd: &str, env: &Vec<(String, String)>) -> (r: Invocation)
    ensures
        r.program@ == expected_program(*app),
        strs(r.args@) == expected_args(*app),
        pairs(r.envs@) == expected_envs(*app, cwd@, pairs(env@)),
{
    let mut command = if app.gamescope.enabled {
        gamescope_command(app)
    } else {
        Invocation::new(app.runner.clone())
    };
    assert(strs(command.args@) =~= expected_args(*app));
    assert(pairs(command.envs@) =~= Seq::empty());
    set_command_env_variables(&mut command, app, cwd, env);
    assert(pairs(command.envs@) =~= expected_envs(*app, cwd@, pairs(env@)));
    command
}

/// The program to run: the one named on the command line, else the one in
/// the configuration; with neither there is nothing to run.
pub fn resolve_executable(arg: Option<String>, configured: &Option<String>) -> (r: Result<
    String,
    Errors,
>)
    ensures
        arg is Some ==> r == Ok::<String, Errors>(arg->0),
        arg is None && configured is Some ==> r == Ok::<String, Errors>(configured->0),
        arg is None && configured is None ==> r == Err::<String, Errors>(Errors::NoExeProvided),
{
    match arg {
        Some(exe) => Ok(exe),
        None => match configured {
            Some(exe) => Ok(exe.clone()),
            None => Err(Errors::NoExeProvided),
        },
    }
}

/// The invocation that runs the resolved program under `app`: the one of
/// `create_command`, with the program appended as the last argument.
pub fn run_command(
    app: &App,
    exe: Option<String>,
    cwd: &str,
    env: &Vec<(String, String)>,
) -> (r: Result<Invocation, Errors>)
    ensures
        exe is None && app.executable is None <==> r == Err::<Invocation, Errors>(
            Errors::NoExeProvided,
        ),
        r is Ok <==> (exe is Some || app.executable is Some),
        r is Ok ==> {
            let c = r->Ok_0;
            let target = if exe is Some {
                exe->0
            } else {
                app.executable->0
            };
            &&& c.program@ == expected_program(*app)
            &&& strs(c.args@) == expected_args(*app).push(target@)
            &&& pairs(c.envs@) == expected_envs(*app, cwd@, pairs(env@))
        },
{
    let target = match resolve_executable(exe, &app.executable) {
        Ok(t) => t,
        Err(e) => return Err(e),
    };
    let mut command = create_command(app, cwd, env);
    let ghost before = command.args@;
    command.arg(target);
    assert(strs(command.args@) =~= strs(before).push(target@));
    Ok(command)
}

/// The exit status that mirrors the child's: its exit code, or the number of
/// the signal that ended it.
pub fn exit_status(code: Option<i32>, signal: Option<i32>) -> (r: i32)
    requires
        code is Some || signal is Some,
    ensures
        code is Some ==> r == code->0,
        code is None ==> r == signal->0,
{
    match code {
        Some(c) => c,
        None => signal.unwrap(),
    }
}

/// Without the compositor the runner is started directly with no flags.
/// With it, gamescope is started with the output size, the game size, the
/// cursor-grab flag exactly when relative mouse is on, the fullscreen flag
/// exactly when fullscreen is on, and the runner after a `--` separator.
pub proof fn lemma_invocation_target(app: App)
    ensures
        !app.gamescope.enabled ==> expected_program(app) == app.runner@ && expected_args(app)
            == Seq::<Seq<char>>::empty(),
        app.gamescope.enabled ==> {
            let g = app.gamescope;
            let a = expected_args(app);
            let k = a.len() as int;
            let flags = a.subrange(8, k - 2);
            &&& expected_program(app) == "gamescope"@
            &&& k == 10 + (if g.relative_mouse { 1int } else { 0 }) + (if g.fullscreen { 1int } else { 0 })
            &&& a.subrange(0, 8) == seq![
                "-W"@,
                g.output_width@,
                "-H"@,
                g.output_height@,
                "-w"@,
                g.game_width@,
                "-h"@,
                g.game_height@,
            ]
            &&& a.subrange(k - 2, k) == seq!["--"@, app.runner@]
            &&& (flags.contains("--force-grab-cursor"@) <==> g.relative_mouse)
            &&& (flags.contains("--fullscreen"@) <==> g.fullscreen)
        },
{
    reveal_strlit("--force-grab-cursor");
    reveal_strlit("--fullscreen");
    if app.gamescope.enabled {
        let g = app.gamescope;
        let a = expected_args(app);
        let k = a.len() as int;
        let grab: Seq<Seq<char>> = if g.relative_mouse {
            seq!["--force-grab-cursor"@]
        } else {
            Seq::empty()
        };
        let full: Seq<Seq<char>> = if g.fullscreen {
            seq!["--fullscreen"@]
        } else {
            Seq::empty()
        };
        let flags = a.subrange(8, k - 2);
        assert(flags =~= grab + full);
        assert(a.subrange(0, 8) =~= seq![
            "-W"@,
            g.output_width@,
            "-H"@,
            g.output_height@,
            "-w"@,
            g.game_width@,
            "-h"@,
            g.game_height@,
        ]);
        assert(a.subrange(k - 2, k) =~= seq!["--"@, app.runner@]);
        if g.relative_mouse {
            assert(flags[0] == "--force-grab-cursor"@);
        }
        if g.fullscreen {
            assert(flags[flags.len() - 1] == "--fullscreen"@);
        }
        assert("--force-grab-cursor"@ != "--fullscreen"@) by {
            assert("--force-grab-cursor"@.len() != "--fullscreen"@.len());
        }
    }
}

/// A prefix variable already set in the calling environment is handed to the
/// child unchanged, in place of the configured prefix.
pub proof fn lemma_prefix_env_kept(
    app: App,
    cwd: Seq<char>,
    env: Seq<(Seq<char>, Seq<char>)>,
    current: Seq<char>,
)
    requires
        env_lookup(env, "WINEPREFIX"@) == Some(current),
    ensures
        expected_envs(app, cwd, env)[0] == ("WINEPREFIX"@, current),
        env_lookup(expected_envs(app, cwd, env), "WINEPREFIX"@) == Some(current),
{
}

/// Without DXVK no library override is set in the child; with it, the
/// override is the fixed list unless the calling environment already sets
/// one, whose value is then kept.
pub proof fn lemma_dll_overrides(app: App, cwd: Seq<char>, env: Seq<(Seq<char>, Seq<char>)>)
    ensures
        !app.dxvk ==> env_lookup(expected_envs(app, cwd, env), "WINEDLLOVERRIDES"@) is None,
        app.dxvk && env_lookup(env, "WINEDLLOVERRIDES"@) is None ==> env_lookup(
            expected_envs(app, cwd, env),
            "WINEDLLOVERRIDES"@,
        ) == Some(dll_overrides()),
        app.dxvk && env_lookup(env, "WINEDLLOVERRIDES"@) is Some ==> env_lookup(
            expected_envs(app, cwd, env),
            "WINEDLLOVERRIDES"@,
        ) == env_lookup(env, "WINEDLLOVERRIDES"@),
{
    reveal_strlit("WINEPREFIX");
    reveal_strlit("WINEDLLOVERRIDES");
    assert("WINEPREFIX"@ != "WINEDLLOVERRIDES"@) by {
        assert("WINEPREFIX"@.len() != "WINEDLLOVERRIDES"@.len());
    }
    let e = expected_envs(app, cwd, env);
    let rest = e.subrange(1, e.len() as int);
    assert(e[0].0 == "WINEPREFIX"@);
    assert(env_lookup(e, "WINEDLLOVERRIDES"@) == env_lookup(rest, "WINEDLLOVERRIDES"@));
    if app.dxvk {
        assert(rest[0] == (
            "WINEDLLOVERRIDES"@,
            env_value(env, "WINEDLLOVERRIDES"@, dll_overrides()),
        ));
        assert(env_lookup(rest, "WINEDLLOVERRIDES"@) == Some(
            env_value(env, "WINEDLLOVERRIDES"@, dll_overrides()),
        ));
    } else {
        assert(rest =~= Seq::<(Seq<char>, Seq<char>)>::empty());
        assert(env_lookup(rest, "WINEDLLOVERRIDES"@) is None);
    }
}

} // verus!
