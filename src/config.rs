//! The configuration record, its default values, the parsing of the display
//! probe's output, and the decisions taken while loading or creating the file.
use vstd::prelude::*;
use vstd::string::*;

use crate::errors::Errors;

verus! {

/// Settings of the gamescope compositor; inert unless `enabled`.
#[derive(Debug)]
pub struct Gamescope {
    pub enabled: bool,
    pub output_width: String,
    pub output_height: String,
    pub game_width: String,
    pub game_height: String,
    pub fullscreen: bool,
    pub relative_mouse: bool,
}

/// The per-project configuration record.
#[derive(Debug)]
pub struct App {
    /// The program to run when none is named on the command line.
    pub executable: Option<String>,
    /// The compatibility-layer binary.
    pub runner: String,
    /// The directory of the isolated environment.
    pub prefix: String,
    pub gamescope: Gamescope,
    /// Whether to ask the runner to prefer the DXVK libraries.
    pub dxvk: bool,
}

/// The compositor settings built from a display resolution.
pub open spec fn is_default_gamescope(g: Gamescope, width: Seq<char>, height: Seq<char>) -> bool {
    &&& !g.enabled
    &&& g.output_width@ == width
    &&& g.output_height@ == height
    &&& g.game_width@ == width
    &&& g.game_height@ == height
    &&& g.fullscreen
    &&& !g.relative_mouse
}

/// The configuration written when none exists yet.
pub open spec fn is_default_app(a: App, width: Seq<char>, height: Seq<char>) -> bool {
    &&& a.executable is None
    &&& a.runner@ == "wine"@
    &&& a.prefix@ == "pfx"@
    &&& is_default_gamescope(a.gamescope, width, height)
    &&& !a.dxvk
}

impl Gamescope {
    /// Compositor settings for a display of the given size: disabled,
    /// fullscreen, cursor not grabbed, game and output of the same size.
    pub fn with_resolution(width: String, height: String) -> (r: Gamescope)
        ensures
            is_default_gamescope(r, width@, height@),
    {
        Gamescope {
            enabled: false,
            output_width: width.clone(),
            output_height: height.clone(),
            game_width: width,
            game_height: height,
            fullscreen: true,
            relative_mouse: false,
        }
    }
}

impl App {
    /// The default configuration for a display of the given size.
    pub fn with_resolution(width: String, height: String) -> (r: App)
        ensures
            is_default_app(r, width@, height@),
    {
        proof {
            reveal_strlit("wine");
            reveal_strlit("pfx");
        }
        App {
            executable: None,
            runner: String::from_str("wine"),
            prefix: String::from_str("pfx"),
            gamescope: Gamescope::with_resolution(width, height),
            dxvk: false,
        }
    }
}

/// The whitespace that is stripped from the ends of the probe's output.
pub open spec fn is_blank(c: char) -> bool {
    c == ' ' || c == '\t' || c == '\n' || c == '\r'
}

/// `s` without its leading whitespace.
pub open spec fn trim_start(s: Seq<char>) -> Seq<char>
    decreases s.len(),
{
    if s.len() > 0 && is_blank(s[0]) {
        trim_start(s.subrange(1, s.len() as int))
    } else {
        s
    }
}

/// `s` without its trailing whitespace.
pub open spec fn trim_end(s: Seq<char>) -> Seq<char>
    decreases s.len(),
{
    if s.len() > 0 && is_blank(s.last()) {
        trim_end(s.drop_last())
    } else {
        s
    }
}

/// `s` without whitespace at either end.
pub open spec fn trimmed(s: Seq<char>) -> Seq<char> {
    trim_end(trim_start(s))
}

/// The display size read from the probe: the trimmed output split at its
/// first `x`, or 1920 by 1080 where the probe failed or gave no `x`.
pub open spec fn resolution_of(
    succeeded: bool,
    output: Seq<char>,
    width: Seq<char>,
    height: Seq<char>,
) -> bool {
    if succeeded && trimmed(output).contains('x') {
        &&& trimmed(output) == width + seq!['x'] + height
        &&& !width.contains('x')
    } else {
        width == "1920"@ && height == "1080"@
    }
}

/// Reads the display size from what the probe printed. `succeeded` tells
/// whether the probe ran and exited successfully.
pub fn probe_resolution(succeeded: bool, output: &str) -> (r: (String, String))
    ensures
        resolution_of(succeeded, output@, r.0@, r.1@),
{
    proof {
        reveal_strlit("1920");
        reveal_strlit("1080");
    }
    let n = output.unicode_len();
    let ghost s = output@;
    let mut lo: usize = 0;
    assert(s.subrange(0, n as int) =~= s);
    while lo < n && is_blank_char(output.get_char(lo))
        invariant
            n == s.len(),
            s == output@,
            lo <= n,
            trim_start(s.subrange(lo as int, n as int)) == trim_start(s),
        decreases n - lo,
    {
        assert(s.subrange(lo as int, n as int).subrange(1, n - lo) =~= s.subrange(
            lo + 1,
            n as int,
        ));
        lo = lo + 1;
    }
    let mut hi: usize = n;
    while hi > lo && is_blank_char(output.get_char(hi - 1))
        invariant
            n == s.len(),
            s == output@,
            lo <= hi <= n,
            trim_start(s) == s.subrange(lo as int, n as int),
            trim_end(s.subrange(lo as int, hi as int)) == trimmed(s),
        decreases hi - lo,
    {
        assert(s.subrange(lo as int, hi as int).drop_last() =~= s.subrange(
            lo as int,
            hi - 1,
        ));
        hi = hi - 1;
    }
    let ghost t = s.subrange(lo as int, hi as int);
    assert(trimmed(s) == t);
    let mut k: usize = lo;
    while k < hi && output.get_char(k) != 'x'
        invariant
            n == s.len(),
            s == output@,
            lo <= k <= hi <= n,
            t == s.subrange(lo as int, hi as int),
            forall|j: int| lo <= j < k ==> s[j] != 'x',
        decreases hi - k,
    {
        k = k + 1;
    }
    if !succeeded || k == hi {
        proof {
            if k == hi {
                assert forall|j: int| 0 <= j < t.len() implies t[j] != 'x' by {
                    assert(t[j] == s[lo + j]);
                }
            }
        }
        return (String::from_str("1920"), String::from_str("1080"));
    }
    let width = String::from_str(output.substring_char(lo, k));
    let height = String::from_str(output.substring_char(k + 1, hi));
    proof {
        assert(t =~= width@ + seq!['x'] + height@);
        assert(t.contains('x')) by {
            assert(t[k - lo] == 'x');
        }
        assert(!width@.contains('x')) by {
            assert forall|j: int| 0 <= j < width@.len() implies width@[j] != 'x' by {
                assert(width@[j] == s[lo + j]);
            }
        }
    }
    (width, height)
}

/// What became of reading the configuration file.
#[derive(Debug)]
pub enum ConfigFile {
    /// The file was read and its contents parsed into a record.
    Parsed(App),
    /// The file was read but its contents are not a valid configuration.
    Unparsable,
    /// There is no file at the path.
    Missing,
    /// Reading failed for another reason.
    Unreadable,
}

/// What the loader does next.
#[derive(Debug)]
pub enum LoadPlan {
    /// Use this record; the file is left as it is.
    Use(App),
    /// Write a default configuration to a new file and use it.
    CreateDefault,
    /// Stop with this error; the file is left as it is.
    Fail(Errors),
}

/// Whether a plan writes to the file system.
pub open spec fn plan_writes(p: LoadPlan) -> bool {
    p is CreateDefault
}

/// Decides what to do with the outcome of reading the configuration file:
/// a parsed record is used exactly as read, a missing file is created with
/// the defaults, and every other outcome is fatal. Only a missing file is
/// ever written.
pub fn plan_load(file: ConfigFile) -> (r: LoadPlan)
    ensures
        match file {
            ConfigFile::Parsed(a) => r == LoadPlan::Use(a),
            ConfigFile::Unparsable => r == LoadPlan::Fail(Errors::ParsingConfigFile),
            ConfigFile::Missing => r is CreateDefault,
            ConfigFile::Unreadable => r == LoadPlan::Fail(Errors::ReadingConfigFile),
        },
        plan_writes(r) <==> file is Missing,
{
    match file {
        ConfigFile::Parsed(a) => LoadPlan::Use(a),
        ConfigFile::Unparsable => LoadPlan::Fail(Errors::ParsingConfigFile),
        ConfigFile::Missing => LoadPlan::CreateDefault,
        ConfigFile::Unreadable => LoadPlan::Fail(Errors::ReadingConfigFile),
    }
}

/// Finishes the creation of a missing configuration file: the record that
/// was written is the one returned. `created` tells whether a new file could
/// be created, `written` whether the serialized record was written to it.
pub fn finish_create(written_record: App, created: bool, written: bool) -> (r: Result<
    App,
    Errors,
>)
    ensures
        created && written ==> r == Ok::<App, Errors>(written_record),
        !created ==> r == Err::<App, Errors>(Errors::CreatingConfigFile),
        created && !written ==> r == Err::<App, Errors>(Errors::WritingConfigFile),
{
    if !created {
        Err(Errors::CreatingConfigFile)
    } else if !written {
        Err(Errors::WritingConfigFile)
    } else {
        Ok(written_record)
    }
}

/// Decides whether `init` may go on: it refuses, before touching anything,
/// when a configuration file already exists.
pub fn plan_init(exists: bool) -> (r: Result<(), Errors>)
    ensures
        exists <==> r == Err::<(), Errors>(Errors::ConfigAlreadyExists),
        !exists <==> r is Ok,
{
    if exists {
        Err(Errors::ConfigAlreadyExists)
    } else {
        Ok(())
    }
}

/// What became of creating the prefix directory.
#[derive(Clone, Copy, Debug, PartialEq, Eq, Structural)]
pub enum DirCreation {
    Created,
    AlreadyExists,
    Failed,
}

/// A prefix directory that already exists is as good as a new one; any
/// other failure to create it is fatal.
pub fn prefix_dir_result(outcome: DirCreation) -> (r: Result<(), Errors>)
    ensures
        outcome == DirCreation::Failed <==> r == Err::<(), Errors>(Errors::CouldNotCreatePrefix),
        outcome != DirCreation::Failed <==> r is Ok,
{
    match outcome {
        DirCreation::Failed => Err(Errors::CouldNotCreatePrefix),
        _ => Ok(()),
    }
}

fn is_blank_char(c: char) -> (r: bool)
    ensures
        r == is_blank(c),
{
    c == ' ' || c == '\t' || c == '\n' || c == '\r'
}

} // verus!
