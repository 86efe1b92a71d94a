//! The background service definitions the command line installs: the
//! systemd user unit and the launchd agent, and the escaping each needs.
use crate::text::{append_str, chars_of, owned, push_char, str_eq, string_from_chars};
use vstd::prelude::*;

verus! {

/// The launchd label of the background agent.
pub const BACKGROUND_LABEL: &'static str = "dev.bkniffler.insync";

/// The file name of the systemd user unit.
pub const SYSTEMD_UNIT_NAME: &'static str = "insync.service";

/// Where the launchd agent writes its output.
#[derive(Debug, Clone)]
pub struct LaunchdLogPaths {
    pub dir: String,
    pub stdout: String,
    pub stderr: String,
}

/// The platforms the background service can be installed on.
#[derive(Debug, Clone, Copy, PartialEq, Eq, Structural)]
pub enum BackgroundPlatform {
    Launchd,
    Systemd,
}

/// Why the background service cannot be installed here.
#[derive(Debug, Clone)]
pub enum PlatformError {
    /// Windows has no installer yet.
    Windows,
    /// Any other operating system, by name.
    Unsupported(String),
}

/// The service manager of an operating system (`std::env::consts::OS`).
pub fn background_platform(os: &str) -> (r: Result<BackgroundPlatform, PlatformError>)
    ensures
        os@ == "macos"@ ==> r == Ok::<BackgroundPlatform, PlatformError>(BackgroundPlatform::Launchd),
        os@ == "linux"@ ==> r == Ok::<BackgroundPlatform, PlatformError>(BackgroundPlatform::Systemd),
        os@ == "windows"@ ==> r matches Err(PlatformError::Windows),
        os@ != "macos"@ && os@ != "linux"@ && os@ != "windows"@ ==> (r matches Err(
            PlatformError::Unsupported(name),
        ) && name@ == os@),
{
    proof {
        reveal_strlit("macos");
        reveal_strlit("linux");
        reveal_strlit("windows");
        assert("macos"@[0] != "linux"@[0]);
        assert("macos"@.len() != "windows"@.len());
        assert("linux"@.len() != "windows"@.len());
    }
    if crate::text::str_eq(os, "macos") {
        Ok(BackgroundPlatform::Launchd)
    } else if crate::text::str_eq(os, "linux") {
        Ok(BackgroundPlatform::Systemd)
    } else if crate::text::str_eq(os, "windows") {
        Err(PlatformError::Windows)
    } else {
        Err(PlatformError::Unsupported(owned(os)))
    }
}

// ---------------------------------------------------------------- arguments
pub open spec fn daemon_args(binary: Seq<char>, config: Seq<char>, apply: bool) -> Seq<Seq<char>> {
    let base = seq![binary, "--config"@, config, "daemon"@];
    if apply {
        base.push("--apply"@)
    } else {
        base
    }
}

/// The daemon's command line: binary, config path, `daemon`, and `--apply`
/// when writes are wanted.
pub fn daemon_arguments(binary_path: &str, config_path: &str, apply: bool) -> (r: Vec<String>)
    ensures
        r@.map_values(|s: String| s@) == daemon_args(binary_path@, config_path@, apply),
{
    let mut args: Vec<String> = Vec::new();
    args.push(owned(binary_path));
    args.push(owned("--config"));
    args.push(owned(config_path));
    args.push(owned("daemon"));
    if apply {
        args.push(owned("--apply"));
    }
    assert(args@.map_values(|s: String| s@) =~= daemon_args(binary_path@, config_path@, apply));
    args
}

// ---------------------------------------------------------------- escaping
pub open spec fn xml_char(c: char) -> Seq<char> {
    if c == '&' {
        "&amp;"@
    } else if c == '<' {
        "&lt;"@
    } else if c == '>' {
        "&gt;"@
    } else if c == '"' {
        "&quot;"@
    } else if c == '\'' {
        "&apos;"@
    } else {
        seq![c]
    }
}

/// The text with the five XML special characters replaced by their
/// entities.
pub open spec fn xml_escaped(s: Seq<char>) -> Seq<char>
    decreases s.len(),
{
    if s.len() == 0 {
        s
    } else {
        xml_escaped(s.drop_last()) + xml_char(s.last())
    }
}

pub fn xml_escape(value: &str) -> (r: String)
    ensures
        r@ == xml_escaped(value@),
{
    let cs = chars_of(value);
    let mut out = String::new();
    let mut i: usize = 0;
    while i < cs.len()
        invariant
            i <= cs@.len(),
            out@ == xml_escaped(cs@.take(i as int)),
        decreases cs@.len() - i,
    {
        proof {
            assert(cs@.take(i + 1).drop_last() =~= cs@.take(i as int));
        }
        let c = cs[i];
        if c == '&' {
            append_str(&mut out, "&amp;");
        } else if c == '<' {
            append_str(&mut out, "&lt;");
        } else if c == '>' {
            append_str(&mut out, "&gt;");
        } else if c == '"' {
            append_str(&mut out, "&quot;");
        } else if c == '\'' {
            append_str(&mut out, "&apos;");
        } else {
            push_char(&mut out, c);
            assert(out@ =~= xml_escaped(cs@.take(i as int)) + seq![c]);
        }
        i = i + 1;
    }
    assert(cs@.take(cs@.len() as int) =~= cs@);
    out
}

/// Characters systemd takes in an unquoted argument.
pub open spec fn systemd_plain(c: char) -> bool {
    ('0' <= c <= '9') || ('a' <= c <= 'z') || ('A' <= c <= 'Z') || c == '/' || c == '.' || c == '_' || c
        == '-' || c == ':' || c == '@'
}

pub open spec fn quoted_char(c: char) -> Seq<char> {
    if c == '\\' {
        seq!['\\', '\\']
    } else if c == '"' {
        seq!['\\', '"']
    } else {
        seq![c]
    }
}

pub open spec fn quoted_body(s: Seq<char>) -> Seq<char>
    decreases s.len(),
{
    if s.len() == 0 {
        s
    } else {
        quoted_body(s.drop_last()) + quoted_char(s.last())
    }
}

/// An argument as systemd's `ExecStart` reads it: as it is when every
/// character is plain, else in double quotes with backslashes and quotes
/// escaped.
pub open spec fn systemd_arg(s: Seq<char>) -> Seq<char> {
    if forall|i: int| 0 <= i < s.len() ==> systemd_plain(#[trigger] s[i]) {
        s
    } else {
        seq!['"'] + quoted_body(s) + seq!['"']
    }
}

fn is_systemd_plain(c: char) -> (r: bool)
    ensures
        r == systemd_plain(c),
{
    ('0' <= c && c <= '9') || ('a' <= c && c <= 'z') || ('A' <= c && c <= 'Z') || c == '/' || c == '.' || c
        == '_' || c == '-' || c == ':' || c == '@'
}

pub fn systemd_escape_arg(value: &str) -> (r: String)
    ensures
        r@ == systemd_arg(value@),
{
    let cs = chars_of(value);
    let mut all_plain = true;
    let mut k: usize = 0;
    while k < cs.len()
        invariant
            k <= cs@.len(),
            all_plain == forall|i: int| 0 <= i < k ==> systemd_plain(#[trigger] cs@[i]),
        decreases cs@.len() - k,
    {
        if !is_systemd_plain(cs[k]) {
            all_plain = false;
        }
        k = k + 1;
    }
    if all_plain {
        return owned(value);
    }
    let mut out: Vec<char> = Vec::new();
    out.push('"');
    let mut i: usize = 0;
    while i < cs.len()
        invariant
            i <= cs@.len(),
            out@ == seq!['"'] + quoted_body(cs@.take(i as int)),
        decreases cs@.len() - i,
    {
        proof {
            assert(cs@.take(i + 1).drop_last() =~= cs@.take(i as int));
        }
        let c = cs[i];
        if c == '\\' {
            out.push('\\');
            out.push('\\');
        } else if c == '"' {
            out.push('\\');
            out.push('"');
        } else {
            out.push(c);
        }
        i = i + 1;
        assert(out@ =~= seq!['"'] + quoted_body(cs@.take(i as int)));
    }
    out.push('"');
    assert(cs@.take(cs@.len() as int) =~= cs@);
    string_from_chars(out.as_slice())
}

pub open spec fn join_with(parts: Seq<Seq<char>>, sep: Seq<char>) -> Seq<char>
    decreases parts.len(),
{
    if parts.len() == 0 {
        Seq::empty()
    } else if parts.len() == 1 {
        parts[0]
    } else {
        join_with(parts.drop_last(), sep) + sep + parts.last()
    }
}

// ---------------------------------------------------------------- systemd
pub open spec fn systemd_unit_text(exec_start: Seq<char>) -> Seq<char> {
    "[Unit]\nDescription=insync calendar sync daemon\nAfter=network-online.target\nWants=network-online.target\n\n[Service]\nType=simple\nExecStart="@
        + exec_start
        + "\nRestart=on-failure\nRestartSec=30\nEnvironment=RUST_LOG=info\n\n[Install]\nWantedBy=default.target\n"@
}

/// The systemd user unit that runs the daemon.
pub fn render_systemd_unit(binary_path: &str, config_path: &str, apply: bool) -> (r: String)
    ensures
        r@ == systemd_unit_text(
            join_with(daemon_args(binary_path@, config_path@, apply).map_values(|a: Seq<char>| systemd_arg(a)), " "@),
        ),
{
    let args = daemon_arguments(binary_path, config_path, apply);
    let ghost target = daemon_args(binary_path@, config_path@, apply).map_values(|a: Seq<char>| systemd_arg(a));
    let mut exec = String::new();
    let mut i: usize = 0;
    while i < args.len()
        invariant
            i <= args@.len(),
            args@.map_values(|s: String| s@) == daemon_args(binary_path@, config_path@, apply),
            target == daemon_args(binary_path@, config_path@, apply).map_values(|a: Seq<char>| systemd_arg(a)),
            exec@ == join_with(target.take(i as int), " "@),
        decreases args@.len() - i,
    {
        proof {
            assert(target.take(i + 1).drop_last() =~= target.take(i as int));
            assert(args@[i as int]@ == args@.map_values(|s: String| s@)[i as int]);
        }
        if i > 0 {
            append_str(&mut exec, " ");
        }
        let e = systemd_escape_arg(args[i].as_str());
        append_str(&mut exec, e.as_str());
        i = i + 1;
        proof {
            if i == 1 {
                assert(exec@ =~= join_with(target.take(i as int), " "@));
            }
        }
    }
    assert(target.take(target.len() as int) =~= target);
    let mut out = owned(
        "[Unit]\nDescription=insync calendar sync daemon\nAfter=network-online.target\nWants=network-online.target\n\n[Service]\nType=simple\nExecStart=",
    );
    append_str(&mut out, exec.as_str());
    append_str(
        &mut out,
        "\nRestart=on-failure\nRestartSec=30\nEnvironment=RUST_LOG=info\n\n[Install]\nWantedBy=default.target\n",
    );
    out
}

// ---------------------------------------------------------------- launchd
pub open spec fn plist_arg_line(a: Seq<char>) -> Seq<char> {
    "        <string>"@ + xml_escaped(a) + "</string>"@
}

pub open spec fn plist_text(label: Seq<char>, arg_lines: Seq<char>, stdout: Seq<char>, stderr: Seq<char>) -> Seq<char> {
    "<?xml version=\"1.0\" encoding=\"UTF-8\"?>\n<!DOCTYPE plist PUBLIC \"-//Apple//DTD PLIST 1.0//EN\" \"http://www.apple.com/DTDs/PropertyList-1.0.dtd\">\n<plist version=\"1.0\">\n<dict>\n    <key>Label</key>\n    <string>"@
        + label
        + "</string>\n    <key>ProgramArguments</key>\n    <array>\n"@
        + arg_lines
        + "\n    </array>\n    <key>RunAtLoad</key>\n    <true/>\n    <key>StandardOutPath</key>\n    <string>"@
        + stdout
        + "</string>\n    <key>StandardErrorPath</key>\n    <string>"@
        + stderr
        + "</string>\n    <key>EnvironmentVariables</key>\n    <dict>\n        <key>RUST_LOG</key>\n        <string>info</string>\n    </dict>\n</dict>\n</plist>\n"@
}

/// The launchd agent definition that runs the daemon, each argument in its
/// own XML-escaped `<string>`.
pub fn render_launchd_plist(binary_path: &str, config_path: &str, apply: bool, logs: &LaunchdLogPaths) -> (r:
    String)
    ensures
        r@ == plist_text(
            xml_escaped(BACKGROUND_LABEL@),
            join_with(daemon_args(binary_path@, config_path@, apply).map_values(|a: Seq<char>| plist_arg_line(a)), "\n"@),
            xml_escaped(logs.stdout@),
            xml_escaped(logs.stderr@),
        ),
{
    let args = daemon_arguments(binary_path, config_path, apply);
    let ghost target = daemon_args(binary_path@, config_path@, apply).map_values(|a: Seq<char>| plist_arg_line(a));
    let mut lines = String::new();
    let mut i: usize = 0;
    while i < args.len()
        invariant
            i <= args@.len(),
            args@.map_values(|s: String| s@) == daemon_args(binary_path@, config_path@, apply),
            target == daemon_args(binary_path@, config_path@, apply).map_values(|a: Seq<char>| plist_arg_line(a)),
            lines@ == join_with(target.take(i as int), "\n"@),
        decreases args@.len() - i,
    {
        proof {
            assert(target.take(i + 1).drop_last() =~= target.take(i as int));
            assert(args@[i as int]@ == args@.map_values(|s: String| s@)[i as int]);
        }
        if i > 0 {
            append_str(&mut lines, "\n");
        }
        append_str(&mut lines, "        <string>");
        let e = xml_escape(args[i].as_str());
        append_str(&mut lines, e.as_str());
        append_str(&mut lines, "</string>");
        i = i + 1;
        proof {
            if i == 1 {
                assert(lines@ =~= join_with(target.take(i as int), "\n"@));
            } else {
                assert(lines@ =~= join_with(target.take(i as int), "\n"@));
            }
        }
    }
    assert(target.take(target.len() as int) =~= target);
    let mut out = owned(
        "<?xml version=\"1.0\" encoding=\"UTF-8\"?>\n<!DOCTYPE plist PUBLIC \"-//Apple//DTD PLIST 1.0//EN\" \"http://www.apple.com/DTDs/PropertyList-1.0.dtd\">\n<plist version=\"1.0\">\n<dict>\n    <key>Label</key>\n    <string>",
    );
    let label = xml_escape(BACKGROUND_LABEL);
    append_str(&mut out, label.as_str());
    append_str(&mut out, "</string>\n    <key>ProgramArguments</key>\n    <array>\n");
    append_str(&mut out, lines.as_str());
    append_str(
        &mut out,
        "\n    </array>\n    <key>RunAtLoad</key>\n    <true/>\n    <key>StandardOutPath</key>\n    <string>",
    );
    let so = xml_escape(logs.stdout.as_str());
    append_str(&mut out, so.as_str());
    append_str(&mut out, "</string>\n    <key>StandardErrorPath</key>\n    <string>");
    let se = xml_escape(logs.stderr.as_str());
    append_str(&mut out, se.as_str());
    append_str(
        &mut out,
        "</string>\n    <key>EnvironmentVariables</key>\n    <dict>\n        <key>RUST_LOG</key>\n        <string>info</string>\n    </dict>\n</dict>\n</plist>\n",
    );
    out
}

/// A command line as shown in messages: program and arguments joined by
/// spaces.
pub fn command_display(program: &str, args: &[String]) -> (r: String)
    ensures
        r@ == join_with(seq![program@] + args@.map_values(|s: String| s@), " "@),
{
    let ghost all = seq![program@] + args@.map_values(|s: String| s@);
    let mut out = owned(program);
    let mut i: usize = 0;
    assert(all.take(1) =~= seq![program@]);
    while i < args.len()
        invariant
            i <= args@.len(),
            all == seq![program@] + args@.map_values(|s: String| s@),
            out@ == join_with(all.take(i + 1), " "@),
        decreases args@.len() - i,
    {
        proof {
            assert(all.take(i + 2).drop_last() =~= all.take(i + 1));
            assert(all[i + 1] == args@[i as int]@);
        }
        append_str(&mut out, " ");
        append_str(&mut out, args[i].as_str());
        i = i + 1;
    }
    assert(all.take(args@.len() as int + 1) =~= all);
    out
}

/// Text that a shell would split or unquote: empty, or holding whitespace or
/// a double quote.
pub open spec fn needs_quotes(s: Seq<char>) -> bool {
    s.len() == 0 || exists|i: int| 0 <= i < s.len() && (crate::text::is_unicode_whitespace(#[trigger] s[i]) || s[i] == '"')
}

pub open spec fn escaped_quotes(s: Seq<char>) -> Seq<char>
    decreases s.len(),
{
    if s.len() == 0 {
        s
    } else {
        escaped_quotes(s.drop_last()) + if s.last() == '"' {
            seq!['\\', '"']
        } else {
            seq![s.last()]
        }
    }
}

/// Minimal quoting of a path or argument inside a terminal script: in
/// double quotes, with inner quotes escaped, when it needs them.
pub open spec fn quoted(s: Seq<char>) -> Seq<char> {
    if needs_quotes(s) {
        seq!['"'] + escaped_quotes(s) + seq!['"']
    } else {
        s
    }
}

pub fn quote(value: &str) -> (r: String)
    ensures
        r@ == quoted(value@),
{
    let cs = chars_of(value);
    let mut needs = cs.len() == 0;
    let mut k: usize = 0;
    while k < cs.len()
        invariant
            k <= cs@.len(),
            needs == (cs@.len() == 0 || exists|i: int| 0 <= i < k && (crate::text::is_unicode_whitespace(#[trigger] cs@[i]) || cs@[i] == '"')),
        decreases cs@.len() - k,
    {
        if crate::text::is_whitespace(cs[k]) || cs[k] == '"' {
            needs = true;
        }
        k = k + 1;
    }
    if !needs {
        return owned(value);
    }
    let mut out: Vec<char> = Vec::new();
    out.push('"');
    let mut i: usize = 0;
    while i < cs.len()
        invariant
            i <= cs@.len(),
            out@ == seq!['"'] + escaped_quotes(cs@.take(i as int)),
        decreases cs@.len() - i,
    {
        proof {
            assert(cs@.take(i + 1).drop_last() =~= cs@.take(i as int));
        }
        if cs[i] == '"' {
            out.push('\\');
            out.push('"');
        } else {
            out.push(cs[i]);
        }
        i = i + 1;
        assert(out@ =~= seq!['"'] + escaped_quotes(cs@.take(i as int)));
    }
    out.push('"');
    assert(cs@.take(cs@.len() as int) =~= cs@);
    string_from_chars(out.as_slice())
}

// ---------------------------------------------------------------- terminal windows
/// Every inner double quote escaped with a backslash.
pub fn escape_quotes(value: &str) -> (r: String)
    ensures
        r@ == escaped_quotes(value@),
{
    let cs = chars_of(value);
    let mut out: Vec<char> = Vec::new();
    let mut i: usize = 0;
    while i < cs.len()
        invariant
            i <= cs@.len(),
            out@ == escaped_quotes(cs@.take(i as int)),
        decreases cs@.len() - i,
    {
        proof {
            assert(cs@.take(i + 1).drop_last() =~= cs@.take(i as int));
        }
        if cs[i] == '"' {
            out.push('\\');
            out.push('"');
        } else {
            out.push(cs[i]);
        }
        i = i + 1;
        assert(out@ =~= escaped_quotes(cs@.take(i as int)));
    }
    assert(cs@.take(cs@.len() as int) =~= cs@);
    string_from_chars(out.as_slice())
}

/// The program and its arguments, each quoted as a terminal script needs,
/// joined by spaces.
pub open spec fn quoted_command(program: Seq<char>, args: Seq<Seq<char>>) -> Seq<char> {
    join_with(seq![quoted(program)] + args.map_values(|a: Seq<char>| quoted(a)), " "@)
}

pub fn quoted_command_line(program: &str, args: &Vec<String>) -> (r: String)
    ensures
        r@ == quoted_command(program@, args@.map_values(|s: String| s@)),
{
    let ghost all = seq![quoted(program@)] + args@.map_values(|s: String| s@).map_values(|a: Seq<char>| quoted(a));
    let mut out = quote(program);
    let mut i: usize = 0;
    assert(all.take(1) =~= seq![quoted(program@)]);
    while i < args.len()
        invariant
            i <= args@.len(),
            all == seq![quoted(program@)] + args@.map_values(|s: String| s@).map_values(|a: Seq<char>| quoted(a)),
            out@ == join_with(all.take(i + 1), " "@),
        decreases args@.len() - i,
    {
        proof {
            assert(all.take(i + 2).drop_last() =~= all.take(i + 1));
            assert(all[i + 1] == quoted(args@[i as int]@));
        }
        let q = quote(args[i].as_str());
        append_str(&mut out, " ");
        append_str(&mut out, q.as_str());
        i = i + 1;
    }
    assert(all.take(args@.len() as int + 1) =~= all);
    out
}

/// How a command is opened in a new terminal window.
#[derive(Debug, Clone)]
pub enum TerminalLaunch {
    /// macOS: `osascript -e` with this script for Terminal.
    AppleScript(String),
    /// Windows: `cmd` with these arguments (`start` opens a window that
    /// `/k` keeps open).
    WindowsStart(Vec<String>),
    /// Other Unix systems: the first of these emulators that is installed,
    /// run with its flags followed by the command.
    Emulators { candidates: Vec<(&'static str, Vec<&'static str>)>, command: Vec<String> },
}

/// The Linux terminal emulators tried in order, with the flag each takes
/// before the command.
pub open spec fn emulator_candidates() -> Seq<(Seq<char>, Seq<Seq<char>>)> {
    seq![
        ("x-terminal-emulator"@, seq!["-e"@]),
        ("gnome-terminal"@, seq!["--"@]),
        ("konsole"@, seq!["-e"@]),
        ("xfce4-terminal"@, seq!["-e"@]),
        ("tilix"@, seq!["--"@]),
        ("alacritty"@, seq!["-e"@]),
        ("kitty"@, Seq::empty()),
        ("xterm"@, seq!["-e"@]),
    ]
}

pub open spec fn candidates_view(v: Seq<(&'static str, Vec<&'static str>)>) -> Seq<(Seq<char>, Seq<Seq<char>>)> {
    v.map_values(|c: (&'static str, Vec<&'static str>)| (c.0@, c.1@.map_values(|f: &str| f@)))
}

/// The AppleScript that opens Terminal on the quoted command.
pub open spec fn apple_script(program: Seq<char>, args: Seq<Seq<char>>) -> Seq<char> {
    "tell application \"Terminal\" to do script \""@ + escaped_quotes(quoted_command(program, args)) + "\""@
}

fn candidate(name: &'static str, flags: Vec<&'static str>) -> (r: (&'static str, Vec<&'static str>))
    ensures
        r.0 == name,
        r.1 == flags,
{
    (name, flags)
}

fn emulators() -> (r: Vec<(&'static str, Vec<&'static str>)>)
    ensures
        candidates_view(r@) == emulator_candidates(),
{
    let e = vec!["-e"];
    assert(e@.map_values(|f: &str| f@) =~= seq!["-e"@]);
    let dd = vec!["--"];
    assert(dd@.map_values(|f: &str| f@) =~= seq!["--"@]);
    let none: Vec<&'static str> = Vec::new();
    assert(none@.map_values(|f: &str| f@) =~= Seq::<Seq<char>>::empty());
    let v = vec![
        candidate("x-terminal-emulator", e.clone()),
        candidate("gnome-terminal", dd.clone()),
        candidate("konsole", e.clone()),
        candidate("xfce4-terminal", e.clone()),
        candidate("tilix", dd.clone()),
        candidate("alacritty", e.clone()),
        candidate("kitty", none),
        candidate("xterm", e),
    ];
    assert(candidates_view(v@) =~= emulator_candidates());
    v
}

/// How to open `program args` in a terminal on this operating system
/// (`std::env::consts::OS`) and family (`FAMILY`); `None` where there is no
/// terminal to open (a non-Unix system other than Windows).
pub fn terminal_launch(os: &str, family: &str, program: &str, args: &Vec<String>) -> (r: Option<TerminalLaunch>)
    ensures
        os@ == "macos"@ ==> (r matches Some(TerminalLaunch::AppleScript(script)) && script@ == apple_script(
            program@,
            args@.map_values(|s: String| s@),
        )),
        os@ == "windows"@ ==> (r matches Some(TerminalLaunch::WindowsStart(cmd)) && cmd@.map_values(|s: String| s@)
            == seq!["/c"@, "start"@, ""@, "cmd"@, "/k"@, quoted_command(program@, args@.map_values(|s: String| s@))]),
        os@ != "macos"@ && os@ != "windows"@ && family@ == "unix"@ ==> (r matches Some(
            TerminalLaunch::Emulators { candidates, command },
        ) && candidates_view(candidates@) == emulator_candidates() && command@.map_values(|s: String| s@) == seq![
            program@,
        ] + args@.map_values(|s: String| s@)),
        os@ != "macos"@ && os@ != "windows"@ && family@ != "unix"@ ==> r is None,
{
    proof {
        reveal_strlit("macos");
        reveal_strlit("windows");
        assert("macos"@.len() == 5 && "windows"@.len() == 7);
    }
    if str_eq(os, "macos") {
        let line = quoted_command_line(program, args);
        let escaped = escape_quotes(line.as_str());
        let mut script = owned("tell application \"Terminal\" to do script \"");
        append_str(&mut script, escaped.as_str());
        append_str(&mut script, "\"");
        Some(TerminalLaunch::AppleScript(script))
    } else if str_eq(os, "windows") {
        let line = quoted_command_line(program, args);
        let cmd = vec![owned("/c"), owned("start"), owned(""), owned("cmd"), owned("/k"), line];
        assert(cmd@.map_values(|s: String| s@) =~= seq![
            "/c"@,
            "start"@,
            ""@,
            "cmd"@,
            "/k"@,
            quoted_command(program@, args@.map_values(|s: String| s@)),
        ]);
        Some(TerminalLaunch::WindowsStart(cmd))
    } else if str_eq(family, "unix") {
        let mut command: Vec<String> = vec![owned(program)];
        let mut i: usize = 0;
        while i < args.len()
            invariant
                i <= args@.len(),
                command@.len() == i + 1,
                command@[0]@ == program@,
                forall|k: int| 0 <= k < i ==> #[trigger] command@[k + 1]@ == args@[k]@,
            decreases args@.len() - i,
        {
            let next = args[i].clone();
            command.push(next);
            i = i + 1;
        }
        assert(command@.map_values(|s: String| s@) =~= seq![program@] + args@.map_values(|s: String| s@)) by {
            assert forall|k: int| #![trigger command@[k]] 0 <= k < command@.len() implies command@.map_values(
                |s: String| s@,
            )[k] == (seq![program@] + args@.map_values(|s: String| s@))[k] by {
                if k > 0 {
                    assert(command@[(k - 1) + 1]@ == args@[k - 1]@);
                }
            }
        }
        Some(TerminalLaunch::Emulators { candidates: emulators(), command })
    } else {
        None
    }
}

} // verus!
