//! New terminal splits that open on the host of a running SSH session.
//!
//! A session keeps a directory named after its process under `~/.reef/sessions/`, and
//! tells the terminal with OSC 7 that this is where it works. A split that starts there
//! runs the snippet in the user's shell rc, which reads the session's `ssh-info` and
//! connects to the same host.

use crate::input::drops::{escape_value, hex_value, path_of, unescaped, url_decoded};
use crate::text::{
    begins_with, chars_of, concat, decimal, decimal_text, find_char, hex_char, hex_letter,
    lemma_next_place, next_place, same_text, strip_start, views,
};
use vstd::prelude::*;
use vstd::utf8::encode_utf8;

verus! {

/// The shells that there is a snippet for.
#[derive(Clone, Copy, Debug, PartialEq, Eq, Structural)]
pub enum Shell {
    Zsh,
    Bash,
    Fish,
}

/// What goes into the rc file of zsh.
pub const ZSH_SNIPPET: &'static str =
    "# reef: splits of an SSH session open on its host.\nif [[ \"$PWD\" == \"$HOME/.reef/sessions/\"* && -r \"$PWD/ssh-info\" ]] && ps -p \"${PWD##*/}\" >/dev/null 2>&1; then\n  while IFS= read -r line; do\n    typeset -gx \"${line%%=*}\"=\"${line#*=}\"\n  done < \"$PWD/ssh-info\"\n  exec ssh -o \"ControlPath=$REEF_CONTROL_PATH\" -t \"$REEF_HOST\" \"cd ${(q)REEF_WORKDIR} && exec \\$SHELL -l\"\nfi\n";

/// What goes into the rc file of bash.
pub const BASH_SNIPPET: &'static str =
    "# reef: splits of an SSH session open on its host.\nif [[ \"$PWD\" == \"$HOME/.reef/sessions/\"* && -r \"$PWD/ssh-info\" ]] && ps -p \"${PWD##*/}\" >/dev/null 2>&1; then\n  while IFS= read -r line; do\n    typeset -x \"${line%%=*}\"=\"${line#*=}\"\n  done < \"$PWD/ssh-info\"\n  exec ssh -o \"ControlPath=$REEF_CONTROL_PATH\" -t \"$REEF_HOST\" \"cd $(printf %q \"$REEF_WORKDIR\") && exec \\$SHELL -l\"\nfi\n";

/// What goes into the configuration of fish.
pub const FISH_SNIPPET: &'static str =
    "# reef: splits of an SSH session open on its host.\nif string match -q \"$HOME/.reef/sessions/*\" \"$PWD\"; and test -r \"$PWD/ssh-info\"; and ps -p (basename \"$PWD\") >/dev/null 2>&1\n  while read -l line\n    set -l pair (string split -m 1 = -- $line)\n    set -gx $pair[1] $pair[2]\n  end < \"$PWD/ssh-info\"\n  exec ssh -o \"ControlPath=$REEF_CONTROL_PATH\" -t \"$REEF_HOST\" \"cd \"(string escape -- \"$REEF_WORKDIR\")\" && exec \\$SHELL -l\"\nend\n";

impl Shell {
    pub const ALL: [Shell; 3] = [Shell::Zsh, Shell::Bash, Shell::Fish];

    /// The shell's name on the command line.
    pub open spec fn name_text(self) -> Seq<char> {
        match self {
            Shell::Zsh => "zsh"@,
            Shell::Bash => "bash"@,
            Shell::Fish => "fish"@,
        }
    }

    /// The shell of this name.
    pub fn parse(s: &str) -> (r: Option<Shell>)
        ensures
            match r {
                Some(shell) => shell.name_text() == s@,
                None => forall|shell: Shell| #[trigger] shell.name_text() != s@,
            },
    {
        if same_text(s, "zsh") {
            Some(Shell::Zsh)
        } else if same_text(s, "bash") {
            Some(Shell::Bash)
        } else if same_text(s, "fish") {
            Some(Shell::Fish)
        } else {
            None
        }
    }

    /// The shell's name on the command line.
    pub fn name(self) -> (r: &'static str)
        ensures
            r@ == self.name_text(),
    {
        match self {
            Shell::Zsh => "zsh",
            Shell::Bash => "bash",
            Shell::Fish => "fish",
        }
    }

    /// Where the shell's rc file usually is, below the home directory.
    pub fn rc_path_suffix(self) -> (r: &'static str)
        ensures
            r@ == (match self {
                Shell::Zsh => ".zshrc"@,
                Shell::Bash => ".bashrc"@,
                Shell::Fish => ".config/fish/config.fish"@,
            }),
    {
        match self {
            Shell::Zsh => ".zshrc",
            Shell::Bash => ".bashrc",
            Shell::Fish => ".config/fish/config.fish",
        }
    }

    /// What goes into the shell's rc file.
    pub fn snippet(self) -> (r: &'static str)
        ensures
            r@ == (match self {
                Shell::Zsh => ZSH_SNIPPET@,
                Shell::Bash => BASH_SNIPPET@,
                Shell::Fish => FISH_SNIPPET@,
            }),
    {
        match self {
            Shell::Zsh => ZSH_SNIPPET,
            Shell::Bash => BASH_SNIPPET,
            Shell::Fish => FISH_SNIPPET,
        }
    }
}

/// No two shells share a name, so a name leads back to its shell.
pub proof fn names_tell_shells_apart(a: Shell, b: Shell)
    requires
        a.name_text() == b.name_text(),
    ensures
        a == b,
{
    reveal_strlit("zsh");
    reveal_strlit("bash");
    reveal_strlit("fish");
    assert("zsh"@[0] == 'z' && "bash"@[0] == 'b' && "fish"@[0] == 'f');
}

/// A path and the name of something in it. Of an empty path only the name is left.
pub open spec fn joined(base: Seq<char>, name: Seq<char>) -> Seq<char> {
    if base.len() == 0 || base.last() == '/' {
        base + name
    } else {
        base.push('/') + name
    }
}

/// The path of `name` in `base`.
pub fn join_path(base: &str, name: &str) -> (r: String)
    ensures
        r@ == joined(base@, name@),
{
    let chars = chars_of(base);
    let mut out = base.to_string();
    if chars.len() > 0 && chars[chars.len() - 1] != '/' {
        out.push('/');
    }
    out.push_str(name);
    out
}

/// Where everything of this program is kept: `.reef` in the home directory. Without a
/// home directory there is no such place.
pub open spec fn home_of(home: Option<Seq<char>>) -> Option<Seq<char>> {
    match home {
        Some(h) => if h.len() == 0 {
            None
        } else {
            Some(joined(h, ".reef"@))
        },
        None => None,
    }
}

/// The text of a home directory that may be unset.
pub open spec fn view_of(home: Option<&str>) -> Option<Seq<char>> {
    match home {
        Some(h) => Some(h@),
        None => None,
    }
}

fn reef_home(home: Option<&str>) -> (r: Option<String>)
    ensures
        match r {
            Some(path) => home_of(view_of(home)) == Some(path@),
            None => home_of(view_of(home)) is None,
        },
{
    match home {
        Some(h) => {
            if h.is_empty() {
                None
            } else {
                Some(join_path(h, ".reef"))
            }
        },
        None => None,
    }
}

/// Where the sessions keep their directories, given the home directory.
pub fn sessions_root(home: Option<&str>) -> (r: Option<String>)
    ensures
        match (r, home_of(view_of(home))) {
            (Some(path), Some(base)) => path@ == joined(base, "sessions"@),
            (None, None) => true,
            _ => false,
        },
{
    match reef_home(home) {
        Some(base) => Some(join_path(base.as_str(), "sessions")),
        None => None,
    }
}

/// The file that says that the snippet is installed, given the home directory.
pub fn snippet_installed_marker(home: Option<&str>) -> (r: Option<String>)
    ensures
        match (r, home_of(view_of(home))) {
            (Some(path), Some(base)) => path@ == joined(base, "snippet-installed"@),
            (None, None) => true,
            _ => false,
        },
{
    match reef_home(home) {
        Some(base) => Some(join_path(base.as_str(), "snippet-installed")),
        None => None,
    }
}

/// The control path that a list of ssh arguments names: what follows `ControlPath=` in
/// the first argument that begins with it.
pub open spec fn control_path_in(args: Seq<Seq<char>>) -> Option<Seq<char>>
    decreases args.len(),
{
    if args.len() == 0 {
        None
    } else if begins_with(args[0], "ControlPath="@) {
        Some(args[0].skip("ControlPath="@.len() as int))
    } else {
        control_path_in(args.drop_first())
    }
}

/// The control path that a list of ssh arguments names.
pub fn extract_control_path(args: &Vec<String>) -> (r: Option<String>)
    ensures
        match r {
            Some(path) => control_path_in(views(args@)) == Some(path@),
            None => control_path_in(views(args@)) is None,
        },
{
    let mut i: usize = 0;
    assert(views(args@).skip(0) =~= views(args@));
    while i < args.len()
        invariant
            i <= args@.len(),
            control_path_in(views(args@)) == control_path_in(views(args@).skip(i as int)),
        decreases args@.len() - i,
    {
        proof {
            let rest = views(args@).skip(i as int);
            assert(rest[0] == args@[i as int]@);
            assert(rest.drop_first() =~= views(args@).skip(i + 1));
        }
        if let Some(path) = strip_start(args[i].as_str(), "ControlPath=") {
            return Some(path);
        }
        i += 1;
    }
    None
}

/// Whether a byte stands for itself in a path of a URL: letters, digits, `-`, `.`, `_`,
/// `~` and the slash.
pub open spec fn is_plain_byte(b: u8) -> bool {
    0x61 <= b <= 0x7a || 0x41 <= b <= 0x5a || 0x30 <= b <= 0x39 || b == 0x2d || b == 0x2e || b
        == 0x5f || b == 0x7e || b == 0x2f
}

/// A byte as it is written in a URL.
pub open spec fn encoded_byte(b: u8) -> Seq<char> {
    if is_plain_byte(b) {
        seq![b as char]
    } else {
        seq!['%', hex_letter(b as int / 16), hex_letter(b as int % 16)]
    }
}

/// Bytes as they are written in a URL.
pub open spec fn url_encoded(bytes: Seq<u8>) -> Seq<char>
    decreases bytes.len(),
{
    if bytes.len() == 0 {
        Seq::empty()
    } else {
        url_encoded(bytes.drop_last()) + encoded_byte(bytes.last())
    }
}

/// Writes a path as it stands in a URL.
pub fn url_encode_path(path: &str) -> (r: String)
    ensures
        r@ == url_encoded(encode_utf8(path@)),
{
    let bytes = path.as_bytes();
    let mut out = String::new();
    let mut i: usize = 0;
    let ghost all = encode_utf8(path@);
    assert(all.take(0) =~= Seq::<u8>::empty());
    while i < bytes.len()
        invariant
            i <= bytes@.len(),
            bytes@ == all,
            out@ == url_encoded(all.take(i as int)),
        decreases bytes@.len() - i,
    {
        let b: u8 = bytes[i];
        let ghost before = out@;
        proof {
            assert(all.take(i + 1).drop_last() =~= all.take(i as int));
            assert(all.take(i + 1).last() == b);
        }
        let plain = (0x61 <= b && b <= 0x7a) || (0x41 <= b && b <= 0x5a) || (0x30 <= b && b <= 0x39)
            || b == 0x2d || b == 0x2e || b == 0x5f || b == 0x7e || b == 0x2f;
        if plain {
            out.push(b as char);
            assert(out@ =~= before + encoded_byte(b));
        } else {
            out.push('%');
            out.push(hex_char(b / 16));
            out.push(hex_char(b % 16));
            assert(out@ =~= before + encoded_byte(b));
        }
        i += 1;
    }
    assert(all.take(i as int) =~= all);
    out
}

/// The bytes that tell the terminal where this process works.
pub open spec fn osc7_text(path: Seq<char>) -> Seq<char> {
    "\x1b]7;file://localhost"@ + url_encoded(encode_utf8(path)) + "\x07"@
}

/// The bytes that tell the terminal where this process works.
pub fn osc7_sequence(path: &str) -> (r: String)
    ensures
        r@ == osc7_text(path@),
{
    let encoded = url_encode_path(path);
    let mut out = concat("\x1b]7;file://localhost", encoded.as_str());
    out.push_str("\x07");
    out
}

/// What a split needs to connect to the session's host.
#[derive(Clone, Copy, Debug)]
pub struct SshInfo<'a> {
    pub host: &'a str,
    pub workdir: &'a str,
    pub control_path: &'a str,
}

/// The values of a session's `ssh-info`.
#[derive(Clone, Copy, Debug, PartialEq, Eq, Structural)]
pub enum InfoField {
    Host,
    Workdir,
    ControlPath,
}

impl InfoField {
    /// The name of the value in the file.
    pub open spec fn label_text(self) -> Seq<char> {
        match self {
            InfoField::Host => "REEF_HOST"@,
            InfoField::Workdir => "REEF_WORKDIR"@,
            InfoField::ControlPath => "REEF_CONTROL_PATH"@,
        }
    }

    /// The name of the value in the file.
    pub fn label(self) -> (r: &'static str)
        ensures
            r@ == self.label_text(),
    {
        match self {
            InfoField::Host => "REEF_HOST",
            InfoField::Workdir => "REEF_WORKDIR",
            InfoField::ControlPath => "REEF_CONTROL_PATH",
        }
    }
}

/// The kinds of errors there are.
#[derive(Clone, Copy, Debug, PartialEq, Eq, Structural)]
pub enum ErrorKind {
    InvalidInput,
}

/// A value that cannot be written on a line of its own.
#[derive(Clone, Copy, Debug, PartialEq, Eq, Structural)]
pub struct InfoError {
    pub field: InfoField,
}

impl InfoError {
    #[verifier::allow_in_spec]
    pub fn kind(&self) -> ErrorKind
        returns
            ErrorKind::InvalidInput,
    {
        ErrorKind::InvalidInput
    }

    /// The error in words.
    pub fn message(&self) -> (r: String)
        ensures
            r@ == self.field.label_text()
                + " contains NUL or newline; refusing to write ssh-info"@,
    {
        concat(self.field.label(), " contains NUL or newline; refusing to write ssh-info")
    }
}

/// Whether a value fits on a line: it holds neither a newline nor a NUL.
pub open spec fn fits_on_line(value: Seq<char>) -> bool {
    !value.contains('\n') && !value.contains('\0')
}

fn has_char(text: &str, c: char) -> (r: bool)
    ensures
        r == text@.contains(c),
{
    let chars = chars_of(text);
    let at: usize = find_char(&chars, c, 0);
    if at < chars.len() {
        assert(text@[at as int] == c);
        true
    } else {
        false
    }
}

fn value_fits(value: &str) -> (r: bool)
    ensures
        r == fits_on_line(value@),
{
    !has_char(value, '\n') && !has_char(value, '\0')
}

/// The first value that does not fit on a line.
pub open spec fn misfit(host: Seq<char>, workdir: Seq<char>, control_path: Seq<char>) -> Option<
    InfoField,
> {
    if !fits_on_line(host) {
        Some(InfoField::Host)
    } else if !fits_on_line(workdir) {
        Some(InfoField::Workdir)
    } else if !fits_on_line(control_path) {
        Some(InfoField::ControlPath)
    } else {
        None
    }
}

/// The contents of a session's `ssh-info`: a line for each value, its name and the value
/// as it is.
pub open spec fn info_text(host: Seq<char>, workdir: Seq<char>, control_path: Seq<char>) -> Seq<
    char,
> {
    "REEF_HOST="@ + host + "\nREEF_WORKDIR="@ + workdir + "\nREEF_CONTROL_PATH="@ + control_path
        + "\n"@
}

/// The contents of a session's `ssh-info`.
pub fn ssh_info_body(info: &SshInfo<'_>) -> (r: Result<String, InfoError>)
    ensures
        match r {
            Ok(body) => misfit(info.host@, info.workdir@, info.control_path@) is None && body@
                == info_text(info.host@, info.workdir@, info.control_path@),
            Err(error) => misfit(info.host@, info.workdir@, info.control_path@) == Some(
                error.field,
            ),
        },
{
    if !value_fits(info.host) {
        return Err(InfoError { field: InfoField::Host });
    }
    if !value_fits(info.workdir) {
        return Err(InfoError { field: InfoField::Workdir });
    }
    if !value_fits(info.control_path) {
        return Err(InfoError { field: InfoField::ControlPath });
    }
    let mut out = concat("REEF_HOST=", info.host);
    out.push_str("\nREEF_WORKDIR=");
    out.push_str(info.workdir);
    out.push_str("\nREEF_CONTROL_PATH=");
    out.push_str(info.control_path);
    out.push_str("\n");
    Ok(out)
}

/// Whether a character is a digit.
pub open spec fn is_digit(c: char) -> bool {
    0x30 <= c as u32 <= 0x39
}

/// Whether a text is made of digits, at least one.
pub open spec fn is_number(text: Seq<char>) -> bool {
    text.len() > 0 && forall|i: int| 0 <= i < text.len() ==> is_digit(#[trigger] text[i])
}

/// The value of a text of digits.
pub open spec fn value_of(text: Seq<char>) -> int
    decreases text.len(),
{
    if text.len() == 0 {
        0
    } else {
        value_of(text.drop_last()) * 10 + (text.last() as u32 - 0x30)
    }
}

/// The digits of a number that a plus sign may stand before.
pub open spec fn digits_of(text: Seq<char>) -> Seq<char> {
    if text.len() > 0 && text[0] == '+' {
        text.skip(1)
    } else {
        text
    }
}

/// The process that a name of a session's directory stands for.
pub open spec fn pid_of(name: Seq<char>) -> Option<int> {
    let digits = digits_of(name);
    if is_number(digits) && value_of(digits) <= u32::MAX {
        Some(value_of(digits))
    } else {
        None
    }
}

proof fn lemma_value_grows(text: Seq<char>, k: int)
    requires
        0 <= k <= text.len(),
        forall|i: int| 0 <= i < text.len() ==> is_digit(#[trigger] text[i]),
    ensures
        0 <= value_of(text.take(k)) <= value_of(text),
    decreases text.len() - k, text.len(),
{
    if k == text.len() {
        assert(text.take(k) =~= text);
        if k > 0 {
            let front = text.drop_last();
            assert forall|i: int| 0 <= i < front.len() implies is_digit(#[trigger] front[i]) by {
                assert(front[i] == text[i]);
            }
            lemma_value_grows(front, front.len() as int);
            assert(front.take(front.len() as int) =~= front);
            assert(is_digit(text[k - 1]));
        }
    } else {
        let front = text.drop_last();
        assert forall|i: int| 0 <= i < front.len() implies is_digit(#[trigger] front[i]) by {
            assert(front[i] == text[i]);
        }
        lemma_value_grows(front, k);
        assert(front.take(k) =~= text.take(k));
        assert(is_digit(text[text.len() - 1]));
    }
}

/// The process that a name of a session's directory stands for. Names that are no
/// number belong to something else.
pub fn session_pid(name: &str) -> (r: Option<u32>)
    ensures
        match r {
            Some(pid) => pid_of(name@) == Some(pid as int),
            None => pid_of(name@) is None,
        },
{
    let chars = chars_of(name);
    let mut i: usize = 0;
    if chars.len() > 0 && chars[0] == '+' {
        i = 1;
    }
    let ghost digits = digits_of(name@);
    let start: usize = i;
    assert(digits =~= name@.skip(start as int));
    if start == chars.len() {
        return None;
    }
    let mut value: u64 = 0;
    while i < chars.len()
        invariant
            start <= i <= chars@.len(),
            start < chars@.len(),
            chars@ == name@,
            digits == name@.skip(start as int),
            digits == digits_of(name@),
            forall|k: int| 0 <= k < i - start ==> is_digit(#[trigger] digits[k]),
            value == value_of(digits.take(i - start)),
            value <= u32::MAX,
        decreases chars@.len() - i,
    {
        let c: u32 = chars[i] as u32;
        assert(digits[i - start] == chars@[i as int]);
        if c < 0x30 || c > 0x39 {
            assert(!is_digit(digits[i - start]));
            return None;
        }
        value = value * 10 + (c - 0x30) as u64;
        proof {
            assert(digits.take(i + 1 - start).drop_last() =~= digits.take(i - start));
        }
        i += 1;
        if value > u32::MAX as u64 {
            proof {
                if is_number(digits) {
                    lemma_value_grows(digits, i - start);
                }
            }
            return None;
        }
    }
    assert(digits.take(i - start) =~= digits);
    Some(value as u32)
}

/// Whether a session's directory was left behind: it is named after a process that is
/// gone.
pub fn is_stale_session(name: &str, alive: bool) -> (r: bool)
    ensures
        r == (pid_of(name@) is Some && !alive),
{
    session_pid(name).is_some() && !alive
}

/// What a session leaves once its directory is made: the text of its file, and what to
/// print when the file is written.
#[derive(Debug)]
pub struct SessionFile {
    pub text: String,
    pub announcement: String,
}

/// What installing a session comes down to: the directory to make, and the file to write
/// in it for its owner alone. Where the file cannot be written there is nothing to print
/// either.
#[derive(Debug)]
pub struct InstallPlan {
    pub dir: String,
    pub info_path: String,
    pub file: Result<SessionFile, InfoError>,
}

impl InstallPlan {
    /// Whether this is how to install a session that is described by `info` in `dir`.
    pub open spec fn installs(self, dir: Seq<char>, info: SshInfo<'_>) -> bool {
        &&& self.dir@ == dir
        &&& self.info_path@ == joined(dir, "ssh-info"@)
        &&& match self.file {
            Ok(file) => misfit(info.host@, info.workdir@, info.control_path@) is None && file.text@
                == info_text(info.host@, info.workdir@, info.control_path@)
                && file.announcement@ == osc7_text(dir),
            Err(error) => misfit(info.host@, info.workdir@, info.control_path@) == Some(
                error.field,
            ),
        }
    }
}

/// A session that is installed.
#[derive(Debug)]
pub struct Session {
    dir: String,
    original_cwd: Option<String>,
}

impl Session {
    pub closed spec fn dir_text(self) -> Seq<char> {
        self.dir@
    }

    pub closed spec fn cwd_text(self) -> Option<Seq<char>> {
        match self.original_cwd {
            Some(cwd) => Some(cwd@),
            None => None,
        }
    }

    /// How to install a session of the process `pid` below `root`.
    pub fn install_in(root: &str, pid: u32, info: &SshInfo<'_>) -> (r: InstallPlan)
        ensures
            r.installs(joined(root@, decimal(pid as nat)), *info),
    {
        let dir = join_path(root, decimal_text(pid as usize).as_str());
        let info_path = join_path(dir.as_str(), "ssh-info");
        let file = match ssh_info_body(info) {
            Ok(text) => {
                let announcement = osc7_sequence(dir.as_str());
                Ok(SessionFile { text, announcement })
            },
            Err(error) => Err(error),
        };
        InstallPlan { dir, info_path, file }
    }

    /// How to install a session of the process `pid`, given the home directory. Without
    /// one there are no sessions.
    pub fn install(home: Option<&str>, pid: u32, info: &SshInfo<'_>) -> (r: Option<InstallPlan>)
        ensures
            match (r, home_of(view_of(home))) {
                (Some(plan), Some(base)) => plan.installs(
                    joined(joined(base, "sessions"@), decimal(pid as nat)),
                    *info,
                ),
                (None, None) => true,
                _ => false,
            },
    {
        match sessions_root(home) {
            Some(root) => Some(Session::install_in(root.as_str(), pid, info)),
            None => None,
        }
    }

    /// The session that a plan has become, in a process that worked in `original_cwd`.
    pub fn installed(plan: &InstallPlan, original_cwd: Option<String>) -> (r: Session)
        ensures
            r.dir_text() == plan.dir@,
            r.cwd_text() == (match original_cwd {
                Some(cwd) => Some(cwd@),
                None => None,
            }),
    {
        Session { dir: plan.dir.clone(), original_cwd }
    }

    /// The session's directory.
    pub fn dir(&self) -> (r: &str)
        ensures
            r@ == self.dir_text(),
    {
        self.dir.as_str()
    }

    /// What to print when the session ends, so that the terminal knows its old place.
    pub fn farewell(&self) -> (r: Option<String>)
        ensures
            match (r, self.cwd_text()) {
                (Some(text), Some(cwd)) => text@ == osc7_text(cwd),
                (None, None) => true,
                _ => false,
            },
    {
        match &self.original_cwd {
            Some(cwd) => Some(osc7_sequence(cwd.as_str())),
            None => None,
        }
    }
}

proof fn lemma_decimal_is_number(n: nat)
    ensures
        is_number(decimal(n)),
        value_of(decimal(n)) == n,
    decreases n,
{
    if n < 10 {
        let text = decimal(n);
        assert(text.drop_last() =~= Seq::<char>::empty());
        assert(value_of(text.drop_last()) == 0);
    } else {
        lemma_decimal_is_number(n / 10);
        let text = decimal(n);
        assert(text.drop_last() =~= decimal(n / 10));
        assert forall|i: int| 0 <= i < text.len() implies is_digit(#[trigger] text[i]) by {
            if i < text.len() - 1 {
                assert(text[i] == decimal(n / 10)[i]);
            }
        }
    }
}

/// The name of a session's directory leads back to its process, so that the sweep finds
/// every session and takes none for another's.
pub proof fn session_names_lead_back(pid: u32)
    ensures
        pid_of(decimal(pid as nat)) == Some(pid as int),
{
    lemma_decimal_is_number(pid as nat);
    let text = decimal(pid as nat);
    assert(is_digit(text[0]));
}

/// Two processes never share a directory.
pub proof fn sessions_stay_apart(a: u32, b: u32)
    requires
        decimal(a as nat) == decimal(b as nat),
    ensures
        a == b,
{
    lemma_decimal_is_number(a as nat);
    lemma_decimal_is_number(b as nat);
}

proof fn lemma_line_end(before: Seq<char>, line: Seq<char>, rest: Seq<char>)
    requires
        !line.contains('\n'),
    ensures
        next_place(before + line + seq!['\n'] + rest, '\n', before.len() as int) == before.len()
            + line.len(),
{
    let text = before + line + seq!['\n'] + rest;
    lemma_next_place(text, '\n', before.len() as int);
    let at = next_place(text, '\n', before.len() as int);
    let end = before.len() + line.len();
    assert(text[end as int] == '\n');
    if at < end {
        assert(text[at] == line[at - before.len()]);
        assert(line.contains(line[at - before.len()]));
    }
}

/// Each value of an `ssh-info` can be read back: its line holds its name, an equals sign
/// and the value exactly as it was.
pub proof fn ssh_info_is_read_back(host: Seq<char>, workdir: Seq<char>, control_path: Seq<char>)
    requires
        misfit(host, workdir, control_path) is None,
    ensures
        ({
            let text = info_text(host, workdir, control_path);
            let first = next_place(text, '\n', 0);
            let second = next_place(text, '\n', first + 1);
            let third = next_place(text, '\n', second + 1);
            &&& text.subrange(0, first) == "REEF_HOST="@ + host
            &&& text.subrange(first + 1, second) == "REEF_WORKDIR="@ + workdir
            &&& text.subrange(second + 1, third) == "REEF_CONTROL_PATH="@ + control_path
            &&& third + 1 == text.len()
        }),
{
    reveal_strlit("REEF_HOST=");
    reveal_strlit("\nREEF_WORKDIR=");
    reveal_strlit("REEF_WORKDIR=");
    reveal_strlit("\nREEF_CONTROL_PATH=");
    reveal_strlit("REEF_CONTROL_PATH=");
    reveal_strlit("\n");
    let text = info_text(host, workdir, control_path);
    let one = "REEF_HOST="@ + host;
    let two = "REEF_WORKDIR="@ + workdir;
    let three = "REEF_CONTROL_PATH="@ + control_path;
    let nl = seq!['\n'];
    assert("\nREEF_WORKDIR="@ =~= nl + "REEF_WORKDIR="@);
    assert("\nREEF_CONTROL_PATH="@ =~= nl + "REEF_CONTROL_PATH="@);
    assert("\n"@ =~= nl);
    let none = Seq::<char>::empty();
    lemma_no_newline("REEF_HOST="@, host);
    lemma_no_newline("REEF_WORKDIR="@, workdir);
    lemma_no_newline("REEF_CONTROL_PATH="@, control_path);
    let rest = two + nl + three + nl;
    assert(text =~= none + one + nl + rest);
    lemma_line_end(none, one, rest);
    assert(text =~= (one + nl) + two + nl + (three + nl));
    lemma_line_end(one + nl, two, three + nl);
    assert(text =~= (one + nl + two + nl) + three + nl + none);
    lemma_line_end(one + nl + two + nl, three, none);
    let first = one.len() as int;
    let second = first + 1 + two.len();
    assert(text.subrange(0, first) =~= one);
    assert(text.subrange(first + 1, second) =~= two);
    assert(text.subrange(second + 1, second + 1 + three.len()) =~= three);
}

proof fn lemma_no_newline(name: Seq<char>, value: Seq<char>)
    requires
        forall|i: int| 0 <= i < name.len() ==> name[i] != '\n',
        !value.contains('\n'),
    ensures
        !(name + value).contains('\n'),
{
    let both = name + value;
    assert forall|i: int| 0 <= i < both.len() implies both[i] != '\n' by {
        if i >= name.len() {
            assert(both[i] == value[i - name.len()]);
            assert(value.contains(value[i - name.len()]));
        }
    }
}

/// Whether a character may stand in an encoded path.
pub open spec fn is_url_char(c: char) -> bool {
    c == '%' || (c as u32 <= 0x7f && is_plain_byte(c as u8))
}

/// An encoded path holds nothing but plain characters and percent signs: no byte of it
/// can end the sequence that it stands in.
pub proof fn encoded_paths_are_plain(bytes: Seq<u8>)
    ensures
        forall|i: int|
            0 <= i < url_encoded(bytes).len() ==> is_url_char(#[trigger] url_encoded(bytes)[i]),
    decreases bytes.len(),
{
    if bytes.len() > 0 {
        encoded_paths_are_plain(bytes.drop_last());
        let front = url_encoded(bytes.drop_last());
        let b = bytes.last();
        assert forall|i: int| 0 <= i < url_encoded(bytes).len() implies is_url_char(
            #[trigger] url_encoded(bytes)[i],
        ) by {
            if i < front.len() {
                assert(url_encoded(bytes)[i] == front[i]);
            } else {
                assert(url_encoded(bytes)[i] == encoded_byte(b)[i - front.len()]);
            }
        }
    }
}

proof fn lemma_encoded_from_front(bytes: Seq<u8>)
    requires
        bytes.len() > 0,
    ensures
        url_encoded(bytes) == encoded_byte(bytes[0]) + url_encoded(bytes.drop_first()),
    decreases bytes.len(),
{
    if bytes.len() == 1 {
        assert(bytes.drop_last() =~= Seq::<u8>::empty());
        assert(bytes.drop_first() =~= Seq::<u8>::empty());
        assert(url_encoded(bytes.drop_last()) =~= Seq::<char>::empty());
        assert(url_encoded(bytes) =~= encoded_byte(bytes[0]));
        assert(encoded_byte(bytes[0]) + Seq::<char>::empty() =~= encoded_byte(bytes[0]));
    } else {
        let front = bytes.drop_last();
        lemma_encoded_from_front(front);
        assert(front.drop_first() =~= bytes.drop_first().drop_last());
        assert(bytes.drop_first().last() == bytes.last());
        assert(front[0] == bytes[0]);
        assert(encoded_byte(bytes[0]) + url_encoded(front.drop_first()) + encoded_byte(bytes.last())
            =~= encoded_byte(bytes[0]) + (url_encoded(front.drop_first()) + encoded_byte(
            bytes.last(),
        )));
    }
}

/// The bytes of a text of ASCII characters.
spec fn ascii_bytes(text: Seq<char>) -> Seq<u8> {
    Seq::new(text.len(), |i: int| text[i] as u8)
}

proof fn lemma_hex_letter(n: int)
    requires
        0 <= n < 16,
    ensures
        hex_value(hex_letter(n) as u8) == Some(n),
        hex_letter(n) as u32 <= 0x7f,
{
}

proof fn lemma_decoding_undoes(bytes: Seq<u8>)
    ensures
        unescaped(ascii_bytes(url_encoded(bytes))) == bytes,
    decreases bytes.len(),
{
    let text = url_encoded(bytes);
    let coded = ascii_bytes(text);
    if bytes.len() == 0 {
        assert(unescaped(coded) =~= bytes);
    } else {
        let rest = bytes.drop_first();
        let b = bytes[0];
        lemma_encoded_from_front(bytes);
        lemma_decoding_undoes(rest);
        let tail = ascii_bytes(url_encoded(rest));
        if is_plain_byte(b) {
            assert(coded[0] == text[0] as u8);
            assert(text[0] == b as char);
            assert(coded[0] == b);
            assert(coded.skip(1) =~= tail);
            assert(escape_value(coded) is None);
        } else {
            lemma_hex_letter(b as int / 16);
            lemma_hex_letter(b as int % 16);
            assert(text[0] == '%' && text[1] == hex_letter(b as int / 16) && text[2] == hex_letter(
                b as int % 16,
            ));
            assert(coded[0] == 0x25);
            assert(coded.skip(3) =~= tail);
            assert(escape_value(coded) == Some(b as int));
        }
        assert(unescaped(coded) =~= seq![b] + unescaped(tail));
        assert(bytes =~= seq![b] + rest);
    }
}

proof fn lemma_url_char_is_ascii(c: char)
    requires
        is_url_char(c),
    ensures
        '\0' <= c <= '\u{7f}',
{
}

proof fn lemma_unescaping_undoes_encoding(bytes: Seq<u8>)
    ensures
        unescaped(encode_utf8(url_encoded(bytes))) == bytes,
{
    let text = url_encoded(bytes);
    encoded_paths_are_plain(bytes);
    assert forall|i: int| 0 <= i < text.len() implies '\0' <= #[trigger] text[i] <= '\u{7f}' by {
        lemma_url_char_is_ascii(text[i]);
    }
    vstd::utf8::is_ascii_chars_encode_utf8(text);
    assert(encode_utf8(text) =~= ascii_bytes(text));
    lemma_decoding_undoes(bytes);
}

/// Decoding an encoded path gives the path back, whatever characters are in it.
pub proof fn decoding_undoes_encoding(path: Seq<char>)
    ensures
        url_decoded(encode_utf8(url_encoded(encode_utf8(path)))) == path,
{
    lemma_unescaping_undoes_encoding(encode_utf8(path));
    vstd::utf8::encode_utf8_valid_utf8(path);
    vstd::utf8::encode_utf8_decode_utf8(path);
}

/// A file that is dropped as the address of an announced path is that path.
pub proof fn announced_addresses_lead_back(path: Seq<char>)
    requires
        path.len() > 0,
    ensures
        path_of("file://localhost"@ + url_encoded(encode_utf8(path))) == Some(path),
{
    let coded = url_encoded(encode_utf8(path));
    let word = "file://localhost"@ + coded;
    reveal_strlit("file://localhost");
    reveal_strlit("file://");
    reveal_strlit("localhost");
    assert(word.take(7) =~= "file://"@);
    assert(word.skip(7) =~= "localhost"@ + coded);
    assert(word.skip(7).take(9) =~= "localhost"@);
    assert(word.skip(7).skip(9) =~= coded);
    decoding_undoes_encoding(path);
}

/// The path of something in a directory is the directory, one slash, and the name.
pub proof fn paths_have_one_slash_between(base: Seq<char>, name: Seq<char>)
    ensures
        joined(Seq::empty(), name) == name,
        joined(seq!['/'], name) == seq!['/'] + name,
        base.len() > 0 && base.last() != '/' ==> joined(base, name) == base + seq!['/'] + name,
        joined(base.push('/'), name) == base + seq!['/'] + name,
{
    assert(Seq::<char>::empty() + name =~= name);
    assert(base.push('/') =~= base + seq!['/']);
}

/// Everything is kept in `.reef` below the home directory, and nowhere without one.
pub proof fn everything_is_kept_below_home(home: Seq<char>)
    ensures
        home_of(None) is None,
        home_of(Some(Seq::empty())) is None,
        home.len() > 0 && home.last() != '/' ==> home_of(Some(home)) == Some(
            home + seq!['/'] + ".reef"@,
        ),
        home.len() > 0 && home.last() == '/' ==> home_of(Some(home)) == Some(home + ".reef"@),
{
    assert(home.push('/') =~= home + seq!['/']);
}

/// The control path is what the first argument that names one says.
pub proof fn first_control_path_counts(args: Seq<Seq<char>>, path: Seq<char>, more: Seq<Seq<char>>)
    requires
        forall|i: int| 0 <= i < args.len() ==> !begins_with(#[trigger] args[i], "ControlPath="@),
    ensures
        control_path_in(args) is None,
        control_path_in(args + seq!["ControlPath="@ + path] + more) == Some(path),
    decreases args.len(),
{
    let all = args + seq!["ControlPath="@ + path] + more;
    let width = "ControlPath="@.len() as int;
    if args.len() == 0 {
        assert(all[0] == "ControlPath="@ + path);
        assert(all[0].take(width) =~= "ControlPath="@);
        assert(all[0].skip(width) =~= path);
    } else {
        let rest = args.drop_first();
        assert forall|i: int| 0 <= i < rest.len() implies !begins_with(
            #[trigger] rest[i],
            "ControlPath="@,
        ) by {
            assert(rest[i] == args[i + 1]);
        }
        first_control_path_counts(rest, path, more);
        assert(all.drop_first() =~= rest + seq!["ControlPath="@ + path] + more);
        assert(all[0] == args[0]);
    }
}

/// Letters, digits, dashes, dots, underscores, tildes and slashes stand for themselves in an
/// address. Every other byte is a percent sign and two digits, in capitals.
pub proof fn plain_bytes_stand_for_themselves(b: u8)
    ensures
        'a' as u8 <= b <= 'z' as u8 || 'A' as u8 <= b <= 'Z' as u8 || '0' as u8 <= b <= '9' as u8
            || b == '-' as u8 || b == '.' as u8 || b == '_' as u8 || b == '~' as u8 || b
            == '/' as u8 ==> encoded_byte(b) == seq![b as char],
        encoded_byte(b).len() == 1 || (encoded_byte(b).len() == 3 && encoded_byte(b)[0] == '%'),
        encoded_byte(b).len() == 1 ==> encoded_byte(b)[0] == b as char && b < 0x80 && b != '%' as u8
            && b > ' ' as u8,
        encoded_byte(b).len() == 3 ==> forall|i: int|
            1 <= i < 3 ==> '0' <= #[trigger] encoded_byte(b)[i] <= '9' || 'A' <= encoded_byte(b)[i]
                <= 'F',
{
}

/// What tells the terminal where this process works begins with the escape of its kind, ends
/// with a bell, and holds in between an address that leads to the path.
pub proof fn announcements_lead_back(path: Seq<char>)
    requires
        path.len() > 0,
    ensures
        ({
            let text = osc7_text(path);
            &&& text.len() > 5
            &&& text.take(4) == seq!['\x1b', ']', '7', ';']
            &&& text.last() == '\x07'
            &&& path_of(text.subrange(4, text.len() - 1)) == Some(path)
        }),
{
    announced_addresses_lead_back(path);
    reveal_strlit("\x1b]7;file://localhost");
    reveal_strlit("file://localhost");
    reveal_strlit("\x07");
    let text = osc7_text(path);
    let coded = url_encoded(encode_utf8(path));
    assert(text.take(4) =~= seq!['\x1b', ']', '7', ';']);
    assert(text.subrange(4, text.len() - 1) =~= "file://localhost"@ + coded);
}

/// The first value that holds a newline or a NUL is the one that is complained of: the host,
/// then the directory, then the control path.
pub proof fn the_first_misfit_is_named(
    host: Seq<char>,
    workdir: Seq<char>,
    control_path: Seq<char>,
)
    ensures
        ({
            let bad = |value: Seq<char>| value.contains('\n') || value.contains('\0');
            let told = misfit(host, workdir, control_path);
            &&& bad(host) <==> told == Some(InfoField::Host)
            &&& !bad(host) && bad(workdir) <==> told == Some(InfoField::Workdir)
            &&& !bad(host) && !bad(workdir) && bad(control_path) <==> told == Some(
                InfoField::ControlPath,
            )
        }),
        InfoField::Host.label_text() == "REEF_HOST"@,
        InfoField::Workdir.label_text() == "REEF_WORKDIR"@,
        InfoField::ControlPath.label_text() == "REEF_CONTROL_PATH"@,
{
}

/// A session's file lies in its directory, and is there to be printed about only where its
/// values fit.
pub proof fn sessions_are_installed_in_their_directory(
    plan: InstallPlan,
    dir: Seq<char>,
    info: SshInfo<'_>,
)
    requires
        plan.installs(dir, info),
    ensures
        plan.dir@ == dir,
        dir.len() > 0 && dir.last() != '/' ==> plan.info_path@ == dir + seq!['/'] + "ssh-info"@,
        plan.file is Ok <==> misfit(info.host@, info.workdir@, info.control_path@) is None,
        plan.file matches Ok(file) ==> file.text@ == "REEF_HOST="@ + info.host@
            + "\nREEF_WORKDIR="@ + info.workdir@ + "\nREEF_CONTROL_PATH="@ + info.control_path@
            + "\n"@,
{
    assert(dir.push('/') =~= dir + seq!['/']);
}

} // verus!
