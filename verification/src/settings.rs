use vstd::prelude::*;

verus! {

use crate::paths::{same_path, same_path_spec};
use crate::text::{ascii_lower, eq_ignore_ascii_case, eq_ignore_ascii_case_spec, str_eq};
use crate::toml::{TomlDoc, TomlEdit, TomlEntry, TomlValue, toml_lookup, toml_parse_error, toml_render};

/// How FrontISTR is started.
#[derive(Clone, Copy, Debug, PartialEq, Eq, Structural)]
pub enum SolverLaunchMode {
    Direct,
    Mpi,
}

/// Execution preferences of the user (not project data). Paths are kept as
/// text.
#[derive(Clone, Debug)]
pub struct SolverPreferences {
    pub executable: String,
    pub partitioner: Option<String>,
    pub mpi_launcher: Option<String>,
    pub launch_mode: SolverLaunchMode,
    pub mpi_ranks: u16,
    pub openmp_threads: u16,
    pub last_output_directory: Option<String>,
}

/// The value of [`SolverPreferences`].
pub struct PreferencesView {
    pub executable: Seq<char>,
    pub partitioner: Option<Seq<char>>,
    pub mpi_launcher: Option<Seq<char>>,
    pub launch_mode: SolverLaunchMode,
    pub mpi_ranks: u16,
    pub openmp_threads: u16,
    pub last_output_directory: Option<Seq<char>>,
}

pub open spec fn opt_view(s: Option<String>) -> Option<Seq<char>> {
    match s {
        Some(t) => Some(t@),
        None => None,
    }
}

impl View for SolverPreferences {
    type V = PreferencesView;

    open spec fn view(&self) -> PreferencesView {
        PreferencesView {
            executable: self.executable@,
            partitioner: opt_view(self.partitioner),
            mpi_launcher: opt_view(self.mpi_launcher),
            launch_mode: self.launch_mode,
            mpi_ranks: self.mpi_ranks,
            openmp_threads: self.openmp_threads,
            last_output_directory: opt_view(self.last_output_directory),
        }
    }
}

/// The preferences used when nothing is configured.
pub open spec fn default_preferences() -> PreferencesView {
    PreferencesView {
        executable: "fistr1"@,
        partitioner: None,
        mpi_launcher: None,
        launch_mode: SolverLaunchMode::Direct,
        mpi_ranks: 4,
        openmp_threads: 1,
        last_output_directory: None,
    }
}

impl SolverPreferences {
    pub fn default_preferences() -> (prefs: SolverPreferences)
        ensures
            prefs@ == default_preferences(),
    {
        SolverPreferences {
            executable: String::from_str("fistr1"),
            partitioner: None,
            mpi_launcher: None,
            launch_mode: SolverLaunchMode::Direct,
            mpi_ranks: 4,
            openmp_threads: 1,
            last_output_directory: None,
        }
    }
}

/// Unicode `White_Space`, as `char::is_whitespace` and `str::trim` use it.
pub open spec fn is_white_space(c: char) -> bool {
    ('\u{9}' <= c && c <= '\u{d}') || c == ' ' || c == '\u{85}' || c == '\u{a0}' || c == '\u{1680}'
        || ('\u{2000}' <= c && c <= '\u{200a}') || c == '\u{2028}' || c == '\u{2029}' || c == '\u{202f}'
        || c == '\u{205f}' || c == '\u{3000}'
}

/// Whether `s.trim()` is empty.
pub open spec fn is_blank(s: Seq<char>) -> bool {
    forall|i: int| 0 <= i < s.len() ==> is_white_space(#[trigger] s[i])
}

fn white_space(c: char) -> (ws: bool)
    ensures
        ws == is_white_space(c),
{
    ('\u{9}' <= c && c <= '\u{d}') || c == ' ' || c == '\u{85}' || c == '\u{a0}' || c == '\u{1680}'
        || ('\u{2000}' <= c && c <= '\u{200a}') || c == '\u{2028}' || c == '\u{2029}' || c == '\u{202f}'
        || c == '\u{205f}' || c == '\u{3000}'
}

pub fn blank(s: &str) -> (b: bool)
    ensures
        b == is_blank(s@),
{
    let n = s.unicode_len();
    let mut i: usize = 0;
    while i < n
        invariant
            n == s@.len(),
            i <= n,
            forall|j: int| 0 <= j < i ==> is_white_space(#[trigger] s@[j]),
        decreases n - i,
    {
        if !white_space(s.get_char(i)) {
            return false;
        }
        i += 1;
    }
    true
}

/// A string setting of `[frontistr]`: absent, its text, or the type error.
pub open spec fn string_setting(doc: Seq<TomlEdit>, key: Seq<char>) -> Result<Option<Seq<char>>, Seq<char>> {
    match toml_lookup(doc, Some("frontistr"@), key) {
        TomlValue::Absent => Ok(None),
        TomlValue::Text(s) => Ok(Some(s)),
        _ => Err("frontistr."@ + key + " must be a string"@),
    }
}

/// A path setting: a string setting, where blank text counts as unset.
pub open spec fn path_setting(doc: Seq<TomlEdit>, key: Seq<char>) -> Result<Option<Seq<char>>, Seq<char>> {
    match string_setting(doc, key) {
        Ok(Some(s)) => if is_blank(s) { Ok(None) } else { Ok(Some(s)) },
        other => other,
    }
}

/// A count setting: an integer from 1 to 4096 when present.
pub open spec fn count_setting(doc: Seq<TomlEdit>, key: Seq<char>) -> Result<Option<u16>, Seq<char>> {
    match toml_lookup(doc, Some("frontistr"@), key) {
        TomlValue::Absent => Ok(None),
        TomlValue::Integer(n) => if 1 <= n <= 4096 {
            Ok(Some(n as u16))
        } else {
            Err("frontistr."@ + key + " must be an integer from 1 to 4096"@)
        },
        _ => Err("frontistr."@ + key + " must be an integer from 1 to 4096"@),
    }
}

/// The preferences that a settings document describes, or the first problem
/// found (checked in the order executable, partitioner, mpi_launcher,
/// last_output_directory, launch_mode, mpi_ranks, openmp_threads).
pub open spec fn read_preferences(doc: Seq<TomlEdit>) -> Result<PreferencesView, Seq<char>> {
    match toml_lookup(doc, None, "frontistr"@) {
        TomlValue::Absent => Ok(default_preferences()),
        TomlValue::Table => {
            match (
                path_setting(doc, "executable"@),
                path_setting(doc, "partitioner"@),
                path_setting(doc, "mpi_launcher"@),
                path_setting(doc, "last_output_directory"@),
                string_setting(doc, "launch_mode"@),
                count_setting(doc, "mpi_ranks"@),
                count_setting(doc, "openmp_threads"@),
            ) {
                (Err(e), _, _, _, _, _, _) => Err(e),
                (Ok(_), Err(e), _, _, _, _, _) => Err(e),
                (Ok(_), Ok(_), Err(e), _, _, _, _) => Err(e),
                (Ok(_), Ok(_), Ok(_), Err(e), _, _, _) => Err(e),
                (Ok(_), Ok(_), Ok(_), Ok(_), Err(e), _, _) => Err(e),
                (Ok(exe), Ok(part), Ok(mpi), Ok(out), Ok(mode), ranks, threads) => {
                    if mode is Some && mode->0 != "direct"@ && mode->0 != "mpi"@ {
                        Err("frontistr.launch_mode must be 'direct' or 'mpi'"@)
                    } else {
                        match (ranks, threads) {
                            (Err(e), _) => Err(e),
                            (Ok(_), Err(e)) => Err(e),
                            (Ok(r), Ok(t)) => Ok(PreferencesView {
                                executable: match exe { Some(e) => e, None => "fistr1"@ },
                                partitioner: part,
                                mpi_launcher: mpi,
                                launch_mode: if mode == Some("mpi"@) {
                                    SolverLaunchMode::Mpi
                                } else {
                                    SolverLaunchMode::Direct
                                },
                                mpi_ranks: match r { Some(n) => n, None => 4 },
                                openmp_threads: match t { Some(n) => n, None => 1 },
                                last_output_directory: out,
                            }),
                        }
                    }
                },
            }
        },
        _ => Err("[frontistr] must be a TOML table"@),
    }
}

fn string_setting_exec(doc: &TomlDoc, key: &str) -> (r: Result<Option<String>, String>)
    ensures
        match r {
            Ok(v) => string_setting(doc@, key@) == Ok::<Option<Seq<char>>, Seq<char>>(opt_view(v)),
            Err(e) => string_setting(doc@, key@) == Err::<Option<Seq<char>>, Seq<char>>(e@),
        },
{
    match doc.lookup(Some("frontistr"), key) {
        TomlEntry::Absent => Ok(None),
        TomlEntry::Text(s) => Ok(Some(s)),
        _ => {
            let mut e = String::from_str("frontistr.");
            e.append(key);
            e.append(" must be a string");
            Err(e)
        },
    }
}

fn path_setting_exec(doc: &TomlDoc, key: &str) -> (r: Result<Option<String>, String>)
    ensures
        match r {
            Ok(v) => path_setting(doc@, key@) == Ok::<Option<Seq<char>>, Seq<char>>(opt_view(v)),
            Err(e) => path_setting(doc@, key@) == Err::<Option<Seq<char>>, Seq<char>>(e@),
        },
{
    match string_setting_exec(doc, key) {
        Ok(Some(s)) => if blank(s.as_str()) {
            Ok(None)
        } else {
            Ok(Some(s))
        },
        other => other,
    }
}

fn count_setting_exec(doc: &TomlDoc, key: &str) -> (r: Result<Option<u16>, String>)
    ensures
        match r {
            Ok(v) => count_setting(doc@, key@) == Ok::<Option<u16>, Seq<char>>(v),
            Err(e) => count_setting(doc@, key@) == Err::<Option<u16>, Seq<char>>(e@),
        },
{
    let entry = doc.lookup(Some("frontistr"), key);
    match entry {
        TomlEntry::Absent => Ok(None),
        TomlEntry::Integer(n) => {
            if 1 <= n && n <= 4096 {
                return Ok(Some(n as u16));
            }
            let mut e = String::from_str("frontistr.");
            e.append(key);
            e.append(" must be an integer from 1 to 4096");
            Err(e)
        },
        _ => {
            let mut e = String::from_str("frontistr.");
            e.append(key);
            e.append(" must be an integer from 1 to 4096");
            Err(e)
        },
    }
}

/// Reads the execution preferences of a settings document.
pub(crate) fn read_document_preferences(doc: &TomlDoc) -> (r: Result<SolverPreferences, String>)
    ensures
        match r {
            Ok(p) => read_preferences(doc@) == Ok::<PreferencesView, Seq<char>>(p@),
            Err(e) => read_preferences(doc@) == Err::<PreferencesView, Seq<char>>(e@),
        },
{
    match doc.lookup(None, "frontistr") {
        TomlEntry::Absent => {
            return Ok(SolverPreferences::default_preferences());
        },
        TomlEntry::Table => {},
        _ => {
            return Err(String::from_str("[frontistr] must be a TOML table"));
        },
    }
    let executable = path_setting_exec(doc, "executable")?;
    let partitioner = path_setting_exec(doc, "partitioner")?;
    let mpi_launcher = path_setting_exec(doc, "mpi_launcher")?;
    let last_output_directory = path_setting_exec(doc, "last_output_directory")?;
    let mode = string_setting_exec(doc, "launch_mode")?;
    let ghost mode_view = opt_view(mode);
    proof {
        reveal_strlit("direct");
        reveal_strlit("mpi");
        assert("direct"@ != "mpi"@) by {
            assert("direct"@.len() != "mpi"@.len());
        }
    }
    let launch_mode = match mode {
        None => SolverLaunchMode::Direct,
        Some(m) => if str_eq(m.as_str(), "direct") {
            SolverLaunchMode::Direct
        } else if str_eq(m.as_str(), "mpi") {
            SolverLaunchMode::Mpi
        } else {
            return Err(String::from_str("frontistr.launch_mode must be 'direct' or 'mpi'"));
        },
    };
    let mpi_ranks = match count_setting_exec(doc, "mpi_ranks")? {
        Some(n) => n,
        None => 4,
    };
    let openmp_threads = match count_setting_exec(doc, "openmp_threads")? {
        Some(n) => n,
        None => 1,
    };
    let executable = match executable {
        Some(e) => e,
        None => String::from_str("fistr1"),
    };
    let prefs = SolverPreferences {
        executable,
        partitioner,
        mpi_launcher,
        launch_mode,
        mpi_ranks,
        openmp_threads,
        last_output_directory,
    };
    proof {
        reveal_strlit("direct");
        reveal_strlit("mpi");
        assert(path_setting(doc@, "executable"@) is Ok);
        assert(string_setting(doc@, "launch_mode"@) is Ok);
        assert(count_setting(doc@, "mpi_ranks"@) is Ok);
        assert(count_setting(doc@, "openmp_threads"@) is Ok);
        assert(read_preferences(doc@) is Ok);
        let v = read_preferences(doc@)->Ok_0;
        assert(string_setting(doc@, "launch_mode"@) == Ok::<Option<Seq<char>>, Seq<char>>(mode_view));
        assert(launch_mode == (if mode_view == Some("mpi"@) { SolverLaunchMode::Mpi } else { SolverLaunchMode::Direct }));
        assert(v.executable == prefs@.executable);
        assert(v.partitioner == prefs@.partitioner);
        assert(v.mpi_launcher == prefs@.mpi_launcher);
        assert(v.last_output_directory == prefs@.last_output_directory);
        assert(v.launch_mode == prefs@.launch_mode);
        assert(v.mpi_ranks == prefs@.mpi_ranks);
        assert(v.openmp_threads == prefs@.openmp_threads);
        assert(read_preferences(doc@)->Ok_0 == prefs@);
    }
    Ok(prefs)
}

/// Error text for a settings file that is not valid TOML.
pub open spec fn invalid_settings_message(parser_error: Seq<char>) -> Seq<char> {
    "Invalid bevyistr.toml: "@ + parser_error
}

/// The preferences stored in a settings file's text.
pub open spec fn preferences_of_text(text: Seq<char>) -> Result<PreferencesView, Seq<char>> {
    match toml_parse_error(text) {
        Some(e) => Err(invalid_settings_message(e)),
        None => read_preferences(seq![TomlEdit::Parsed(text)]),
    }
}

fn parse_settings(text: &str) -> (r: Result<TomlDoc, String>)
    ensures
        match r {
            Ok(doc) => toml_parse_error(text@) is None && doc@ == seq![TomlEdit::Parsed(text@)],
            Err(e) => toml_parse_error(text@) is Some && e@ == invalid_settings_message(
                toml_parse_error(text@)->0,
            ),
        },
{
    match TomlDoc::parse(text) {
        Ok(doc) => Ok(doc),
        Err(error) => {
            let mut message = String::from_str("Invalid bevyistr.toml: ");
            message.append(error.as_str());
            Err(message)
        },
    }
}

/// Reads the execution preferences from the text of `bevyistr.toml`.
pub fn preferences_from_text(text: &str) -> (r: Result<SolverPreferences, String>)
    ensures
        match r {
            Ok(p) => preferences_of_text(text@) == Ok::<PreferencesView, Seq<char>>(p@),
            Err(e) => preferences_of_text(text@) == Err::<PreferencesView, Seq<char>>(e@),
        },
{
    let doc = parse_settings(text)?;
    read_document_preferences(&doc)
}

pub open spec fn path_text(p: Option<Seq<char>>) -> Seq<char> {
    match p {
        Some(s) => s,
        None => Seq::empty(),
    }
}

pub open spec fn launch_mode_text(mode: SolverLaunchMode) -> Seq<char> {
    match mode {
        SolverLaunchMode::Direct => "direct"@,
        SolverLaunchMode::Mpi => "mpi"@,
    }
}

/// The document after writing the preferences into `[frontistr]` (created
/// when missing); other tables and keys are left as they are.
pub open spec fn saved_document(doc: Seq<TomlEdit>, p: PreferencesView) -> Seq<TomlEdit> {
    let table = "frontistr"@;
    let base = if toml_lookup(doc, None, table) is Absent {
        doc.push(TomlEdit::NewTable(table))
    } else {
        doc
    };
    base.push(TomlEdit::SetText(table, "executable"@, p.executable)).push(
        TomlEdit::SetText(table, "partitioner"@, path_text(p.partitioner)),
    ).push(TomlEdit::SetText(table, "mpi_launcher"@, path_text(p.mpi_launcher))).push(
        TomlEdit::SetText(table, "last_output_directory"@, path_text(p.last_output_directory)),
    ).push(TomlEdit::SetText(table, "launch_mode"@, launch_mode_text(p.launch_mode))).push(
        TomlEdit::SetInteger(table, "mpi_ranks"@, p.mpi_ranks as i64),
    ).push(TomlEdit::SetInteger(table, "openmp_threads"@, p.openmp_threads as i64))
}

/// The new text of the settings file: the existing text is re-read first, so
/// unrelated tables and keys are preserved and a malformed or invalid file is
/// never replaced (its problem is reported instead).
pub open spec fn saved_settings_text(existing: Seq<char>, p: PreferencesView) -> Result<Seq<char>, Seq<char>> {
    match toml_parse_error(existing) {
        Some(e) => Err(invalid_settings_message(e)),
        None => match read_preferences(seq![TomlEdit::Parsed(existing)]) {
            Err(e) => Err(e),
            Ok(_) => Ok(toml_render(saved_document(seq![TomlEdit::Parsed(existing)], p))),
        },
    }
}

/// The keys that saving preferences writes: the `[frontistr]` table and its
/// seven execution settings.
pub open spec fn written_key(t: Option<Seq<char>>, k: Seq<char>) -> bool {
    ||| t is None && k == "frontistr"@
    ||| t == Some("frontistr"@) && (k == "executable"@ || k == "partitioner"@ || k == "mpi_launcher"@ || k
        == "last_output_directory"@ || k == "launch_mode"@ || k == "mpi_ranks"@ || k == "openmp_threads"@)
}

/// Preferences that a settings file can hold exactly: a non-blank executable,
/// optional paths that are not blank, and counts from 1 to 4096. (A blank
/// path is read back as unset, and a blank executable as `fistr1`.)
pub open spec fn storable(p: PreferencesView) -> bool {
    &&& !is_blank(p.executable)
    &&& (p.partitioner matches Some(s) ==> !is_blank(s))
    &&& (p.mpi_launcher matches Some(s) ==> !is_blank(s))
    &&& (p.last_output_directory matches Some(s) ==> !is_blank(s))
    &&& 1 <= p.mpi_ranks <= 4096
    &&& 1 <= p.openmp_threads <= 4096
}

fn opt_str(p: &Option<String>) -> (s: &str)
    ensures
        s@ == path_text(opt_view(*p)),
{
    proof {
        reveal_strlit("");
    }
    match p {
        Some(s) => s.as_str(),
        None => {
            assert(""@ =~= Seq::<char>::empty());
            ""
        },
    }
}

/// Computes the text to write for `prefs`, given the current file text
/// (empty when the file does not exist yet).
pub fn settings_text_for_save(existing: &str, prefs: &SolverPreferences) -> (r: Result<String, String>)
    ensures
        match r {
            Ok(text) => saved_settings_text(existing@, prefs@) == Ok::<Seq<char>, Seq<char>>(text@),
            Err(e) => saved_settings_text(existing@, prefs@) == Err::<Seq<char>, Seq<char>>(e@),
        },
        storable(prefs@) ==> (r matches Ok(text) ==> preferences_of_text(text@) == Ok::<
            PreferencesView,
            Seq<char>,
        >(prefs@)),
        r matches Ok(text) ==> forall|t: Option<Seq<char>>, k: Seq<char>|
            !written_key(t, k) ==> #[trigger] toml_lookup(
                seq![TomlEdit::Parsed(text@)],
                t,
                k,
            ) == toml_lookup(seq![TomlEdit::Parsed(existing@)], t, k),
{
    let mut doc = parse_settings(existing)?;
    read_document_preferences(&doc)?;
    let ghost parsed = doc@;
    match doc.lookup(None, "frontistr") {
        TomlEntry::Absent => doc.insert_table("frontistr"),
        _ => {},
    }
    let ghost d1 = doc@;
    doc.set_text("frontistr", "executable", prefs.executable.as_str());
    let ghost d2 = doc@;
    doc.set_text("frontistr", "partitioner", opt_str(&prefs.partitioner));
    let ghost d3 = doc@;
    doc.set_text("frontistr", "mpi_launcher", opt_str(&prefs.mpi_launcher));
    let ghost d4 = doc@;
    doc.set_text("frontistr", "last_output_directory", opt_str(&prefs.last_output_directory));
    let ghost d5 = doc@;
    let mode = match prefs.launch_mode {
        SolverLaunchMode::Direct => "direct",
        SolverLaunchMode::Mpi => "mpi",
    };
    doc.set_text("frontistr", "launch_mode", mode);
    let ghost d6 = doc@;
    doc.set_integer("frontistr", "mpi_ranks", prefs.mpi_ranks as i64);
    let ghost d7 = doc@;
    doc.set_integer("frontistr", "openmp_threads", prefs.openmp_threads as i64);
    proof {
        assert(doc@ =~= saved_document(parsed, prefs@));
    }
    let text = doc.render();
    proof {
        assert forall|t: Option<Seq<char>>, k: Seq<char>|
            !written_key(t, k) implies #[trigger] toml_lookup(
                seq![TomlEdit::Parsed(text@)],
                t,
                k,
            ) == toml_lookup(parsed, t, k) by {
            assert(toml_lookup(d1, t, k) == toml_lookup(parsed, t, k));
            assert(toml_lookup(d2, t, k) == toml_lookup(d1, t, k));
            assert(toml_lookup(d3, t, k) == toml_lookup(d2, t, k));
            assert(toml_lookup(d4, t, k) == toml_lookup(d3, t, k));
            assert(toml_lookup(d5, t, k) == toml_lookup(d4, t, k));
            assert(toml_lookup(d6, t, k) == toml_lookup(d5, t, k));
            assert(toml_lookup(d7, t, k) == toml_lookup(d6, t, k));
            assert(toml_lookup(doc@, t, k) == toml_lookup(d7, t, k));
        }
    }
    proof {
        reveal_strlit("executable");
        reveal_strlit("partitioner");
        reveal_strlit("mpi_launcher");
        reveal_strlit("last_output_directory");
        reveal_strlit("launch_mode");
        reveal_strlit("mpi_ranks");
        reveal_strlit("openmp_threads");
        assert("partitioner"@[0] != "launch_mode"@[0]);
        if storable(prefs@) {
            lemma_saved_keys_read_back(doc@, text@, prefs@);
        }
    }
    Ok(text)
}

/// The settings that were just written are what a reader of the written text
/// finds, key by key.
proof fn lemma_saved_keys_read_back(doc: Seq<TomlEdit>, text: Seq<char>, p: PreferencesView)
    requires
        storable(p),
        toml_parse_error(text) is None,
        forall|table: Option<Seq<char>>, key: Seq<char>|
            #[trigger] toml_lookup(
                seq![TomlEdit::Parsed(text)],
                table,
                key,
            ) == toml_lookup(doc, table, key),
        toml_lookup(doc, None, "frontistr"@) is Table,
        toml_lookup(doc, Some("frontistr"@), "executable"@) == TomlValue::Text(p.executable),
        toml_lookup(doc, Some("frontistr"@), "partitioner"@) == TomlValue::Text(path_text(p.partitioner)),
        toml_lookup(doc, Some("frontistr"@), "mpi_launcher"@) == TomlValue::Text(path_text(p.mpi_launcher)),
        toml_lookup(doc, Some("frontistr"@), "last_output_directory"@) == TomlValue::Text(
            path_text(p.last_output_directory),
        ),
        toml_lookup(doc, Some("frontistr"@), "launch_mode"@) == TomlValue::Text(launch_mode_text(p.launch_mode)),
        toml_lookup(doc, Some("frontistr"@), "mpi_ranks"@) == TomlValue::Integer(p.mpi_ranks as i64),
        toml_lookup(doc, Some("frontistr"@), "openmp_threads"@) == TomlValue::Integer(p.openmp_threads as i64),
    ensures
        preferences_of_text(text) == Ok::<PreferencesView, Seq<char>>(p),
{
    reveal_strlit("direct");
    reveal_strlit("mpi");
    let d = seq![TomlEdit::Parsed(text)];
    assert(toml_lookup(d, None, "frontistr"@) == toml_lookup(doc, None, "frontistr"@));
    assert(toml_lookup(d, Some("frontistr"@), "executable"@) == toml_lookup(doc, Some("frontistr"@), "executable"@));
    assert(toml_lookup(d, Some("frontistr"@), "partitioner"@) == toml_lookup(doc, Some("frontistr"@), "partitioner"@));
    assert(toml_lookup(d, Some("frontistr"@), "mpi_launcher"@) == toml_lookup(doc, Some("frontistr"@), "mpi_launcher"@));
    assert(toml_lookup(d, Some("frontistr"@), "last_output_directory"@) == toml_lookup(
        doc,
        Some("frontistr"@),
        "last_output_directory"@,
    ));
    assert(toml_lookup(d, Some("frontistr"@), "launch_mode"@) == toml_lookup(doc, Some("frontistr"@), "launch_mode"@));
    assert(toml_lookup(d, Some("frontistr"@), "mpi_ranks"@) == toml_lookup(doc, Some("frontistr"@), "mpi_ranks"@));
    assert(toml_lookup(d, Some("frontistr"@), "openmp_threads"@) == toml_lookup(
        doc,
        Some("frontistr"@),
        "openmp_threads"@,
    ));
    assert(is_blank(path_text(None)));
    let v = read_preferences(d)->Ok_0;
    assert(read_preferences(d) is Ok);
    assert(v.executable == p.executable);
    assert(v.partitioner == p.partitioner);
    assert(v.mpi_launcher == p.mpi_launcher);
    assert(v.last_output_directory == p.last_output_directory);
    assert(string_setting(d, "launch_mode"@) == Ok::<Option<Seq<char>>, Seq<char>>(
        Some(launch_mode_text(p.launch_mode)),
    ));
    assert("direct"@.len() == 6);
    assert("mpi"@.len() == 3);
    assert("direct"@ != "mpi"@);
    assert(v.launch_mode == p.launch_mode);
    assert(v.mpi_ranks == p.mpi_ranks);
    assert(v.openmp_threads == p.openmp_threads);
    assert(v == p);
}

/// Whether two optional paths are equal as `Option<PathBuf>`s.
pub open spec fn same_opt_path(a: Option<Seq<char>>, b: Option<Seq<char>>) -> bool {
    match (a, b) {
        (Some(x), Some(y)) => same_path_spec(x, y),
        (None, None) => true,
        _ => false,
    }
}

/// Whether two sets of preferences are equal: paths are compared component
/// by component, the other settings exactly.
pub open spec fn equivalent_preferences(a: PreferencesView, b: PreferencesView) -> bool {
    &&& same_path_spec(a.executable, b.executable)
    &&& same_opt_path(a.partitioner, b.partitioner)
    &&& same_opt_path(a.mpi_launcher, b.mpi_launcher)
    &&& a.launch_mode == b.launch_mode
    &&& a.mpi_ranks == b.mpi_ranks
    &&& a.openmp_threads == b.openmp_threads
    &&& same_opt_path(a.last_output_directory, b.last_output_directory)
}

fn same_opt(a: &Option<String>, b: &Option<String>) -> (same: bool)
    ensures
        same == same_opt_path(opt_view(*a), opt_view(*b)),
{
    match (a, b) {
        (Some(x), Some(y)) => same_path(x.as_str(), y.as_str()),
        (None, None) => true,
        _ => false,
    }
}

/// Whether two sets of preferences are equal.
pub fn same_preferences(a: &SolverPreferences, b: &SolverPreferences) -> (same: bool)
    ensures
        same == equivalent_preferences(a@, b@),
{
    same_path(a.executable.as_str(), b.executable.as_str()) && same_opt(&a.partitioner, &b.partitioner)
        && same_opt(&a.mpi_launcher, &b.mpi_launcher) && a.launch_mode == b.launch_mode && a.mpi_ranks
        == b.mpi_ranks && a.openmp_threads == b.openmp_threads && same_opt(
        &a.last_output_directory,
        &b.last_output_directory,
    )
}

/// The numeric value of a sequence of decimal digits.
pub open spec fn digits_value(s: Seq<char>) -> int
    decreases s.len(),
{
    if s.len() == 0 {
        0
    } else {
        digits_value(s.drop_last()) * 10 + (s.last() as int - '0' as int)
    }
}

pub open spec fn all_digits(s: Seq<char>) -> bool {
    forall|i: int| 0 <= i < s.len() ==> '0' <= #[trigger] s[i] && s[i] <= '9'
}

/// `str::parse::<u16>`: an optional `+`, then one or more ASCII digits whose
/// value fits in 16 bits.
pub open spec fn unsigned_digits(s: Seq<char>) -> Seq<char> {
    if s.len() > 0 && s[0] == '+' { s.drop_first() } else { s }
}

pub open spec fn parsed_u16(s: Seq<char>) -> Option<u16> {
    let body = unsigned_digits(s);
    if body.len() > 0 && all_digits(body) && digits_value(body) <= 65535 {
        Some(digits_value(body) as u16)
    } else {
        None
    }
}

proof fn lemma_digits_value_grows(s: Seq<char>, k: int)
    requires
        all_digits(s),
        0 <= k <= s.len(),
    ensures
        digits_value(s) >= digits_value(s.take(k)),
        digits_value(s.take(k)) >= 0,
    decreases s.len() - k,
{
    if k < s.len() {
        lemma_digits_value_grows(s, k + 1);
        assert(s.take(k + 1).drop_last() =~= s.take(k));
        assert(s.take(k + 1).last() == s[k]);
        assert('0' <= s[k] <= '9');
        lemma_digits_value_nonneg(s.take(k));
    } else {
        assert(s.take(k) =~= s);
        lemma_digits_value_nonneg(s);
    }
}

proof fn lemma_digits_value_nonneg(s: Seq<char>)
    requires
        all_digits(s),
    ensures
        digits_value(s) >= 0,
    decreases s.len(),
{
    if s.len() > 0 {
        assert(all_digits(s.drop_last())) by {
            assert forall|i: int| 0 <= i < s.drop_last().len() implies '0' <= #[trigger] s.drop_last()[i]
                && s.drop_last()[i] <= '9' by {
                assert(s.drop_last()[i] == s[i]);
            }
        }
        lemma_digits_value_nonneg(s.drop_last());
        assert('0' <= s.last() <= '9');
    }
}

/// Parses an unsigned 16-bit decimal number like `str::parse::<u16>`.
pub fn parse_u16(s: &str) -> (n: Option<u16>)
    ensures
        n == parsed_u16(s@),
{
    let chars = crate::text::chars_of(s);
    let len = chars.len();
    let start: usize = if len > 0 && chars[0] == '+' { 1 } else { 0 };
    let ghost body = unsigned_digits(s@);
    proof {
        assert(body =~= s@.skip(start as int));
    }
    if start >= len {
        return None;
    }
    let mut value: u32 = 0;
    let mut i: usize = start;
    while i < len
        invariant
            chars@ == s@,
            len == chars.len(),
            start <= i <= len,
            body =~= s@.skip(start as int),
            body == unsigned_digits(s@),
            all_digits(body.take(i - start)),
            value == digits_value(body.take(i - start)),
            value <= 65535,
        decreases len - i,
    {
        let c = chars[i];
        if !('0' <= c && c <= '9') {
            proof {
                assert(body[i - start] == c);
                assert(!all_digits(body));
                assert(parsed_u16(s@) is None);
            }
            return None;
        }
        let digit = (c as u32) - ('0' as u32);
        proof {
            assert(body.take(i - start + 1).drop_last() =~= body.take(i - start));
            assert(body.take(i - start + 1).last() == c);
            assert(all_digits(body.take(i - start + 1))) by {
                assert forall|j: int| 0 <= j < body.take(i - start + 1).len() implies '0' <= #[trigger] body.take(
                    i - start + 1,
                )[j] && body.take(i - start + 1)[j] <= '9' by {
                    if j < i - start {
                        assert(body.take(i - start + 1)[j] == body.take(i - start)[j]);
                    }
                }
            }
        }
        value = value * 10 + digit;
        if value > 65535 {
            proof {
                assert(value == digits_value(body.take(i - start + 1)));
                if all_digits(body) {
                    lemma_digits_value_grows(body, i - start + 1);
                }
                assert(parsed_u16(s@) is None);
            }
            return None;
        }
        i += 1;
    }
    proof {
        assert(body.take(len - start) =~= body);
    }
    Some(value as u16)
}

/// Environment variables that override the saved preferences, as read by
/// the application (`None` when a variable is unset or unreadable).
#[derive(Clone, Debug)]
pub struct EnvironmentOverrides {
    pub partitioner: Option<String>,
    pub mpi_launcher: Option<String>,
    pub executable: Option<String>,
    pub launch_mode: Option<String>,
    pub mpi_ranks: Option<String>,
    pub openmp_threads: Option<String>,
}

/// A non-empty path override.
pub open spec fn path_override(current: Option<Seq<char>>, var: Option<String>) -> Option<Seq<char>> {
    match var {
        Some(v) => if v@.len() > 0 { Some(v@) } else { current },
        None => current,
    }
}

/// A count override: a `u16` from 1 to 4096.
pub open spec fn count_override(current: u16, var: Option<String>) -> u16 {
    match var {
        Some(v) => match parsed_u16(v@) {
            Some(n) => if 1 <= n <= 4096 { n } else { current },
            None => current,
        },
        None => current,
    }
}

/// The preferences after the `FRONTISTR_*` environment overrides.
pub open spec fn overridden(p: PreferencesView, env: EnvironmentOverrides) -> PreferencesView {
    PreferencesView {
        executable: match path_override(Some(p.executable), env.executable) {
            Some(e) => e,
            None => p.executable,
        },
        partitioner: path_override(p.partitioner, env.partitioner),
        mpi_launcher: path_override(p.mpi_launcher, env.mpi_launcher),
        launch_mode: match env.launch_mode {
            Some(m) => if crate::text::eq_ignore_ascii_case_spec(m@, "mpi"@) {
                SolverLaunchMode::Mpi
            } else if crate::text::eq_ignore_ascii_case_spec(m@, "direct"@) {
                SolverLaunchMode::Direct
            } else {
                p.launch_mode
            },
            None => p.launch_mode,
        },
        mpi_ranks: count_override(p.mpi_ranks, env.mpi_ranks),
        openmp_threads: count_override(p.openmp_threads, env.openmp_threads),
        last_output_directory: p.last_output_directory,
    }
}

fn apply_path(target: &mut Option<String>, var: &Option<String>)
    ensures
        opt_view(*final(target)) == path_override(opt_view(*old(target)), *var),
{
    match var {
        Some(v) => if v.unicode_len() > 0 {
            *target = Some(v.clone());
        },
        None => {},
    }
}

fn apply_count(target: &mut u16, var: &Option<String>)
    ensures
        *final(target) == count_override(*old(target), *var),
{
    match var {
        Some(v) => match parse_u16(v.as_str()) {
            Some(n) => if 1 <= n && n <= 4096 {
                *target = n;
            },
            None => {},
        },
        None => {},
    }
}

impl SolverPreferences {
    /// Applies the `FRONTISTR_*` environment overrides: non-empty paths,
    /// `mpi`/`direct` in any ASCII case, and counts from 1 to 4096.
    pub fn apply_environment(&mut self, env: &EnvironmentOverrides)
        ensures
            final(self)@ == overridden(old(self)@, *env),
            env.launch_mode matches Some(m) && eq_ignore_ascii_case_spec(m@, "direct"@) ==> final(self).launch_mode
                == SolverLaunchMode::Direct,
            env.launch_mode matches Some(m) && eq_ignore_ascii_case_spec(m@, "mpi"@) ==> final(self).launch_mode
                == SolverLaunchMode::Mpi,
            env.launch_mode is None ==> final(self).launch_mode == old(self).launch_mode,
            env.executable is Some && env.executable->0@.len() > 0 ==> final(self).executable@ == env.executable->0@,
            !(env.executable is Some && env.executable->0@.len() > 0) ==> final(self).executable@ == old(self).executable@,
            final(self).last_output_directory == old(self).last_output_directory,
    {
        apply_path(&mut self.partitioner, &env.partitioner);
        apply_path(&mut self.mpi_launcher, &env.mpi_launcher);
        match &env.executable {
            Some(v) => if v.unicode_len() > 0 {
                self.executable = v.clone();
            },
            None => {},
        }
        match &env.launch_mode {
            Some(m) => if eq_ignore_ascii_case(m.as_str(), "mpi") {
                self.launch_mode = SolverLaunchMode::Mpi;
            } else if eq_ignore_ascii_case(m.as_str(), "direct") {
                self.launch_mode = SolverLaunchMode::Direct;
            },
            None => {},
        }
        apply_count(&mut self.mpi_ranks, &env.mpi_ranks);
        apply_count(&mut self.openmp_threads, &env.openmp_threads);
        proof {
            lemma_launch_mode_override(old(self)@, *env);
        }
    }
}

/// The user's settings file, the preferences read from it, and the last
/// problem met while loading or saving it.
pub struct AppSettings {
    path: Option<String>,
    solver: SolverPreferences,
    warning: Option<String>,
}

impl AppSettings {
    pub closed spec fn spec_path(&self) -> Option<Seq<char>> {
        opt_view(self.path)
    }

    pub closed spec fn spec_warning(&self) -> Option<Seq<char>> {
        opt_view(self.warning)
    }

    pub closed spec fn spec_solver(&self) -> SolverPreferences {
        self.solver
    }

    /// The current execution preferences.
    pub fn solver(&self) -> (solver: &SolverPreferences)
        ensures
            *solver == self.spec_solver(),
    {
        &self.solver
    }

    /// Settings after loading the file at `path` (`None`: no configuration
    /// location): the preferences read, or the defaults and the problem.
    pub fn from_loaded(path: Option<String>, loaded: Result<SolverPreferences, String>) -> (settings: AppSettings)
        ensures
            settings.spec_path() == opt_view(path),
            match loaded {
                Ok(p) => settings.spec_solver()@ == p@ && settings.spec_warning() is None,
                Err(e) => settings.spec_solver()@ == default_preferences() && settings.spec_warning() == Some(e@),
            },
    {
        match loaded {
            Ok(solver) => AppSettings { path, solver, warning: None },
            Err(error) => AppSettings {
                path,
                solver: SolverPreferences::default_preferences(),
                warning: Some(error),
            },
        }
    }

    pub fn path(&self) -> (path: Option<&str>)
        ensures
            match path {
                Some(p) => self.spec_path() == Some(p@),
                None => self.spec_path() is None,
            },
    {
        match &self.path {
            Some(p) => Some(p.as_str()),
            None => None,
        }
    }

    pub fn warning(&self) -> (warning: Option<&str>)
        ensures
            match warning {
                Some(w) => self.spec_warning() == Some(w@),
                None => self.spec_warning() is None,
            },
    {
        match &self.warning {
            Some(w) => Some(w.as_str()),
            None => None,
        }
    }

    /// Adopts changed preferences. Returns whether they must now be written
    /// to the settings file; without a configuration location the warning
    /// says so instead. Unchanged preferences change nothing.
    pub fn save_changed(&mut self, solver: SolverPreferences) -> (write: bool)
        ensures
            equivalent_preferences(solver@, old(self).spec_solver()@) ==> !write && final(self).spec_solver()@
                == old(self).spec_solver()@ && final(self).spec_warning() == old(self).spec_warning(),
            !equivalent_preferences(solver@, old(self).spec_solver()@) ==> {
                &&& final(self).spec_solver()@ == solver@
                &&& write == (old(self).spec_path() is Some)
                &&& old(self).spec_path() is None ==> final(self).spec_warning() == Some(
                    "No user configuration directory available"@,
                )
                &&& old(self).spec_path() is Some ==> final(self).spec_warning() == old(self).spec_warning()
            },
            final(self).spec_path() == old(self).spec_path(),
    {
        if same_preferences(&solver, &self.solver) {
            return false;
        }
        self.solver = solver;
        match &self.path {
            Some(_) => true,
            None => {
                self.warning = Some(String::from_str("No user configuration directory available"));
                false
            },
        }
    }

    /// Applies the `FRONTISTR_*` environment overrides to the loaded
    /// preferences (they are not written back to the file).
    pub fn apply_environment(&mut self, env: &EnvironmentOverrides)
        ensures
            final(self).spec_solver()@ == overridden(old(self).spec_solver()@, *env),
            final(self).spec_path() == old(self).spec_path(),
            final(self).spec_warning() == old(self).spec_warning(),
    {
        self.solver.apply_environment(env);
    }

    /// Records how writing the settings file went.
    pub fn record_save(&mut self, result: Result<(), String>)
        ensures
            final(self).spec_warning() == (match result {
                Ok(_) => None,
                Err(e) => Some(e@),
            }),
            final(self).spec_solver()@ == old(self).spec_solver()@,
            final(self).spec_path() == old(self).spec_path(),
    {
        self.warning = match result {
            Ok(_) => None,
            Err(e) => Some(e),
        };
    }

    /// The settings line: the file location and whether preferences are saved.
    pub fn label(&self) -> (label: String)
        ensures
            label@ == "Settings: "@ + (match self.spec_path() {
                Some(p) => p,
                None => "unavailable"@,
            }) + (match self.spec_warning() {
                Some(w) => "\nNot saved/loaded: "@ + w,
                None => "\nExecution preferences are saved automatically."@,
            }),
    {
        let mut label = String::from_str("Settings: ");
        match &self.path {
            Some(p) => label.append(p.as_str()),
            None => label.append("unavailable"),
        }
        match &self.warning {
            Some(w) => {
                label.append("\nNot saved/loaded: ");
                label.append(w.as_str());
            },
            None => label.append("\nExecution preferences are saved automatically."),
        }
        label
    }
}

/// Where the configuration directory comes from: `APPDATA`,
/// `USERPROFILE/AppData/Roaming`, `XDG_CONFIG_HOME` or `HOME/.config`.
#[derive(Clone, Copy, Debug, PartialEq, Eq, Structural)]
pub enum ConfigBase {
    AppData,
    UserProfileRoaming,
    XdgConfigHome,
    HomeConfig,
}

/// The configuration directory to use, given which of the variables hold an
/// absolute path: on Windows `APPDATA`, else `USERPROFILE`; elsewhere
/// `XDG_CONFIG_HOME`, else `HOME`. `None` when neither is usable.
pub fn config_base(
    windows: bool,
    appdata_absolute: bool,
    userprofile_absolute: bool,
    xdg_absolute: bool,
    home_absolute: bool,
) -> (base: Option<ConfigBase>)
    ensures
        windows ==> base == (if appdata_absolute {
            Some(ConfigBase::AppData)
        } else if userprofile_absolute {
            Some(ConfigBase::UserProfileRoaming)
        } else {
            None
        }),
        !windows ==> base == (if xdg_absolute {
            Some(ConfigBase::XdgConfigHome)
        } else if home_absolute {
            Some(ConfigBase::HomeConfig)
        } else {
            None
        }),
{
    if windows {
        if appdata_absolute {
            Some(ConfigBase::AppData)
        } else if userprofile_absolute {
            Some(ConfigBase::UserProfileRoaming)
        } else {
            None
        }
    } else if xdg_absolute {
        Some(ConfigBase::XdgConfigHome)
    } else if home_absolute {
        Some(ConfigBase::HomeConfig)
    } else {
        None
    }
}

/// `FRONTISTR_LAUNCH_MODE` decides the launch mode whatever the settings
/// file said: `direct` (in any ASCII case) gives direct launching and `mpi`
/// gives MPI; any other value, or none, keeps the mode from the file.
pub proof fn lemma_launch_mode_override(p: PreferencesView, env: EnvironmentOverrides)
    ensures
        env.launch_mode matches Some(m) && eq_ignore_ascii_case_spec(m@, "direct"@) ==> overridden(p, env).launch_mode
            == SolverLaunchMode::Direct,
        env.launch_mode matches Some(m) && eq_ignore_ascii_case_spec(m@, "mpi"@) ==> overridden(p, env).launch_mode
            == SolverLaunchMode::Mpi,
        env.launch_mode is None ==> overridden(p, env).launch_mode == p.launch_mode,
        env.launch_mode matches Some(m) && !eq_ignore_ascii_case_spec(m@, "direct"@) && !eq_ignore_ascii_case_spec(
            m@,
            "mpi"@,
        ) ==> overridden(p, env).launch_mode == p.launch_mode,
{
    reveal_strlit("direct");
    reveal_strlit("mpi");
    assert("direct"@.len() == 6);
    assert("mpi"@.len() == 3);
}

/// A path override replaces the configured path only when it is not empty;
/// a count override only when it reads as a number from 1 to 4096.
pub proof fn lemma_path_and_count_overrides(p: PreferencesView, env: EnvironmentOverrides)
    ensures
        env.partitioner is Some && env.partitioner->0@.len() > 0 ==> overridden(p, env).partitioner == Some(env.partitioner->0@),
        !(env.partitioner is Some && env.partitioner->0@.len() > 0) ==> overridden(p, env).partitioner == p.partitioner,
        env.mpi_launcher is Some && env.mpi_launcher->0@.len() > 0 ==> overridden(p, env).mpi_launcher == Some(env.mpi_launcher->0@),
        !(env.mpi_launcher is Some && env.mpi_launcher->0@.len() > 0) ==> overridden(p, env).mpi_launcher == p.mpi_launcher,
        env.executable is Some && env.executable->0@.len() > 0 ==> overridden(p, env).executable == env.executable->0@,
        !(env.executable is Some && env.executable->0@.len() > 0) ==> overridden(p, env).executable == p.executable,
        env.mpi_ranks is Some && parsed_u16(env.mpi_ranks->0@) is Some && 1 <= parsed_u16(env.mpi_ranks->0@)->0 <= 4096 ==> overridden(
            p,
            env,
        ).mpi_ranks == parsed_u16(env.mpi_ranks->0@)->0,
        !(env.mpi_ranks is Some && parsed_u16(env.mpi_ranks->0@) is Some && 1 <= parsed_u16(env.mpi_ranks->0@)->0 <= 4096) ==> overridden(
            p,
            env,
        ).mpi_ranks == p.mpi_ranks,
        env.openmp_threads is Some && parsed_u16(env.openmp_threads->0@) is Some && 1 <= parsed_u16(env.openmp_threads->0@)->0 <= 4096 ==> overridden(
            p,
            env,
        ).openmp_threads == parsed_u16(env.openmp_threads->0@)->0,
        !(env.openmp_threads is Some && parsed_u16(env.openmp_threads->0@) is Some && 1 <= parsed_u16(env.openmp_threads->0@)->0 <= 4096) ==> overridden(
            p,
            env,
        ).openmp_threads == p.openmp_threads,
        overridden(p, env).last_output_directory == p.last_output_directory,
{
}

} // verus!
