//! Configuration: the theme names of the configuration file and the command
//! line, the configuration record, and the rule by which command-line
//! arguments override it.
use vstd::prelude::*;
use crate::text::str_equal;

verus! {

/// The theme named in the configuration file or on the command line.
#[derive(Debug, Clone, Copy, PartialEq, Eq, Structural)]
pub enum Theme {
    Dark,
    Light,
    Custom,
}

impl Default for Theme {
    fn default() -> (t: Theme)
        ensures
            t == Theme::Dark,
    {
        Theme::Dark
    }
}

/// What `str::to_lowercase` returns for a string: the Unicode lowercase
/// mapping of every character.
pub uninterp spec fn lowercase(s: Seq<char>) -> Seq<char>;

/// Every character is a lowercase ASCII letter.
pub open spec fn lower_ascii_letters(s: Seq<char>) -> bool {
    forall|i: int| 0 <= i < s.len() ==> 'a' <= #[trigger] s[i] && s[i] <= 'z'
}

/// Every character is ASCII.
pub open spec fn all_ascii(s: Seq<char>) -> bool {
    forall|i: int| 0 <= i < s.len() ==> (#[trigger] s[i] as u32) < 128
}

/// The lowercase of an ASCII character: `A` to `Z` become `a` to `z`, the
/// others stay.
pub open spec fn ascii_lower(c: char) -> char {
    if 'A' <= c && c <= 'Z' {
        ((c as u32) + 32) as char
    } else {
        c
    }
}

/// A text with each character put in ASCII lowercase.
pub open spec fn ascii_lowercase(s: Seq<char>) -> Seq<char> {
    s.map_values(|c: char| ascii_lower(c))
}

/// Calls `str::to_lowercase`. Its result depends on the characters of `s`
/// alone and is given the name `lowercase`; of a text of ASCII characters
/// it is stated that each upper-case letter becomes its lower-case letter
/// and every other character stays, as the Unicode lowercase mapping has it.
#[verifier::external_body]
fn to_lowercase(s: &str) -> (r: String)
    ensures
        r@ == lowercase(s@),
        lower_ascii_letters(s@) ==> r@ == s@,
        all_ascii(s@) ==> r@ == ascii_lowercase(s@),
{
    s.to_lowercase()
}

/// The command-line theme that a lowercase name stands for.
pub open spec fn spec_cli_theme(lower: Seq<char>) -> Option<Theme> {
    if lower == "dark"@ {
        Some(Theme::Dark)
    } else if lower == "light"@ {
        Some(Theme::Light)
    } else {
        None
    }
}

/// The configuration-file theme that a lowercase name stands for.
pub open spec fn spec_config_theme(lower: Seq<char>) -> Option<Theme> {
    if lower == "dark"@ {
        Some(Theme::Dark)
    } else if lower == "light"@ {
        Some(Theme::Light)
    } else if lower == "custom"@ {
        Some(Theme::Custom)
    } else {
        None
    }
}

/// The message given for a theme name that the command line refuses.
pub open spec fn cli_theme_error(s: Seq<char>) -> Seq<char> {
    "invalid theme: "@ + s + ", expected 'dark' or 'light'. Use config file for custom theme."@
}

/// The message given for a theme name that the configuration file refuses.
pub open spec fn config_theme_error(s: Seq<char>) -> Seq<char> {
    "invalid theme: "@ + s + ", expected 'dark', 'light', or 'custom'"@
}

impl Theme {
    /// The command-line theme for an already lowercased name (`dark` or
    /// `light`; `custom` is only accepted from the configuration file).
    pub fn from_lowercase_cli_name(lower: &str) -> (r: Option<Theme>)
        ensures
            r == spec_cli_theme(lower@),
    {
        if str_equal(lower, "dark") {
            Some(Theme::Dark)
        } else if str_equal(lower, "light") {
            Some(Theme::Light)
        } else {
            None
        }
    }

    /// The configuration-file theme for an already lowercased name
    /// (`dark`, `light` or `custom`).
    pub fn from_lowercase_config_name(lower: &str) -> (r: Option<Theme>)
        ensures
            r == spec_config_theme(lower@),
    {
        if str_equal(lower, "dark") {
            Some(Theme::Dark)
        } else if str_equal(lower, "light") {
            Some(Theme::Light)
        } else if str_equal(lower, "custom") {
            Some(Theme::Custom)
        } else {
            None
        }
    }

    /// Parses a command-line theme name, ignoring case: an ASCII name is
    /// read by its ASCII lowercase.
    pub fn from_str(s: &str) -> (r: Result<Theme, String>)
        ensures
            match spec_cli_theme(lowercase(s@)) {
                Some(t) => r == Ok::<Theme, String>(t),
                None => r is Err && r->Err_0@ == cli_theme_error(s@),
            },
            lower_ascii_letters(s@) ==> match spec_cli_theme(s@) {
                Some(t) => r == Ok::<Theme, String>(t),
                None => r is Err,
            },
            all_ascii(s@) ==> match spec_cli_theme(ascii_lowercase(s@)) {
                Some(t) => r == Ok::<Theme, String>(t),
                None => r is Err,
            },
    {
        let lower = to_lowercase(s);
        match Theme::from_lowercase_cli_name(lower.as_str()) {
            Some(t) => Ok(t),
            None => {
                let mut msg = String::from_str("invalid theme: ");
                msg.append(s);
                msg.append(", expected 'dark' or 'light'. Use config file for custom theme.");
                Err(msg)
            },
        }
    }

    /// Parses a configuration-file theme name, ignoring case: an ASCII name
    /// is read by its ASCII lowercase.
    pub fn from_config_str(s: &str) -> (r: Result<Theme, String>)
        ensures
            match spec_config_theme(lowercase(s@)) {
                Some(t) => r == Ok::<Theme, String>(t),
                None => r is Err && r->Err_0@ == config_theme_error(s@),
            },
            lower_ascii_letters(s@) ==> match spec_config_theme(s@) {
                Some(t) => r == Ok::<Theme, String>(t),
                None => r is Err,
            },
            all_ascii(s@) ==> match spec_config_theme(ascii_lowercase(s@)) {
                Some(t) => r == Ok::<Theme, String>(t),
                None => r is Err,
            },
    {
        let lower = to_lowercase(s);
        match Theme::from_lowercase_config_name(lower.as_str()) {
            Some(t) => Ok(t),
            None => {
                let mut msg = String::from_str("invalid theme: ");
                msg.append(s);
                msg.append(", expected 'dark', 'light', or 'custom'");
                Err(msg)
            },
        }
    }

    /// The name under which the theme is written out.
    pub open spec fn spec_name(self) -> Seq<char> {
        match self {
            Theme::Dark => "dark"@,
            Theme::Light => "light"@,
            Theme::Custom => "custom"@,
        }
    }

    /// The name under which the theme is written out.
    pub fn to_string(&self) -> (r: String)
        ensures
            r@ == self.spec_name(),
    {
        match self {
            Theme::Dark => String::from_str("dark"),
            Theme::Light => String::from_str("light"),
            Theme::Custom => String::from_str("custom"),
        }
    }
}

fn copy_opt_string(o: &Option<String>) -> (r: Option<String>)
    ensures
        r == *o,
{
    match o {
        Some(s) => Some(s.clone()),
        None => None,
    }
}

/// Colours of a custom theme, each an optional hex string.
#[derive(Debug, Clone)]
pub struct CustomTheme {
    pub background: Option<String>,
    pub foreground: Option<String>,
    pub primary: Option<String>,
    pub secondary: Option<String>,
    pub error: Option<String>,
    pub highlight: Option<String>,
    pub border: Option<String>,
    pub directory: Option<String>,
    pub added: Option<String>,
    pub removed: Option<String>,
    pub unchanged: Option<String>,
}

impl CustomTheme {
    /// A custom theme with no colour set.
    pub fn new() -> (c: CustomTheme)
        ensures
            c.background is None && c.foreground is None && c.primary is None
                && c.secondary is None && c.error is None && c.highlight is None
                && c.border is None && c.directory is None && c.added is None
                && c.removed is None && c.unchanged is None,
    {
        CustomTheme {
            background: None,
            foreground: None,
            primary: None,
            secondary: None,
            error: None,
            highlight: None,
            border: None,
            directory: None,
            added: None,
            removed: None,
            unchanged: None,
        }
    }

    /// A field-by-field copy.
    pub fn duplicate(&self) -> (c: CustomTheme)
        ensures
            c == *self,
    {
        CustomTheme {
            background: copy_opt_string(&self.background),
            foreground: copy_opt_string(&self.foreground),
            primary: copy_opt_string(&self.primary),
            secondary: copy_opt_string(&self.secondary),
            error: copy_opt_string(&self.error),
            highlight: copy_opt_string(&self.highlight),
            border: copy_opt_string(&self.border),
            directory: copy_opt_string(&self.directory),
            added: copy_opt_string(&self.added),
            removed: copy_opt_string(&self.removed),
            unchanged: copy_opt_string(&self.unchanged),
        }
    }
}

impl Default for CustomTheme {
    fn default() -> (c: CustomTheme)
        ensures
            c == CustomTheme::spec_empty(),
    {
        CustomTheme::new()
    }
}

impl CustomTheme {
    /// A custom theme with no colour set.
    pub open spec fn spec_empty() -> CustomTheme {
        CustomTheme {
            background: None,
            foreground: None,
            primary: None,
            secondary: None,
            error: None,
            highlight: None,
            border: None,
            directory: None,
            added: None,
            removed: None,
            unchanged: None,
        }
    }
}

/// The number of commits loaded into the commit picker when nothing else is
/// configured.
pub const DEFAULT_COMMIT_HISTORY_LIMIT: usize = 100;

/// The settings read from the configuration file; every setting is optional.
#[derive(Debug, Clone)]
pub struct Config {
    pub debug: Option<bool>,
    pub no_diff: Option<bool>,
    pub hide_changed_files_pane: Option<bool>,
    pub monitor_command: Option<String>,
    pub monitor_interval: Option<u64>,
    pub theme: Option<Theme>,
    pub custom_theme: Option<CustomTheme>,
    pub commit_history_limit: Option<usize>,
}

/// The command-line arguments.
#[derive(Debug, Clone)]
pub struct Args {
    pub version: bool,
    pub debug: bool,
    pub no_diff: bool,
    pub hide_changed_files_pane: bool,
    pub monitor_command: Option<String>,
    pub monitor_interval: Option<u64>,
    pub theme: Option<Theme>,
    pub commit_history_limit: Option<usize>,
}

impl Args {
    /// The arguments of a command line that names no option.
    pub open spec fn spec_empty() -> Args {
        Args {
            version: false,
            debug: false,
            no_diff: false,
            hide_changed_files_pane: false,
            monitor_command: None,
            monitor_interval: None,
            theme: None,
            commit_history_limit: None,
        }
    }

    /// The arguments of a command line that names no option.
    pub fn empty() -> (a: Args)
        ensures
            a == Args::spec_empty(),
    {
        Args {
            version: false,
            debug: false,
            no_diff: false,
            hide_changed_files_pane: false,
            monitor_command: None,
            monitor_interval: None,
            theme: None,
            commit_history_limit: None,
        }
    }
}

/// A flag set on the command line wins; otherwise the configured value stays.
pub open spec fn merge_flag(arg: bool, configured: Option<bool>) -> Option<bool> {
    if arg {
        Some(true)
    } else {
        configured
    }
}

/// A value given on the command line wins; otherwise the configured one stays.
pub open spec fn merge_opt<T>(arg: Option<T>, configured: Option<T>) -> Option<T> {
    match arg {
        Some(v) => Some(v),
        None => configured,
    }
}

impl Config {
    /// The configuration with nothing set.
    pub open spec fn spec_empty() -> Config {
        Config {
            debug: None,
            no_diff: None,
            hide_changed_files_pane: None,
            monitor_command: None,
            monitor_interval: None,
            theme: None,
            custom_theme: None,
            commit_history_limit: None,
        }
    }

    /// The effective configuration: every setting given on the command line
    /// replaces the configured one; the custom theme comes from the file.
    pub open spec fn spec_merged(self, args: Args) -> Config {
        Config {
            debug: merge_flag(args.debug, self.debug),
            no_diff: merge_flag(args.no_diff, self.no_diff),
            hide_changed_files_pane: merge_flag(args.hide_changed_files_pane, self.hide_changed_files_pane),
            monitor_command: merge_opt(args.monitor_command, self.monitor_command),
            monitor_interval: merge_opt(args.monitor_interval, self.monitor_interval),
            theme: merge_opt(args.theme, self.theme),
            custom_theme: self.custom_theme,
            commit_history_limit: merge_opt(args.commit_history_limit, self.commit_history_limit),
        }
    }

    /// The number of commits to load into the commit picker.
    pub fn get_commit_history_limit(&self) -> (n: usize)
        ensures
            n == match self.commit_history_limit {
                Some(l) => l,
                None => DEFAULT_COMMIT_HISTORY_LIMIT,
            },
    {
        match self.commit_history_limit {
            Some(l) => l,
            None => DEFAULT_COMMIT_HISTORY_LIMIT,
        }
    }

    /// The effective configuration: command-line arguments take precedence
    /// over the configuration file; the custom theme comes from the file.
    pub fn merge_with_args(&self, args: &Args) -> (r: Config)
        ensures
            r == self.spec_merged(*args),
    {
        let monitor_command = match &args.monitor_command {
            Some(c) => Some(c.clone()),
            None => copy_opt_string(&self.monitor_command),
        };
        let custom_theme = match &self.custom_theme {
            Some(c) => Some(c.duplicate()),
            None => None,
        };
        Config {
            debug: if args.debug { Some(true) } else { self.debug },
            no_diff: if args.no_diff { Some(true) } else { self.no_diff },
            hide_changed_files_pane: if args.hide_changed_files_pane {
                Some(true)
            } else {
                self.hide_changed_files_pane
            },
            monitor_command,
            monitor_interval: match args.monitor_interval {
                Some(v) => Some(v),
                None => self.monitor_interval,
            },
            theme: match args.theme {
                Some(t) => Some(t),
                None => self.theme,
            },
            custom_theme,
            commit_history_limit: match args.commit_history_limit {
                Some(v) => Some(v),
                None => self.commit_history_limit,
            },
        }
    }
}

impl Default for Config {
    fn default() -> (c: Config)
        ensures
            c == Config::spec_empty(),
    {
        Config {
            debug: None,
            no_diff: None,
            hide_changed_files_pane: None,
            monitor_command: None,
            monitor_interval: None,
            theme: None,
            custom_theme: None,
            commit_history_limit: None,
        }
    }
}

/// Two ASCII theme names that differ only in the case of their letters name
/// the same theme, on the command line and in the configuration file.
pub proof fn law_theme_names_ignore_case(a: Seq<char>, b: Seq<char>)
    requires
        all_ascii(a),
        all_ascii(b),
        ascii_lowercase(a) == ascii_lowercase(b),
    ensures
        spec_cli_theme(ascii_lowercase(a)) == spec_cli_theme(ascii_lowercase(b)),
        spec_config_theme(ascii_lowercase(a)) == spec_config_theme(ascii_lowercase(b)),
{
}

/// The name a theme is written under reads back as that theme: from the
/// configuration file for every theme, and from the command line for the
/// dark and light themes (`from_str` and `from_config_str` state what they
/// give for such names).
pub proof fn law_theme_names_read_back(t: Theme)
    ensures
        lower_ascii_letters(t.spec_name()),
        spec_config_theme(t.spec_name()) == Some(t),
        t != Theme::Custom ==> spec_cli_theme(t.spec_name()) == Some(t),
        t == Theme::Custom ==> spec_cli_theme(t.spec_name()) is None,
{
    reveal_strlit("dark");
    reveal_strlit("light");
    reveal_strlit("custom");
    assert("dark"@.len() == 4 && "light"@.len() == 5 && "custom"@.len() == 6);
    assert("dark"@ != "light"@ && "dark"@ != "custom"@ && "light"@ != "custom"@);
    match t {
        Theme::Dark => {
            assert(lower_ascii_letters("dark"@));
        },
        Theme::Light => {
            assert(lower_ascii_letters("light"@));
        },
        Theme::Custom => {
            assert(lower_ascii_letters("custom"@));
        },
    }
}

/// A command line that names no option leaves the configuration as it is.
pub proof fn law_merge_without_args(c: Config)
    ensures
        c.spec_merged(Args::spec_empty()) == c,
{
}

/// Applying the same command line twice gives what applying it once gives.
pub proof fn law_merge_idempotent(c: Config, a: Args)
    ensures
        c.spec_merged(a).spec_merged(a) == c.spec_merged(a),
{
}

/// Every option given on the command line wins over the configuration file.
pub proof fn law_command_line_wins(c: Config, a: Args)
    ensures
        a.debug ==> c.spec_merged(a).debug == Some(true),
        a.no_diff ==> c.spec_merged(a).no_diff == Some(true),
        a.hide_changed_files_pane ==> c.spec_merged(a).hide_changed_files_pane == Some(true),
        a.monitor_command is Some ==> c.spec_merged(a).monitor_command == a.monitor_command,
        a.monitor_interval is Some ==> c.spec_merged(a).monitor_interval == a.monitor_interval,
        a.theme is Some ==> c.spec_merged(a).theme == a.theme,
        a.commit_history_limit is Some ==> c.spec_merged(a).commit_history_limit == a.commit_history_limit,
{
}

} // verus!
