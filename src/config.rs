use vstd::prelude::*;

verus! {

/// A line of the configuration file: a key and a value, neither holding a
/// space or `=`, joined by `=`, with white space around either allowed.
pub const CONFIG_LINE_PATTERN: &'static str = "^\\s*([^ =]+)\\s*=\\s*([^ =]+)\\s*$";

/// The redirect URI used unless the configuration file names another.
pub const DEFAULT_REDIRECT_URI: &'static str = "http://localhost:8888/callback";

/// The texts of the first and second groups of the regular expression
/// `pattern` where it matches `line`; `None` where it does not match, does
/// not compile, or leaves either group out.
pub uninterp spec fn two_groups(pattern: Seq<char>, line: Seq<char>) -> Option<(Seq<char>, Seq<char>)>;

/// Relies on regex::Regex::new, which compiles `pattern`, and on
/// Regex::captures with Captures::get, which give the text of groups one
/// and two where the pattern matches `line`.
#[verifier::external_body]
fn capture_two(pattern: &str, line: &str) -> (r: Option<(String, String)>)
    ensures
        match r {
            Some((key, value)) => two_groups(pattern@, line@) == Some((key@, value@)),
            None => two_groups(pattern@, line@) is None,
        },
{
    let re = match regex::Regex::new(pattern) {
        Ok(re) => re,
        Err(_) => return None,
    };
    let caps = re.captures(line)?;
    match (caps.get(1), caps.get(2)) {
        (Some(key), Some(value)) => Some((key.as_str().to_string(), value.as_str().to_string())),
        _ => None,
    }
}

/// Why a configuration line was refused.
#[derive(Debug, Clone, Copy, PartialEq, Eq, Structural)]
pub enum ConfigError {
    /// The line is not of the form `key = value`.
    MalformedLine,
    /// The key names no setting.
    UnknownKey,
}

/// The settings, as text.
pub struct ConfigView {
    pub api_client_id: Seq<char>,
    pub api_client_secret: Seq<char>,
    pub redirect_uri: Seq<char>,
}

impl ConfigView {
    /// The settings with `key` set to `value`; `None` when `key` names no
    /// setting.
    pub open spec fn with_entry(self, key: Seq<char>, value: Seq<char>) -> Option<ConfigView> {
        if key == "api_client_id"@ {
            Some(ConfigView { api_client_id: value, ..self })
        } else if key == "api_client_secret"@ {
            Some(ConfigView { api_client_secret: value, ..self })
        } else if key == "redirect_uri"@ {
            Some(ConfigView { redirect_uri: value, ..self })
        } else {
            None
        }
    }

    /// The settings after one line, or the error that refuses it.
    pub open spec fn with_line(self, groups: Option<(Seq<char>, Seq<char>)>) -> Result<ConfigView, ConfigError> {
        match groups {
            Some((key, value)) => match self.with_entry(key, value) {
                Some(v) => Ok(v),
                None => Err(ConfigError::UnknownKey),
            },
            None => Err(ConfigError::MalformedLine),
        }
    }

    /// The settings after each of `lines` in turn, up to the first line that
    /// is refused, and the error that refused it, if any.
    pub open spec fn with_lines(self, lines: Seq<Seq<char>>) -> (ConfigView, Option<ConfigError>)
        decreases lines.len(),
    {
        if lines.len() == 0 {
            (self, None)
        } else {
            let before = self.with_lines(lines.drop_last());
            match before.1 {
                Some(e) => before,
                None => match before.0.with_line(two_groups(CONFIG_LINE_PATTERN@, lines.last())) {
                    Ok(v) => (v, None),
                    Err(e) => (before.0, Some(e)),
                },
            }
        }
    }
}

/// The settings for reaching the remote service.
#[derive(Debug)]
pub struct Config {
    pub api_client_id: String,
    pub api_client_secret: String,
    pub redirect_uri: String,
}

impl View for Config {
    type V = ConfigView;

    open spec fn view(&self) -> ConfigView {
        ConfigView {
            api_client_id: self.api_client_id@,
            api_client_secret: self.api_client_secret@,
            redirect_uri: self.redirect_uri@,
        }
    }
}

impl Config {
    /// No credentials, and the default redirect URI.
    pub fn new() -> (r: Config)
        ensures
            r@.api_client_id.len() == 0,
            r@.api_client_secret.len() == 0,
            r@.redirect_uri == DEFAULT_REDIRECT_URI@,
    {
        Config {
            api_client_id: String::new(),
            api_client_secret: String::new(),
            redirect_uri: String::from_str(DEFAULT_REDIRECT_URI),
        }
    }

    /// Sets the setting that `key` names to `value`.
    pub fn apply_entry(&mut self, key: &str, value: &str) -> (r: Result<(), ConfigError>)
        ensures
            match old(self)@.with_entry(key@, value@) {
                Some(v) => r is Ok && final(self)@ == v,
                None => r == Err::<(), ConfigError>(ConfigError::UnknownKey) && final(self)@ == old(self)@,
            },
    {
        let key = String::from_str(key);
        if key == String::from_str("api_client_id") {
            self.api_client_id = String::from_str(value);
        } else if key == String::from_str("api_client_secret") {
            self.api_client_secret = String::from_str(value);
        } else if key == String::from_str("redirect_uri") {
            self.redirect_uri = String::from_str(value);
        } else {
            return Err(ConfigError::UnknownKey);
        }
        Ok(())
    }

    /// Reads one line of the configuration file.
    pub fn read_line(&mut self, line: &str) -> (r: Result<(), ConfigError>)
        ensures
            match old(self)@.with_line(two_groups(CONFIG_LINE_PATTERN@, line@)) {
                Ok(v) => r is Ok && final(self)@ == v,
                Err(e) => r == Err::<(), ConfigError>(e) && final(self)@ == old(self)@,
            },
    {
        match capture_two(CONFIG_LINE_PATTERN, line) {
            Some((key, value)) => self.apply_entry(key.as_str(), value.as_str()),
            None => Err(ConfigError::MalformedLine),
        }
    }

    /// Reads the lines of the configuration file in order, up to the first
    /// one that is refused.
    pub fn read_config_file(&mut self, lines: &Vec<String>) -> (r: Result<(), ConfigError>)
        ensures
            final(self)@ == old(self)@.with_lines(lines@.map_values(|l: String| l@)).0,
            match old(self)@.with_lines(lines@.map_values(|l: String| l@)).1 {
                Some(e) => r == Err::<(), ConfigError>(e),
                None => r is Ok,
            },
    {
        let ghost texts = lines@.map_values(|l: String| l@);
        let mut i: usize = 0;
        while i < lines.len()
            invariant
                i <= lines@.len(),
                texts == lines@.map_values(|l: String| l@),
                old(self)@.with_lines(texts.take(i as int)) == (self@, None::<ConfigError>),
            decreases lines@.len() - i,
        {
            let ghost before = self@;
            let r = self.read_line(lines[i].as_str());
            assert(texts.take(i + 1).drop_last() =~= texts.take(i as int));
            match r {
                Ok(()) => {},
                Err(e) => {
                    proof {
                        lemma_error_stops(old(self)@, texts, (i + 1) as nat);
                    }
                    assert(texts.take(lines@.len() as int) =~= texts);
                    return Err(e);
                },
            }
            i = i + 1;
        }
        assert(texts.take(lines@.len() as int) =~= texts);
        Ok(())
    }
}

/// Once a line is refused, the lines after it change nothing.
proof fn lemma_error_stops(v: ConfigView, lines: Seq<Seq<char>>, i: nat)
    requires
        i <= lines.len(),
        v.with_lines(lines.take(i as int)).1 is Some,
    ensures
        v.with_lines(lines) == v.with_lines(lines.take(i as int)),
    decreases lines.len() - i,
{
    if i < lines.len() {
        assert(lines.take(i + 1 as int).drop_last() =~= lines.take(i as int));
        lemma_error_stops(v, lines, (i + 1) as nat);
    } else {
        assert(lines.take(i as int) =~= lines);
    }
}

} // verus!
