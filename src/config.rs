//! Configuration file location and format selection.
//!
//! Paths are held as text. The format of a configuration file is decided by
//! its extension alone, compared without regard to case.
use crate::error::Error;
use vstd::prelude::*;

verus! {

/// What `std::path::Path::extension` gives for a path: the text after the
/// final `.` of its file name, if there is one.
pub uninterp spec fn extension_of(path: Seq<char>) -> Option<Seq<char>>;

/// What `str::to_lowercase` gives for a text.
pub uninterp spec fn lower_of(s: Seq<char>) -> Seq<char>;

/// What `std::path::Path::join` gives for a directory and a relative file name.
pub uninterp spec fn joined_path(dir: Seq<char>, file: Seq<char>) -> Seq<char>;

/// Relies on `std::path::Path::extension` (the path syntax of the platform),
/// its result turned into text.
#[verifier::external_body]
fn path_extension(path: &str) -> (r: Option<String>)
    ensures
        match r {
            Some(e) => extension_of(path@) == Some(e@),
            None => extension_of(path@) is None,
        },
{
    std::path::Path::new(path).extension().map(|e| e.to_string_lossy().into_owned())
}

/// Whether every character of a text is ASCII.
pub open spec fn is_ascii_text(s: Seq<char>) -> bool {
    forall|i: int| 0 <= i < s.len() ==> (#[trigger] s[i] as u32) < 128
}

/// `d` is the ASCII lower case of `c`: `A`-`Z` become `a`-`z`, every other
/// character stays.
pub open spec fn ascii_lowered(c: char, d: char) -> bool {
    if 65 <= (c as u32) && (c as u32) <= 90 {
        d as u32 == c as u32 + 32
    } else {
        d == c
    }
}

/// `t` is the ASCII lower case of `s`, character by character.
pub open spec fn ascii_lowered_text(s: Seq<char>, t: Seq<char>) -> bool {
    &&& t.len() == s.len()
    &&& forall|i: int| 0 <= i < s.len() ==> ascii_lowered(#[trigger] s[i], t[i])
}

/// Relies on `str::to_lowercase`: the result depends on the characters
/// alone, and on ASCII text it maps `A`-`Z` to `a`-`z` and keeps the rest.
#[verifier::external_body]
fn lowercase(s: &str) -> (r: String)
    ensures
        r@ == lower_of(s@),
        is_ascii_text(s@) ==> ascii_lowered_text(s@, r@),
{
    s.to_lowercase()
}

/// Relies on `std::path::Path::join` (the path syntax of the platform), its
/// result turned into text.
#[verifier::external_body]
fn join_path(dir: &str, file: &str) -> (r: String)
    ensures
        r@ == joined_path(dir@, file@),
{
    std::path::Path::new(dir).join(file).to_string_lossy().into_owned()
}

/// Whether two texts hold the same characters.
pub fn text_eq(a: &str, b: &str) -> (r: bool)
    ensures
        r == (a@ == b@),
{
    let n = a.unicode_len();
    if n != b.unicode_len() {
        return false;
    }
    let mut i: usize = 0;
    while i < n
        invariant
            n == a@.len(),
            n == b@.len(),
            i <= n,
            a@.subrange(0, i as int) == b@.subrange(0, i as int),
        decreases n - i,
    {
        if a.get_char(i) != b.get_char(i) {
            return false;
        }
        assert(a@.subrange(0, i + 1) == a@.subrange(0, i as int).push(a@[i as int]));
        assert(b@.subrange(0, i + 1) == b@.subrange(0, i as int).push(b@[i as int]));
        i = i + 1;
    }
    assert(a@ == a@.subrange(0, n as int));
    assert(b@ == b@.subrange(0, n as int));
    true
}

/// Number of recognised configuration file extensions.
pub const CONF_EXTENSION_COUNT: usize = 4;

/// The recognised configuration file extensions, in order of preference.
pub open spec fn conf_extension(i: int) -> Seq<char> {
    if i == 0 {
        "toml"@
    } else if i == 1 {
        "yaml"@
    } else if i == 2 {
        "yml"@
    } else {
        "json"@
    }
}

fn conf_extension_text(i: usize) -> (r: &'static str)
    requires
        i < CONF_EXTENSION_COUNT,
    ensures
        r@ == conf_extension(i as int),
{
    if i == 0 {
        "toml"
    } else if i == 1 {
        "yaml"
    } else if i == 2 {
        "yml"
    } else {
        "json"
    }
}

/// The file name of a configuration with a given extension.
pub open spec fn conf_file_name(name: Seq<char>, ext: Seq<char>) -> Seq<char> {
    name + "."@ + ext
}

/// The configuration file names for a runtime called `name`: one per
/// recognised extension, in order of preference.
pub fn config_file_names(name: &str) -> (r: Vec<String>)
    ensures
        r@.len() == CONF_EXTENSION_COUNT,
        forall|i: int|
            0 <= i < CONF_EXTENSION_COUNT ==> #[trigger] r@[i]@ == conf_file_name(
                name@,
                conf_extension(i),
            ),
{
    let mut r: Vec<String> = Vec::new();
    let mut i: usize = 0;
    while i < CONF_EXTENSION_COUNT
        invariant
            i <= CONF_EXTENSION_COUNT,
            r@.len() == i,
            forall|j: int|
                0 <= j < i ==> #[trigger] r@[j]@ == conf_file_name(name@, conf_extension(j)),
        decreases CONF_EXTENSION_COUNT - i,
    {
        let mut file = String::from_str(name);
        file.append(".");
        file.append(conf_extension_text(i));
        r.push(file);
        i = i + 1;
    }
    r
}

/// The candidate configuration paths in `dir` for a runtime called `name`:
/// one per recognised extension, in order of preference.
pub fn config_candidates(dir: &str, name: &str) -> (r: Vec<String>)
    ensures
        r@.len() == CONF_EXTENSION_COUNT,
        forall|i: int|
            0 <= i < CONF_EXTENSION_COUNT ==> #[trigger] r@[i]@ == joined_path(
                dir@,
                conf_file_name(name@, conf_extension(i)),
            ),
{
    let names = config_file_names(name);
    let mut r: Vec<String> = Vec::new();
    let mut i: usize = 0;
    while i < CONF_EXTENSION_COUNT
        invariant
            i <= CONF_EXTENSION_COUNT,
            names@.len() == CONF_EXTENSION_COUNT,
            forall|j: int|
                0 <= j < CONF_EXTENSION_COUNT ==> #[trigger] names@[j]@ == conf_file_name(
                    name@,
                    conf_extension(j),
                ),
            r@.len() == i,
            forall|j: int|
                0 <= j < i ==> #[trigger] r@[j]@ == joined_path(
                    dir@,
                    conf_file_name(name@, conf_extension(j)),
                ),
        decreases CONF_EXTENSION_COUNT - i,
    {
        r.push(join_path(dir, names[i].as_str()));
        i = i + 1;
    }
    r
}

/// Picks the configuration path among the candidates, given which of them
/// exist: the index of the first that exists, or of the last when none does.
pub fn select_config_path(present: &Vec<bool>) -> (r: usize)
    requires
        present@.len() > 0,
    ensures
        r < present@.len(),
        present@[r as int] ==> forall|j: int| 0 <= j < r ==> !present@[j],
        !present@[r as int] ==> r == present@.len() - 1 && forall|j: int|
            0 <= j < present@.len() ==> !present@[j],
{
    let n = present.len();
    let mut i: usize = 0;
    while i < n
        invariant
            n == present@.len(),
            n > 0,
            i <= n,
            forall|j: int| 0 <= j < i ==> !present@[j],
        decreases n - i,
    {
        if present[i] {
            return i;
        }
        i = i + 1;
    }
    n - 1
}

/// Serialization format of a configuration file.
#[derive(Clone, Copy, Debug, PartialEq, Eq, Structural)]
pub enum ConfigFormat {
    Toml,
    Yaml,
    Json,
}

/// The format of a lower-case extension, if it is recognised.
pub open spec fn format_of(ext: Seq<char>) -> Option<ConfigFormat> {
    if ext == "toml"@ {
        Some(ConfigFormat::Toml)
    } else if ext == "yaml"@ || ext == "yml"@ {
        Some(ConfigFormat::Yaml)
    } else if ext == "json"@ {
        Some(ConfigFormat::Json)
    } else {
        None
    }
}

/// Why a configuration path cannot be read or written.
#[derive(Clone, Debug)]
pub enum ConfigError {
    /// The path has no extension.
    InvalidPath,
    /// The path's extension (lower-cased) names no supported format.
    UnsupportedExtension(String),
}

impl ConfigError {
    pub open spec fn spec_message(&self) -> Seq<char> {
        match self {
            ConfigError::InvalidPath => "Invalid config path"@,
            ConfigError::UnsupportedExtension(e) => "Unsupported extension: "@ + e@,
        }
    }

    pub fn message(&self) -> (r: String)
        ensures
            r@ == self.spec_message(),
    {
        match self {
            ConfigError::InvalidPath => String::from_str("Invalid config path"),
            ConfigError::UnsupportedExtension(e) => {
                let mut m = String::from_str("Unsupported extension: ");
                m.append(e.as_str());
                m
            },
        }
    }

    /// The error reported to the host: code 1, with the message above.
    pub fn to_error(&self) -> (r: Error)
        ensures
            r.spec_code() == 1,
            r.spec_message() == self.spec_message(),
            r.spec_context() == Map::<String, String>::empty(),
    {
        let m = self.message();
        Error::from_string(m.as_str())
    }
}

impl ConfigFormat {
    /// The format named by a lower-case extension.
    pub fn from_extension(ext: &str) -> (r: Result<ConfigFormat, ConfigError>)
        ensures
            match format_of(ext@) {
                Some(f) => r == Ok::<ConfigFormat, ConfigError>(f),
                None => r matches Err(ConfigError::UnsupportedExtension(e)) && e@ == ext@,
            },
    {
        proof {
            reveal_strlit("toml");
            reveal_strlit("yaml");
            reveal_strlit("yml");
            reveal_strlit("json");
        }
        if text_eq(ext, "toml") {
            Ok(ConfigFormat::Toml)
        } else if text_eq(ext, "yaml") || text_eq(ext, "yml") {
            Ok(ConfigFormat::Yaml)
        } else if text_eq(ext, "json") {
            Ok(ConfigFormat::Json)
        } else {
            Err(ConfigError::UnsupportedExtension(String::from_str(ext)))
        }
    }

    /// The format of the configuration file at `path`, decided by its
    /// extension without regard to case.
    pub fn of_path(path: &str) -> (r: Result<ConfigFormat, ConfigError>)
        ensures
            match extension_of(path@) {
                None => r matches Err(ConfigError::InvalidPath),
                Some(e) => match format_of(lower_of(e)) {
                    Some(f) => r == Ok::<ConfigFormat, ConfigError>(f),
                    None => r matches Err(ConfigError::UnsupportedExtension(x)) && x@ == lower_of(e),
                },
            },
            match extension_of(path@) {
            Some(e) => is_ascii_text(e) ==> ascii_lowered_text(e, lower_of(e)),
            None => true,
        },
    {
        let ext = file_extension(path)?;
        ConfigFormat::from_extension(ext.as_str())
    }
}

/// The extension of `path`, lower-cased.
pub fn file_extension(path: &str) -> (r: Result<String, ConfigError>)
    ensures
        match extension_of(path@) {
            None => r matches Err(ConfigError::InvalidPath),
            Some(e) => r matches Ok(x) && x@ == lower_of(e),
        },
        match extension_of(path@) {
            Some(e) => is_ascii_text(e) ==> ascii_lowered_text(e, lower_of(e)),
            None => true,
        },
{
    match path_extension(path) {
        None => Err(ConfigError::InvalidPath),
        Some(e) => Ok(lowercase(e.as_str())),
    }
}

} // verus!
