use vstd::prelude::*;
use vstd::string::*;

verus! {

/// How much the log lets through.
#[derive(Clone, Copy, Debug, PartialEq, Eq, Structural)]
pub enum LogLevel {
    Off,
    Error,
    Warn,
    Info,
    Debug,
    Trace,
}

/// The level that a name in lower case stands for; `Info` for every name
/// that is not one of the six.
pub open spec fn level_of(name: Seq<char>) -> LogLevel {
    if name == "off"@ {
        LogLevel::Off
    } else if name == "error"@ {
        LogLevel::Error
    } else if name == "warn"@ {
        LogLevel::Warn
    } else if name == "debug"@ {
        LogLevel::Debug
    } else if name == "trace"@ {
        LogLevel::Trace
    } else {
        LogLevel::Info
    }
}

/// Whether two strings hold the same characters.
fn same_text(a: &str, b: &str) -> (same: bool)
    ensures
        same == (a@ == b@),
{
    let left = String::from_str(a);
    let right = String::from_str(b);
    left == right
}

/// The level that `name`, taken letter for letter, stands for.
pub fn level_named(name: &str) -> (level: LogLevel)
    ensures
        level == level_of(name@),
{
    if same_text(name, "off") {
        LogLevel::Off
    } else if same_text(name, "error") {
        LogLevel::Error
    } else if same_text(name, "warn") {
        LogLevel::Warn
    } else if same_text(name, "debug") {
        LogLevel::Debug
    } else if same_text(name, "trace") {
        LogLevel::Trace
    } else {
        LogLevel::Info
    }
}

/// The lower-case form of a text as the standard library computes it.
pub uninterp spec fn lowercase(text: Seq<char>) -> Seq<char>;

/// `str::to_lowercase` of the standard library. Nothing is proved of it: the
/// contract only gives its result the name `lowercase`, which is sound
/// because the result depends on the characters of the argument alone.
#[verifier::external_body]
fn to_lowercase(text: &str) -> (lower: String)
    ensures
        lower@ == lowercase(text@),
{
    text.to_lowercase()
}

/// The level for the widgets' log, chosen by the verbosity setting of the
/// environment: the named level whatever the case of its letters, and
/// `Info` where the setting is absent or names no level.
pub fn default_level(setting: Option<&str>) -> (level: LogLevel)
    ensures
        level == match setting {
            None => LogLevel::Info,
            Some(text) => level_of(lowercase(text@)),
        },
{
    match setting {
        None => LogLevel::Info,
        Some(text) => {
            let lower = to_lowercase(text);
            level_named(lower.as_str())
        },
    }
}

/// No directory could be found: there is no override and the platform
/// names no home for the project.
#[derive(Clone, Copy, Debug, PartialEq, Eq, Structural)]
pub struct NoDirectory;

/// The directory to use: the override where one is set, else the
/// platform's directory for the project.
pub open spec fn chosen_dir(overriding: Option<String>, platform: Option<String>) -> Option<
    Seq<char>,
> {
    match overriding {
        Some(dir) => Some(dir@),
        None => match platform {
            Some(dir) => Some(dir@),
            None => None,
        },
    }
}

/// The data directory: the override from the environment where it is set,
/// else the platform's local data directory for the project.
pub fn get_data_dir(overriding: Option<String>, platform: Option<String>) -> (r: Result<
    String,
    NoDirectory,
>)
    ensures
        match chosen_dir(overriding, platform) {
            Some(dir) => r.is_ok() && r.unwrap()@ == dir,
            None => r.is_err(),
        },
{
    match overriding {
        Some(dir) => Ok(dir),
        None => match platform {
            Some(dir) => Ok(dir),
            None => Err(NoDirectory),
        },
    }
}

/// The configuration directory: the override from the environment where it
/// is set, else the platform's local configuration directory for the
/// project.
pub fn get_config_dir(overriding: Option<String>, platform: Option<String>) -> (r: Result<
    String,
    NoDirectory,
>)
    ensures
        match chosen_dir(overriding, platform) {
            Some(dir) => r.is_ok() && r.unwrap()@ == dir,
            None => r.is_err(),
        },
{
    match overriding {
        Some(dir) => Ok(dir),
        None => match platform {
            Some(dir) => Ok(dir),
            None => Err(NoDirectory),
        },
    }
}

/// The text of the version report.
pub open spec fn version_text(
    commit_hash: Seq<char>,
    author: Seq<char>,
    executable: Seq<char>,
    config_dir: Seq<char>,
    data_dir: Seq<char>,
) -> Seq<char> {
    commit_hash + "\n\nAuthors: "@ + author + "\nExecutable path: "@ + executable
        + "\nConfig directory: "@ + config_dir + "\nData directory: "@ + data_dir
}

/// The version report: the commit, then one labelled line each for the
/// authors, the executable and the two directories.
pub fn version(
    commit_hash: &str,
    author: &str,
    executable: &str,
    config_dir: &str,
    data_dir: &str,
) -> (text: String)
    ensures
        text@ == version_text(commit_hash@, author@, executable@, config_dir@, data_dir@),
{
    let mut text = String::from_str(commit_hash);
    text.append("\n\nAuthors: ");
    text.append(author);
    text.append("\nExecutable path: ");
    text.append(executable);
    text.append("\nConfig directory: ");
    text.append(config_dir);
    text.append("\nData directory: ");
    text.append(data_dir);
    text
}

} // verus!
