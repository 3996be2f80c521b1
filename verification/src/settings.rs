//! Application settings and the deployment environment they are read for.
use vstd::prelude::*;
use vstd::utf8::is_ascii_chars;

verus! {

/// The settings of the application.
#[derive(Clone, Debug, PartialEq, Eq)]
pub struct Settings {
    pub application: ApplicasionSettings,
    pub debug: bool,
}

/// Where the application listens and how it is reached.
#[derive(Clone, Debug, PartialEq, Eq)]
pub struct ApplicasionSettings {
    pub port: u16,
    pub host: String,
    pub base_url: String,
    pub protocol: String,
}

/// The environment the application runs in; it picks the settings file.
#[derive(Clone, Copy, Debug, PartialEq, Eq, Structural)]
pub enum Environment {
    Development,
    Production,
}

/// What `str::to_lowercase` gives for a string (the Unicode lowercase mapping).
pub uninterp spec fn lowercase(s: Seq<char>) -> Seq<char>;

/// The lowercase of an ASCII character: `A` to `Z` become `a` to `z`, the others
/// stay.
pub open spec fn ascii_lowercase_char(c: char) -> char {
    if 'A' <= c <= 'Z' {
        ((c as u32) + 32) as char
    } else {
        c
    }
}

/// `str::to_lowercase`.
///
/// Claimed: the result is `lowercase` of the input; for an input made of ASCII
/// characters only, it is the input with `A` to `Z` replaced by `a` to `z` (the
/// Unicode lowercase mapping on ASCII). Beyond ASCII, nothing more is stated.
#[verifier::external_body]
fn to_lowercase(s: &str) -> (r: String)
    ensures
        r@ == lowercase(s@),
        is_ascii_chars(s@) ==> r@ == s@.map_values(|c: char| ascii_lowercase_char(c)),
{
    s.to_lowercase()
}

/// The name of an environment.
pub open spec fn environment_name(e: Environment) -> Seq<char> {
    match e {
        Environment::Development => "development"@,
        Environment::Production => "production"@,
    }
}

/// What follows the unsupported name in the message of a failed parse.
pub open spec fn unsupported_environment_suffix() -> Seq<char> {
    " is not a supported environment. Use either 'development' or 'production'."@
}

/// The lowercase of a string of ASCII characters, character by character.
pub open spec fn ascii_lowercase(s: Seq<char>) -> Seq<char> {
    s.map_values(|c: char| ascii_lowercase_char(c))
}

/// The environment that an already lowercased name `l` stands for; otherwise a
/// message that repeats `l`.
pub open spec fn environment_of_lowercase(l: Seq<char>) -> Result<Environment, Seq<char>> {
    if l == "development"@ {
        Ok(Environment::Development)
    } else if l == "production"@ {
        Ok(Environment::Production)
    } else {
        Err(l + unsupported_environment_suffix())
    }
}

/// The environment a name stands for, whatever its case; otherwise a message
/// that repeats the name in lowercase.
pub open spec fn environment_for(s: Seq<char>) -> Result<Environment, Seq<char>> {
    environment_of_lowercase(lowercase(s))
}

/// A parse result with its message taken as a sequence of characters.
pub open spec fn parse_view(r: Result<Environment, String>) -> Result<Environment, Seq<char>> {
    match r {
        Ok(e) => Ok(e),
        Err(m) => Err(m@),
    }
}

impl Environment {
    /// The name of the environment: "development" or "production".
    pub fn as_str(&self) -> (r: &'static str)
        ensures
            r@ == environment_name(*self),
    {
        match self {
            Environment::Development => "development",
            Environment::Production => "production",
        }
    }

    /// The environment that `s` names, in any case; otherwise an error message
    /// naming the lowercased `s`. For an ASCII `s`, the lowercase is `A` to `Z`
    /// turned into `a` to `z`.
    pub fn try_from(s: String) -> (r: Result<Environment, String>)
        ensures
            parse_view(r) == environment_for(s@),
            is_ascii_chars(s@) ==> parse_view(r) == environment_of_lowercase(ascii_lowercase(s@)),
            forall|e: Environment| s@ == environment_name(e) ==> r == Ok::<Environment, String>(e),
    {
        let lower = to_lowercase(s.as_str());
        proof {
            reveal_strlit("development");
            reveal_strlit("production");
            if s@ == "development"@ || s@ == "production"@ {
                assert(is_ascii_chars(s@));
                assert(s@.map_values(|c: char| ascii_lowercase_char(c)) =~= s@);
            }
        }
        let development = "development".to_string();
        let production = "production".to_string();
        if lower == development {
            Ok(Environment::Development)
        } else if lower == production {
            Ok(Environment::Production)
        } else {
            Err(lower.concat(" is not a supported environment. Use either 'development' or 'production'."))
        }
    }
}

/// The settings file for the environment named by `APP_ENVIRONMENT` (by default
/// "development"): the environment's name followed by ".yaml"; otherwise the
/// message of the failed parse.
pub open spec fn settings_file_name(app_environment: Option<String>) -> Result<Seq<char>, Seq<char>> {
    file_name_for(environment_for(requested_environment(app_environment)))
}

/// The name of the environment's settings file, or the message of a failed
/// parse.
pub open spec fn file_name_for(parsed: Result<Environment, Seq<char>>) -> Result<Seq<char>, Seq<char>> {
    match parsed {
        Ok(e) => Ok(environment_name(e) + ".yaml"@),
        Err(m) => Err(m),
    }
}

/// The environment name that a value of `APP_ENVIRONMENT` gives: the value, or
/// "development" when it is not set.
pub open spec fn requested_environment(app_environment: Option<String>) -> Seq<char> {
    match app_environment {
        Some(n) => n@,
        None => "development"@,
    }
}

/// A file-name result with both sides taken as sequences of characters.
pub open spec fn file_view(r: Result<String, String>) -> Result<Seq<char>, Seq<char>> {
    match r {
        Ok(f) => Ok(f@),
        Err(m) => Err(m@),
    }
}

/// The name of the environment-specific settings file, for the value of
/// `APP_ENVIRONMENT` (`None` when it is not set, which means "development").
/// For an ASCII name, the case is ignored as `A` to `Z` turned into `a` to `z`.
pub fn environment_settings_file(app_environment: Option<String>) -> (r: Result<String, String>)
    ensures
        file_view(r) == settings_file_name(app_environment),
        is_ascii_chars(requested_environment(app_environment)) ==> file_view(r) == file_name_for(
            environment_of_lowercase(ascii_lowercase(requested_environment(app_environment))),
        ),
        app_environment is None ==> file_view(r) == Ok::<Seq<char>, Seq<char>>("development.yaml"@),
{
    proof {
        reveal_strlit("development");
        reveal_strlit("development.yaml");
        reveal_strlit(".yaml");
        assert(is_ascii_chars("development"@));
        assert(ascii_lowercase("development"@) =~= "development"@);
        assert("development"@ + ".yaml"@ =~= "development.yaml"@);
    }
    let name = match app_environment {
        Some(n) => n,
        None => "development".to_string(),
    };
    match Environment::try_from(name) {
        Ok(e) => Ok(e.as_str().to_string().concat(".yaml")),
        Err(m) => Err(m),
    }
}

/// Parsing a lowercased name inverts naming: the name of an environment parses
/// to that environment, a name parses to an environment only if it is that
/// environment's name, and any other name fails with a message that starts with
/// the name itself.
pub proof fn lemma_parse_inverts_naming(e: Environment, l: Seq<char>)
    ensures
        environment_of_lowercase(environment_name(e)) == Ok::<Environment, Seq<char>>(e),
        environment_of_lowercase(l) matches Ok(f) ==> l == environment_name(f),
        environment_of_lowercase(l) matches Err(m) ==> m.subrange(0, l.len() as int) == l && l
            != environment_name(Environment::Development) && l != environment_name(Environment::Production),
        environment_name(Environment::Development) != environment_name(Environment::Production),
{
    reveal_strlit("development");
    reveal_strlit("production");
    assert(environment_name(Environment::Development).len() != environment_name(Environment::Production).len());
    if environment_of_lowercase(l) is Err {
        let m = l + unsupported_environment_suffix();
        assert(m.subrange(0, l.len() as int) =~= l);
    }
}

} // verus!
