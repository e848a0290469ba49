use vstd::prelude::*;

verus! {

/// What `str::to_lowercase` returns for a text: its Unicode lower case.
pub uninterp spec fn lowercase_of(s: Seq<char>) -> Seq<char>;

/// Relies on `str::to_lowercase`: the lower case depends on the characters alone.
#[verifier::external_body]
fn to_lowercase(s: &String) -> (r: String)
    ensures
        r@ == lowercase_of(s@),
{
    s.to_lowercase()
}

/// The environment the application runs in; it picks the configuration file.
#[derive(Debug, Clone, Copy, PartialEq, Eq, Structural)]
pub enum Environment {
    Development,
    Production,
}

/// The name under which an environment is written.
pub open spec fn environment_name(e: Environment) -> Seq<char> {
    match e {
        Environment::Development => "dev"@,
        Environment::Production => "prod"@,
    }
}

impl Environment {
    /// The name under which this environment is written.
    pub fn as_str(&self) -> (r: &'static str)
        ensures
            r@ == environment_name(*self),
    {
        match self {
            Environment::Development => "dev",
            Environment::Production => "prod",
        }
    }
}

impl TryFrom<String> for Environment {
    type Error = String;

    /// Reads an environment name, ignoring case.
    fn try_from(value: String) -> (r: Result<Self, Self::Error>)
        ensures
            r matches Ok(e) ==> environment_name(e) == lowercase_of(value@),
            r is Err <==> lowercase_of(value@) != "dev"@ && lowercase_of(value@) != "prod"@,
            r matches Err(m) ==> m@ == lowercase_of(value@)
                + " is not a valid environment\nUse either `dev` or `prod`."@,
    {
        let lower = to_lowercase(&value);
        let dev = String::from_str("dev");
        let prod = String::from_str("prod");
        if lower == dev {
            Ok(Environment::Development)
        } else if lower == prod {
            Ok(Environment::Production)
        } else {
            Err(lower.concat(" is not a valid environment\nUse either `dev` or `prod`."))
        }
    }
}

impl vstd::std_specs::convert::TryFromSpecImpl<String> for Environment {
    open spec fn obeys_try_from_spec() -> bool {
        false
    }

    open spec fn try_from_spec(v: String) -> Result<Self, String> {
        arbitrary()
    }
}

/// Where the application listens, and the base of the links it sends.
#[derive(Debug)]
pub struct ApplicationSettings {
    pub port: u16,
    pub host: String,
    pub base_url: String,
}

} // verus!
