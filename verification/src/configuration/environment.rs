use vstd::prelude::*;
use crate::text::{concat, lowercase, lowercase_of, str_equal};

verus! {

/// The deployment environments the service knows.
#[derive(Clone, Copy, Debug, PartialEq, Eq, Structural)]
pub enum Environment {
    Test,
    Local,
    Dev,
    Stg,
    Int,
    Prod,
}

/// The name under which an environment's files are found.
pub open spec fn environment_name(env: Environment) -> Seq<char> {
    match env {
        Environment::Test => "test"@,
        Environment::Local => "local"@,
        Environment::Dev => "dev"@,
        Environment::Stg => "stg"@,
        Environment::Int => "int"@,
        Environment::Prod => "prod"@,
    }
}

impl Environment {
    pub fn as_string(&self) -> (s: &'static str)
        ensures
            s@ == environment_name(*self),
    {
        match self {
            Environment::Test => "test",
            Environment::Local => "local",
            Environment::Dev => "dev",
            Environment::Stg => "stg",
            Environment::Int => "int",
            Environment::Prod => "prod",
        }
    }
}

/// The environment a lowercase name stands for, if any.
pub open spec fn environment_of_name(name: Seq<char>) -> Option<Environment> {
    if name == "local"@ {
        Some(Environment::Local)
    } else if name == "test"@ {
        Some(Environment::Test)
    } else if name == "dev"@ {
        Some(Environment::Dev)
    } else if name == "stg"@ {
        Some(Environment::Stg)
    } else if name == "int"@ {
        Some(Environment::Int)
    } else if name == "prod"@ {
        Some(Environment::Prod)
    } else {
        None
    }
}

/// The message an unknown environment name is refused with.
pub open spec fn unsupported_environment_message(name: Seq<char>) -> Seq<char> {
    name + " is not a supported environment. Use either `local` or `production`."@
}

impl Environment {
    /// Reads an environment from its name once lowercased; an unknown name is
    /// refused with a message that quotes it.
    pub fn from_lowercase_name(name: &str) -> (r: Result<Environment, String>)
        ensures
            match environment_of_name(name@) {
                Some(env) => r == Ok::<Environment, String>(env),
                None => r matches Err(m) && m@ == unsupported_environment_message(name@),
            },
    {
        if str_equal(name, "local") {
            Ok(Environment::Local)
        } else if str_equal(name, "test") {
            Ok(Environment::Test)
        } else if str_equal(name, "dev") {
            Ok(Environment::Dev)
        } else if str_equal(name, "stg") {
            Ok(Environment::Stg)
        } else if str_equal(name, "int") {
            Ok(Environment::Int)
        } else if str_equal(name, "prod") {
            Ok(Environment::Prod)
        } else {
            Err(concat(name, " is not a supported environment. Use either `local` or `production`."))
        }
    }
}

impl TryFrom<String> for Environment {
    type Error = String;

    /// Reads an environment from its name, whatever its case.
    fn try_from(value: String) -> (r: Result<Environment, String>)
        ensures
            match environment_of_name(lowercase_of(value@)) {
                Some(env) => r == Ok::<Environment, String>(env),
                None => r matches Err(m) && m@ == unsupported_environment_message(lowercase_of(value@)),
            },
    {
        let lowered = lowercase(value.as_str());
        Environment::from_lowercase_name(lowered.as_str())
    }
}

impl vstd::std_specs::convert::TryFromSpecImpl<String> for Environment {
    open spec fn obeys_try_from_spec() -> bool {
        false
    }

    open spec fn try_from_spec(v: String) -> Result<Environment, String> {
        arbitrary()
    }
}

impl Environment {
    /// The environment the service runs in, given the value of the variable
    /// that names it: `local` when the variable is unset.
    pub fn selected(value: Option<String>) -> (r: Result<Environment, String>)
        ensures
            value is None ==> r == Ok::<Environment, String>(Environment::Local),
            value matches Some(v) ==> match environment_of_name(lowercase_of(v@)) {
                Some(env) => r == Ok::<Environment, String>(env),
                None => r matches Err(m) && m@ == unsupported_environment_message(lowercase_of(v@)),
            },
    {
        match value {
            None => Ok(Environment::Local),
            Some(v) => Environment::try_from(v),
        }
    }

    /// The file of environment variables loaded for this environment.
    pub fn env_file_name(&self) -> (s: String)
        ensures
            s@ == environment_name(*self) + ".env"@,
    {
        concat(self.as_string(), ".env")
    }

    /// The settings file read for this environment.
    pub fn settings_file_name(&self) -> (s: String)
        ensures
            s@ == "application-"@ + environment_name(*self) + ".yaml"@,
    {
        let head = concat("application-", self.as_string());
        head.concat(".yaml")
    }
}

/// Every environment is read back from the name it is written under.
pub proof fn lemma_environment_name_round_trip(env: Environment)
    ensures
        environment_of_name(environment_name(env)) == Some(env),
{
    reveal_strlit("local");
    reveal_strlit("test");
    reveal_strlit("dev");
    reveal_strlit("stg");
    reveal_strlit("int");
    reveal_strlit("prod");
    assert("local"@.len() == 5 && "test"@.len() == 4 && "prod"@.len() == 4);
    assert("dev"@[0] != "stg"@[0] && "dev"@[0] != "int"@[0] && "stg"@[0] != "int"@[0]);
    assert("test"@[0] != "prod"@[0]);
}

} // verus!
