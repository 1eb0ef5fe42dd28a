//! The configuration of the process, taken once at startup from a snapshot
//! of the environment.

use crate::decimal::{parse_decimal_u64, read_decimal};
use crate::error::{Error, Result};
use crate::token::Lifetime;
use vstd::prelude::*;
use vstd::string::StringExecFns;
use vstd::utf8::encode_utf8;

verus! {

/// The second of Unix time at which tokens expire where no lifetime is
/// configured.
pub const DEFAULT_EXPIRY: u64 = 2_000_000_000;

/// The environment variables that the configuration is read from, in the
/// order in which they are read. All but the last must be set.
#[derive(Clone, Copy, Debug, PartialEq, Eq, Structural)]
pub enum EnvVar {
    MongoConnUri,
    DbName,
    GoogleOauthClient,
    GoogleOauthSecret,
    GoogleOauthReturn,
    JwtSigningSecret,
    JwtTtlSeconds,
}

impl EnvVar {
    /// The variable's name in the environment.
    pub open spec fn spec_name(self) -> Seq<char> {
        match self {
            EnvVar::MongoConnUri => "MONGO_CONN_URI"@,
            EnvVar::DbName => "DB_NAME"@,
            EnvVar::GoogleOauthClient => "GOOGLE_OAUTH_CLIENT"@,
            EnvVar::GoogleOauthSecret => "GOOGLE_OAUTH_SECRET"@,
            EnvVar::GoogleOauthReturn => "GOOGLE_OAUTH_RETURN"@,
            EnvVar::JwtSigningSecret => "JWT_SIGNING_SECRET"@,
            EnvVar::JwtTtlSeconds => "JWT_TTL_SECONDS"@,
        }
    }

    /// The variable's name in the environment.
    pub fn name(&self) -> (name: &'static str)
        ensures
            name@ == self.spec_name(),
    {
        match self {
            EnvVar::MongoConnUri => "MONGO_CONN_URI",
            EnvVar::DbName => "DB_NAME",
            EnvVar::GoogleOauthClient => "GOOGLE_OAUTH_CLIENT",
            EnvVar::GoogleOauthSecret => "GOOGLE_OAUTH_SECRET",
            EnvVar::GoogleOauthReturn => "GOOGLE_OAUTH_RETURN",
            EnvVar::JwtSigningSecret => "JWT_SIGNING_SECRET",
            EnvVar::JwtTtlSeconds => "JWT_TTL_SECONDS",
        }
    }
}

/// What the process is configured with.
#[allow(non_snake_case)]
pub struct Config {
    pub MONGO_CONN_URI: String,
    pub DB_NAME: String,
    pub GOOGLE_OAUTH_CLIENT: String,
    pub GOOGLE_OAUTH_SECRET: String,
    pub GOOGLE_OAUTH_RETURN: String,
    pub JWT_SIGNING_SECRET: String,
    /// For how many seconds an issued token stays valid, where that is
    /// configured.
    pub JWT_TTL_SECONDS: Option<u64>,
}

/// The value of the first pair of `vars` whose name is `name`.
pub open spec fn env_value(vars: Seq<(String, String)>, name: Seq<char>) -> Option<Seq<char>>
    decreases vars.len(),
{
    if vars.len() == 0 {
        None
    } else if vars[0].0@ == name {
        Some(vars[0].1@)
    } else {
        env_value(vars.skip(1), name)
    }
}

/// The value of variable `var` in `vars`.
pub open spec fn var_value(vars: Seq<(String, String)>, var: EnvVar) -> Option<Seq<char>> {
    env_value(vars, var.spec_name())
}

/// The token lifetime that `vars` gives: the value of its variable, read as
/// a decimal number of seconds. None where the variable is not set, or its
/// value is no such number.
pub open spec fn ttl_value(vars: Seq<(String, String)>) -> Option<u64> {
    match var_value(vars, EnvVar::JwtTtlSeconds) {
        Some(text) => parse_decimal_u64(encode_utf8(text)),
        None => None,
    }
}

/// The first of the six variables that must be set, in reading order, that
/// `vars` does not give; failing that, the lifetime variable where `vars`
/// gives a value for it that is no decimal number of seconds.
pub open spec fn env_problem(vars: Seq<(String, String)>) -> Option<EnvVar> {
    if var_value(vars, EnvVar::MongoConnUri) is None {
        Some(EnvVar::MongoConnUri)
    } else if var_value(vars, EnvVar::DbName) is None {
        Some(EnvVar::DbName)
    } else if var_value(vars, EnvVar::GoogleOauthClient) is None {
        Some(EnvVar::GoogleOauthClient)
    } else if var_value(vars, EnvVar::GoogleOauthSecret) is None {
        Some(EnvVar::GoogleOauthSecret)
    } else if var_value(vars, EnvVar::GoogleOauthReturn) is None {
        Some(EnvVar::GoogleOauthReturn)
    } else if var_value(vars, EnvVar::JwtSigningSecret) is None {
        Some(EnvVar::JwtSigningSecret)
    } else if var_value(vars, EnvVar::JwtTtlSeconds) is Some && ttl_value(vars) is None {
        Some(EnvVar::JwtTtlSeconds)
    } else {
        None
    }
}

/// `config` holds what `vars` gives for each variable.
pub open spec fn config_of(vars: Seq<(String, String)>, config: Config) -> bool {
    &&& var_value(vars, EnvVar::MongoConnUri) == Some(config.MONGO_CONN_URI@)
    &&& var_value(vars, EnvVar::DbName) == Some(config.DB_NAME@)
    &&& var_value(vars, EnvVar::GoogleOauthClient) == Some(config.GOOGLE_OAUTH_CLIENT@)
    &&& var_value(vars, EnvVar::GoogleOauthSecret) == Some(config.GOOGLE_OAUTH_SECRET@)
    &&& var_value(vars, EnvVar::GoogleOauthReturn) == Some(config.GOOGLE_OAUTH_RETURN@)
    &&& var_value(vars, EnvVar::JwtSigningSecret) == Some(config.JWT_SIGNING_SECRET@)
    &&& ttl_value(vars) == config.JWT_TTL_SECONDS
}

/// An environment that gives the six variables that must be set, and no
/// lifetime, has no problem: tokens then expire at the default expiry.
pub proof fn lemma_six_variables_suffice(vars: Seq<(String, String)>)
    requires
        var_value(vars, EnvVar::MongoConnUri) is Some,
        var_value(vars, EnvVar::DbName) is Some,
        var_value(vars, EnvVar::GoogleOauthClient) is Some,
        var_value(vars, EnvVar::GoogleOauthSecret) is Some,
        var_value(vars, EnvVar::GoogleOauthReturn) is Some,
        var_value(vars, EnvVar::JwtSigningSecret) is Some,
        var_value(vars, EnvVar::JwtTtlSeconds) is None,
    ensures
        env_problem(vars) is None,
        ttl_value(vars) is None,
{
}

/// The configuration that `vars` gives. Startup cannot go on without one:
/// the caller makes sure that the six variables that must be set are there,
/// and that a lifetime that is given can be read.
pub fn config(vars: &Vec<(String, String)>) -> (config: Config)
    requires
        env_problem(vars@) is None,
    ensures
        config_of(vars@, config),
{
    match Config::load_from_env(vars) {
        Ok(config) => config,
        Err(_) => vstd::pervasive::unreached(),
    }
}

impl Config {
    /// Reads the configuration from `vars`, the pairs of name and value of
    /// the environment. Fails on the first of the six variables that must
    /// be set, in reading order, that is missing, and names it. The
    /// lifetime may be missing; where it is given and cannot be read, that
    /// fails too.
    pub fn load_from_env(vars: &Vec<(String, String)>) -> (loaded: Result<Config>)
        ensures
            match loaded {
                Ok(config) => env_problem(vars@) is None && config_of(vars@, config),
                Err(e) => env_problem(vars@) matches Some(var) && e == Error::ReadEnvError(var),
            },
    {
        let mongo_conn_uri = get_env(vars, EnvVar::MongoConnUri)?;
        let db_name = get_env(vars, EnvVar::DbName)?;
        let google_oauth_client = get_env(vars, EnvVar::GoogleOauthClient)?;
        let google_oauth_secret = get_env(vars, EnvVar::GoogleOauthSecret)?;
        let google_oauth_return = get_env(vars, EnvVar::GoogleOauthReturn)?;
        let jwt_signing_secret = get_env(vars, EnvVar::JwtSigningSecret)?;
        let ttl = match find_env(vars, EnvVar::JwtTtlSeconds) {
            Some(text) => match read_decimal(text.as_str().as_bytes()) {
                Some(ttl) => Some(ttl),
                None => {
                    return Err(Error::ReadEnvError(EnvVar::JwtTtlSeconds));
                },
            },
            None => None,
        };
        Ok(
            Config {
                MONGO_CONN_URI: mongo_conn_uri,
                DB_NAME: db_name,
                GOOGLE_OAUTH_CLIENT: google_oauth_client,
                GOOGLE_OAUTH_SECRET: google_oauth_secret,
                GOOGLE_OAUTH_RETURN: google_oauth_return,
                JWT_SIGNING_SECRET: jwt_signing_secret,
                JWT_TTL_SECONDS: ttl,
            },
        )
    }

    /// When the tokens of this configuration expire: the configured
    /// number of seconds after they are issued, or at the default expiry
    /// where none is configured.
    pub open spec fn spec_lifetime(&self) -> Lifetime {
        match self.JWT_TTL_SECONDS {
            Some(ttl) => Lifetime::Seconds(ttl),
            None => Lifetime::Until(DEFAULT_EXPIRY),
        }
    }

    /// When the tokens of this configuration expire.
    pub fn lifetime(&self) -> (lifetime: Lifetime)
        ensures
            lifetime == self.spec_lifetime(),
    {
        match self.JWT_TTL_SECONDS {
            Some(ttl) => Lifetime::Seconds(ttl),
            None => Lifetime::Until(DEFAULT_EXPIRY),
        }
    }
}

fn get_env(vars: &Vec<(String, String)>, var: EnvVar) -> (value: Result<String>)
    ensures
        match value {
            Ok(text) => var_value(vars@, var) == Some(text@),
            Err(e) => var_value(vars@, var) is None && e == Error::ReadEnvError(var),
        },
{
    match find_env(vars, var) {
        Some(text) => Ok(text),
        None => Err(Error::ReadEnvError(var)),
    }
}

fn find_env(vars: &Vec<(String, String)>, var: EnvVar) -> (value: Option<String>)
    ensures
        match value {
            Some(text) => var_value(vars@, var) == Some(text@),
            None => var_value(vars@, var) is None,
        },
{
    let name = String::from_str(var.name());
    let mut i: usize = 0;
    proof {
        assert(vars@.skip(0) =~= vars@);
    }
    while i < vars.len()
        invariant
            i <= vars@.len(),
            name@ == var.spec_name(),
            env_value(vars@, name@) == env_value(vars@.skip(i as int), name@),
        decreases vars@.len() - i,
    {
        proof {
            assert(vars@.skip(i as int).skip(1) =~= vars@.skip(i + 1));
        }
        if vars[i].0 == name {
            return Some(vars[i].1.clone());
        }
        i = i + 1;
    }
    None
}

} // verus!
