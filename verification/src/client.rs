//! The environment a client talks to and the configuration it sends with
//! every command.
use vstd::prelude::*;

use crate::error::Error;
use crate::params::{append_params, push_param};

verus! {

/// Which Namecheap environment to talk to.
///
/// The sandbox is a free, isolated copy of the production API; calls such as
/// domain registration place real, billable orders against production.
#[derive(Debug, Clone, Copy, PartialEq, Eq, Structural)]
pub enum Environment {
    /// The live API at `api.namecheap.com`. Commands here have real effects.
    Production,
    /// The sandbox API at `api.sandbox.namecheap.com`. Safe for testing.
    Sandbox,
}

impl Default for Environment {
    /// The production environment.
    fn default() -> (res: Self)
        ensures
            res == Environment::Production,
    {
        Environment::Production
    }
}

/// The base endpoint URL of an environment.
pub open spec fn endpoint_spec(environment: Environment) -> Seq<char> {
    match environment {
        Environment::Production => "https://api.namecheap.com/xml.response"@,
        Environment::Sandbox => "https://api.sandbox.namecheap.com/xml.response"@,
    }
}

impl Environment {
    /// The base endpoint URL for this environment.
    pub fn endpoint(self) -> (res: &'static str)
        ensures
            res@ == endpoint_spec(self),
    {
        match self {
            Environment::Production => "https://api.namecheap.com/xml.response",
            Environment::Sandbox => "https://api.sandbox.namecheap.com/xml.response",
        }
    }
}

/// The credentials and environment that a client sends with every command.
#[derive(Debug, Clone)]
pub struct ClientConfig {
    /// The API username (`ApiUser`).
    pub api_user: String,
    /// The API key (`ApiKey`).
    pub api_key: String,
    /// The account username (`UserName`).
    pub user_name: String,
    /// The whitelisted client IP (`ClientIp`).
    pub client_ip: String,
    /// The environment the client targets.
    pub environment: Environment,
}

/// The global parameters that precede the command's own parameters.
pub open spec fn global_params(config: ClientConfig, command: Seq<char>) -> Seq<(Seq<char>, Seq<char>)> {
    seq![
        ("ApiUser"@, config.api_user@),
        ("ApiKey"@, config.api_key@),
        ("UserName"@, config.user_name@),
        ("ClientIp"@, config.client_ip@),
        ("Command"@, command),
    ]
}

impl ClientConfig {
    /// Resolves the settings of a client builder.
    ///
    /// `api_user`, `api_key` and `client_ip` are required, checked in that
    /// order; `user_name` defaults to `api_user`.
    pub fn resolve(
        api_user: Option<String>,
        api_key: Option<String>,
        user_name: Option<String>,
        client_ip: Option<String>,
        environment: Environment,
    ) -> (res: Result<ClientConfig, Error>)
        ensures
            api_user is None ==> (res matches Err(Error::Configuration(m)) && m@
                == "`api_user` is required"@),
            api_user is Some && api_key is None ==> (res matches Err(Error::Configuration(m)) && m@
                == "`api_key` is required"@),
            api_user is Some && api_key is Some && client_ip is None ==> (res matches Err(
                Error::Configuration(m),
            ) && m@ == "`client_ip` is required"@),
            api_user is Some && api_key is Some && client_ip is Some ==> (res matches Ok(c) && {
                &&& c.api_user == api_user->0
                &&& c.api_key == api_key->0
                &&& c.client_ip == client_ip->0
                &&& c.user_name == match user_name {
                    Some(u) => u,
                    None => api_user->0,
                }
                &&& c.environment == environment
            }),
    {
        let api_user = match api_user {
            Some(v) => v,
            None => {
                return Err(Error::Configuration(String::from_str("`api_user` is required")));
            },
        };
        let api_key = match api_key {
            Some(v) => v,
            None => {
                return Err(Error::Configuration(String::from_str("`api_key` is required")));
            },
        };
        let client_ip = match client_ip {
            Some(v) => v,
            None => {
                return Err(Error::Configuration(String::from_str("`client_ip` is required")));
            },
        };
        let user_name = match user_name {
            Some(u) => u,
            None => api_user.clone(),
        };
        Ok(ClientConfig { api_user, api_key, user_name, client_ip, environment })
    }

    /// The environment this configuration targets.
    pub fn environment(&self) -> (res: Environment)
        ensures
            res == self.environment,
    {
        self.environment
    }

    /// The full query of a command: the global parameters `ApiUser`,
    /// `ApiKey`, `UserName`, `ClientIp` and `Command`, then `params`.
    pub fn query(&self, command: &str, params: Vec<(String, String)>) -> (res: Vec<(String, String)>)
        ensures
            res.deep_view() == global_params(*self, command@) + params.deep_view(),
    {
        let mut query: Vec<(String, String)> = Vec::new();
        push_param(&mut query, String::from_str("ApiUser"), self.api_user.clone());
        push_param(&mut query, String::from_str("ApiKey"), self.api_key.clone());
        push_param(&mut query, String::from_str("UserName"), self.user_name.clone());
        push_param(&mut query, String::from_str("ClientIp"), self.client_ip.clone());
        push_param(&mut query, String::from_str("Command"), String::from_str(command));
        assert(query.deep_view() =~= global_params(*self, command@));
        append_params(&mut query, params);
        query
    }
}

} // verus!
