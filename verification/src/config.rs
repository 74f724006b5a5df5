//! The service's settings.
use vstd::prelude::*;

use crate::error::AppError;
use crate::item::strings_view;
use crate::text::{join_text, str_chars, string_from_chars};

verus! {

/// Where the database is.
#[derive(Clone, Debug)]
pub struct DatabaseConfig {
    pub region: String,
    /// The endpoint of a local DynamoDB, if one is used.
    pub endpoint: Option<String>,
}

/// How the GraphQL endpoint behaves.
#[derive(Clone, Debug)]
pub struct GraphQLConfig {
    pub playground: bool,
    pub introspection: bool,
    pub complexity_limit: Option<usize>,
    pub depth_limit: Option<usize>,
}

/// How tokens are signed and how long they last.
#[derive(Clone, Debug)]
pub struct AuthConfig {
    pub jwt_secret: String,
    /// Seconds.
    pub token_expiry: u64,
}

/// The AWS account and region.
#[derive(Clone, Debug)]
pub struct AwsConfig {
    pub region: String,
    pub access_key_id: Option<String>,
    pub secret_access_key: Option<String>,
}

/// All settings.
#[derive(Clone, Debug)]
pub struct Config {
    pub database: DatabaseConfig,
    pub graphql: GraphQLConfig,
    pub auth: AuthConfig,
    pub aws: AwsConfig,
    pub environment: String,
    pub allow_origins: String,
    pub log_level: String,
}

impl Config {
    /// The error reported when the settings cannot be read from the environment.
    pub fn load_failure(cause: &str) -> (res: AppError)
        ensures
            res matches AppError::ConfigError(m) && m@ == "Failed to load config from environment: "@ + cause@,
    {
        AppError::ConfigError(join_text("Failed to load config from environment: ", cause))
    }
}

/// The pieces of `s` between the occurrences of `c`, as `str::split` gives
/// them: one more piece than there are separators, empty pieces included.
pub open spec fn split_on(s: Seq<char>, c: char) -> Seq<Seq<char>>
    decreases s.len(),
{
    if s.len() == 0 {
        seq![Seq::empty()]
    } else {
        let rest = split_on(s.drop_last(), c);
        if s.last() == c {
            rest.push(Seq::empty())
        } else {
            rest.update(rest.len() - 1, rest.last().push(s.last()))
        }
    }
}

impl Config {
    /// The origins allowed to call the service outside development: the
    /// configured list cut at each comma.
    pub fn allowed_origins(&self) -> (res: Vec<String>)
        ensures
            strings_view(res@) == split_on(self.allow_origins@, ','),
    {
        let cs = str_chars(self.allow_origins.as_str());
        let mut done: Vec<String> = Vec::new();
        let mut cur: Vec<char> = Vec::new();
        let mut i: usize = 0;
        while i < cs.len()
            invariant
                cs@ == self.allow_origins@,
                i <= cs.len(),
                split_on(cs@.take(i as int), ',') == strings_view(done@).push(cur@),
            decreases cs.len() - i,
        {
            let ghost before = cs@.take(i as int);
            assert(cs@.take(i + 1).drop_last() =~= before);
            assert(cs@.take(i + 1).last() == cs@[i as int]);
            if cs[i] == ',' {
                let piece = string_from_chars(cur.as_slice());
                done.push(piece);
                cur = Vec::new();
                assert(strings_view(done@).push(cur@) =~= split_on(cs@.take(i + 1), ','));
            } else {
                cur.push(cs[i]);
                assert(strings_view(done@).push(cur@) =~= split_on(cs@.take(i + 1), ','));
            }
            i = i + 1;
        }
        assert(cs@.take(i as int) =~= cs@);
        let last = string_from_chars(cur.as_slice());
        done.push(last);
        assert(strings_view(done@) =~= split_on(self.allow_origins@, ','));
        done
    }
}

impl Default for Config {
    /// Settings for local development: a local DynamoDB in us-east-2, the
    /// playground and introspection on, tokens of an hour.
    fn default() -> (res: Self)
        ensures
            res.database.region@ == "us-east-2"@,
            res.database.endpoint matches Some(e) && e@ == "http://localhost:8000"@,
            res.graphql.playground && res.graphql.introspection,
            res.graphql.complexity_limit == Some(1000usize),
            res.graphql.depth_limit == Some(10usize),
            res.auth.jwt_secret@ == "default-secret-change-in-production"@,
            res.auth.token_expiry == 3600,
            res.aws.region@ == "us-east-2"@,
            res.aws.access_key_id is None && res.aws.secret_access_key is None,
            res.environment@ == "dev"@,
            res.allow_origins@ == ""@,
            res.log_level@ == "error"@,
    {
        Config {
            database: DatabaseConfig {
                region: "us-east-2".to_owned(),
                endpoint: Some("http://localhost:8000".to_owned()),
            },
            graphql: GraphQLConfig {
                playground: true,
                introspection: true,
                complexity_limit: Some(1000),
                depth_limit: Some(10),
            },
            auth: AuthConfig { jwt_secret: "default-secret-change-in-production".to_owned(), token_expiry: 3600 },
            aws: AwsConfig { region: "us-east-2".to_owned(), access_key_id: None, secret_access_key: None },
            environment: "dev".to_owned(),
            allow_origins: "".to_owned(),
            log_level: "error".to_owned(),
        }
    }
}

} // verus!
