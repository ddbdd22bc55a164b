//! The connection parameters every component shares: an API key, the
//! ingestion endpoint and a workspace name. Loading them from disk or
//! from the environment happens outside the library; the library
//! checks the values and hands them read-only to each component.

use vstd::prelude::*;
use vstd::string::*;

verus! {

/// Connection parameters for the ingestion gateway.
#[derive(Clone, Debug)]
pub struct Config {
    pub api_key: String,
    pub ingest_url: String,
    pub workspace: String,
}

/// Whether `url::Url::parse` accepts the text as an absolute URL.
pub uninterp spec fn url_ok(s: Seq<char>) -> bool;

/// Relies on url::Url::parse: acceptance depends on the text alone.
#[verifier::external_body]
fn parses_as_url(s: &str) -> (r: bool)
    ensures
        r == url_ok(s@),
{
    url::Url::parse(s).is_ok()
}

/// Why a configuration is refused.
#[derive(Clone, Copy, Debug, PartialEq, Eq, Structural)]
pub enum ConfigError {
    /// The API key has fewer than 16 characters.
    ApiKeyTooShort,
    /// The ingestion endpoint is not a well-formed URL.
    InvalidIngestUrl,
    /// The workspace name is empty.
    EmptyWorkspace,
}

/// A configuration the components accept: a key of at least 16
/// characters, a well-formed endpoint URL and a non-empty workspace.
pub open spec fn config_valid(api_key: Seq<char>, ingest_url: Seq<char>, workspace: Seq<char>) -> bool {
    api_key.len() >= 16 && url_ok(ingest_url) && workspace.len() >= 1
}

impl Config {
    /// Checks the three rules in order and names the first one broken;
    /// `Ok` exactly on valid values.
    pub fn validate(&self) -> (r: Result<(), ConfigError>)
        ensures
            r is Ok <==> config_valid(self.api_key@, self.ingest_url@, self.workspace@),
            r == (if self.api_key@.len() < 16 {
                Result::<(), ConfigError>::Err(ConfigError::ApiKeyTooShort)
            } else if !url_ok(self.ingest_url@) {
                Result::<(), ConfigError>::Err(ConfigError::InvalidIngestUrl)
            } else if self.workspace@.len() == 0 {
                Result::<(), ConfigError>::Err(ConfigError::EmptyWorkspace)
            } else {
                Result::<(), ConfigError>::Ok(())
            }),
    {
        if self.api_key.as_str().unicode_len() < 16 {
            return Err(ConfigError::ApiKeyTooShort);
        }
        if !parses_as_url(self.ingest_url.as_str()) {
            return Err(ConfigError::InvalidIngestUrl);
        }
        if self.workspace.as_str().unicode_len() == 0 {
            return Err(ConfigError::EmptyWorkspace);
        }
        Ok(())
    }
}

/// The configuration files looked for, in order: an explicit path
/// first, then the dotfile names tried in the working directory.
pub fn config_search_names(custom: Option<String>) -> (r: Vec<String>)
    ensures
        custom matches Some(p) ==> r@.len() == 4 && r@[0] == p && r@[1]@ == ".pynthorarc"@
            && r@[2]@ == ".pynthorarc.json"@ && r@[3]@ == ".pynthorarc.yaml"@,
        custom is None ==> r@.len() == 3 && r@[0]@ == ".pynthorarc"@ && r@[1]@
            == ".pynthorarc.json"@ && r@[2]@ == ".pynthorarc.yaml"@,
{
    let mut r: Vec<String> = Vec::new();
    match custom {
        Some(p) => {
            r.push(p);
        },
        None => {
        },
    }
    r.push(".pynthorarc".to_owned());
    r.push(".pynthorarc.json".to_owned());
    r.push(".pynthorarc.yaml".to_owned());
    r
}

} // verus!
