//! The configuration resolver: the effective `{token, base_url}` pair is
//! determined from environment values, a persisted document, and explicit
//! mutation, with a fixed precedence, and validated before use.
//!
//! Reading environment variables and the configuration file is I/O and is
//! done by the surrounding program; the resolution decisions themselves are
//! verified here over the plain values handed in.

use vstd::prelude::*;
use crate::error::Error;
use crate::urls::url_parse_ok;
use crate::urls::url_is_valid;

verus! {

/// The base URL used when none is configured.
pub open spec fn spec_default_base_url() -> Seq<char> {
    "https://api.digitalocean.com"@
}

/// What `toml::to_string_pretty` returns for a document holding the two
/// configuration fields. The text depends on the field values alone.
pub uninterp spec fn config_doc(token: Seq<char>, base_url: Seq<char>) -> Seq<char>;

/// What `toml::from_str` extracts from a configuration document: the token
/// and, when the field is present, the base URL, when the text parses as a
/// table holding them as strings. The result depends on the text alone.
pub uninterp spec fn config_doc_fields(doc: Seq<char>) -> Option<(Seq<char>, Option<Seq<char>>)>;

/// The fields a document loads as: the parsed fields, with an absent or
/// empty `base_url` silently replaced by the default.
pub open spec fn loaded_fields(doc: Seq<char>) -> Option<(Seq<char>, Seq<char>)> {
    match config_doc_fields(doc) {
        Some(f) => Some(
            (
                f.0,
                match f.1 {
                    Some(b) => if b.len() == 0 {
                        spec_default_base_url()
                    } else {
                        b
                    },
                    None => spec_default_base_url(),
                },
            ),
        ),
        None => None,
    }
}

/// How a token is presented: never shown in full once set.
pub open spec fn masked_token(t: Seq<char>) -> Seq<char> {
    if t.len() == 0 {
        "<not set>"@
    } else if t.len() <= 8 {
        "***"@
    } else {
        t.subrange(0, 4) + "..."@ + t.subrange(t.len() - 4, t.len() as int)
    }
}

/// The effective client configuration.
pub struct Config {
    pub token: String,
    pub base_url: String,
}

/// Relies on `toml::to_string_pretty` over a table of the two string
/// fields. It is documented to fail only for non-string map keys or
/// unsupported datatypes, neither of which a table of two string values
/// holds, so success is unconditional. The second clause records that
/// `toml::from_str` recovers the fields from the produced document (the
/// serde round trip).
#[verifier::external_body]
fn encode_config_document(token: &str, base_url: &str) -> (r: Result<String, String>)
    ensures
        r is Ok,
        r matches Ok(s) ==> s@ == config_doc(token@, base_url@)
            && config_doc_fields(s@) == Some((token@, Some(base_url@))),
{
    let mut table = toml::Table::new();
    table.insert("token".to_string(), toml::Value::String(token.to_string()));
    table.insert("base_url".to_string(), toml::Value::String(base_url.to_string()));
    toml::to_string_pretty(&table).map_err(|e| e.to_string())
}

/// Relies on `toml::from_str`: extracts the token and the base URL, when
/// present, from a document, or reports that the document does not hold
/// them as strings.
#[verifier::external_body]
fn parse_config_document(doc: &str) -> (r: Option<(String, Option<String>)>)
    ensures
        (r matches Some(f) ==> config_doc_fields(doc@) == Some(
            (
                f.0@,
                match f.1 {
                    Some(b) => Some(b@),
                    None => None,
                },
            ),
        )),
        (r is None ==> config_doc_fields(doc@) is None),
{
    let table: toml::Table = toml::from_str(doc).ok()?;
    let token = table.get("token")?.as_str()?.to_string();
    let base_url = match table.get("base_url") {
        Some(value) => Some(value.as_str()?.to_string()),
        None => None,
    };
    Some((token, base_url))
}

/// Compares two string slices by their characters.
pub(crate) fn str_eq(a: &str, b: &str) -> (r: bool)
    ensures
        r == (a@ == b@),
{
    let owned_a = String::from_str(a);
    let owned_b = String::from_str(b);
    owned_a == owned_b
}

/// The default base URL as a value.
pub fn default_base_url() -> (r: String)
    ensures
        r@ == spec_default_base_url(),
{
    String::from_str("https://api.digitalocean.com")
}

impl Config {
    /// A configuration with the given token and the default base URL.
    pub fn new(token: String) -> (r: Config)
        ensures
            r.token@ == token@,
            r.base_url@ == spec_default_base_url(),
    {
        Config { token, base_url: default_base_url() }
    }

    /// The same configuration with the base URL replaced.
    pub fn with_base_url(self, base_url: String) -> (r: Config)
        ensures
            r.token@ == self.token@,
            r.base_url@ == base_url@,
    {
        Config { token: self.token, base_url }
    }

    /// A configuration is valid when it holds a token and its base URL
    /// parses as an absolute URL.
    pub fn validate(&self) -> (r: Result<(), Error>)
        ensures
            r is Ok <==> self.token@.len() > 0 && url_parse_ok(self.base_url@),
            self.token@.len() == 0 ==> (r matches Err(e) && e is MissingToken),
            self.token@.len() > 0 && !url_parse_ok(self.base_url@) ==> (r matches Err(e)
                && (e matches Error::Config(m) && m@ == "Invalid base URL"@)),
    {
        if self.token.as_str().is_empty() {
            return Err(Error::MissingToken);
        }
        if !url_is_valid(self.base_url.as_str()) {
            return Err(Error::Config(String::from_str("Invalid base URL")));
        }
        Ok(())
    }

    /// Resolution from the environment alone: the token variable is
    /// required, the base URL variable is optional and defaults.
    pub fn from_env_values(token: Option<String>, base_url: Option<String>) -> (r: Result<
        Config,
        Error,
    >)
        ensures
            token matches Some(t) ==> (r matches Ok(c) && c.token@ == t@ && c.base_url@
                == (match base_url {
                Some(b) => b@,
                None => spec_default_base_url(),
            })),
            token is None ==> (r matches Err(e) && (e matches Error::Config(m) && m@
                == "DIGITALOCEAN_TOKEN environment variable not set"@)),
    {
        match token {
            Some(t) => Ok(
                Config {
                    token: t,
                    base_url: match base_url {
                        Some(b) => b,
                        None => default_base_url(),
                    },
                },
            ),
            None => Err(
                Error::Config(String::from_str("DIGITALOCEAN_TOKEN environment variable not set")),
            ),
        }
    }

    /// The full resolution precedence. A set token variable resolves from
    /// the environment alone and the file content is ignored entirely;
    /// otherwise a loaded file is taken with the base URL variable as a
    /// field-level override; otherwise resolution fails.
    pub fn resolve(
        env_token: Option<String>,
        env_base_url: Option<String>,
        file: Option<Config>,
    ) -> (r: Result<Config, Error>)
        ensures
            env_token matches Some(t) ==> (r matches Ok(c) && c.token@ == t@ && c.base_url@
                == (match env_base_url {
                Some(b) => b@,
                None => spec_default_base_url(),
            })),
            env_token is None ==> (match file {
                Some(f) => r matches Ok(c) && c.token@ == f.token@ && c.base_url@
                    == (match env_base_url {
                    Some(b) => b@,
                    None => f.base_url@,
                }),
                None => r matches Err(e) && (e matches Error::Config(m) && m@
                    == "No configuration found. Set DIGITALOCEAN_TOKEN environment variable or create config file."@),
            }),
    {
        if env_token.is_some() {
            return Self::from_env_values(env_token, env_base_url);
        }
        match file {
            Some(f) => Ok(
                Config {
                    token: f.token,
                    base_url: match env_base_url {
                        Some(b) => b,
                        None => f.base_url,
                    },
                },
            ),
            None => Err(
                Error::Config(
                    String::from_str(
                        "No configuration found. Set DIGITALOCEAN_TOKEN environment variable or create config file.",
                    ),
                ),
            ),
        }
    }

    /// Loads a configuration from the persisted document's text, replacing
    /// an absent or empty base URL with the default.
    pub fn from_document(doc: &str) -> (r: Result<Config, Error>)
        ensures
            loaded_fields(doc@) matches Some(f) ==> (r matches Ok(c) && c.token@ == f.0
                && c.base_url@ == f.1),
            loaded_fields(doc@) is None ==> (r matches Err(e) && (e matches Error::Config(m) && m@
                == "Invalid config file"@)),
    {
        match parse_config_document(doc) {
            Some((token, opt_base_url)) => {
                let base_url = match opt_base_url {
                    Some(b) => {
                        if b.as_str().is_empty() {
                            default_base_url()
                        } else {
                            b
                        }
                    },
                    None => default_base_url(),
                };
                Ok(Config { token, base_url })
            },
            None => Err(Error::Config(String::from_str("Invalid config file"))),
        }
    }

    /// Serializes the configuration for persistence; serialization of the
    /// two-field document always succeeds. The final clause is the
    /// round-trip law: a saved document loads back as an equal
    /// configuration whenever the base URL is non-empty.
    pub fn to_document(&self) -> (r: String)
        ensures
            r@ == config_doc(self.token@, self.base_url@),
            config_doc_fields(r@) == Some((self.token@, Some(self.base_url@))),
            self.base_url@.len() > 0 ==> loaded_fields(r@) == Some(
                (self.token@, self.base_url@),
            ),
    {
        match encode_config_document(self.token.as_str(), self.base_url.as_str()) {
            Ok(s) => s,
            Err(_) => unreached(),
        }
    }

    /// Replaces the field a recognized key names; an unknown key is
    /// rejected and leaves the configuration unchanged.
    pub fn set_key(&mut self, key: &str, value: String) -> (r: Result<(), Error>)
        ensures
            key@ == "token"@ ==> r is Ok && final(self).token@ == value@ && final(self).base_url@
                == old(self).base_url@,
            key@ == "base-url"@ ==> r is Ok && final(self).base_url@ == value@
                && final(self).token@ == old(self).token@,
            key@ != "token"@ && key@ != "base-url"@ ==> (r matches Err(e) && (e
                matches Error::Config(m) && m@ == "Unknown config key: "@ + key@) && *final(self)
                == *old(self)),
    {
        proof {
            reveal_strlit("token");
            reveal_strlit("base-url");
            assert("token"@.len() == 5);
            assert("base-url"@.len() == 8);
            assert("token"@ != "base-url"@);
        }
        if str_eq(key, "token") {
            self.token = value;
            Ok(())
        } else if str_eq(key, "base-url") {
            self.base_url = value;
            Ok(())
        } else {
            let mut msg = String::from_str("Unknown config key: ");
            msg.append(key);
            Err(Error::Config(msg))
        }
    }

    /// The value a recognized key names, with the token masked for
    /// presentation; an unknown key is rejected.
    pub fn get_key(&self, key: &str) -> (r: Result<String, Error>)
        ensures
            key@ == "token"@ ==> (r matches Ok(s) && s@ == masked_token(self.token@)),
            key@ == "base-url"@ ==> (r matches Ok(s) && s@ == self.base_url@),
            key@ != "token"@ && key@ != "base-url"@ ==> (r matches Err(e) && (e
                matches Error::Config(m) && m@ == "Unknown config key: "@ + key@)),
    {
        proof {
            reveal_strlit("token");
            reveal_strlit("base-url");
            assert("token"@.len() == 5);
            assert("base-url"@.len() == 8);
            assert("token"@ != "base-url"@);
        }
        if str_eq(key, "token") {
            Ok(mask_token(self.token.as_str()))
        } else if str_eq(key, "base-url") {
            Ok(String::from_str(self.base_url.as_str()))
        } else {
            let mut msg = String::from_str("Unknown config key: ");
            msg.append(key);
            Err(Error::Config(msg))
        }
    }
}

/// Masks a token for display: absent, short, or first and last four
/// characters around an ellipsis.
pub fn mask_token(token: &str) -> (r: String)
    ensures
        r@ == masked_token(token@),
{
    let n = token.unicode_len();
    if n == 0 {
        String::from_str("<not set>")
    } else if n <= 8 {
        String::from_str("***")
    } else {
        let head = token.substring_char(0, 4);
        let tail = token.substring_char(n - 4, n);
        let mut out = String::from_str(head);
        out.append("...");
        out.append(tail);
        proof {
            assert(out@ =~= masked_token(token@));
        }
        out
    }
}

} // verus!
