//! The supported file formats and the extension tokens that name them.

use crate::text::same_text;
use vstd::prelude::*;

verus! {

/// A supported configuration format.
#[derive(Debug, Copy, Clone, PartialEq, Eq, Structural)]
pub enum Extension {
    /// Lines of `KEY=VALUE`; named by the tokens ``, `local`, `development` and `test`.
    ENV,
    /// Named by the token `json`.
    JSON,
    /// Named by the token `toml`.
    TOML,
    /// Named by the tokens `yml` and `yaml`.
    YAML,
}

/// The encoder that writes a value back in a given format.
#[derive(Debug, Copy, Clone, PartialEq, Eq, Structural)]
pub enum Encoder {
    /// JSON, pretty-printed.
    JsonPretty,
    /// TOML, pretty-printed.
    TomlPretty,
    /// YAML, in the encoder's default layout.
    Yaml,
}

/// The token that no format answers to.
#[derive(Debug, PartialEq, Eq)]
pub struct ClassificationError {
    pub token: String,
}

impl Extension {
    /// The tokens that name this format. A token names a format only as it
    /// is written here: no case is folded and nothing is trimmed.
    pub open spec fn aliases(self) -> Set<Seq<char>> {
        match self {
            Extension::ENV => set![""@, "local"@, "development"@, "test"@],
            Extension::JSON => set!["json"@],
            Extension::TOML => set!["toml"@],
            Extension::YAML => set!["yml"@, "yaml"@],
        }
    }

    /// The format that a token names, if any.
    pub open spec fn classification(token: Seq<char>) -> Option<Extension> {
        if Extension::ENV.aliases().contains(token) {
            Some(Extension::ENV)
        } else if Extension::JSON.aliases().contains(token) {
            Some(Extension::JSON)
        } else if Extension::TOML.aliases().contains(token) {
            Some(Extension::TOML)
        } else if Extension::YAML.aliases().contains(token) {
            Some(Extension::YAML)
        } else {
            None
        }
    }

    /// The one suffix under which files of this format are stored.
    pub open spec fn canonical(self) -> Seq<char> {
        match self {
            Extension::ENV => "env"@,
            Extension::JSON => "json"@,
            Extension::TOML => "toml"@,
            Extension::YAML => "yml"@,
        }
    }

    /// The encoder of this format; `ENV` files are read but never written.
    pub open spec fn encoding(self) -> Option<Encoder> {
        match self {
            Extension::ENV => None,
            Extension::JSON => Some(Encoder::JsonPretty),
            Extension::TOML => Some(Encoder::TomlPretty),
            Extension::YAML => Some(Encoder::Yaml),
        }
    }

    /// What classifying `token` gives: the format that the token names, or
    /// else an error that carries the token as it was given.
    pub open spec fn classifies(
        token: Seq<char>,
        outcome: Result<Extension, ClassificationError>,
    ) -> bool {
        match Extension::classification(token) {
            Some(format) => outcome == Ok::<Extension, ClassificationError>(format),
            None => outcome matches Err(error) && error.token@ == token,
        }
    }

    /// Classifies an extension token, or hands the token back in the error.
    pub fn classify(token: &str) -> (outcome: Result<Extension, ClassificationError>)
        ensures
            Extension::classifies(token@, outcome),
    {
        if same_text(token, "") || same_text(token, "local") || same_text(token, "development")
            || same_text(token, "test") {
            Ok(Extension::ENV)
        } else if same_text(token, "json") {
            Ok(Extension::JSON)
        } else if same_text(token, "toml") {
            Ok(Extension::TOML)
        } else if same_text(token, "yml") || same_text(token, "yaml") {
            Ok(Extension::YAML)
        } else {
            Err(ClassificationError { token: token.to_owned() })
        }
    }

    /// The canonical suffix of this format.
    pub fn canonical_extension(self) -> (suffix: &'static str)
        ensures
            suffix@ == self.canonical(),
    {
        match self {
            Extension::ENV => "env",
            Extension::JSON => "json",
            Extension::TOML => "toml",
            Extension::YAML => "yml",
        }
    }

    /// The canonical suffix as an owned string.
    pub fn to_string(&self) -> (suffix: String)
        ensures
            suffix@ == self.canonical(),
    {
        self.canonical_extension().to_owned()
    }

    /// The encoder of this format, if it has one.
    pub fn encoder(self) -> (encoder: Option<Encoder>)
        ensures
            encoder == self.encoding(),
    {
        match self {
            Extension::ENV => None,
            Extension::JSON => Some(Encoder::JsonPretty),
            Extension::TOML => Some(Encoder::TomlPretty),
            Extension::YAML => Some(Encoder::Yaml),
        }
    }
}

impl core::str::FromStr for Extension {
    type Err = ClassificationError;

    /// Classifies an extension token, as `classify` does.
    fn from_str(token: &str) -> (outcome: Result<Self, Self::Err>)
        ensures
            Extension::classifies(token@, outcome),
    {
        Extension::classify(token)
    }
}

/// A token is classified to the one format that it names: no token names
/// two formats, and a token that names none is not classified.
pub proof fn lemma_classification_is_by_alias(token: Seq<char>, format: Extension)
    ensures
        Extension::classification(token) == Some(format) <==> format.aliases().contains(token),
{
    lemma_tokens_differ();
}

/// Every format but `ENV` is named by its own canonical suffix.
pub proof fn lemma_canonical_round_trip(format: Extension)
    requires
        format != Extension::ENV,
    ensures
        Extension::classification(format.canonical()) == Some(format),
{
    lemma_tokens_differ();
}

/// The canonical suffix of `ENV` is not among the tokens that name it, nor
/// does it name any other format.
pub proof fn lemma_env_suffix_is_no_token()
    ensures
        Extension::classification(Extension::ENV.canonical()) is None,
{
    lemma_tokens_differ();
}

/// The length and the first two characters of each token and suffix, which
/// tell them all apart.
proof fn lemma_tokens_differ()
    ensures
        ""@.len() == 0,
        "local"@.len() == 5,
        "development"@.len() == 11,
        "env"@.len() == 3,
        "yml"@.len() == 3,
        "env"@[0] == 'e',
        "yml"@[0] == 'y',
        "test"@.len() == 4,
        "json"@.len() == 4,
        "toml"@.len() == 4,
        "yaml"@.len() == 4,
        "test"@[0] == 't' && "test"@[1] == 'e',
        "json"@[0] == 'j',
        "toml"@[0] == 't' && "toml"@[1] == 'o',
        "yaml"@[0] == 'y',
{
    reveal_strlit("");
    reveal_strlit("local");
    reveal_strlit("development");
    reveal_strlit("test");
    reveal_strlit("json");
    reveal_strlit("toml");
    reveal_strlit("yml");
    reveal_strlit("yaml");
    reveal_strlit("env");
}

} // verus!
