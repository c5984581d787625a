//! The providers that can be asked, their names and the keys to them.
use vstd::prelude::*;
use vstd::string::*;

use crate::providers::anthropic::ModelNames;
use crate::text::same;

verus! {

#[derive(Debug, Clone, Copy, PartialEq, Eq, Structural)]
pub enum LlmProvider {
    OpenAi,
    Anthropic,
    Gemini,
}

impl LlmProvider {
    /// The name of a provider.
    pub open spec fn wire(self) -> Seq<char> {
        match self {
            LlmProvider::OpenAi => "openai"@,
            LlmProvider::Anthropic => "anthropic"@,
            LlmProvider::Gemini => "gemini"@,
        }
    }

    /// The model that is asked for where no other is.
    pub open spec fn standard_model(self, names: ModelNames) -> Seq<char> {
        match self {
            LlmProvider::OpenAi => "gpt-4o-mini"@,
            LlmProvider::Anthropic => names.default_model@,
            LlmProvider::Gemini => "gemini-3.6-flash"@,
        }
    }

    /// The provider with the given name. Any other text names none.
    pub fn from_wire_str(s: &str) -> (r: Option<LlmProvider>)
        ensures
            r == named_provider(s@),
    {
        if same(s, "openai") {
            Some(LlmProvider::OpenAi)
        } else if same(s, "anthropic") {
            Some(LlmProvider::Anthropic)
        } else if same(s, "gemini") {
            Some(LlmProvider::Gemini)
        } else {
            None
        }
    }

    /// The name of a provider.
    pub fn as_wire_str(self) -> (r: &'static str)
        ensures
            r@ == self.wire(),
    {
        match self {
            LlmProvider::OpenAi => "openai",
            LlmProvider::Anthropic => "anthropic",
            LlmProvider::Gemini => "gemini",
        }
    }
}

/// The provider with the given name.
pub open spec fn named_provider(s: Seq<char>) -> Option<LlmProvider> {
    if s == "openai"@ {
        Some(LlmProvider::OpenAi)
    } else if s == "anthropic"@ {
        Some(LlmProvider::Anthropic)
    } else if s == "gemini"@ {
        Some(LlmProvider::Gemini)
    } else {
        None
    }
}

/// The model that is asked for where no other is.
pub fn default_model<'a>(provider: LlmProvider, names: &'a ModelNames) -> (r: &'a str)
    ensures
        r@ == provider.standard_model(*names),
{
    match provider {
        LlmProvider::OpenAi => "gpt-4o-mini",
        LlmProvider::Anthropic => names.default_model.as_str(),
        LlmProvider::Gemini => "gemini-3.6-flash",
    }
}

/// The provider with the given name, or that there is none.
pub fn parse_provider(provider: &str) -> (r: Result<LlmProvider, String>)
    ensures
        match named_provider(provider@) {
            Some(p) => r matches Ok(q) && q == p,
            None => r matches Err(e) && e@ == "unknown provider: "@ + provider@,
        },
{
    match LlmProvider::from_wire_str(provider) {
        Some(p) => Ok(p),
        None => {
            let mut e: String = "unknown provider: ".to_owned();
            e.append(provider);
            Err(e)
        },
    }
}

/// The service under which keys are kept.
pub const SERVICE_NAME: &'static str = "Smallbird";

/// The name under which the key to a provider is kept.
pub open spec fn key_entry(wire: Seq<char>) -> Seq<char> {
    "personal-api-key-"@ + wire
}

/// The name under which the key with the given name is kept.
pub fn entry_name(wire: &str) -> (r: String)
    ensures
        r@ == key_entry(wire@),
{
    let mut name: String = "personal-api-key-".to_owned();
    name.append(wire);
    name
}

/// What can go wrong with the store of keys.
#[derive(Debug, Clone, PartialEq, Eq)]
pub enum KeyStoreError {
    /// There is no key.
    NoEntry,
    Other(String),
}

/// The error of an operation on a key, with what could not be done.
fn key_error(what: &str, error: &str) -> (r: String)
    ensures
        r@ == what@ + error@,
{
    let mut e: String = what.to_owned();
    e.append(error);
    e
}

/// The message where the store of keys cannot be had.
pub fn store_unavailable(error: &str) -> (r: String)
    ensures
        r@ == "credential store unavailable: "@ + error@,
{
    key_error("credential store unavailable: ", error)
}

/// The result of storing a key, given what the store said.
pub fn store_key(said: Result<(), String>) -> (r: Result<(), String>)
    ensures
        match said {
            Ok(_) => r is Ok,
            Err(e) => r matches Err(m) && m@ == "failed to store API key: "@ + e@,
        },
{
    match said {
        Ok(_) => Ok(()),
        Err(e) => Err(key_error("failed to store API key: ", e.as_str())),
    }
}

/// The key that was read, given what the store said. That there is none is no
/// failure.
pub fn load_key(said: Result<String, KeyStoreError>) -> (r: Result<Option<String>, String>)
    ensures
        match said {
            Ok(key) => r matches Ok(Some(k)) && k@ == key@,
            Err(KeyStoreError::NoEntry) => r matches Ok(None),
            Err(KeyStoreError::Other(e)) => r matches Err(m) && m@ == "failed to read API key: "@
                + e@,
        },
{
    match said {
        Ok(key) => Ok(Some(key)),
        Err(KeyStoreError::NoEntry) => Ok(None),
        Err(KeyStoreError::Other(e)) => Err(key_error("failed to read API key: ", e.as_str())),
    }
}

/// The result of clearing a key, given what the store said. That there was none
/// is no failure.
pub fn clear_key(said: Result<(), KeyStoreError>) -> (r: Result<(), String>)
    ensures
        match said {
            Ok(_) => r is Ok,
            Err(KeyStoreError::NoEntry) => r is Ok,
            Err(KeyStoreError::Other(e)) => r matches Err(m) && m@ == "failed to clear API key: "@
                + e@,
        },
{
    match said {
        Ok(_) => Ok(()),
        Err(KeyStoreError::NoEntry) => Ok(()),
        Err(KeyStoreError::Other(e)) => Err(key_error("failed to clear API key: ", e.as_str())),
    }
}

/// Every provider is found again by its name.
pub proof fn names_are_found_again(provider: LlmProvider)
    ensures
        named_provider(provider.wire()) == Some(provider),
{
    reveal_strlit("openai");
    reveal_strlit("anthropic");
    reveal_strlit("gemini");
    assert("openai"@.len() != "anthropic"@.len());
    assert("anthropic"@.len() != "gemini"@.len());
    assert("openai"@[0] != "gemini"@[0]);
}

/// The only texts that name a provider are the names of providers.
pub proof fn only_names_are_found(s: Seq<char>)
    ensures
        named_provider(s) matches Some(p) ==> p.wire() == s,
{
}

/// The keys to two providers are kept apart.
pub proof fn keys_are_kept_apart(a: LlmProvider, b: LlmProvider)
    requires
        a != b,
    ensures
        key_entry(a.wire()) != key_entry(b.wire()),
{
    names_are_found_again(a);
    names_are_found_again(b);
    if key_entry(a.wire()) == key_entry(b.wire()) {
        let n = "personal-api-key-"@.len() as int;
        assert(key_entry(a.wire()).skip(n) =~= a.wire());
        assert(key_entry(b.wire()).skip(n) =~= b.wire());
    }
}

/// Each provider goes by its own name, and nothing else names one.
pub proof fn each_provider_goes_by_its_name(s: Seq<char>, names: ModelNames)
    ensures
        named_provider(s) == Some(LlmProvider::OpenAi) <==> s == "openai"@,
        named_provider(s) == Some(LlmProvider::Anthropic) <==> s == "anthropic"@,
        named_provider(s) == Some(LlmProvider::Gemini) <==> s == "gemini"@,
        LlmProvider::Anthropic.standard_model(names) == names.default_model@,
{
    names_are_found_again(LlmProvider::OpenAi);
    names_are_found_again(LlmProvider::Anthropic);
    names_are_found_again(LlmProvider::Gemini);
}

} // verus!
