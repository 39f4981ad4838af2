//! Which protocol the inference backend speaks.
//!
//! Clients of the gateway always speak the Responses API. Behind it stands either a backend that
//! speaks the same, or one that serves only Chat Completions.

pub mod chat;
pub mod reply;

use vstd::prelude::*;

use crate::text::{join3, same_text, trim, trimmed};

verus! {

/// The protocol spoken to the inference backend.
#[derive(Debug, Clone, Copy, PartialEq, Eq, Structural)]
pub enum UpstreamApi {
    /// The Responses API: nothing is translated.
    Responses,
    /// The Chat Completions API: requests and replies are translated, and nothing is streamed.
    ChatCompletions,
}

/// The ASCII letter in lower case, the hyphen as an underscore, any other character as it is.
pub open spec fn folded(c: char) -> char {
    if 'A' <= c <= 'Z' {
        (c as u32 + 32) as char
    } else if c == '-' {
        '_'
    } else {
        c
    }
}

/// A protocol's name as it is compared: no surrounding whitespace, in lower case, with underscores.
pub open spec fn canonical_name(value: Seq<char>) -> Seq<char> {
    trimmed(value).map_values(|c: char| folded(c))
}

/// The protocol that goes by a name.
pub open spec fn named_api(value: Seq<char>) -> Option<UpstreamApi> {
    let name = canonical_name(value);
    if name == "responses"@ {
        Some(UpstreamApi::Responses)
    } else if name == "chat_completions"@ || name == "chat"@ {
        Some(UpstreamApi::ChatCompletions)
    } else {
        None
    }
}

pub open spec fn api_name(api: UpstreamApi) -> Seq<char> {
    match api {
        UpstreamApi::Responses => "responses"@,
        UpstreamApi::ChatCompletions => "chat_completions"@,
    }
}

/// What is said of a name that no protocol goes by.
pub open spec fn unknown_api(value: Seq<char>) -> Seq<char> {
    "unknown upstream API '"@ + canonical_name(value)
        + "' (expected 'responses' or 'chat_completions')"@
}

fn fold_char(c: char) -> (r: char)
    ensures
        r == folded(c),
{
    match c {
        'A' => 'a',
        'B' => 'b',
        'C' => 'c',
        'D' => 'd',
        'E' => 'e',
        'F' => 'f',
        'G' => 'g',
        'H' => 'h',
        'I' => 'i',
        'J' => 'j',
        'K' => 'k',
        'L' => 'l',
        'M' => 'm',
        'N' => 'n',
        'O' => 'o',
        'P' => 'p',
        'Q' => 'q',
        'R' => 'r',
        'S' => 's',
        'T' => 't',
        'U' => 'u',
        'V' => 'v',
        'W' => 'w',
        'X' => 'x',
        'Y' => 'y',
        'Z' => 'z',
        '-' => '_',
        _ => c,
    }
}

fn canonical(value: &str) -> (r: String)
    ensures
        r@ == canonical_name(value@),
{
    let text: &str = trim(value);
    let mut name: String = String::new();
    for c in it: text.chars()
        invariant
            it.seq() == text@,
            name@ == text@.take(it.index()).map_values(|c: char| folded(c)),
    {
        proof {
            assert(text@.take(it.index() + 1).map_values(|c: char| folded(c))
                =~= text@.take(it.index()).map_values(|c: char| folded(c)).push(folded(c)));
        }
        name.push(fold_char(c));
    }
    assert(text@.take(text@.len() as int) =~= text@);
    name
}

impl UpstreamApi {
    /// The path of inference calls, below the configured base URL.
    pub fn inference_path(self) -> (r: &'static str)
        ensures
            r@ == match self {
                UpstreamApi::Responses => "/v1/responses"@,
                UpstreamApi::ChatCompletions => "/v1/chat/completions"@,
            },
    {
        match self {
            UpstreamApi::Responses => "/v1/responses",
            UpstreamApi::ChatCompletions => "/v1/chat/completions",
        }
    }

    pub fn is_chat_completions(self) -> (r: bool)
        ensures
            r == (self == UpstreamApi::ChatCompletions),
    {
        match self {
            UpstreamApi::Responses => false,
            UpstreamApi::ChatCompletions => true,
        }
    }

    /// The protocol's name in configuration.
    pub fn name(self) -> (r: &'static str)
        ensures
            r@ == api_name(self),
    {
        match self {
            UpstreamApi::Responses => "responses",
            UpstreamApi::ChatCompletions => "chat_completions",
        }
    }

    /// The protocol that a configured name stands for.
    pub fn parse(value: &str) -> (r: Result<UpstreamApi, String>)
        ensures
            match r {
                Ok(api) => named_api(value@) == Some(api),
                Err(message) => named_api(value@) is None && message@ == unknown_api(value@),
            },
    {
        let name: String = canonical(value);
        if same_text(name.as_str(), "responses") {
            Ok(UpstreamApi::Responses)
        } else if same_text(name.as_str(), "chat_completions") || same_text(
            name.as_str(),
            "chat",
        ) {
            Ok(UpstreamApi::ChatCompletions)
        } else {
            Err(
                join3(
                    "unknown upstream API '",
                    name.as_str(),
                    "' (expected 'responses' or 'chat_completions')",
                ),
            )
        }
    }
}

impl Default for UpstreamApi {
    fn default() -> (r: UpstreamApi)
        ensures
            r == UpstreamApi::Responses,
    {
        UpstreamApi::Responses
    }
}

impl std::str::FromStr for UpstreamApi {
    type Err = String;

    fn from_str(value: &str) -> (r: Result<UpstreamApi, String>)
        ensures
            match r {
                Ok(api) => named_api(value@) == Some(api),
                Err(message) => named_api(value@) is None && message@ == unknown_api(value@),
            },
    {
        UpstreamApi::parse(value)
    }
}

proof fn lemma_plain_name(name: Seq<char>)
    requires
        name.len() > 0,
        forall|i: int|
            0 <= i < name.len() ==> 'a' <= #[trigger] name[i] <= 'z' || name[i] == '_',
    ensures
        canonical_name(name) == name,
{
    assert(trimmed(name) == name);
    assert(canonical_name(name) =~= name);
}

/// A protocol is found again by the name it goes by.
pub proof fn name_is_read_back(api: UpstreamApi)
    ensures
        named_api(api_name(api)) == Some(api),
{
    reveal_strlit("responses");
    reveal_strlit("chat_completions");
    lemma_plain_name(api_name(api));
    assert("responses"@.len() != "chat_completions"@.len());
}

} // verus!
