//! Small decisions that the commands share: which network an endpoint belongs to, and
//! which program binary an action works on.

use crate::error::ProtocolError;
use vstd::prelude::*;
use vstd::string::{StrSliceExecFns, StringExecFns};

verus! {

/// Tells whether `word` stands in `text` at position `at`.
pub open spec fn occurs_at(text: Seq<char>, word: Seq<char>, at: int) -> bool {
    0 <= at && at + word.len() <= text.len() && text.subrange(at, at + word.len()) == word
}

/// Tells whether `word` stands somewhere in `text`.
pub open spec fn text_contains(text: Seq<char>, word: Seq<char>) -> bool {
    exists|at: int| occurs_at(text, word, at)
}

/// The network that an endpoint belongs to, by the first of `devnet`, `mainnet` and
/// `testnet` that its address holds; `localhost` where it holds none of them, `unknown`
/// where there is no endpoint.
pub open spec fn network_name_of(rpc_url: Option<Seq<char>>) -> Seq<char> {
    match rpc_url {
        None => "unknown"@,
        Some(url) => if text_contains(url, "devnet"@) {
            "devnet"@
        } else if text_contains(url, "mainnet"@) {
            "mainnet-beta"@
        } else if text_contains(url, "testnet"@) {
            "testnet"@
        } else {
            "localhost"@
        },
    }
}

/// The program binary to work on: the one that was named, else the one that was found;
/// without either there is nothing to deploy.
pub open spec fn chosen_program_file(named: Option<Seq<char>>, found: Option<Seq<char>>) -> Result<
    Seq<char>,
    ProtocolError,
> {
    match named {
        Some(path) => Ok(path),
        None => match found {
            Some(path) => Ok(path),
            None => Err(ProtocolError::MissingArtifact),
        },
    }
}

/// The characters of a text.
fn chars_of(text: &str) -> (r: Vec<char>)
    ensures
        r@ == text@,
{
    let count = text.unicode_len();
    let mut chars: Vec<char> = Vec::new();
    let mut i: usize = 0;
    while i < count
        invariant
            i <= count,
            count == text@.len(),
            chars@ == text@.subrange(0, i as int),
        decreases count - i,
    {
        chars.push(text.get_char(i));
        assert(chars@ =~= text@.subrange(0, i + 1));
        i = i + 1;
    }
    assert(text@.subrange(0, count as int) =~= text@);
    chars
}

/// Tells whether `word` stands in `text` at position `at`.
fn matches_at(text: &Vec<char>, word: &Vec<char>, at: usize) -> (r: bool)
    requires
        at + word@.len() <= text@.len(),
    ensures
        r == occurs_at(text@, word@, at as int),
{
    let length = text.len();
    let mut i: usize = 0;
    while i < word.len()
        invariant
            i <= word@.len(),
            length == text@.len(),
            at + word@.len() <= text@.len(),
            forall|j: int| 0 <= j < i ==> text@[at + j] == word@[j],
        decreases word@.len() - i,
    {
        if text[at + i] != word[i] {
            assert(text@.subrange(at as int, at + word@.len())[i as int] != word@[i as int]);
            return false;
        }
        i = i + 1;
    }
    assert(text@.subrange(at as int, at + word@.len()) =~= word@);
    true
}

/// Tells whether `word` stands somewhere in `text`.
pub fn contains_text(text: &str, word: &str) -> (r: bool)
    ensures
        r == text_contains(text@, word@),
{
    let hay = chars_of(text);
    let needle = chars_of(word);
    if needle.len() > hay.len() {
        return false;
    }
    let last = hay.len() - needle.len();
    let mut at: usize = 0;
    while at < last
        invariant
            at <= last,
            hay@ == text@,
            needle@ == word@,
            last == hay@.len() - needle@.len(),
            forall|k: int| 0 <= k < at ==> !occurs_at(hay@, needle@, k),
        decreases last - at,
    {
        if matches_at(&hay, &needle, at) {
            return true;
        }
        at = at + 1;
    }
    matches_at(&hay, &needle, last)
}

/// Names the network that an endpoint belongs to.
pub fn get_network_name(rpc_url: Option<&str>) -> (r: String)
    ensures
        r@ == network_name_of(
            match rpc_url {
                Some(url) => Some(url@),
                None => None,
            },
        ),
{
    match rpc_url {
        None => String::from_str("unknown"),
        Some(url) => {
            if contains_text(url, "devnet") {
                String::from_str("devnet")
            } else if contains_text(url, "mainnet") {
                String::from_str("mainnet-beta")
            } else if contains_text(url, "testnet") {
                String::from_str("testnet")
            } else {
                String::from_str("localhost")
            }
        },
    }
}

/// Picks the program binary to work on: the one named on the command line, else the one
/// found among the build outputs.
pub fn choose_program_file(named: Option<String>, found: Option<String>) -> (r: Result<
    String,
    ProtocolError,
>)
    ensures
        match r {
            Ok(path) => chosen_program_file(
                match named {
                    Some(p) => Some(p@),
                    None => None,
                },
                match found {
                    Some(p) => Some(p@),
                    None => None,
                },
            ) == Ok::<Seq<char>, ProtocolError>(path@),
            Err(e) => named is None && found is None && e == ProtocolError::MissingArtifact,
        },
{
    match named {
        Some(path) => Ok(path),
        None => match found {
            Some(path) => Ok(path),
            None => Err(ProtocolError::MissingArtifact),
        },
    }
}

} // verus!
