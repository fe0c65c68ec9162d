//! The command execution gateway.
//!
//! A caller supplies only a lookup key, never command text. The gateway
//! resolves the key against the registry and, on a hit, splits the bound
//! command line into the program name and its literal argument tokens.
//! Shell metacharacters are never interpreted: the tokens are handed to
//! the operating system as they stand. The captured output is accepted
//! only as valid UTF-8 text.

use vstd::prelude::*;
use vstd::utf8::{decode_utf8, valid_utf8};
use crate::registry::{lemma_lookup_in, lookup_in, Registry};
use crate::tokens::split_ws;
use crate::trusted::string_from_utf8;

verus! {

/// Why a gateway request fails.
#[derive(Debug)]
pub enum GatewayError {
    /// The key is bound to no command in the registry.
    UnknownCommand,
    /// The operating system could not start the resolved program; the
    /// payload is a short human-readable description.
    SpawnFailed(String),
    /// The captured output was not valid UTF-8 text.
    DecodeFailed,
}

impl GatewayError {
    /// The variant's fixed client-visible description; a spawn failure
    /// carries its own message instead.
    pub open spec fn spec_describe(&self) -> Seq<char> {
        match self {
            GatewayError::UnknownCommand => "No such command!"@,
            GatewayError::SpawnFailed(m) => m@,
            GatewayError::DecodeFailed => "Command output was not valid text!"@,
        }
    }

    /// A short client-visible message for this error.
    pub fn describe(&self) -> (r: String)
        ensures
            r@ == self.spec_describe(),
    {
        match self {
            GatewayError::UnknownCommand => String::from_str("No such command!"),
            GatewayError::SpawnFailed(m) => m.clone(),
            GatewayError::DecodeFailed => String::from_str("Command output was not valid text!"),
        }
    }
}

/// A resolved invocation: the program to start and its literal
/// arguments, exactly the whitespace tokens of the bound command line.
pub struct ExecPlan {
    pub program: String,
    pub args: Vec<String>,
}

impl ExecPlan {
    /// The plan matches command line `cmd`: the program is the first
    /// whitespace token of `cmd` and the arguments are the remaining
    /// tokens, in order, with nothing added or reinterpreted.
    pub open spec fn matches(&self, cmd: Seq<char>) -> bool {
        &&& split_ws(cmd).len() > 0
        &&& self.program@ == split_ws(cmd)[0]
        &&& self.args.deep_view() == split_ws(cmd).drop_first()
    }
}

/// Resolve `key` against the registry. A key bound in the registry
/// yields the plan for exactly its command line; any other key — and
/// only those — yields `UnknownCommand`.
pub fn plan(reg: &Registry, key: &String) -> (r: Result<ExecPlan, GatewayError>)
    requires
        reg.wf(),
    ensures
        match r {
            Ok(p) => lookup_in(reg@, key@) matches Some(cmd) && p.matches(cmd),
            Err(e) => e is UnknownCommand && lookup_in(reg@, key@) is None,
        },
{
    let entry = match reg.lookup(key) {
        Some(e) => e,
        None => {
            return Err(GatewayError::UnknownCommand);
        },
    };
    proof {
        lemma_lookup_in(reg@, key@);
        let i = choose|i: int|
            0 <= i < reg@.len() && (#[trigger] reg@[i]).0 == key@ && reg@[i].1 == entry.command@;
        assert(split_ws(reg@[i].1).len() > 0);
    }
    let mut toks = crate::tokens::split_whitespace_tokens(entry.command.as_str());
    let ghost all = toks.deep_view();
    assert(toks.len() == all.len());
    let program = toks.remove(0);
    proof {
        assert(toks.deep_view() =~= all.drop_first());
    }
    Ok(ExecPlan { program, args: toks })
}

/// Decode captured command output: the raw bytes verbatim when they are
/// valid UTF-8, and `DecodeFailed` — never a truncated or substituted
/// text — exactly when they are not.
pub fn decode_output(bytes: Vec<u8>) -> (r: Result<String, GatewayError>)
    ensures
        r is Ok <==> valid_utf8(bytes@),
        r matches Ok(s) ==> s@ == decode_utf8(bytes@),
        r matches Err(e) ==> e is DecodeFailed,
{
    match string_from_utf8(bytes) {
        Some(s) => Ok(s),
        None => Err(GatewayError::DecodeFailed),
    }
}

} // verus!
