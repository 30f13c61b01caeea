//! What can go wrong on a connection, and how a chain of causes is shown.

use crate::codec::CodecError;
use crate::protocol::ProtocolError;
use vstd::prelude::*;
use vstd::string::StringExecFns;

verus! {

/// Why a connection is given up. Whatever the cause, only this peer is
/// disconnected; no error ever reaches another session.
#[derive(Clone, Copy, Debug, PartialEq, Eq, Structural)]
pub enum Error {
    /// The socket failed. Would-block is not an error.
    Transport,
    /// The peer's bytes break the packet format.
    Protocol(ProtocolError),
    /// A message could not be encoded or decoded.
    Codec(CodecError),
}

/// What stands between two messages of a chain.
pub open spec fn chain_separator() -> Seq<char> {
    seq![' ', '-', '>', ' ']
}

/// The messages of a chain on one line: each followed by an arrow and the
/// message of its cause.
pub open spec fn chain_text(messages: Seq<Seq<char>>) -> Seq<char>
    decreases messages.len(),
{
    if messages.len() == 0 {
        Seq::empty()
    } else if messages.len() == 1 {
        messages[0]
    } else {
        messages[0] + chain_separator() + chain_text(messages.skip(1))
    }
}

/// The texts of a list of strings.
pub open spec fn texts(messages: Seq<String>) -> Seq<Seq<char>> {
    messages.map_values(|m: String| m@)
}

/// The chain from place `from` on.
fn chain_from(messages: &Vec<String>, from: usize) -> (line: String)
    requires
        from < messages.len(),
    ensures
        line@ == chain_text(texts(messages@).skip(from as int)),
    decreases messages.len() - from,
{
    let ghost here = texts(messages@).skip(from as int);
    let mut line: String = messages[from].clone();
    assert(here[0] == messages@[from as int]@);
    if from + 1 < messages.len() {
        let rest: String = chain_from(messages, from + 1);
        proof {
            reveal_strlit(" -> ");
            assert(" -> "@ =~= chain_separator());
            assert(here.skip(1) =~= texts(messages@).skip(from + 1));
        }
        line.append(" -> ");
        line.append(rest.as_str());
    }
    line
}

/// Shows an error with all its causes on a single line.
///
/// `messages` holds the error's own message first, then that of its cause,
/// then that of the cause's cause, and so on. They are joined by `" -> "`.
pub fn error_display_chain(messages: &Vec<String>) -> (line: String)
    ensures
        line@ == chain_text(texts(messages@)),
{
    if messages.len() == 0 {
        String::new()
    } else {
        assert(texts(messages@).skip(0) =~= texts(messages@));
        chain_from(messages, 0)
    }
}

} // verus!
