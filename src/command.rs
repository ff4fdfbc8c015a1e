//! The operator's command lines.

use vstd::prelude::*;
use vstd::string::*;

verus! {

/// What an operator's line asks for.
#[derive(Debug, PartialEq, Eq)]
pub enum Command {
    /// `ls p`: list the known peers.
    ListPeers,
    /// A line starting with `ls c`: print the local chain.
    ListChain,
    /// A line starting with `create b`: mine a block carrying the rest of the
    /// line, verbatim.
    CreateBlock(String),
    /// Anything else.
    Unknown,
}

/// The payload of a `create b` line: everything after the prefix.
pub open spec fn create_payload(line: Seq<char>) -> Seq<char> {
    line.subrange("create b"@.len() as int, line.len() as int)
}

/// Whether `prefix` is a prefix of `text`.
pub fn starts_with(text: &str, prefix: &str) -> (r: bool)
    ensures
        r == prefix@.is_prefix_of(text@),
{
    let n = prefix.unicode_len();
    if n > text.unicode_len() {
        return false;
    }
    let mut i: usize = 0;
    while i < n
        invariant
            n == prefix@.len(),
            n <= text@.len(),
            i <= n,
            forall|j: int| 0 <= j < i ==> prefix@[j] == text@[j],
        decreases n - i,
    {
        if prefix.get_char(i) != text.get_char(i) {
            return false;
        }
        i = i + 1;
    }
    assert(prefix@ == text@.subrange(0, n as int));
    true
}

/// Reads an operator's line: `ls p` exactly, then the prefixes `ls c` and
/// `create b`, in that order.
pub fn parse_command(line: &str) -> (r: Command)
    ensures
        r is ListPeers <==> line@ == "ls p"@,
        r is ListChain <==> line@ != "ls p"@ && "ls c"@.is_prefix_of(line@),
        r is CreateBlock <==> line@ != "ls p"@ && !"ls c"@.is_prefix_of(line@)
            && "create b"@.is_prefix_of(line@),
        r matches Command::CreateBlock(d) ==> d@ == create_payload(line@),
{
    proof {
        reveal_strlit("ls p");
        reveal_strlit("ls c");
        reveal_strlit("create b");
    }
    let len = line.unicode_len();
    if len == 4 && starts_with(line, "ls p") {
        assert(line@ == "ls p"@);
        Command::ListPeers
    } else if starts_with(line, "ls c") {
        Command::ListChain
    } else if starts_with(line, "create b") {
        let rest = line.substring_char(8, len);
        Command::CreateBlock(String::from_str(rest))
    } else {
        Command::Unknown
    }
}

} // verus!
