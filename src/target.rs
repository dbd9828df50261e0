use vstd::prelude::*;

verus! {

/// The administrative port that is appended to a server given without one.
pub open spec fn default_port_suffix() -> Seq<char> {
    seq![':', '2', '1', '8', '1']
}

/// A server string names a port when it holds a colon anywhere.
pub open spec fn names_port(s: Seq<char>) -> bool {
    exists|i: int| 0 <= i < s.len() && s[i] == ':'
}

/// The address probed for a configured server string.
pub open spec fn normalized_target(s: Seq<char>) -> Seq<char> {
    if names_port(s) {
        s
    } else {
        s + default_port_suffix()
    }
}

/// Returns the server unchanged when it names a port, and otherwise the
/// server with the default administrative port appended.
pub fn normalize_target(server: &str) -> (r: String)
    ensures
        r@ == normalized_target(server@),
{
    let n = server.unicode_len();
    let mut i: usize = 0;
    while i < n
        invariant
            n == server@.len(),
            i <= n,
            forall|k: int| 0 <= k < i ==> server@[k] != ':',
        decreases n - i,
    {
        if server.get_char(i) == ':' {
            return String::from_str(server);
        }
        i = i + 1;
    }
    proof {
        reveal_strlit(":2181");
    }
    let r = String::from_str(server).concat(":2181");
    assert(r@ =~= server@ + default_port_suffix());
    r
}

} // verus!
