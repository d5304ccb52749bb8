//! Names of classes.

use vstd::prelude::*;
use vstd::string::StringExecFns;

verus! {

/// A class's qualified name: the bare name in the global namespace,
/// otherwise the namespace and the name joined by a dot.
pub open spec fn qualified_name(namespace: Seq<char>, name: Seq<char>) -> Seq<char> {
    if namespace.len() == 0 {
        name
    } else {
        namespace + seq!['.'] + name
    }
}

/// Returns the human-readable fully qualified name of a class from its
/// namespace (empty for the global namespace) and its name.
pub fn full_name(namespace: &str, name: &str) -> (r: String)
    ensures
        r@ == qualified_name(namespace@, name@),
{
    if namespace.is_empty() {
        String::from_str(name)
    } else {
        let mut out = String::from_str(namespace);
        out.append(".");
        out.append(name);
        proof {
            reveal_strlit(".");
        }
        out
    }
}

} // verus!
