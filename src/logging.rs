use vstd::prelude::*;

verus! {

/// The report of a fatal error: the context `message`, then the `cause` in
/// parentheses. The program logs this text and aborts with it.
pub fn panic(message: &str, cause: &str) -> (r: String)
    ensures
        r@ == message@ + " ("@ + cause@ + ")"@,
{
    let mut r = String::from_str(message);
    r.append(" (");
    r.append(cause);
    r.append(")");
    r
}

} // verus!
