use vstd::prelude::*;

verus! {

/// The URL under which a server at `addr_text` (`host:port`) is reached.
pub fn get_full_addr_string(addr_text: &str) -> (r: String)
    ensures
        r@ == "http://"@ + addr_text@,
{
    let mut r = String::from_str("http://");
    r.append(addr_text);
    r
}

} // verus!
