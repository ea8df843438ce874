use vstd::prelude::*;

verus! {

/// The first port of `range` that `is_free` reports free, trying them in order.
pub fn get_used_port_in_tcp<F: Fn(u16) -> bool>(range: std::ops::Range<u16>, is_free: &F) -> (r: Option<u16>)
    requires
        forall|p: u16| is_free.requires((p,)),
    ensures
        match r {
            Some(p) => range.start <= p < range.end && is_free.ensures((p,), true) && forall|q: u16|
                range.start <= q < p ==> #[trigger] is_free.ensures((q,), false),
            None => forall|q: u16| range.start <= q < range.end ==> #[trigger] is_free.ensures((q,), false),
        },
{
    let mut port: u16 = range.start;
    if port >= range.end {
        return None;
    }
    while port < range.end
        invariant
            forall|p: u16| is_free.requires((p,)),
            range.start <= port <= range.end,
            forall|q: u16| range.start <= q < port ==> #[trigger] is_free.ensures((q,), false),
        decreases range.end - port,
    {
        if is_free(port) {
            return Some(port);
        }
        port = port + 1;
    }
    None
}

/// The IPv4 loopback address, `127.0.0.1`.
pub fn create_default_ipv4() -> (r: [u8; 4])
    ensures
        r == [127u8, 0u8, 0u8, 1u8],
{
    [127u8, 0u8, 0u8, 1u8]
}

} // verus!
