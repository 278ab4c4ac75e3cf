use vstd::prelude::*;

verus! {

/// Number of relays on the board; relays are numbered from one.
pub const RELAY_COUNT: u8 = 3;

/// The fixed wiring of relays to GPIO lines (BCM numbering).
pub open spec fn relay_line(relay_num: u8) -> Option<u8> {
    if relay_num == 1 {
        Some(26u8)
    } else if relay_num == 2 {
        Some(20u8)
    } else if relay_num == 3 {
        Some(21u8)
    } else {
        None
    }
}

/// Looks up the GPIO line of a relay; any relay outside the board's set is
/// refused with `Err(0)`.
pub fn pins(relay_num: u8) -> (r: Result<u8, u8>)
    ensures
        relay_line(relay_num) matches Some(p) ==> r == Ok::<u8, u8>(p),
        relay_line(relay_num) is None ==> r == Err::<u8, u8>(0),
        r is Ok <==> 1 <= relay_num <= RELAY_COUNT,
{
    match relay_num {
        1 => Ok(26),
        2 => Ok(20),
        3 => Ok(21),
        _ => Err(0),
    }
}

} // verus!
