//! The literal contents a session sends: the greeting ping payload, the four
//! countdown message bodies, and the placeholder used when a connecting client
//! supplies no identification string.

use vstd::prelude::*;

verus! {

/// The text of the `i`-th countdown message, for `1 <= i <= 4`.
pub open spec fn countdown_text_spec(i: u8) -> Seq<char> {
    if i == 1 {
        "Hi 1 times!"@
    } else if i == 2 {
        "Hi 2 times!"@
    } else if i == 3 {
        "Hi 3 times!"@
    } else {
        "Hi 4 times!"@
    }
}

/// The placeholder identification string used when the client supplied none.
pub open spec fn default_agent_spec() -> Seq<char> {
    "Unknown browser"@
}

/// The fixed payload of the greeting ping frame.
pub open spec fn ping_payload_spec() -> Seq<u8> {
    seq![1u8, 2u8, 3u8]
}

/// Body of the `i`-th countdown message: `"Hi <i> times!"`.
pub fn countdown_text(i: u8) -> (r: String)
    requires
        1 <= i <= 4,
    ensures
        r@ == countdown_text_spec(i),
{
    if i == 1 {
        String::from_str("Hi 1 times!")
    } else if i == 2 {
        String::from_str("Hi 2 times!")
    } else if i == 3 {
        String::from_str("Hi 3 times!")
    } else {
        String::from_str("Hi 4 times!")
    }
}

/// The fixed three-byte payload sent with the greeting ping frame.
pub fn ping_payload() -> (r: Vec<u8>)
    ensures
        r@ == ping_payload_spec(),
{
    let mut v: Vec<u8> = Vec::new();
    v.push(1u8);
    v.push(2u8);
    v.push(3u8);
    proof {
        assert(v@ =~= ping_payload_spec());
    }
    v
}

/// The identification string recorded for a connecting client: the supplied
/// one when present, the fixed placeholder otherwise. The session itself never
/// depends on it; it is recorded for logging only.
pub fn agent_label(supplied: Option<String>) -> (r: String)
    ensures
        supplied is Some ==> r@ == supplied.unwrap()@,
        supplied is None ==> r@ == default_agent_spec(),
{
    match supplied {
        Some(s) => s,
        None => String::from_str("Unknown browser"),
    }
}

} // verus!
