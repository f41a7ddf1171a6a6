use vstd::prelude::*;

verus! {

/// The text that stands in for a value the provider could not give.
pub open spec fn not_available() -> Seq<char> {
    seq!['N', '/', 'A']
}

/// The value where there is one, else "N/A".
pub fn or_not_available(value: Option<String>) -> (r: String)
    ensures
        r@ == match value {
            Some(v) => v@,
            None => not_available(),
        },
{
    match value {
        Some(v) => v,
        None => {
            proof {
                reveal_strlit("N/A");
            }
            "N/A".to_owned()
        },
    }
}

} // verus!
