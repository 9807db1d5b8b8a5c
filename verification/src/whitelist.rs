use vstd::prelude::*;
use vstd::string::StringExecFns;

verus! {

/// The fixed allow-list: a collection symbol may be staked exactly when it
/// is one of these five.
pub open spec fn is_whitelisted(symbol: Seq<char>) -> bool {
    ||| symbol == "CLB"@
    ||| symbol == "UG"@
    ||| symbol == "GOTM"@
    ||| symbol == "GREATGOATS"@
    ||| symbol == "CNDY"@
}

/// Whitelist validator: accept a collection symbol exactly when it is on
/// the fixed allow-list.
pub fn symbol_whitelisted(symbol: &String) -> (r: bool)
    ensures
        r == is_whitelisted(symbol@),
{
    *symbol == String::from_str("CLB") || *symbol == String::from_str("UG")
        || *symbol == String::from_str("GOTM") || *symbol == String::from_str("GREATGOATS")
        || *symbol == String::from_str("CNDY")
}

} // verus!
