//! Texts that the Thing Description vocabulary fixes.

use vstd::prelude::*;

verus! {

/// The address of the Thing Description vocabulary, version 1.1.
pub const WOT_TD_11_CONTEXT: &'static str = "https://www.w3.org/2022/wot/td/v1.1";

/// The key under which a record names its JSON-LD types.
pub const JSON_LD_TYPE: &'static str = "@type";

} // verus!
