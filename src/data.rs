use vstd::prelude::*;

verus! {

/// The view of an optional text field.
pub open spec fn opt_view(o: Option<String>) -> Option<Seq<char>> {
    match o {
        Some(s) => Some(s@),
        None => None,
    }
}

/// One business listing gathered from a detail panel.
pub struct FarmData {
    pub title: String,
    pub phone: Option<String>,
    pub address: Option<String>,
}

impl FarmData {
    /// Builds a record from its three fields, unchanged.
    pub fn new(title: String, phone: Option<String>, address: Option<String>) -> (r: Self)
        ensures
            r.title@ == title@,
            opt_view(r.phone) == opt_view(phone),
            opt_view(r.address) == opt_view(address),
    {
        FarmData { title, phone, address }
    }
}

} // verus!
