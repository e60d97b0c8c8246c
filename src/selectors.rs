use vstd::prelude::*;
use vstd::string::*;

verus! {

/// A result entry of the listing.
pub const ENTRY_SELECTOR: &'static str = ".rllt__details";

/// The open detail panel.
pub const PANEL_SELECTOR: &'static str = ".xpdopen";

/// The title inside a detail panel.
pub const TITLE_SELECTOR: &'static str = "span";

/// A text block inside a detail panel.
pub const BLOCK_SELECTOR: &'static str = "div[role='presentation']";

/// The control that closes a detail panel.
pub const CLOSE_SELECTOR: &'static str = "div[aria-label='Close']";

/// The container of the page controls.
pub const PAGINATION_SELECTOR: &'static str = "[aria-label='Local Results Pagination']";

/// The character of a decimal digit.
pub open spec fn digit_char(d: nat) -> char {
    "0123456789"@[d as int]
}

/// The decimal digits of `n`, most significant first, without leading zeros.
pub open spec fn decimal(n: nat) -> Seq<char>
    decreases n,
{
    if n < 10 {
        seq![digit_char(n)]
    } else {
        decimal(n / 10) + seq![digit_char(n % 10)]
    }
}

/// The selector of the control for page `page` inside the pagination container.
pub open spec fn page_selector_text(page: nat) -> Seq<char> {
    "[aria-label='Page "@ + decimal(page) + "']"@
}

/// The decimal text of `n`.
pub fn decimal_text(n: u32) -> (r: String)
    ensures
        r@ == decimal(n as nat),
    decreases n,
{
    let digits = "0123456789";
    proof {
        reveal_strlit("0123456789");
    }
    let d = (n % 10) as usize;
    let last = digits.substring_char(d, d + 1);
    assert(last@ =~= seq![digit_char((n % 10) as nat)]);
    if n < 10 {
        String::from_str(last)
    } else {
        let mut r = decimal_text(n / 10);
        r.append(last);
        r
    }
}

/// The selector that finds the control for page `page` within the pagination
/// container.
pub fn page_selector(page: u32) -> (r: String)
    ensures
        r@ == page_selector_text(page as nat),
{
    let mut r = String::from_str("[aria-label='Page ");
    let digits = decimal_text(page);
    r.append(digits.as_str());
    r.append("']");
    r
}

} // verus!
