use vstd::prelude::*;
use vstd::string::*;

use crate::data::{opt_view, FarmData};

verus! {

/// Label that opens the phone block of a detail panel.
pub open spec fn phone_label() -> Seq<char> {
    "Phone: "@
}

/// Label that opens the address block of a detail panel.
pub open spec fn address_label() -> Seq<char> {
    "Address: "@
}

/// `s` begins with `p`.
pub open spec fn starts_with(s: Seq<char>, p: Seq<char>) -> bool {
    p.len() <= s.len() && s.subrange(0, p.len() as int) == p
}

/// What follows `label` in the last block that begins with it, if any does.
pub open spec fn labelled_value(blocks: Seq<Seq<char>>, label: Seq<char>) -> Option<Seq<char>>
    decreases blocks.len(),
{
    if blocks.len() == 0 {
        None
    } else {
        let last = blocks.last();
        if starts_with(last, label) {
            Some(last.subrange(label.len() as int, last.len() as int))
        } else {
            labelled_value(blocks.drop_last(), label)
        }
    }
}

/// The views of a sequence of strings.
pub open spec fn texts(v: Seq<String>) -> Seq<Seq<char>> {
    v.map_values(|s: String| s@)
}

/// When no block begins with `label`, no value is found for it.
pub proof fn lemma_no_label_no_value(blocks: Seq<Seq<char>>, label: Seq<char>)
    requires
        forall|k: int| 0 <= k < blocks.len() ==> !starts_with(#[trigger] blocks[k], label),
    ensures
        labelled_value(blocks, label) == None::<Seq<char>>,
    decreases blocks.len(),
{
    if blocks.len() > 0 {
        assert(!starts_with(blocks[blocks.len() - 1], label));
        lemma_no_label_no_value(blocks.drop_last(), label);
    }
}

/// When exactly one block begins with `label`, the value is what follows the
/// label in that block.
pub proof fn lemma_single_label_value(blocks: Seq<Seq<char>>, label: Seq<char>, i: int)
    requires
        0 <= i < blocks.len(),
        starts_with(blocks[i], label),
        forall|k: int| 0 <= k < blocks.len() && k != i ==> !starts_with(#[trigger] blocks[k], label),
    ensures
        labelled_value(blocks, label) == Some(blocks[i].subrange(label.len() as int, blocks[i].len() as int)),
    decreases blocks.len(),
{
    if i < blocks.len() - 1 {
        assert(!starts_with(blocks[blocks.len() - 1], label));
        lemma_single_label_value(blocks.drop_last(), label, i);
    }
}

/// A panel with exactly one phone block and exactly one address block, in
/// either order, yields both values: the text after each label.
pub proof fn lemma_phone_and_address_found(blocks: Seq<Seq<char>>, i: int, j: int)
    requires
        0 <= i < blocks.len(),
        0 <= j < blocks.len(),
        starts_with(blocks[i], phone_label()),
        starts_with(blocks[j], address_label()),
        forall|k: int| 0 <= k < blocks.len() && k != i ==> !starts_with(#[trigger] blocks[k], phone_label()),
        forall|k: int| 0 <= k < blocks.len() && k != j ==> !starts_with(#[trigger] blocks[k], address_label()),
    ensures
        labelled_value(blocks, phone_label()) == Some(blocks[i].subrange(phone_label().len() as int, blocks[i].len() as int)),
        labelled_value(blocks, address_label()) == Some(blocks[j].subrange(address_label().len() as int, blocks[j].len() as int)),
{
    lemma_single_label_value(blocks, phone_label(), i);
    lemma_single_label_value(blocks, address_label(), j);
}

/// Blocks that carry neither label leave both fields absent.
pub proof fn lemma_unlabelled_blocks_leave_fields_empty(blocks: Seq<Seq<char>>)
    requires
        forall|k: int| 0 <= k < blocks.len() ==> !starts_with(#[trigger] blocks[k], phone_label()),
        forall|k: int| 0 <= k < blocks.len() ==> !starts_with(#[trigger] blocks[k], address_label()),
    ensures
        labelled_value(blocks, phone_label()) == None::<Seq<char>>,
        labelled_value(blocks, address_label()) == None::<Seq<char>>,
{
    lemma_no_label_no_value(blocks, phone_label());
    lemma_no_label_no_value(blocks, address_label());
}

/// Tells whether `s` begins with `p`.
pub fn has_prefix(s: &str, p: &str) -> (r: bool)
    ensures
        r == starts_with(s@, p@),
{
    let n = s.unicode_len();
    let m = p.unicode_len();
    if m > n {
        return false;
    }
    let mut i: usize = 0;
    while i < m
        invariant
            m == p@.len(),
            n == s@.len(),
            m <= n,
            i <= m,
            forall|k: int| 0 <= k < i ==> s@[k] == p@[k],
        decreases m - i,
    {
        if s.get_char(i) != p.get_char(i) {
            assert(s@.subrange(0, m as int)[i as int] != p@[i as int]);
            return false;
        }
        i = i + 1;
    }
    assert(s@.subrange(0, m as int) =~= p@);
    true
}

/// The text of `s` after its first `from` characters.
fn tail_from(s: &str, from: usize) -> (r: String)
    requires
        from <= s@.len(),
    ensures
        r@ == s@.subrange(from as int, s@.len() as int),
{
    let n = s.unicode_len();
    String::from_str(s.substring_char(from, n))
}

/// Builds a record from a panel's title and its text blocks: the phone and the
/// address are what follows their labels, the last matching block winning.
/// A panel with an empty title gives no record.
pub fn extract(title: String, blocks: &Vec<String>) -> (r: Option<FarmData>)
    ensures
        r is Some <==> title@.len() > 0,
        r matches Some(f) ==> {
            &&& f.title@ == title@
            &&& opt_view(f.phone) == labelled_value(texts(blocks@), phone_label())
            &&& opt_view(f.address) == labelled_value(texts(blocks@), address_label())
        },
{
    if title.as_str().unicode_len() == 0 {
        return None;
    }
    let mut phone: Option<String> = None;
    let mut address: Option<String> = None;
    let phone_tag = "Phone: ";
    let address_tag = "Address: ";
    proof {
        reveal_strlit("Phone: ");
        reveal_strlit("Address: ");
    }
    let mut i: usize = 0;
    while i < blocks.len()
        invariant
            i <= blocks@.len(),
            phone_tag@ == phone_label(),
            address_tag@ == address_label(),
            opt_view(phone) == labelled_value(texts(blocks@).subrange(0, i as int), phone_label()),
            opt_view(address) == labelled_value(texts(blocks@).subrange(0, i as int), address_label()),
        decreases blocks@.len() - i,
    {
        let text = blocks[i].as_str();
        proof {
            let pre = texts(blocks@).subrange(0, i as int + 1);
            assert(pre.drop_last() =~= texts(blocks@).subrange(0, i as int));
            assert(pre.last() == blocks@[i as int]@);
        }
        if has_prefix(text, phone_tag) {
            phone = Some(tail_from(text, phone_tag.unicode_len()));
        }
        if has_prefix(text, address_tag) {
            address = Some(tail_from(text, address_tag.unicode_len()));
        }
        i = i + 1;
    }
    assert(texts(blocks@).subrange(0, blocks@.len() as int) =~= texts(blocks@));
    Some(FarmData::new(title, phone, address))
}

} // verus!
