use vstd::prelude::*;
use vstd::string::*;

use crate::data::{opt_view, FarmData};
use crate::extract::texts;

verus! {

/// The bytes that the `csv` crate writes for one record with these fields.
pub uninterp spec fn csv_record_of(fields: Seq<Seq<char>>) -> Seq<u8>;

/// The text of an optional field, or the empty text.
pub open spec fn or_empty(o: Option<Seq<char>>) -> Seq<char> {
    match o {
        Some(s) => s,
        None => Seq::empty(),
    }
}

/// The column names of the export, in order.
pub open spec fn header_fields() -> Seq<Seq<char>> {
    seq![
        "Type"@, "Farms Name"@, "Address"@, "Point of Contact"@, "Name"@, "Position"@,
        "Email"@, "Phone Number"@, "Contacted"@, "Interview Setup"@, "Notes from meeting"@,
    ]
}

/// The columns of one record: a fixed type, the title, the address and the
/// phone, with every follow-up column left empty.
pub open spec fn row_fields(farm: FarmData) -> Seq<Seq<char>> {
    let e = Seq::<char>::empty();
    seq![
        "B2B"@, farm.title@, or_empty(opt_view(farm.address)), e, e, e, e,
        or_empty(opt_view(farm.phone)), e, e, e,
    ]
}

/// The encoded records of `farms`, one after another.
pub open spec fn csv_rows(farms: Seq<FarmData>) -> Seq<u8>
    decreases farms.len(),
{
    if farms.len() == 0 {
        Seq::empty()
    } else {
        csv_rows(farms.drop_last()) + csv_record_of(row_fields(farms.last()))
    }
}

/// The whole export: the header record, then one record per farm, in order.
pub open spec fn csv_document(farms: Seq<FarmData>) -> Seq<u8> {
    csv_record_of(header_fields()) + csv_rows(farms)
}

/// Relies on csv::Writer::write_record and csv::Writer::into_inner, writing
/// into memory: the bytes of one record depend on its fields alone, and a fresh
/// writer over a `Vec` fails neither on its first record nor when flushed.
#[verifier::external_body]
fn encode_record(fields: &Vec<String>) -> (r: Option<Vec<u8>>)
    ensures
        r is Some,
        r matches Some(b) ==> b@ == csv_record_of(texts(fields@)),
{
    let mut writer = ::csv::Writer::from_writer(Vec::new());
    writer.write_record(fields).ok()?;
    writer.into_inner().ok()
}

/// The text of an optional field, or an empty string.
fn text_or_empty(o: &Option<String>) -> (r: String)
    ensures
        r@ == or_empty(opt_view(*o)),
{
    match o {
        Some(s) => s.clone(),
        None => String::new(),
    }
}

/// The column names of the export.
pub fn header_row() -> (r: Vec<String>)
    ensures
        texts(r@) == header_fields(),
{
    proof {
        reveal_strlit("Type");
        reveal_strlit("Farms Name");
        reveal_strlit("Address");
        reveal_strlit("Point of Contact");
        reveal_strlit("Name");
        reveal_strlit("Position");
        reveal_strlit("Email");
        reveal_strlit("Phone Number");
        reveal_strlit("Contacted");
        reveal_strlit("Interview Setup");
        reveal_strlit("Notes from meeting");
    }
    let r = vec![
        String::from_str("Type"),
        String::from_str("Farms Name"),
        String::from_str("Address"),
        String::from_str("Point of Contact"),
        String::from_str("Name"),
        String::from_str("Position"),
        String::from_str("Email"),
        String::from_str("Phone Number"),
        String::from_str("Contacted"),
        String::from_str("Interview Setup"),
        String::from_str("Notes from meeting"),
    ];
    assert(texts(r@) =~= header_fields());
    r
}

/// The columns of the export for one farm.
pub fn farm_row(farm: &FarmData) -> (r: Vec<String>)
    ensures
        texts(r@) == row_fields(*farm),
{
    proof {
        reveal_strlit("B2B");
    }
    let r = vec![
        String::from_str("B2B"),
        farm.title.clone(),
        text_or_empty(&farm.address),
        String::new(),
        String::new(),
        String::new(),
        String::new(),
        text_or_empty(&farm.phone),
        String::new(),
        String::new(),
        String::new(),
    ];
    assert(texts(r@) =~= row_fields(*farm));
    r
}

/// Appends the export of `farms` to `out`: a header record, then one record per
/// farm in the given order. The header is written also when there is no farm.
pub fn write_to_csv(farms: &Vec<FarmData>, out: &mut Vec<u8>)
    ensures
        final(out)@ == old(out)@ + csv_document(farms@),
{
    let mut header = match encode_record(&header_row()) {
        Some(b) => b,
        None => Vec::new(),
    };
    let mut body: Vec<u8> = Vec::new();
    let mut i: usize = 0;
    while i < farms.len()
        invariant
            i <= farms@.len(),
            body@ == csv_rows(farms@.subrange(0, i as int)),
        decreases farms@.len() - i,
    {
        let mut record = match encode_record(&farm_row(&farms[i])) {
            Some(b) => b,
            None => Vec::new(),
        };
        proof {
            let pre = farms@.subrange(0, i as int + 1);
            assert(pre.drop_last() =~= farms@.subrange(0, i as int));
            assert(pre.last() == farms@[i as int]);
        }
        body.append(&mut record);
        i = i + 1;
    }
    assert(farms@.subrange(0, farms@.len() as int) =~= farms@);
    out.append(&mut header);
    out.append(&mut body);
    assert(out@ =~= old(out)@ + csv_document(farms@));
}

} // verus!
