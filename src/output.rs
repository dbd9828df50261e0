use vstd::prelude::*;
use crate::cycle::views;

verus! {

/// The CSV text of one record: its fields joined by commas, each quoted
/// and escaped where needed, ended by a newline.
pub uninterp spec fn csv_record(fields: Seq<Seq<char>>) -> Seq<char>;

/// Relies on the `csv` crate's `Writer` with default settings, writing one
/// record into memory with `write_record` and taking the bytes back with
/// `into_inner`. A fresh writer has no earlier record whose field count
/// could differ, writing into a `Vec` does not fail, and quoting adds ASCII
/// bytes only to UTF-8 fields, so the result is `Some`.
#[verifier::external_body]
fn encode_record(fields: &Vec<String>) -> (r: Option<String>)
    ensures
        r is Some,
        r matches Some(t) ==> t@ == csv_record(views(fields@)),
{
    let mut w = csv::WriterBuilder::new().from_writer(Vec::new());
    w.write_record(fields).ok()?;
    String::from_utf8(w.into_inner().ok()?).ok()
}

/// The text of a sequence of records, one CSV record after another.
pub open spec fn records_text(records: Seq<Seq<Seq<char>>>) -> Seq<char>
    decreases records.len(),
{
    if records.len() == 0 {
        Seq::empty()
    } else {
        records_text(records.drop_last()) + csv_record(records.last())
    }
}

pub open spec fn record_views(records: Seq<Vec<String>>) -> Seq<Seq<Seq<char>>> {
    records.map_values(|r: Vec<String>| views(r@))
}

/// Serialises the records of a cycle, in order, into the text written to
/// the output stream.
pub fn render_records(records: &Vec<Vec<String>>) -> (r: String)
    ensures
        r@ == records_text(record_views(records@)),
{
    let mut out = String::new();
    let mut i: usize = 0;
    while i < records.len()
        invariant
            i <= records.len(),
            out@ == records_text(record_views(records@.subrange(0, i as int))),
        decreases records.len() - i,
    {
        let t = encode_record(&records[i]).unwrap();
        let ghost prev = records@.subrange(0, i as int);
        let ghost next = records@.subrange(0, i + 1);
        assert(record_views(next).drop_last() =~= record_views(prev));
        out.append(t.as_str());
        i = i + 1;
    }
    assert(records@.subrange(0, i as int) =~= records@);
    out
}

} // verus!
