use chrono::SubsecRound;
use vstd::prelude::*;
use crate::probe::{error_text, ProbeError, Timeout, wire_command, wire_command_spec};
use crate::target::{normalize_target, normalized_target};

verus! {

/// The text of a capture instant given as seconds and nanoseconds since the
/// Unix epoch, in UTC, rounded to a tenth of a second.
pub uninterp spec fn timestamp_text(secs: i64, nanos: u32) -> Seq<char>;

/// The first second of the year -9999, far inside the range of dates that
/// chrono represents.
pub const EARLIEST_SECS: i64 = -377_705_203_200;

/// The last second of the year 9999, far inside the range of dates that
/// chrono represents.
pub const LATEST_SECS: i64 = 253_402_300_799;

/// Relies on chrono's `DateTime::from_timestamp`, `round_subsecs(1)` and the
/// `Display` of `NaiveDateTime`. `from_timestamp` gives `Some` for every
/// date in chrono's range with fewer than 10^9 nanoseconds, and rounding a
/// date of these years stays in that range.
#[verifier::external_body]
fn format_instant(secs: i64, nanos: u32) -> (r: Option<String>)
    requires
        EARLIEST_SECS <= secs <= LATEST_SECS,
    ensures
        nanos < 1_000_000_000 ==> r is Some,
        r matches Some(t) ==> t@ == timestamp_text(secs, nanos),
{
    chrono::DateTime::from_timestamp(secs, nanos).map(
        |d| format!("{}", d.naive_utc().round_subsecs(1)),
    )
}

/// The timestamp field of a cycle captured at the given instant, given as
/// seconds and nanoseconds since the Unix epoch. Every instant of the years
/// -9999 to 9999 has one; `None` for an instant outside them, or for a
/// nanosecond count that is not below one second and that chrono rejects.
pub fn cycle_timestamp(secs: i64, nanos: u32) -> (r: Option<String>)
    ensures
        !(EARLIEST_SECS <= secs <= LATEST_SECS) ==> r is None,
        EARLIEST_SECS <= secs <= LATEST_SECS && nanos < 1_000_000_000 ==> r is Some,
        r matches Some(t) ==> t@ == timestamp_text(secs, nanos),
{
    if secs < EARLIEST_SECS || secs > LATEST_SECS {
        None
    } else {
        format_instant(secs, nanos)
    }
}

/// The field of a row that stands for one probe's outcome.
pub open spec fn field_text(o: Result<String, ProbeError>) -> Seq<char> {
    match o {
        Ok(rsp) => rsp@,
        Err(e) => error_text(e),
    }
}

pub open spec fn now_label() -> Seq<char> {
    seq!['n', 'o', 'w']
}

pub open spec fn views(v: Seq<String>) -> Seq<Seq<char>> {
    v.map_values(|s: String| s@)
}

/// The header record: `now`, then each server as configured.
pub open spec fn header_fields(servers: Seq<String>) -> Seq<Seq<char>> {
    seq![now_label()] + views(servers)
}

/// A data record: the timestamp, then one field per outcome, in the order
/// of the outcomes.
pub open spec fn row_fields(timestamp: Seq<char>, outcomes: Seq<Result<String, ProbeError>>) -> Seq<
    Seq<char>,
> {
    seq![timestamp] + outcomes.map_values(|o: Result<String, ProbeError>| field_text(o))
}

/// A data record has exactly one field for the timestamp and one for each
/// target, whichever probes failed.
pub proof fn lemma_row_width(timestamp: Seq<char>, outcomes: Seq<Result<String, ProbeError>>)
    ensures
        row_fields(timestamp, outcomes).len() == 1 + outcomes.len(),
{
}

/// The field after the timestamp at position `i` of a data record is the
/// outcome of the target at position `i` of the configuration: success or
/// failure, its place is fixed by the target, not by when it finished.
pub proof fn lemma_row_order(timestamp: Seq<char>, outcomes: Seq<Result<String, ProbeError>>, i: int)
    requires
        0 <= i < outcomes.len(),
    ensures
        row_fields(timestamp, outcomes)[0] == timestamp,
        row_fields(timestamp, outcomes)[i + 1] == field_text(outcomes[i]),
{
}

/// The field that stands for one outcome.
pub fn outcome_field(o: &Result<String, ProbeError>) -> (r: String)
    ensures
        r@ == field_text(*o),
{
    match o {
        Ok(rsp) => rsp.clone(),
        Err(e) => e.message(),
    }
}

/// The header record for the configured servers.
pub fn header_row(servers: &Vec<String>) -> (r: Vec<String>)
    ensures
        views(r@) == header_fields(servers@),
{
    proof {
        reveal_strlit("now");
    }
    let mut r: Vec<String> = Vec::new();
    r.push(String::from_str("now"));
    assert(r@[0]@ =~= now_label());
    assert(views(r@) =~= seq![now_label()] + views(servers@.subrange(0, 0)));
    let mut i: usize = 0;
    while i < servers.len()
        invariant
            i <= servers.len(),
            views(r@) == seq![now_label()] + views(servers@.subrange(0, i as int)),
        decreases servers.len() - i,
    {
        let ghost prev = r@;
        r.push(servers[i].clone());
        assert(views(r@) =~= views(prev).push(servers@[i as int]@));
        assert(views(r@) =~= seq![now_label()] + views(servers@.subrange(0, i + 1)));
        i = i + 1;
    }
    assert(servers@.subrange(0, i as int) =~= servers@);
    r
}

/// The data record of a cycle: the timestamp, then, for each target in
/// configured order, its response or the text of its error. The outcome at
/// index `i` is that of the target at index `i`, so the record does not
/// depend on the order in which probes finished, and a failure never
/// removes a field.
pub fn data_row(timestamp: String, outcomes: &Vec<Result<String, ProbeError>>) -> (r: Vec<String>)
    ensures
        views(r@) == row_fields(timestamp@, outcomes@),
        r@.len() == 1 + outcomes@.len(),
        r@[0]@ == timestamp@,
        forall|i: int| 0 <= i < outcomes@.len() ==> #[trigger] r@[i + 1]@ == field_text(outcomes@[i]),
{
    let ghost ts = timestamp@;
    let mut r: Vec<String> = Vec::new();
    r.push(timestamp);
    assert(views(r@) =~= row_fields(ts, outcomes@.subrange(0, 0)));
    let mut i: usize = 0;
    while i < outcomes.len()
        invariant
            i <= outcomes.len(),
            views(r@) == row_fields(ts, outcomes@.subrange(0, i as int)),
        decreases outcomes.len() - i,
    {
        let f = outcome_field(&outcomes[i]);
        let ghost prev = r@;
        r.push(f);
        assert(views(r@) =~= views(prev).push(field_text(outcomes@[i as int])));
        assert(views(r@) =~= row_fields(ts, outcomes@.subrange(0, i + 1)));
        i = i + 1;
    }
    assert(outcomes@.subrange(0, i as int) =~= outcomes@);
    assert forall|i: int| 0 <= i < outcomes@.len() implies #[trigger] r@[i + 1]@ == field_text(
        outcomes@[i],
    ) by {
        assert(views(r@)[i + 1] == r@[i + 1]@);
    }
    assert(views(r@)[0] == r@[0]@);
    r
}

/// The fixed configuration of a polling run and whether the header record
/// has gone out yet.
pub struct Poller {
    pub servers: Vec<String>,
    pub command: String,
    pub timeout: Timeout,
    pub headers: bool,
    pub header_emitted: bool,
}

/// The records that a cycle emits: the header before the first data record
/// when headers are asked for, then the data record.
pub open spec fn cycle_records(
    headers_due: bool,
    servers: Seq<String>,
    timestamp: Seq<char>,
    outcomes: Seq<Result<String, ProbeError>>,
) -> Seq<Seq<Seq<char>>> {
    if headers_due {
        seq![header_fields(servers), row_fields(timestamp, outcomes)]
    } else {
        seq![row_fields(timestamp, outcomes)]
    }
}

impl Poller {
    pub fn new(servers: Vec<String>, command: String, timeout: Timeout, headers: bool) -> (r: Poller)
        ensures
            r.servers == servers,
            r.command == command,
            r.timeout == timeout,
            r.headers == headers,
            !r.header_emitted,
    {
        Poller { servers, command, timeout, headers, header_emitted: false }
    }

    /// The addresses probed in each cycle, one per configured server, in
    /// configured order, each with the default port where none is named.
    pub fn addresses(&self) -> (r: Vec<String>)
        ensures
            r@.len() == self.servers@.len(),
            forall|i: int|
                0 <= i < r@.len() ==> #[trigger] r@[i]@ == normalized_target(self.servers@[i]@),
    {
        let mut r: Vec<String> = Vec::new();
        let mut i: usize = 0;
        while i < self.servers.len()
            invariant
                i <= self.servers.len(),
                r@.len() == i,
                forall|k: int|
                    0 <= k < i ==> #[trigger] r@[k]@ == normalized_target(self.servers@[k]@),
            decreases self.servers.len() - i,
        {
            r.push(normalize_target(self.servers[i].as_str()));
            i = i + 1;
        }
        r
    }

    /// The command written to every server in each cycle.
    pub fn wire_command(&self) -> (r: String)
        ensures
            r@ == wire_command_spec(self.command@),
    {
        wire_command(self.command.as_str())
    }

    /// The records of one cycle, given its timestamp and the outcome of each
    /// server's probe in configured order. The header goes out once, before
    /// the first data record, and only when headers are asked for; the
    /// configuration is left as it was.
    pub fn next_records(&mut self, timestamp: String, outcomes: &Vec<Result<String, ProbeError>>) -> (r:
        Vec<Vec<String>>)
        requires
            outcomes@.len() == old(self).servers@.len(),
        ensures
            r@.len() == (if old(self).headers && !old(self).header_emitted { 2int } else { 1int }),
            forall|k: int|
                0 <= k < r@.len() ==> #[trigger] views(r@[k]@) == cycle_records(
                    old(self).headers && !old(self).header_emitted,
                    old(self).servers@,
                    timestamp@,
                    outcomes@,
                )[k],
            r@[r@.len() - 1]@.len() == 1 + final(self).servers@.len(),
            final(self).servers == old(self).servers,
            final(self).command == old(self).command,
            final(self).timeout == old(self).timeout,
            final(self).headers == old(self).headers,
            final(self).header_emitted == (old(self).header_emitted || old(self).headers),
    {
        let due = self.headers && !self.header_emitted;
        let mut r: Vec<Vec<String>> = Vec::new();
        if due {
            r.push(header_row(&self.servers));
            self.header_emitted = true;
        }
        r.push(data_row(timestamp, outcomes));
        r
    }
}

} // verus!
