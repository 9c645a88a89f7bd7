use vstd::prelude::*;

verus! {

/// The RFC 3339 rendering, in UTC with millisecond precision and a `Z`
/// suffix, of a point in time given as milliseconds since the Unix epoch.
pub uninterp spec fn rfc3339_millis_utc(millis_since_epoch: i64) -> Seq<char>;

/// The largest distance from the epoch, in milliseconds, that chrono can
/// represent with room to spare (about 253,000 years).
pub const TIMESTAMP_LIMIT_MILLIS: i64 = 8_000_000_000_000_000;

/// Timestamps that chrono's `DateTime<Utc>` can represent.
pub open spec fn timestamp_in_range(millis: i64) -> bool {
    -TIMESTAMP_LIMIT_MILLIS <= millis <= TIMESTAMP_LIMIT_MILLIS
}

/// Relies on chrono's `DateTime::<Utc>::from_timestamp_millis`, followed by
/// `to_rfc3339_opts(SecondsFormat::Millis, true)`: the text depends on the
/// timestamp alone, and a timestamp within chrono's date range (years
/// -262143 to 262142) converts.
#[verifier::external_body]
fn format_rfc3339_millis(millis: i64) -> (r: Option<String>)
    ensures
        r matches Some(s) ==> s@ == rfc3339_millis_utc(millis),
        timestamp_in_range(millis) ==> r is Some,
{
    match chrono::DateTime::from_timestamp_millis(millis) {
        Some(d) => Some(d.to_rfc3339_opts(chrono::SecondsFormat::Millis, true)),
        None => None,
    }
}

/// The view of an optional string.
pub open spec fn opt_view(o: Option<String>) -> Option<Seq<char>> {
    match o {
        Some(s) => Some(s@),
        None => None,
    }
}

/// The job id of a run: the explicit one when given, else
/// `<hostname>-<stamp>`, or the stamp alone when there is no hostname.
pub open spec fn job_id_of(
    explicit: Option<Seq<char>>,
    hostname: Option<Seq<char>>,
    stamp: Seq<char>,
) -> Seq<char> {
    match explicit {
        Some(id) => id,
        None => match hostname {
            Some(h) => h + seq!['-'] + stamp,
            None => stamp,
        },
    }
}

/// Picks the job id from an explicit id, a hostname and an already
/// formatted creation stamp.
pub fn job_id_from_stamp(explicit: Option<String>, hostname: Option<String>, stamp: &str) -> (r:
    String)
    ensures
        r@ == job_id_of(opt_view(explicit), opt_view(hostname), stamp@),
{
    match explicit {
        Some(id) => id,
        None => match hostname {
            Some(h) => {
                proof {
                    reveal_strlit("-");
                }
                let mut id = h;
                id.append("-");
                id.append(stamp);
                id
            },
            None => String::from_str(stamp),
        },
    }
}

/// Picks the job id of a run created at `created_at_millis` (milliseconds
/// since the Unix epoch). `None` only when no explicit id is given and the
/// timestamp lies outside what can be rendered.
pub fn derive_job_id(explicit: Option<String>, hostname: Option<String>, created_at_millis: i64) -> (r:
    Option<String>)
    ensures
        r matches Some(id) ==> id@ == job_id_of(
            opt_view(explicit),
            opt_view(hostname),
            rfc3339_millis_utc(created_at_millis),
        ),
        r is None ==> explicit is None && !timestamp_in_range(created_at_millis),
{
    match explicit {
        Some(id) => Some(id),
        None => match format_rfc3339_millis(created_at_millis) {
            Some(stamp) => Some(job_id_from_stamp(None, hostname, stamp.as_str())),
            None => None,
        },
    }
}

/// An explicit job id is kept exactly as given, whatever the hostname and
/// the creation time.
pub proof fn lemma_explicit_job_id_kept(
    id: Seq<char>,
    hostname: Option<Seq<char>>,
    stamp: Seq<char>,
)
    ensures
        job_id_of(Some(id), hostname, stamp) == id,
{
}

/// Without an explicit id the job id is determined by the hostname and the
/// creation time, and reads `<hostname>-<RFC 3339 stamp>`: the hostname, a
/// dash, then the stamp.
pub proof fn lemma_derived_job_id_shape(hostname: Seq<char>, millis1: i64, millis2: i64)
    ensures
        millis1 == millis2 ==> job_id_of(None, Some(hostname), rfc3339_millis_utc(millis1))
            == job_id_of(None, Some(hostname), rfc3339_millis_utc(millis2)),
        job_id_of(None, Some(hostname), rfc3339_millis_utc(millis1)).subrange(
            0,
            hostname.len() as int,
        ) == hostname,
        job_id_of(None, Some(hostname), rfc3339_millis_utc(millis1))[hostname.len() as int]
            == '-',
        job_id_of(None, Some(hostname), rfc3339_millis_utc(millis1)).subrange(
            hostname.len() + 1 as int,
            job_id_of(None, Some(hostname), rfc3339_millis_utc(millis1)).len() as int,
        ) == rfc3339_millis_utc(millis1),
{
    let id = job_id_of(None, Some(hostname), rfc3339_millis_utc(millis1));
    assert(id.subrange(0, hostname.len() as int) =~= hostname);
    assert(id.subrange(hostname.len() + 1 as int, id.len() as int) =~= rfc3339_millis_utc(millis1));
}

} // verus!
