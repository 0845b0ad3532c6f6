//! Row Ingestor: turns one spreadsheet row into a virtual host when a
//! business-flag column says it is wanted.
//!
//! The header row and the cell row are zipped into a mapping with
//! case-normalized keys (lower-cased and trimmed); cell values are kept
//! verbatim. A row whose inclusion flag is absent or not affirmative is
//! skipped without error; an included row missing a required column is
//! malformed and reported, never a crash.

use vstd::prelude::*;
use crate::configs::{VirtualHost, VirtualHostView, empty_virtual_host};
use crate::strutil::{lower_of, lowercase, str_eq, trim_of, trimmed};
use crate::table::{table_get, table_lookup, table_put, table_set};

verus! {

/// The normalized key of one header cell: lower-cased, trimmed, lower-cased
/// once more (trimming cannot re-introduce upper case, but the mapping keeps
/// every normalization step explicit).
pub open spec fn row_key_norm(h: Seq<char>) -> Seq<char> {
    lower_of(trim_of(lower_of(h)))
}

/// The header-to-value mapping of one row, built from the first `n` columns:
/// normalized key, verbatim value, a later duplicate column overwriting an
/// earlier one.
pub open spec fn row_map_upto(
    headers: Seq<Seq<char>>,
    cells: Seq<Seq<char>>,
    n: int,
) -> Seq<(Seq<char>, Seq<char>)>
    decreases n,
{
    if n <= 0 {
        Seq::empty()
    } else {
        table_set(
            row_map_upto(headers, cells, n - 1),
            row_key_norm(headers[n - 1]),
            cells[n - 1],
        )
    }
}

/// The full mapping of one row: headers and cells zipped up to the shorter
/// of the two.
pub open spec fn row_map_of(headers: Seq<Seq<char>>, cells: Seq<Seq<char>>) -> Seq<
    (Seq<char>, Seq<char>),
> {
    row_map_upto(headers, cells, if headers.len() <= cells.len() { headers.len() as int } else { cells.len() as int })
}

/// Why an included row could not be turned into a host.
#[derive(Debug, Clone, Copy, PartialEq, Eq, Structural)]
pub enum RowError {
    /// The inclusion flag says yes but the host-name column is missing.
    MissingHostName,
    /// The inclusion flag says yes but the proxy-address column is
    /// missing.
    MissingProxyAddress,
}

/// Whether the row's inclusion flag is present and affirmative: its value
/// alone is compared case-insensitively, lower-cased against `y`.
pub open spec fn row_included(rm: Seq<(Seq<char>, Seq<char>)>) -> bool {
    match table_lookup(rm, "needed for traefik"@) {
        Some(v) => lower_of(v) == "y"@,
        None => false,
    }
}

/// What one row yields: nothing when the inclusion flag is absent or
/// negative, a host holding the trimmed proxy address and host name when
/// both are present, and the precise malformed-row error otherwise.
pub open spec fn row_outcome(rm: Seq<(Seq<char>, Seq<char>)>) -> Result<
    Option<VirtualHostView>,
    RowError,
> {
    if !row_included(rm) {
        Ok(None)
    } else {
        match table_lookup(rm, "host name"@) {
            None => Err(RowError::MissingHostName),
            Some(hn) => match table_lookup(rm, "blue webproxy ip"@) {
                None => Err(RowError::MissingProxyAddress),
                Some(ip) => Ok(
                    Some(
                        VirtualHostView {
                            host: trim_of(ip),
                            server_name: trim_of(hn),
                            ..empty_virtual_host()
                        },
                    ),
                ),
            },
        }
    }
}

/// Builds the normalized header-to-value mapping of one row.
#[verifier::loop_isolation(false)]
pub fn row_map(headers: &Vec<String>, cells: &Vec<String>) -> (r: Vec<(String, String)>)
    ensures
        r.deep_view() == row_map_of(headers.deep_view(), cells.deep_view()),
{
    let n = if headers.len() <= cells.len() {
        headers.len()
    } else {
        cells.len()
    };
    let mut rm: Vec<(String, String)> = Vec::new();
    let mut i: usize = 0;
    while i < n
        invariant
            n <= headers.len(),
            n <= cells.len(),
            i <= n,
            rm.deep_view() == row_map_upto(headers.deep_view(), cells.deep_view(), i as int),
        decreases n - i,
    {
        let low_header = lowercase(headers[i].as_str());
        let key = lowercase(trimmed(low_header.as_str()));
        let value = cells[i].clone();
        table_put(&mut rm, key, value);
        i += 1;
    }
    rm
}

/// Decides one row: skipped (`Ok(None)`) when the inclusion flag is absent
/// or not affirmative; a host from the trimmed host-name and proxy-address
/// columns when the flag says yes and both are present; the precise
/// malformed-row error when one of them is missing.
pub fn ingest_row(headers: &Vec<String>, cells: &Vec<String>) -> (r: Result<
    Option<VirtualHost>,
    RowError,
>)
    ensures
        ({
            let rm = row_map_of(headers.deep_view(), cells.deep_view());
            match r {
                Ok(None) => row_outcome(rm) == Ok::<Option<VirtualHostView>, RowError>(None),
                Ok(Some(vh)) => row_outcome(rm) == Ok::<Option<VirtualHostView>, RowError>(
                    Some(vh@),
                ),
                Err(e) => row_outcome(rm) == Err::<Option<VirtualHostView>, RowError>(e),
            }
        }),
{
    let rm = row_map(headers, cells);
    let flag = table_get(&rm, "needed for traefik");
    match flag {
        None => Ok(None),
        Some(v) => {
            let low = lowercase(v.as_str());
            if str_eq(low.as_str(), "y") {
                let hostname = match table_get(&rm, "host name") {
                    None => {
                        return Err(RowError::MissingHostName);
                    },
                    Some(hn) => String::from_str(trimmed(hn.as_str())),
                };
                let address = match table_get(&rm, "blue webproxy ip") {
                    None => {
                        return Err(RowError::MissingProxyAddress);
                    },
                    Some(ip) => String::from_str(trimmed(ip.as_str())),
                };
                let vh = VirtualHost::builder().host(address).server_name(hostname).build();
                proof {
                    assert(vh@ =~= row_outcome(rm.deep_view()).unwrap().unwrap());
                }
                Ok(Some(vh))
            } else {
                Ok(None)
            }
        },
    }
}

} // verus!
