//! The JSON projection of a configuration, and the serializer calls it
//! relies on.

use vstd::prelude::*;
use crate::configs::ProxyConfig;

verus! {

/// What `serde_json::to_string` returns for a vector of strings: the JSON
/// array holding them, a function of the strings alone.
pub uninterp spec fn json_of_args(args: Seq<Seq<char>>) -> Seq<char>;

/// Relies on `serde_json::to_string`: serializing a vector of strings cannot
/// fail, and the produced JSON text is a function of the strings alone.
#[verifier::external_body]
pub(crate) fn args_to_json(args: &Vec<String>) -> (r: String)
    ensures
        r@ == json_of_args(args.deep_view()),
{
    serde_json::to_string(args).unwrap()
}

#[verifier::external_type_specification]
#[verifier::external_body]
pub struct ExValue(serde_json::Value);

/// What `serde_json::to_value` returns for a string: the JSON string value
/// holding those characters, a function of the characters alone.
pub uninterp spec fn json_value_of(s: Seq<char>) -> serde_json::Value;

/// Relies on `serde_json::to_value`: serializing a string slice cannot fail,
/// and the produced value is a function of the characters alone.
#[verifier::external_body]
fn json_value_of_str(s: &str) -> (r: serde_json::Value)
    ensures
        r == json_value_of(s@),
{
    serde_json::to_value(s).unwrap()
}

impl ProxyConfig {
    /// JSON projection: one value per virtual host, in encounter order, each
    /// holding that host's `server_name`.
    pub fn to_json(&self) -> (r: Vec<serde_json::Value>)
        ensures
            r@.len() == self@.virtual_hosts.len(),
            forall|i: int|
                0 <= i < r@.len() ==> r@[i] == json_value_of(
                    self@.virtual_hosts[i].server_name,
                ),
    {
        let mut out: Vec<serde_json::Value> = Vec::new();
        let mut i: usize = 0;
        while i < self.virtual_hosts.len()
            invariant
                i <= self.virtual_hosts.len(),
                out@.len() == i,
                forall|j: int|
                    0 <= j < i ==> out@[j] == json_value_of(
                        self@.virtual_hosts[j].server_name,
                    ),
            decreases self.virtual_hosts.len() - i,
        {
            out.push(json_value_of_str(self.virtual_hosts[i].server_name.as_str()));
            i += 1;
        }
        out
    }
}

} // verus!
