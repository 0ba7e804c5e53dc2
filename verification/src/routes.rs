//! The proxy's `/metrics` endpoint: which reported metrics are recorded and
//! what the client is answered.
use vstd::prelude::*;
use vstd::string::*;
use crate::http::{STATUS_ACCEPTED, STATUS_BAD_REQUEST};
use crate::telemetry::{distinct_names_of, MetricCatalog};
use crate::text::{joined, join_strings, string_views};

verus! {

/// The body of the `/metrics` reply.
pub struct MetricsResponse {
    pub message: Option<String>,
}

/// The reported names, in order, that no gauge is registered under.
pub open spec fn unsupported_names(known: Seq<Seq<char>>, reported: Seq<Seq<char>>) -> Seq<Seq<char>>
    decreases reported.len(),
{
    if reported.len() == 0 {
        Seq::empty()
    } else {
        let rest = unsupported_names(known, reported.drop_last());
        if known.contains(reported.last()) {
            rest
        } else {
            rest.push(reported.last())
        }
    }
}

/// The message that lists unsupported metrics.
pub open spec fn unsupported_message(unsupported: Seq<Seq<char>>) -> Seq<char> {
    "Unsupported metrics:"@ + joined(unsupported, "\n"@)
}

/// The outcome of a `/metrics` request: for each reported metric whether it
/// is recorded, and the reply's status and body.
pub struct MetricReport {
    pub recorded: Vec<bool>,
    pub status: u16,
    pub response: MetricsResponse,
}

/// Decides a `/metrics` request whose body names the metrics `reported`, in
/// the order in which they are handled: a metric is recorded exactly when a
/// gauge is registered under its name; the request is accepted when every
/// metric is, and otherwise refused with the list of the others.
pub fn assess_metrics(catalog: &MetricCatalog, reported: &Vec<String>) -> (r: MetricReport)
    ensures
        r.recorded@.len() == reported@.len(),
        forall|i: int|
            0 <= i < reported@.len() ==> #[trigger] r.recorded@[i] == catalog.spec_names().contains(
                reported@[i]@,
            ),
        ({
            let unsupported = unsupported_names(catalog.spec_names(), string_views(reported@));
            if unsupported.len() == 0 {
                r.status == STATUS_ACCEPTED && r.response.message is None
            } else {
                &&& r.status == STATUS_BAD_REQUEST
                &&& r.response.message matches Some(m) && m@ == unsupported_message(unsupported)
            }
        }),
{
    let mut recorded: Vec<bool> = Vec::new();
    let mut unsupported: Vec<String> = Vec::new();
    let mut i: usize = 0;
    while i < reported.len()
        invariant
            i <= reported@.len(),
            recorded@.len() == i,
            forall|j: int| 0 <= j < i ==> #[trigger] recorded@[j] == catalog.spec_names().contains(reported@[j]@),
            string_views(unsupported@) == unsupported_names(
                catalog.spec_names(),
                string_views(reported@).subrange(0, i as int),
            ),
        decreases reported@.len() - i,
    {
        let ghost prefix = string_views(reported@).subrange(0, i as int);
        let ghost next = string_views(reported@).subrange(0, i + 1);
        assert(next.drop_last() =~= prefix);
        let known = catalog.contains(&reported[i]);
        recorded.push(known);
        if !known {
            let ghost before = string_views(unsupported@);
            unsupported.push(reported[i].clone());
            assert(string_views(unsupported@) =~= before.push(reported@[i as int]@));
        }
        i = i + 1;
    }
    assert(string_views(reported@).subrange(0, reported@.len() as int) =~= string_views(reported@));
    if unsupported.len() == 0 {
        MetricReport { recorded, status: STATUS_ACCEPTED, response: MetricsResponse { message: None } }
    } else {
        let mut message = "Unsupported metrics:".to_owned();
        let list = join_strings(&unsupported, "\n");
        message.append(list.as_str());
        MetricReport { recorded, status: STATUS_BAD_REQUEST, response: MetricsResponse { message: Some(message) } }
    }
}

/// The unsupported list names exactly the reported metrics that have no gauge.
pub proof fn lemma_unsupported_are_the_unknown(known: Seq<Seq<char>>, reported: Seq<Seq<char>>, name: Seq<char>)
    ensures
        unsupported_names(known, reported).contains(name) <==> (reported.contains(name) && !known.contains(
            name,
        )),
    decreases reported.len(),
{
    if reported.len() > 0 {
        let init = reported.drop_last();
        lemma_unsupported_are_the_unknown(known, init, name);
        let rest = unsupported_names(known, init);
        assert(reported =~= init.push(reported.last()));
        assert(reported.contains(name) <==> (init.contains(name) || reported.last() == name)) by {
            if reported.contains(name) {
                let k = choose|k: int| 0 <= k < reported.len() && reported[k] == name;
                if k < init.len() {
                    assert(init[k] == name);
                }
            }
            if init.contains(name) {
                let k = choose|k: int| 0 <= k < init.len() && init[k] == name;
                assert(reported[k] == name);
            }
        }
        if !known.contains(reported.last()) {
            let pushed = rest.push(reported.last());
            assert(pushed.contains(name) <==> (rest.contains(name) || reported.last() == name)) by {
                if pushed.contains(name) {
                    let k = choose|k: int| 0 <= k < pushed.len() && pushed[k] == name;
                    if k < rest.len() {
                        assert(rest[k] == name);
                    }
                }
                if rest.contains(name) {
                    let k = choose|k: int| 0 <= k < rest.len() && rest[k] == name;
                    assert(pushed[k] == name);
                }
                if reported.last() == name {
                    assert(pushed[rest.len() as int] == name);
                }
            }
        }
    }
}

/// A `/metrics` request is accepted exactly when every metric it reports
/// has a gauge.
pub proof fn lemma_accepted_iff_all_known(known: Seq<Seq<char>>, reported: Seq<Seq<char>>)
    ensures
        unsupported_names(known, reported).len() == 0 <==> forall|i: int|
            0 <= i < reported.len() ==> known.contains(#[trigger] reported[i]),
    decreases reported.len(),
{
    if reported.len() > 0 {
        let init = reported.drop_last();
        lemma_accepted_iff_all_known(known, init);
        assert forall|i: int| 0 <= i < init.len() implies init[i] == reported[i] by {}
        if unsupported_names(known, reported).len() == 0 {
            assert(known.contains(reported[reported.len() - 1]));
            assert forall|i: int| 0 <= i < reported.len() implies known.contains(#[trigger] reported[i]) by {
                if i < init.len() {
                    assert(init[i] == reported[i]);
                }
            }
        }
        if forall|i: int| 0 <= i < reported.len() ==> known.contains(#[trigger] reported[i]) {
            assert(known.contains(reported[reported.len() - 1]));
            assert forall|i: int| 0 <= i < init.len() implies known.contains(#[trigger] init[i]) by {
                assert(init[i] == reported[i]);
            }
        }
    }
}

/// The proxy treats a reported metric by the configuration alone: for a
/// catalog whose names are those of the configured metrics, the unsupported
/// metrics are the reported ones that the configuration does not name.
pub proof fn lemma_unsupported_by_configuration(
    names: Seq<Seq<char>>,
    configured: Seq<Seq<char>>,
    reported: Seq<Seq<char>>,
)
    requires
        distinct_names_of(names, configured),
    ensures
        unsupported_names(names, reported) == unsupported_names(configured, reported),
    decreases reported.len(),
{
    if reported.len() > 0 {
        lemma_unsupported_by_configuration(names, configured, reported.drop_last());
        assert(names.contains(reported.last()) <==> configured.contains(reported.last()));
    }
}

} // verus!
