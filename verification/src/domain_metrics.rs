//! The figures of the federated overview, read from the status summaries
//! that the core services report.
use vstd::prelude::*;
use crate::json::{copy_json, entries_view, get_view, json_get, Json, JsonNumber, JsonView, NumberView};
use crate::summary_fields::{curated_fields, curated_metric_fields, preferred_count_rows, preferred_count_rows_spec, row_view};
use crate::text::{lit, parse_uint, parse_uint_seq, str_eq};

verus! {

/// A core service's name and the status summary it last reported.
pub struct ServiceSummary {
    pub name: String,
    pub summary: Option<Json>,
}

impl View for ServiceSummary {
    type V = (Seq<char>, Option<JsonView>);

    open spec fn view(&self) -> (Seq<char>, Option<JsonView>) {
        (self.name@, match self.summary {
            Some(j) => Some(j@),
            None => None,
        })
    }
}

/// The views of a list of services.
pub open spec fn summaries_view(s: Seq<ServiceSummary>) -> Seq<(Seq<char>, Option<JsonView>)> {
    s.map_values(|x: ServiceSummary| x@)
}

/// The views of `(service, field)` pairs.
pub open spec fn pairs_view(c: Seq<(&str, &str)>) -> Seq<(Seq<char>, Seq<char>)> {
    c.map_values(|p: (&str, &str)| (p.0@, p.1@))
}

/// A figure as a summary gives it: an unsigned number, or a text that reads
/// as one.
pub open spec fn metric_value(v: JsonView) -> Option<u64> {
    match v {
        JsonView::Number(NumberView::Unsigned(n)) => Some(n),
        JsonView::Number(NumberView::Negative(i)) => if i >= 0 {
            Some(i as u64)
        } else {
            None
        },
        JsonView::Text(t) => match parse_uint_seq(t, u64::MAX as nat) {
            Some(n) => Some(n as u64),
            None => None,
        },
        _ => None,
    }
}

/// The summary of the first service of that name, if it reported one.
pub open spec fn summary_of(services: Seq<(Seq<char>, Option<JsonView>)>, name: Seq<char>) -> Option<JsonView>
    decreases services.len(),
{
    if services.len() == 0 {
        None
    } else if services[0].0 == name {
        services[0].1
    } else {
        summary_of(services.drop_first(), name)
    }
}

/// The figure that a service's summary gives under `field`.
pub open spec fn summary_metric(
    services: Seq<(Seq<char>, Option<JsonView>)>,
    service: Seq<char>,
    field: Seq<char>,
) -> Option<u64> {
    match summary_of(services, service) {
        Some(s) => match get_view(s, field) {
            Some(v) => metric_value(v),
            None => None,
        },
        None => None,
    }
}

/// The figure of the first `(service, field)` candidate that gives one.
pub open spec fn first_metric(
    services: Seq<(Seq<char>, Option<JsonView>)>,
    cands: Seq<(Seq<char>, Seq<char>)>,
) -> Option<u64>
    decreases cands.len(),
{
    if cands.len() == 0 {
        None
    } else {
        match summary_metric(services, cands[0].0, cands[0].1) {
            Some(n) => Some(n),
            None => first_metric(services, cands.drop_first()),
        }
    }
}

/// The figures that the candidates give, in order.
pub open spec fn found_metrics(
    services: Seq<(Seq<char>, Option<JsonView>)>,
    cands: Seq<(Seq<char>, Seq<char>)>,
) -> Seq<u64>
    decreases cands.len(),
{
    if cands.len() == 0 {
        Seq::empty()
    } else {
        let rest = found_metrics(services, cands.drop_last());
        match summary_metric(services, cands.last().0, cands.last().1) {
            Some(n) => rest.push(n),
            None => rest,
        }
    }
}

/// The sum of the figures.
pub open spec fn total(vals: Seq<u64>) -> nat
    decreases vals.len(),
{
    if vals.len() == 0 {
        0
    } else {
        total(vals.drop_last()) + vals.last() as nat
    }
}

/// The sum of the figures the candidates give, held at `u64::MAX`; none
/// where no candidate gives one.
pub open spec fn sum_metrics(
    services: Seq<(Seq<char>, Option<JsonView>)>,
    cands: Seq<(Seq<char>, Seq<char>)>,
) -> Option<u64> {
    let found = found_metrics(services, cands);
    if found.len() == 0 {
        None
    } else if total(found) > u64::MAX {
        Some(u64::MAX)
    } else {
        Some(total(found) as u64)
    }
}

/// The fields of `fields` that the summary holds, with their values, in the
/// order of `fields`.
pub open spec fn curated_entries(fields: Seq<Seq<char>>, summary: Option<JsonView>) -> Seq<(Seq<char>, JsonView)>
    decreases fields.len(),
{
    if fields.len() == 0 {
        Seq::empty()
    } else {
        let rest = curated_entries(fields.drop_last(), summary);
        match summary {
            Some(s) => match get_view(s, fields.last()) {
                Some(v) => rest.push((fields.last(), v)),
                None => rest,
            },
            None => rest,
        }
    }
}

/// The `(service, field)` places that the headline count `key` is looked
/// up in, in order.
pub open spec fn count_candidates(rows: Seq<(Seq<char>, bool, Seq<char>, Seq<char>)>, key: Seq<char>) -> Seq<
    (Seq<char>, Seq<char>),
>
    decreases rows.len(),
{
    if rows.len() == 0 {
        Seq::empty()
    } else {
        let rest = count_candidates(rows.drop_last(), key);
        if rows.last().0 == key {
            rest.push((rows.last().2, rows.last().3))
        } else {
            rest
        }
    }
}

/// Whether the headline count `key` adds up its figures.
pub open spec fn count_summed(rows: Seq<(Seq<char>, bool, Seq<char>, Seq<char>)>, key: Seq<char>) -> bool
    decreases rows.len(),
{
    rows.len() > 0 && (count_summed(rows.drop_last(), key) || (rows.last().0 == key && rows.last().1))
}

/// The headline count `key` of the federated overview: the sum of its
/// figures where it adds them up, else the first figure found.
pub open spec fn preferred_count(services: Seq<(Seq<char>, Option<JsonView>)>, key: Seq<char>) -> Option<u64> {
    let rows = preferred_count_rows_spec();
    if count_summed(rows, key) {
        sum_metrics(services, count_candidates(rows, key))
    } else {
        first_metric(services, count_candidates(rows, key))
    }
}

/// The headline counts of the federated overview.
pub open spec fn preferred_count_keys() -> Seq<Seq<char>> {
    seq![
        "connected_nodes"@,
        "subscribers_registered"@,
        "subscribers_total"@,
        "groups_total"@,
        "group_affiliations"@,
        "active_calls"@,
        "active_media_sessions"@,
        "active_recordings"@,
        "sds_queued"@,
        "packet_contexts_ready"@,
        "ip_flows"@,
        "security_alarms"@,
        "active_keys"@,
        "transit_sessions"@,
        "transit_peers_up"@,
        "application_deliveries_pending"@,
        "application_dead_letters"@,
    ]
}

/// The figure a summary value gives (`metric_value`).
pub fn metric_value_of(v: &Json) -> (r: Option<u64>)
    ensures
        r == metric_value(v@),
{
    match v {
        Json::Number(JsonNumber::Unsigned(n)) => Some(*n),
        Json::Number(JsonNumber::Negative(i)) => if *i >= 0 {
            Some(*i as u64)
        } else {
            None
        },
        Json::Text(t) => parse_uint(t.as_str(), u64::MAX),
        _ => None,
    }
}

/// The summary of the first service of that name (`summary_of`).
pub fn summary_in<'a>(services: &'a [ServiceSummary], name: &str) -> (r: Option<&'a Json>)
    ensures
        match r {
            Some(j) => summary_of(summaries_view(services@), name@) == Some(j@),
            None => summary_of(summaries_view(services@), name@) is None,
        },
{
    let ghost all = summaries_view(services@);
    let mut i: usize = 0;
    proof {
        assert(all.skip(0) =~= all);
    }
    while i < services.len()
        invariant
            i <= services@.len(),
            all == summaries_view(services@),
            summary_of(all, name@) == summary_of(all.skip(i as int), name@),
        decreases services@.len() - i,
    {
        proof {
            assert(all.skip(i as int)[0] == services@[i as int]@);
            assert(all.skip(i as int).drop_first() =~= all.skip(i + 1));
        }
        if str_eq(services[i].name.as_str(), name) {
            return match &services[i].summary {
                Some(j) => Some(j),
                None => None,
            };
        }
        i = i + 1;
    }
    None
}

/// The figure that a service's summary gives under `field`
/// (`summary_metric`).
pub fn summary_metric_of(services: &[ServiceSummary], service: &str, field: &str) -> (r: Option<u64>)
    ensures
        r == summary_metric(summaries_view(services@), service@, field@),
{
    match summary_in(services, service) {
        Some(s) => match json_get(s, field) {
            Some(v) => metric_value_of(v),
            None => None,
        },
        None => None,
    }
}

/// The figure of the first candidate that gives one (`first_metric`).
pub fn first_metric_of(services: &[ServiceSummary], candidates: &[(&str, &str)]) -> (r: Option<u64>)
    ensures
        r == first_metric(summaries_view(services@), pairs_view(candidates@)),
{
    let ghost sv = summaries_view(services@);
    let ghost all = pairs_view(candidates@);
    let mut i: usize = 0;
    proof {
        assert(all.skip(0) =~= all);
    }
    while i < candidates.len()
        invariant
            i <= candidates@.len(),
            sv == summaries_view(services@),
            all == pairs_view(candidates@),
            first_metric(sv, all) == first_metric(sv, all.skip(i as int)),
        decreases candidates@.len() - i,
    {
        proof {
            assert(all.skip(i as int)[0] == all[i as int]);
            assert(all.skip(i as int).drop_first() =~= all.skip(i + 1));
        }
        let (service, field) = candidates[i];
        match summary_metric_of(services, service, field) {
            Some(n) => {
                return Some(n);
            },
            None => {},
        }
        i = i + 1;
    }
    None
}

/// The sum of the figures the candidates give, held at `u64::MAX`
/// (`sum_metrics`).
pub fn sum_metrics_of(services: &[ServiceSummary], candidates: &[(&str, &str)]) -> (r: Option<u64>)
    ensures
        r == sum_metrics(summaries_view(services@), pairs_view(candidates@)),
{
    let ghost sv = summaries_view(services@);
    let ghost all = pairs_view(candidates@);
    let mut acc: u64 = 0;
    let mut any = false;
    let mut i: usize = 0;
    proof {
        assert(all.take(0) =~= Seq::<(Seq<char>, Seq<char>)>::empty());
    }
    while i < candidates.len()
        invariant
            i <= candidates@.len(),
            sv == summaries_view(services@),
            all == pairs_view(candidates@),
            any == (found_metrics(sv, all.take(i as int)).len() > 0),
            acc as nat == (if total(found_metrics(sv, all.take(i as int))) > u64::MAX {
                u64::MAX as nat
            } else {
                total(found_metrics(sv, all.take(i as int)))
            }),
        decreases candidates@.len() - i,
    {
        let ghost before = found_metrics(sv, all.take(i as int));
        proof {
            assert(all.take(i + 1).drop_last() =~= all.take(i as int));
            assert(all.take(i + 1).last() == all[i as int]);
        }
        let (service, field) = candidates[i];
        match summary_metric_of(services, service, field) {
            Some(n) => {
                proof {
                    assert(found_metrics(sv, all.take(i + 1)) == before.push(n));
                    assert(before.push(n).drop_last() =~= before);
                    assert(total(before.push(n)) == total(before) + n);
                }
                acc = acc.saturating_add(n);
                any = true;
            },
            None => {
                proof {
                    assert(found_metrics(sv, all.take(i + 1)) == before);
                }
            },
        }
        i = i + 1;
    }
    proof {
        assert(all.take(candidates@.len() as int) =~= all);
    }
    if any {
        Some(acc)
    } else {
        None
    }
}

/// The curated fields of a service that its summary holds, with their
/// values, in the order of the curated list.
pub fn curated_metrics(service_name: &str, summary: Option<&Json>) -> (r: Vec<(String, Json)>)
    ensures
        entries_view(r@) == curated_entries(
            curated_fields(service_name@),
            match summary {
                Some(s) => Some(s@),
                None => None,
            },
        ),
{
    let fields = curated_metric_fields(service_name);
    let ghost fv = fields@.map_values(|f: &'static str| f@);
    let ghost sv = match summary {
        Some(s) => Some(s@),
        None => None,
    };
    let mut out: Vec<(String, Json)> = Vec::new();
    let mut i: usize = 0;
    proof {
        assert(fv.take(0) =~= Seq::<Seq<char>>::empty());
        assert(entries_view(out@) =~= Seq::<(Seq<char>, JsonView)>::empty());
    }
    while i < fields.len()
        invariant
            i <= fields@.len(),
            fv == fields@.map_values(|f: &'static str| f@),
            sv == (match summary {
                Some(s) => Some(s@),
                None => None,
            }),
            entries_view(out@) == curated_entries(fv.take(i as int), sv),
        decreases fields@.len() - i,
    {
        proof {
            assert(fv.take(i + 1).drop_last() =~= fv.take(i as int));
            assert(fv.take(i + 1).last() == fields@[i as int]@);
        }
        let ghost before = out@;
        match summary {
            Some(s) => match json_get(s, fields[i]) {
                Some(v) => {
                    out.push((lit(fields[i]), copy_json(v)));
                    proof {
                        assert(entries_view(out@) =~= entries_view(before).push((fields@[i as int]@, v@)));
                    }
                },
                None => {},
            },
            None => {},
        }
        i = i + 1;
    }
    proof {
        assert(fv.take(fields@.len() as int) =~= fv);
    }
    out
}

/// One headline count of the federated overview (`preferred_count`).
pub fn preferred_count_of(services: &[ServiceSummary], key: &str) -> (r: Option<u64>)
    ensures
        r == preferred_count(summaries_view(services@), key@),
{
    let rows = preferred_count_rows();
    let ghost rv = preferred_count_rows_spec();
    let mut cands: Vec<(&'static str, &'static str)> = Vec::new();
    let mut summed = false;
    let mut i: usize = 0;
    proof {
        assert(rv.take(0) =~= Seq::<(Seq<char>, bool, Seq<char>, Seq<char>)>::empty());
        assert(pairs_view(cands@) =~= Seq::<(Seq<char>, Seq<char>)>::empty());
    }
    while i < rows.len()
        invariant
            i <= rows@.len(),
            rv == preferred_count_rows_spec(),
            rows@.map_values(|x: (&'static str, bool, &'static str, &'static str)| row_view(x)) == rv,
            pairs_view(cands@) == count_candidates(rv.take(i as int), key@),
            summed == count_summed(rv.take(i as int), key@),
        decreases rows@.len() - i,
    {
        proof {
            assert(rv.take(i + 1).drop_last() =~= rv.take(i as int));
            assert(rv.take(i + 1).last() == row_view(rows@[i as int]));
        }
        let row = rows[i];
        if str_eq(row.0, key) {
            let ghost before = cands@;
            cands.push((row.2, row.3));
            proof {
                assert(pairs_view(cands@) =~= pairs_view(before).push((row.2@, row.3@)));
            }
            if row.1 {
                summed = true;
            }
        }
        i = i + 1;
    }
    proof {
        assert(rv.take(rows@.len() as int) =~= rv);
    }
    if summed {
        sum_metrics_of(services, cands.as_slice())
    } else {
        first_metric_of(services, cands.as_slice())
    }
}

/// The names of the headline counts, in order.
fn preferred_count_key_list() -> (r: Vec<&'static str>)
    ensures
        r@.map_values(|k: &'static str| k@) == preferred_count_keys(),
{
    let mut r: Vec<&'static str> = Vec::new();
    r.push("connected_nodes");
    r.push("subscribers_registered");
    r.push("subscribers_total");
    r.push("groups_total");
    r.push("group_affiliations");
    r.push("active_calls");
    r.push("active_media_sessions");
    r.push("active_recordings");
    r.push("sds_queued");
    r.push("packet_contexts_ready");
    r.push("ip_flows");
    r.push("security_alarms");
    r.push("active_keys");
    r.push("transit_sessions");
    r.push("transit_peers_up");
    r.push("application_deliveries_pending");
    r.push("application_dead_letters");
    assert(r@.map_values(|k: &'static str| k@) =~= preferred_count_keys());
    r
}

/// The headline counts of the federated overview, each under its name.
pub fn preferred_counts(services: &[ServiceSummary]) -> (r: Vec<(&'static str, Option<u64>)>)
    ensures
        r@.len() == preferred_count_keys().len(),
        forall|i: int|
            0 <= i < r@.len() ==> (#[trigger] r@[i]).0@ == preferred_count_keys()[i] && r@[i].1
                == preferred_count(summaries_view(services@), preferred_count_keys()[i]),
{
    let keys = preferred_count_key_list();
    let mut out: Vec<(&'static str, Option<u64>)> = Vec::new();
    let mut i: usize = 0;
    while i < keys.len()
        invariant
            i <= keys@.len(),
            keys@.map_values(|k: &'static str| k@) == preferred_count_keys(),
            out@.len() == i,
            forall|j: int|
                0 <= j < i ==> (#[trigger] out@[j]).0@ == preferred_count_keys()[j] && out@[j].1
                    == preferred_count(summaries_view(services@), preferred_count_keys()[j]),
        decreases keys@.len() - i,
    {
        proof {
            assert(keys@[i as int]@ == preferred_count_keys()[i as int]);
        }
        let v = preferred_count_of(services, keys[i]);
        out.push((keys[i], v));
        i = i + 1;
    }
    out
}

} // verus!
