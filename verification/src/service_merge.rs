//! Adopting the configured core services into the saved operations state:
//! each configured service keeps its saved snapshot, with the configuration's
//! presentation applied, or starts from the configuration.
use vstd::prelude::*;
use crate::cr_config::CoreServiceConfig;
use crate::operations::{
    clone_snapshot, find_service, insert_position, join_url_seq, lemma_find_service, lemma_insert_position,
    service_insert_position, service_position, snapshot_from_config, OperationsState, ServiceSnapshot,
};
use crate::text::{lemma_seq_lt_irrefl, lemma_seq_lt_total, lemma_seq_lt_trans, lit, seq_lt, strictly_sorted};

verus! {

/// The names of the snapshots, in order.
pub open spec fn snapshot_names(l: Seq<ServiceSnapshot>) -> Seq<Seq<char>> {
    l.map_values(|s: ServiceSnapshot| s.name@)
}

/// `n` is the saved snapshot `o` adopted by configuration `c`: the
/// presentation fields come from `c`, and a service that `c` disables is
/// disabled.
pub open spec fn adopted_kept(o: ServiceSnapshot, c: CoreServiceConfig, n: ServiceSnapshot) -> bool {
    &&& n.name == o.name
    &&& n.display_name == c.display_name
    &&& n.kind == c.kind
    &&& n.base_url == c.base_url
    &&& n.webui_url@ == join_url_seq(c.base_url@, c.webui_path@)
    &&& n.critical == c.critical
    &&& n.enabled == (o.enabled && c.enabled)
    &&& n.status@ == (if o.enabled && c.enabled { o.status@ } else { "disabled"@ })
    &&& n.live == o.live && n.ready == o.ready
    &&& n.checked_at == o.checked_at && n.last_success_at == o.last_success_at
    &&& n.latency_ms == o.latency_ms
    &&& n.consecutive_failures == o.consecutive_failures
    &&& n.http_status == o.http_status
    &&& n.message == o.message
    &&& n.health == o.health && n.readiness == o.readiness && n.summary == o.summary
}

/// Index of the last configuration named `name`, or -1.
pub open spec fn last_named(cs: Seq<CoreServiceConfig>, name: Seq<char>) -> int
    decreases cs.len(),
{
    if cs.len() == 0 {
        -1
    } else if cs.last().name@ == name {
        cs.len() - 1
    } else {
        last_named(cs.drop_last(), name)
    }
}

/// Exactly one configuration is named `name`.
pub open spec fn named_once(cs: Seq<CoreServiceConfig>, name: Seq<char>) -> bool {
    &&& last_named(cs, name) >= 0
    &&& forall|j: int| 0 <= j < last_named(cs, name) ==> (#[trigger] cs[j]).name@ != name
}

/// `n` is what the configurations `cs` make of the saved snapshots `old`
/// for the name of `n`: the last configuration of that name decides; when
/// it is the only one and a snapshot of that name was saved, that snapshot
/// is kept, else the service starts from the configuration.
pub open spec fn adopted(old: Seq<ServiceSnapshot>, cs: Seq<CoreServiceConfig>, n: ServiceSnapshot) -> bool {
    let i = last_named(cs, n.name@);
    &&& 0 <= i < cs.len()
    &&& if named_once(cs, n.name@) && find_service(old, n.name@) is Some {
        adopted_kept(old[find_service(old, n.name@)->0], cs[i], n)
    } else {
        snapshot_from_config(cs[i], n)
    }
}

/// The services that the configurations `cs` make of the saved snapshots
/// `old`: one per configured name, in name order.
pub open spec fn services_adopted(old: Seq<ServiceSnapshot>, cs: Seq<CoreServiceConfig>, r: Seq<ServiceSnapshot>) -> bool {
    &&& strictly_sorted(snapshot_names(r))
    &&& forall|k: int| 0 <= k < r.len() ==> adopted(old, cs, #[trigger] r[k])
    &&& forall|j: int| 0 <= j < cs.len() ==> find_service(r, (#[trigger] cs[j]).name@) is Some
}

proof fn lemma_last_named(cs: Seq<CoreServiceConfig>, name: Seq<char>)
    ensures
        -1 <= last_named(cs, name) < cs.len(),
        last_named(cs, name) >= 0 ==> cs[last_named(cs, name)].name@ == name,
        forall|j: int| last_named(cs, name) < j < cs.len() ==> (#[trigger] cs[j]).name@ != name,
    decreases cs.len(),
{
    if cs.len() > 0 && cs.last().name@ != name {
        lemma_last_named(cs.drop_last(), name);
        assert forall|j: int| last_named(cs, name) < j < cs.len() implies (#[trigger] cs[j]).name@ != name by {
            if j < cs.len() - 1 {
                assert(cs[j] == cs.drop_last()[j]);
            }
        }
    }
}

/// Adopts the configured services into the saved snapshots.
pub fn adopt_service_configs(old: &Vec<ServiceSnapshot>, configs: &Vec<CoreServiceConfig>) -> (r: Vec<ServiceSnapshot>)
    ensures
        services_adopted(old@, configs@, r@),
{
    let mut merged: Vec<ServiceSnapshot> = Vec::new();
    let mut i: usize = 0;
    while i < configs.len()
        invariant
            i <= configs@.len(),
            services_adopted(old@, configs@.take(i as int), merged@),
        decreases configs@.len() - i,
    {
        let c = &configs[i];
        let ghost p = configs@.take(i as int);
        let ghost q = configs@.take(i + 1);
        assert(q.drop_last() =~= p);
        assert(q.last() == *c);
        let seen = service_position(&merged, c.name.as_str());
        let mut snap = match seen {
            Some(_) => ServiceSnapshot::from_config(c),
            None => match service_position(old, c.name.as_str()) {
                Some(k) => clone_snapshot(&old[k]),
                None => ServiceSnapshot::from_config(c),
            },
        };
        let ghost base = snap;
        snap.apply_config(c);
        if !c.enabled && snap.enabled {
            snap.enabled = false;
            snap.status = lit("disabled");
        }
        proof {
            lemma_find_service(merged@, c.name@);
            lemma_find_service(old@, c.name@);
            lemma_last_named(p, c.name@);
            assert(last_named(q, c.name@) == i);
            assert(snap.name@ == c.name@);
            if seen is None {
                assert forall|j: int| 0 <= j < i implies (#[trigger] q[j]).name@ != c.name@ by {
                    assert(q[j] == p[j]);
                    if p[j].name@ == c.name@ {
                        assert(find_service(merged@, p[j].name@) is Some);
                    }
                }
                assert(named_once(q, c.name@));
            } else {
                let k = find_service(merged@, c.name@)->0;
                assert(adopted(old@, p, merged@[k]));
                assert(!named_once(q, c.name@)) by {
                    let l = last_named(p, c.name@);
                    assert(0 <= l < i);
                    assert(q[l] == p[l]);
                }
            }
            assert(adopted(old@, q, snap));
        }
        let ghost before = merged@;
        match seen {
            Some(pos) => {
                merged.set(pos, snap);
            },
            None => {
                let pos = service_insert_position(&merged, c.name.as_str());
                proof {
                    lemma_insert_position(merged@, c.name@);
                }
                merged.insert(pos, snap);
            },
        }
        proof {
            lemma_keep_adopted(old@, p, q, before, merged@, c.name@, snap, seen);
        }
        i = i + 1;
    }
    assert(configs@.take(configs@.len() as int) =~= configs@);
    merged
}

/// After one more configuration, the entries of other names still hold, the
/// new entry holds, the order is kept and every configured name is present.
proof fn lemma_keep_adopted(
    old: Seq<ServiceSnapshot>,
    p: Seq<CoreServiceConfig>,
    q: Seq<CoreServiceConfig>,
    before: Seq<ServiceSnapshot>,
    after: Seq<ServiceSnapshot>,
    name: Seq<char>,
    snap: ServiceSnapshot,
    seen: Option<usize>,
)
    requires
        q.len() == p.len() + 1,
        q.drop_last() == p,
        q.last().name@ == name,
        snap.name@ == name,
        services_adopted(old, p, before),
        adopted(old, q, snap),
        match seen {
            Some(pos) => find_service(before, name) == Some(pos as int) && after == before.update(pos as int, snap),
            None => find_service(before, name) is None && after == before.insert(insert_position(before, name), snap),
        },
    ensures
        services_adopted(old, q, after),
{
    lemma_find_service(before, name);
    lemma_insert_position(before, name);
    assert forall|y: Seq<char>| y != name implies last_named(q, y) == last_named(p, y) && named_once(q, y) == named_once(
        p,
        y,
    ) by {
        assert(q.drop_last() =~= p);
        assert(last_named(q, y) == last_named(p, y));
        lemma_last_named(p, y);
        if named_once(p, y) {
            assert forall|j: int| 0 <= j < last_named(q, y) implies (#[trigger] q[j]).name@ != y by {
                assert(q[j] == p[j]);
            }
        }
        if named_once(q, y) {
            assert forall|j: int| 0 <= j < last_named(p, y) implies (#[trigger] p[j]).name@ != y by {
                assert(q[j] == p[j]);
            }
        }
    }
    assert forall|k: int| 0 <= k < after.len() implies adopted(old, q, #[trigger] after[k]) by {
        if after[k].name@ != name {
            let b = if seen is Some || k < insert_position(before, name) { k } else { k - 1 };
            assert(after[k] == before[b]);
            assert(adopted(old, p, before[b]));
            let y = after[k].name@;
            lemma_last_named(p, y);
            assert(q[last_named(q, y)] == p[last_named(p, y)]);
        } else {
            match seen {
                Some(pos) => {
                    if k != pos {
                        assert(after[k] == before[k]);
                        assert(before[k].name@ == name);
                        assert(before[pos as int].name@ == name);
                        lemma_seq_lt_irrefl(name);
                        if k < pos {
                            assert(seq_lt(snapshot_names(before)[k], snapshot_names(before)[pos as int]));
                        } else {
                            assert(seq_lt(snapshot_names(before)[pos as int], snapshot_names(before)[k]));
                        }
                    }
                },
                None => {
                    let ip = insert_position(before, name);
                    if k < ip {
                        assert(after[k] == before[k]);
                    } else if k > ip {
                        assert(after[k] == before[k - 1]);
                    }
                },
            }
        }
    }
    assert forall|a: int, b: int| 0 <= a < b < after.len() implies seq_lt(
        #[trigger] snapshot_names(after)[a],
        #[trigger] snapshot_names(after)[b],
    ) by {
        match seen {
            Some(pos) => {
                assert(snapshot_names(before)[a] == snapshot_names(after)[a] || a == pos);
                if a == pos {
                    assert(snapshot_names(after)[a] == snapshot_names(before)[a]);
                }
                if b == pos {
                    assert(snapshot_names(after)[b] == snapshot_names(before)[b]);
                }
                assert(seq_lt(snapshot_names(before)[a], snapshot_names(before)[b]));
            },
            None => {
                let ip = insert_position(before, name);
                if b < ip {
                    assert(seq_lt(snapshot_names(before)[a], snapshot_names(before)[b]));
                } else if a > ip {
                    assert(seq_lt(snapshot_names(before)[a - 1], snapshot_names(before)[b - 1]));
                } else if a == ip {
                    assert(snapshot_names(after)[a] == name);
                    assert(snapshot_names(after)[b] == before[b - 1].name@);
                    assert(!seq_lt(before[ip].name@, name));
                    assert(before[ip].name@ != name);
                    lemma_seq_lt_total(before[ip].name@, name);
                    if b - 1 > ip {
                        assert(seq_lt(snapshot_names(before)[ip], snapshot_names(before)[b - 1]));
                        lemma_seq_lt_trans(name, before[ip].name@, before[b - 1].name@);
                    }
                } else if b == ip {
                    assert(snapshot_names(after)[b] == name);
                    assert(seq_lt(before[a].name@, name));
                } else {
                    assert(a < ip && ip < b);
                    assert(seq_lt(before[a].name@, name));
                    assert(!seq_lt(before[ip].name@, name));
                    assert(before[ip].name@ != name);
                    lemma_seq_lt_total(before[ip].name@, name);
                    if b - 1 > ip {
                        assert(seq_lt(snapshot_names(before)[ip], snapshot_names(before)[b - 1]));
                        lemma_seq_lt_trans(name, before[ip].name@, before[b - 1].name@);
                    }
                    lemma_seq_lt_trans(before[a].name@, name, before[b - 1].name@);
                }
            },
        }
    }
    assert forall|j: int| 0 <= j < q.len() implies find_service(after, (#[trigger] q[j]).name@) is Some by {
        let y = q[j].name@;
        let w = if y == name {
            match seen {
                Some(pos) => pos as int,
                None => insert_position(before, name),
            }
        } else {
            assert(q[j] == p[j]);
            assert(find_service(before, y) is Some);
            lemma_find_service(before, y);
            let k = find_service(before, y)->0;
            if seen is Some || k < insert_position(before, name) {
                k
            } else {
                k + 1
            }
        };
        assert(after[w].name@ == y);
        lemma_find_service(after, y);
    }
}


impl OperationsState {
    /// Makes a saved (or fresh) state ready for use at `now`: no poll runs,
    /// the configured services are adopted, and the schema version is the
    /// current one.
    pub fn adopt_configs(&mut self, configs: &Vec<CoreServiceConfig>, now: String)
        ensures
            services_adopted(old(self).services@, configs@, final(self).services@),
            !final(self).poll_in_progress,
            final(self).schema_version == 1,
            final(self).updated_at == now,
            final(self).started_at == old(self).started_at,
            final(self).incidents == old(self).incidents,
            final(self).shift_log == old(self).shift_log,
            final(self).last_poll_started_at == old(self).last_poll_started_at,
            final(self).last_poll_finished_at == old(self).last_poll_finished_at,
            final(self).poll_count == old(self).poll_count,
    {
        self.poll_in_progress = false;
        let merged = adopt_service_configs(&self.services, configs);
        self.services = merged;
        self.schema_version = 1;
        self.updated_at = now;
    }
}

} // verus!
