use std::collections::HashMap;

use stats_backend::bundle::{bundle_jobs, BundleUpload, GameStatsBundle, StatsUpdate, UploadStatsBundle, UploadStep};
use stats_backend::ensure::{EnsureDocument, Phase, Scope, StoreAction, StoreEvent};
use stats_backend::model::{ChatAttachment, ChatMessage};
use stats_backend::profile::{plan_upsert, PlayerProfile, ProfileWrite};
use stats_backend::report::corruption_report;
use stats_backend::stats::{collect_stats, NamespaceStats, StatValue};

struct Doc {
    id: u128,
    scope: Scope,
    namespace: String,
    counters: Vec<(String, i64)>,
    readable: bool,
}

struct MemStore {
    profiles: HashMap<u128, Option<String>>,
    live: Vec<Doc>,
    quarantine: Vec<Doc>,
    reports: Vec<u128>,
    next_id: u128,
    failing: Option<Scope>,
}

impl MemStore {
    fn new() -> MemStore {
        MemStore {
            profiles: HashMap::new(),
            live: Vec::new(),
            quarantine: Vec::new(),
            reports: Vec::new(),
            next_id: 100,
            failing: None,
        }
    }

    fn fresh_id(&mut self) -> u128 {
        let id = self.next_id;
        self.next_id += 1;
        id
    }

    fn find(&self, scope: Scope, ns: &str) -> Option<usize> {
        self.live.iter().position(|d| d.scope == scope && d.namespace == ns)
    }

    fn perform(&mut self, scope: Scope, ns: &str, a: StoreAction) -> StoreEvent {
        match a {
            StoreAction::TrackProfile => {
                if let Scope::Player(p) = scope {
                    let existing = self.profile(p);
                    let up = plan_upsert(p, existing, None);
                    if up.write != ProfileWrite::Keep {
                        self.profiles.insert(p, up.profile.username);
                    }
                }
                StoreEvent::Done
            }
            StoreAction::FindDocument => match self.find(scope, ns) {
                None => StoreEvent::NotFound,
                Some(i) if self.live[i].readable => StoreEvent::Found,
                Some(_) => StoreEvent::ShapeError,
            },
            StoreAction::FetchRaw => match self.find(scope, ns) {
                None => StoreEvent::NotFound,
                Some(i) => StoreEvent::RawFound(self.live[i].id),
            },
            StoreAction::Quarantine(orig) => match self.live.iter().position(|d| d.id == orig) {
                None => StoreEvent::Failed,
                Some(i) => {
                    let q = self.fresh_id();
                    let d = &self.live[i];
                    let copy = Doc {
                        id: q,
                        scope: d.scope,
                        namespace: d.namespace.clone(),
                        counters: d.counters.clone(),
                        readable: d.readable,
                    };
                    self.quarantine.push(copy);
                    StoreEvent::Quarantined(q)
                }
            },
            StoreAction::DeleteOriginal(orig) => {
                self.live.retain(|d| d.id != orig);
                StoreEvent::Done
            }
            StoreAction::ReportCorruption(q) => {
                self.reports.push(q);
                StoreEvent::Done
            }
            StoreAction::WarnMissing => StoreEvent::Done,
            StoreAction::InsertEmpty => {
                let id = self.fresh_id();
                self.live.push(Doc { id, scope, namespace: ns.to_string(), counters: Vec::new(), readable: true });
                StoreEvent::Done
            }
        }
    }

    fn increment(&mut self, scope: Scope, ns: &str, stat: &str, delta: StatValue) -> StoreEvent {
        if self.failing == Some(scope) {
            return StoreEvent::Failed;
        }
        let d = match delta {
            StatValue::Integer(d) => d,
            StatValue::RealBits(_) => return StoreEvent::Failed,
        };
        match self.find(scope, ns) {
            None => StoreEvent::Failed,
            Some(i) => {
                let doc = &mut self.live[i];
                match doc.counters.iter_mut().find(|(k, _)| k == stat) {
                    Some((_, v)) => *v += d,
                    None => doc.counters.push((stat.to_string(), d)),
                }
                StoreEvent::Done
            }
        }
    }

    fn profile(&self, p: u128) -> Option<PlayerProfile> {
        self.profiles.get(&p).map(|n| PlayerProfile { uuid: p, username: n.clone() })
    }

    fn ensure(&mut self, scope: Scope, ns: &str) -> Phase {
        let mut run = EnsureDocument::new(scope, ns.to_string());
        while let Some(a) = run.action() {
            let ev = self.perform(scope, ns, a);
            run.advance(ev);
        }
        run.phase
    }

    fn upload(&mut self, bundle: GameStatsBundle) -> usize {
        let ns = bundle.namespace.clone();
        let mut up = BundleUpload::new(bundle);
        while let Some(step) = up.step() {
            let ev = match step {
                UploadStep::Ensure(scope, a) => self.perform(scope, &ns, a),
                UploadStep::Increment(scope, stat, delta) => self.increment(scope, &ns, &stat, delta),
            };
            up.advance(ev);
        }
        up.failures
    }

    fn stats(&self, p: u128, ns: Option<&str>) -> Option<Vec<NamespaceStats>> {
        let docs: Vec<NamespaceStats> = self
            .live
            .iter()
            .filter(|d| d.scope == Scope::Player(p) && ns.map_or(true, |n| d.namespace == n))
            .map(|d| NamespaceStats {
                namespace: d.namespace.clone(),
                stats: d.counters.iter().map(|(k, v)| (k.clone(), StatValue::Integer(*v))).collect(),
            })
            .collect();
        collect_stats(self.profiles.contains_key(&p), docs)
    }

    fn count_at(&self, scope: Scope, ns: &str) -> usize {
        self.live.iter().filter(|d| d.scope == scope && d.namespace == ns).count()
    }
}

fn deltas(items: &[(&str, i64)]) -> Vec<(String, StatValue)> {
    items.iter().map(|(k, v)| (k.to_string(), StatValue::Integer(*v))).collect()
}

fn bundle(ns: &str, players: Vec<(u128, Vec<(String, StatValue)>)>, global: Option<Vec<(String, StatValue)>>) -> GameStatsBundle {
    GameStatsBundle { namespace: ns.to_string(), stats: StatsUpdate { players, global } }
}

#[test]
fn upsert_new_profile_takes_name() {
    let up = plan_upsert(7, None, Some("Alice".to_string()));
    assert_eq!(up.write, ProfileWrite::Insert);
    assert_eq!(up.profile.uuid, 7);
    assert_eq!(up.profile.username.as_deref(), Some("Alice"));
}

#[test]
fn upsert_same_name_writes_nothing() {
    let stored = PlayerProfile { uuid: 7, username: Some("Alice".to_string()) };
    let up = plan_upsert(7, Some(stored), Some("Alice".to_string()));
    assert_eq!(up.write, ProfileWrite::Keep);
    assert_eq!(up.profile.username.as_deref(), Some("Alice"));
}

#[test]
fn upsert_other_name_renames() {
    let stored = PlayerProfile { uuid: 7, username: Some("Alice".to_string()) };
    let up = plan_upsert(7, Some(stored), Some("Bob".to_string()));
    assert_eq!(up.write, ProfileWrite::Rename);
    assert_eq!(up.profile.username.as_deref(), Some("Bob"));
}

#[test]
fn upsert_without_name_keeps_stored() {
    let stored = PlayerProfile { uuid: 7, username: Some("Alice".to_string()) };
    let up = plan_upsert(7, Some(stored), None);
    assert_eq!(up.write, ProfileWrite::Keep);
    assert_eq!(up.profile.username.as_deref(), Some("Alice"));
}

#[test]
fn upsert_names_a_nameless_profile() {
    let stored = PlayerProfile { uuid: 7, username: None };
    let up = plan_upsert(7, Some(stored), Some("Carol".to_string()));
    assert_eq!(up.write, ProfileWrite::Rename);
    assert_eq!(up.profile.username.as_deref(), Some("Carol"));
}

#[test]
fn upsert_then_lookup_through_store() {
    let mut store = MemStore::new();
    let up = plan_upsert(1, store.profile(1), Some("Alice".to_string()));
    assert_eq!(up.write, ProfileWrite::Insert);
    store.profiles.insert(1, up.profile.username);
    assert_eq!(store.profile(1).unwrap().username.as_deref(), Some("Alice"));
}

#[test]
fn ensure_twice_keeps_one_document() {
    let mut store = MemStore::new();
    assert_eq!(store.ensure(Scope::Player(1), "survival"), Phase::Succeeded);
    assert_eq!(store.count_at(Scope::Player(1), "survival"), 1);
    let id = store.live[0].id;
    assert_eq!(store.ensure(Scope::Player(1), "survival"), Phase::Succeeded);
    assert_eq!(store.count_at(Scope::Player(1), "survival"), 1);
    assert_eq!(store.live[0].id, id);
    assert!(store.profiles.contains_key(&1));
}

#[test]
fn ensure_global_needs_no_profile() {
    let mut store = MemStore::new();
    assert_eq!(store.ensure(Scope::Global, "lobby"), Phase::Succeeded);
    assert_eq!(store.count_at(Scope::Global, "lobby"), 1);
    assert!(store.profiles.is_empty());
}

#[test]
fn ensure_quarantines_corrupt_document() {
    let mut store = MemStore::new();
    store.profiles.insert(1, None);
    store.live.push(Doc {
        id: 5,
        scope: Scope::Player(1),
        namespace: "survival".to_string(),
        counters: vec![("kills".to_string(), 4)],
        readable: false,
    });
    assert_eq!(store.ensure(Scope::Player(1), "survival"), Phase::Succeeded);
    assert_eq!(store.quarantine.len(), 1);
    let q = &store.quarantine[0];
    assert_ne!(q.id, 5);
    assert_eq!(q.counters, vec![("kills".to_string(), 4)]);
    assert!(store.live.iter().all(|d| d.id != 5));
    assert_eq!(store.count_at(Scope::Player(1), "survival"), 1);
    let fresh = &store.live[store.find(Scope::Player(1), "survival").unwrap()];
    assert!(fresh.readable && fresh.counters.is_empty());
    assert_eq!(store.reports, vec![q.id]);
}

#[test]
fn repair_of_vanished_document_warns_and_inserts() {
    let mut run = EnsureDocument::new(Scope::Global, "lobby".to_string());
    assert_eq!(run.action(), Some(StoreAction::FindDocument));
    run.advance(StoreEvent::ShapeError);
    assert_eq!(run.action(), Some(StoreAction::FetchRaw));
    run.advance(StoreEvent::NotFound);
    assert_eq!(run.action(), Some(StoreAction::WarnMissing));
    run.advance(StoreEvent::Done);
    assert_eq!(run.action(), Some(StoreAction::InsertEmpty));
    run.advance(StoreEvent::Done);
    assert!(run.succeeded());
    assert_eq!(run.action(), None);
}

#[test]
fn repair_steps_run_in_order() {
    let mut run = EnsureDocument::new(Scope::Player(3), "survival".to_string());
    assert_eq!(run.action(), Some(StoreAction::TrackProfile));
    run.advance(StoreEvent::Done);
    run.advance(StoreEvent::ShapeError);
    run.advance(StoreEvent::RawFound(9));
    assert_eq!(run.action(), Some(StoreAction::Quarantine(9)));
    run.advance(StoreEvent::Quarantined(11));
    assert_eq!(run.action(), Some(StoreAction::DeleteOriginal(9)));
    run.advance(StoreEvent::Done);
    assert_eq!(run.action(), Some(StoreAction::ReportCorruption(11)));
    run.advance(StoreEvent::Done);
    assert_eq!(run.action(), Some(StoreAction::InsertEmpty));
}

#[test]
fn failed_report_fails_the_run() {
    let mut run = EnsureDocument::new(Scope::Global, "lobby".to_string());
    run.advance(StoreEvent::ShapeError);
    run.advance(StoreEvent::RawFound(2));
    run.advance(StoreEvent::Quarantined(3));
    run.advance(StoreEvent::Done);
    run.advance(StoreEvent::Failed);
    assert_eq!(run.phase, Phase::Failed);
    assert!(!run.succeeded());
    assert_eq!(run.action(), None);
}

#[test]
fn increments_sum_in_any_order() {
    let mut a = MemStore::new();
    a.upload(bundle("arena", vec![(1, deltas(&[("score", 5), ("score", -2), ("score", 10)]))], None));
    let mut b = MemStore::new();
    b.upload(bundle("arena", vec![(1, deltas(&[("score", 10), ("score", 5), ("score", -2)]))], None));
    let sa = a.stats(1, Some("arena")).unwrap();
    let sb = b.stats(1, Some("arena")).unwrap();
    assert_eq!(sa[0].stats, vec![("score".to_string(), StatValue::Integer(13))]);
    assert_eq!(sb[0].stats, sa[0].stats);
}

#[test]
fn stats_of_unknown_player_are_absent() {
    assert!(collect_stats(false, Vec::new()).is_none());
    let store = MemStore::new();
    assert!(store.stats(42, None).is_none());
}

#[test]
fn stats_of_known_player_without_counters_are_empty() {
    let r = collect_stats(true, Vec::new()).unwrap();
    assert!(r.is_empty());
}

#[test]
fn stats_later_document_of_a_namespace_wins() {
    let docs = vec![
        NamespaceStats { namespace: "a".to_string(), stats: deltas(&[("x", 1)]) },
        NamespaceStats { namespace: "b".to_string(), stats: deltas(&[("y", 2)]) },
        NamespaceStats { namespace: "a".to_string(), stats: deltas(&[("x", 7)]) },
    ];
    let r = collect_stats(true, docs).unwrap();
    assert_eq!(r.len(), 2);
    let a = r.iter().find(|n| n.namespace == "a").unwrap();
    assert_eq!(a.stats, deltas(&[("x", 7)]));
    let b = r.iter().find(|n| n.namespace == "b").unwrap();
    assert_eq!(b.stats, deltas(&[("y", 2)]));
}

#[test]
fn bundle_failure_of_one_player_spares_the_other() {
    for order in [vec![(1u128, "kills"), (2u128, "kills")], vec![(2u128, "kills"), (1u128, "kills")]] {
        let mut store = MemStore::new();
        store.failing = Some(Scope::Player(2));
        let players = order.iter().map(|(p, k)| (*p, deltas(&[(*k, 1)]))).collect();
        let failures = store.upload(bundle("survival", players, None));
        assert_eq!(failures, 1);
        let s = store.stats(1, Some("survival")).unwrap();
        assert_eq!(s[0].stats, deltas(&[("kills", 1)]));
    }
}

#[test]
fn end_to_end_lobby_bundle() {
    let mut store = MemStore::new();
    let p1: u128 = 0x1234;
    let make = || bundle("lobby", vec![(p1, deltas(&[("wins", 3)]))], Some(deltas(&[("games_played", 1)])));
    assert_eq!(store.upload(make()), 0);
    let s = store.stats(p1, Some("lobby")).unwrap();
    assert_eq!(s.len(), 1);
    assert_eq!(s[0].namespace, "lobby");
    assert_eq!(s[0].stats, deltas(&[("wins", 3)]));
    assert_eq!(store.upload(make()), 0);
    let s = store.stats(p1, Some("lobby")).unwrap();
    assert_eq!(s[0].stats, deltas(&[("wins", 6)]));
    let g = &store.live[store.find(Scope::Global, "lobby").unwrap()];
    assert_eq!(g.counters, vec![("games_played".to_string(), 2)]);
}

#[test]
fn bundle_jobs_players_then_global() {
    let b = bundle("lobby", vec![(1, deltas(&[("a", 1)])), (2, deltas(&[("b", 2)]))], Some(deltas(&[("g", 3)])));
    let jobs = bundle_jobs(b);
    assert_eq!(jobs.len(), 3);
    assert_eq!(jobs[0].scope, Scope::Player(2));
    assert_eq!(jobs[1].scope, Scope::Player(1));
    assert_eq!(jobs[1].increments, deltas(&[("a", 1)]));
    assert_eq!(jobs[2].scope, Scope::Global);
}

#[test]
fn empty_bundle_finishes_at_once() {
    let up = BundleUpload::new(bundle("lobby", Vec::new(), None));
    assert!(up.finished());
    assert!(up.step().is_none());
}

#[test]
fn upload_request_wraps_a_bundle() {
    let req = UploadStatsBundle(bundle("lobby", vec![(1, deltas(&[("a", 1)]))], None));
    let mut store = MemStore::new();
    assert_eq!(store.upload(req.0), 0);
    assert_eq!(store.count_at(Scope::Player(1), "lobby"), 1);
}

#[test]
fn corruption_report_names_namespace_scope_and_backup() {
    let r = corruption_report(&"survival".to_string(), Scope::Global, "abc".to_string());
    assert_eq!(r.title, ":warning: Corrupt stats document");
    assert_eq!(r.fields[0], ("Statistic namespace".to_string(), "survival".to_string()));
    assert_eq!(r.fields[1], ("Global statistic?".to_string(), "true".to_string()));
    assert_eq!(r.fields[2], ("Document backup ID".to_string(), "abc".to_string()));
    let p = corruption_report(&"x".to_string(), Scope::Player(1), "q".to_string());
    assert_eq!(p.fields[1].1, "false");
}

#[test]
fn reply_depth_is_capped() {
    let leaf = ChatMessage { sender: "a".into(), content: "hi".into(), name_color: None, attachments: Vec::new(), replying_to: None };
    let mid = ChatMessage {
        sender: "b".into(),
        content: "re".into(),
        name_color: Some(0xff0000),
        attachments: vec![ChatAttachment { name: "f".into(), url: "u".into() }],
        replying_to: Some(Box::new(leaf)),
    };
    let top = ChatMessage { sender: "c".into(), content: "re re".into(), name_color: None, attachments: Vec::new(), replying_to: Some(Box::new(mid)) };
    assert_eq!(top.reply_depth(10), 2);
    assert_eq!(top.reply_depth(1), 1);
}

#[test]
fn upsert_empty_name_keeps_stored() {
    let stored = PlayerProfile { uuid: 7, username: Some("Alice".to_string()) };
    let up = plan_upsert(7, Some(stored), Some(String::new()));
    assert_eq!(up.write, ProfileWrite::Keep);
    assert_eq!(up.profile.username.as_deref(), Some("Alice"));
}
