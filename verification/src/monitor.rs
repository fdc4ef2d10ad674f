//! Decisions of the Wi-Fi network monitor: which access points get their
//! signal strength watched, and how each change signal is answered.
//!
//! The monitor subscribes to `AccessPointAdded` / `AccessPointRemoved` on
//! every Wi-Fi device and to `Strength` changes of every visible access
//! point, each access point once. The set of watched access points and the
//! answer to each signal are decided here; the subscriptions themselves are
//! made by the caller.

use vstd::prelude::*;
use crate::text::str_equals;

verus! {

/// The object paths of the access points whose strength is watched; no path
/// occurs twice.
pub struct MonitoredAccessPoints {
    paths: Vec<String>,
}

impl View for MonitoredAccessPoints {
    type V = Set<Seq<char>>;

    /// The set of watched paths.
    open spec fn view(&self) -> Set<Seq<char>> {
        self.watched()
    }
}

impl MonitoredAccessPoints {
    /// No path is held twice.
    pub closed spec fn well_formed(&self) -> bool {
        forall|i: int, j: int|
            0 <= i < j < self.paths@.len() ==> (#[trigger] self.paths@[i])@ != (
            #[trigger] self.paths@[j])@
    }

    /// The watched paths.
    pub closed spec fn watched(&self) -> Set<Seq<char>> {
        Set::new(|p: Seq<char>| exists|i: int| 0 <= i < self.paths@.len() && (#[trigger] self.paths@[i])@ == p)
    }

    /// The number of watched paths, each counted once.
    pub closed spec fn count(&self) -> nat {
        self.paths@.len()
    }

    /// No access point is watched yet.
    pub fn new() -> (m: MonitoredAccessPoints)
        ensures
            m.well_formed(),
            m@ == Set::<Seq<char>>::empty(),
            m.count() == 0,
    {
        let m = MonitoredAccessPoints { paths: Vec::new() };
        assert(m@ =~= Set::<Seq<char>>::empty());
        m
    }

    fn position(&self, path: &str) -> (r: Option<usize>)
        ensures
            r matches Some(i) ==> i < self.paths@.len() && self.paths@[i as int]@ == path@,
            r is None ==> !self@.contains(path@),
    {
        let mut i: usize = 0;
        while i < self.paths.len()
            invariant
                i <= self.paths@.len(),
                forall|j: int| 0 <= j < i ==> (#[trigger] self.paths@[j])@ != path@,
            decreases self.paths@.len() - i,
        {
            if str_equals(self.paths[i].as_str(), path) {
                return Some(i);
            }
            i = i + 1;
        }
        None
    }

    /// Whether the access point is watched.
    pub fn contains(&self, path: &str) -> (r: bool)
        ensures
            r == self@.contains(path@),
    {
        self.position(path).is_some()
    }

    /// The number of watched access points.
    pub fn len(&self) -> (n: usize)
        requires
            self.well_formed(),
        ensures
            n == self.count(),
            n == self@.len(),
    {
        proof {
            self.lemma_count_is_len();
        }
        self.paths.len()
    }

    proof fn lemma_count_is_len(&self)
        requires
            self.well_formed(),
        ensures
            self@.len() == self.count(),
            self@.finite(),
    {
        let t = self.paths@.map_values(|s: String| s@);
        assert forall|i: int, j: int| 0 <= i < j < t.len() implies t[i] != t[j] by {
            assert(t[i] == self.paths@[i]@ && t[j] == self.paths@[j]@);
        }
        assert(t.no_duplicates());
        t.unique_seq_to_set();
        assert(t.to_set() =~= self@) by {
            assert forall|p: Seq<char>| self@.contains(p) implies t.to_set().contains(p) by {
                let i = choose|i: int| 0 <= i < self.paths@.len() && (#[trigger] self.paths@[i])@ == p;
                assert(t[i] == p);
            }
        }
    }

    /// Starts watching `path`; returns `true` when it was not watched yet,
    /// which is when its strength signal must be subscribed to.
    pub fn insert(&mut self, path: &str) -> (added: bool)
        requires
            old(self).well_formed(),
        ensures
            final(self).well_formed(),
            added == !old(self)@.contains(path@),
            final(self)@ == old(self)@.insert(path@),
    {
        match self.position(path) {
            Some(_) => {
                assert(self@ =~= self@.insert(path@));
                false
            },
            None => {
                let ghost before = self@;
                let ghost old_paths = self.paths@;
                self.paths.push(String::from_str(path));
                assert(self@ =~= before.insert(path@)) by {
                    let n = self.paths@.len() - 1;
                    assert(self.paths@[n]@ == path@);
                    assert forall|p: Seq<char>| before.insert(path@).contains(p) implies self@.contains(p) by {
                        if p != path@ {
                            let k = choose|k: int| 0 <= k < old_paths.len() && (#[trigger] old_paths[k])@ == p;
                            assert(self.paths@[k] == old_paths[k]);
                        }
                    }
                    assert forall|p: Seq<char>| self@.contains(p) implies before.insert(path@).contains(p) by {
                        let k = choose|k: int| 0 <= k < self.paths@.len() && (#[trigger] self.paths@[k])@ == p;
                        if k < n {
                            assert(self.paths@[k] == old_paths[k]);
                        }
                    }
                }
                assert forall|i: int, j: int| 0 <= i < j < self.paths@.len() implies (#[trigger] self.paths@[i])@ != (#[trigger] self.paths@[j])@ by {
                    if j == self.paths@.len() - 1 {
                        assert(self.paths@[i] == old_paths[i]);
                        assert(before.contains(self.paths@[i]@));
                    } else {
                        assert(self.paths@[i] == old_paths[i] && self.paths@[j] == old_paths[j]);
                    }
                }
                true
            },
        }
    }

    /// Stops watching `path`.
    pub fn remove(&mut self, path: &str)
        requires
            old(self).well_formed(),
        ensures
            final(self).well_formed(),
            final(self)@ == old(self)@.remove(path@),
    {
        match self.position(path) {
            Some(i) => {
                let ghost before = self.paths@;
                let _ = self.paths.remove(i);
                assert forall|a: int, b: int| 0 <= a < b < self.paths@.len() implies (#[trigger] self.paths@[a])@ != (#[trigger] self.paths@[b])@ by {
                    let a0 = if a < i { a } else { a + 1 };
                    let b0 = if b < i { b } else { b + 1 };
                    assert(self.paths@[a] == before[a0] && self.paths@[b] == before[b0]);
                }
                assert(self@ =~= old(self)@.remove(path@)) by {
                    assert forall|p: Seq<char>| self@.contains(p) implies old(self)@.remove(path@).contains(p) by {
                        let k = choose|k: int| 0 <= k < self.paths@.len() && (#[trigger] self.paths@[k])@ == p;
                        if k < i {
                            assert(before[k] == self.paths@[k]);
                            assert(k != i as int);
                        } else {
                            assert(before[k + 1] == self.paths@[k]);
                        }
                    }
                    assert forall|p: Seq<char>| old(self)@.remove(path@).contains(p) implies self@.contains(p) by {
                        let k = choose|k: int| 0 <= k < before.len() && (#[trigger] before[k])@ == p;
                        if k < i {
                            assert(self.paths@[k] == before[k]);
                        } else {
                            assert(k != i as int);
                            assert(self.paths@[k - 1] == before[k]);
                        }
                    }
                }
            },
            None => {
                assert(self@ =~= self@.remove(path@));
            },
        }
    }
}


/// A change signal that the network monitor receives.
#[derive(Debug, Clone)]
pub enum NetworkChange {
    /// `AccessPointAdded` with the new access point's path.
    Added(String),
    /// `AccessPointRemoved` with the removed access point's path.
    Removed(String),
    /// A watched access point's strength changed (or a signal could not be
    /// parsed, which is answered the same way).
    SignalStrengthChanged,
    /// `DeviceAdded` with the new device's path.
    DeviceAdded(String),
}

/// How the monitor answers a change.
#[derive(Debug, Clone)]
pub struct NetworkReaction {
    /// Subscribe to this access point's strength changes.
    pub watch_strength: Option<String>,
    /// Subscribe to this device's access-point signals, if it is a Wi-Fi
    /// device; the caller notifies only when that subscription succeeds.
    pub subscribe_device: Option<String>,
    /// Notify the caller's callback now.
    pub notify: bool,
}

/// The text of an optional string.
pub open spec fn opt_text(s: Option<String>) -> Option<Seq<char>> {
    match s {
        Some(t) => Some(t@),
        None => None,
    }
}

/// The watched set after a change.
pub open spec fn watched_after(watched: Set<Seq<char>>, change: NetworkChange) -> Set<Seq<char>> {
    match change {
        NetworkChange::Added(p) => watched.insert(p@),
        NetworkChange::Removed(p) => watched.remove(p@),
        _ => watched,
    }
}

/// The access point whose strength starts being watched after a change:
/// an added access point that was not watched yet.
pub open spec fn newly_watched(watched: Set<Seq<char>>, change: NetworkChange) -> Option<Seq<char>> {
    match change {
        NetworkChange::Added(p) => if watched.contains(p@) {
            None
        } else {
            Some(p@)
        },
        _ => None,
    }
}

/// Whether the callback is notified at once: for every change but a new
/// device, whose notification waits for its subscription.
pub open spec fn notifies_now(change: NetworkChange) -> bool {
    !(change is DeviceAdded)
}

/// The device to subscribe to after a change.
pub open spec fn device_to_subscribe(change: NetworkChange) -> Option<Seq<char>> {
    match change {
        NetworkChange::DeviceAdded(d) => Some(d@),
        _ => None,
    }
}

/// Answers a change signal: an added access point is watched (its strength
/// subscribed to the first time it is seen), a removed one stops being
/// watched, a new device is to be subscribed to, and the callback is
/// notified for every change but a new device.
pub fn on_network_change(monitored: &mut MonitoredAccessPoints, change: NetworkChange) -> (r:
    NetworkReaction)
    requires
        old(monitored).well_formed(),
    ensures
        final(monitored).well_formed(),
        final(monitored)@ == watched_after(old(monitored)@, change),
        opt_text(r.watch_strength) == newly_watched(old(monitored)@, change),
        opt_text(r.subscribe_device) == device_to_subscribe(change),
        r.notify == notifies_now(change),
{
    match change {
        NetworkChange::Added(p) => {
            let added = monitored.insert(p.as_str());
            NetworkReaction {
                watch_strength: if added {
                    Some(p)
                } else {
                    None
                },
                subscribe_device: None,
                notify: true,
            }
        },
        NetworkChange::Removed(p) => {
            monitored.remove(p.as_str());
            NetworkReaction { watch_strength: None, subscribe_device: None, notify: true }
        },
        NetworkChange::SignalStrengthChanged => {
            NetworkReaction { watch_strength: None, subscribe_device: None, notify: true }
        },
        NetworkChange::DeviceAdded(d) => {
            NetworkReaction { watch_strength: None, subscribe_device: Some(d), notify: false }
        },
    }
}

/// The paths among `paths` that are not in `watched` and not earlier in
/// `paths`, in order.
pub open spec fn first_unwatched(watched: Set<Seq<char>>, paths: Seq<Seq<char>>) -> Seq<Seq<char>>
    decreases paths.len(),
{
    if paths.len() == 0 {
        Seq::empty()
    } else {
        let prev = first_unwatched(watched, paths.drop_last());
        let p = paths.last();
        if watched.contains(p) || paths.drop_last().contains(p) {
            prev
        } else {
            prev.push(p)
        }
    }
}

/// Watches the access points a device lists: each path not watched yet is
/// added, and those are returned, in the order given, for their strength
/// signals to be subscribed to.
pub fn watch_access_points(monitored: &mut MonitoredAccessPoints, paths: Vec<String>) -> (r: Vec<
    String,
>)
    requires
        old(monitored).well_formed(),
    ensures
        final(monitored).well_formed(),
        final(monitored)@ == old(monitored)@.union(
            paths@.map_values(|s: String| s@).to_set(),
        ),
        r@.map_values(|s: String| s@) == first_unwatched(
            old(monitored)@,
            paths@.map_values(|s: String| s@),
        ),
{
    let ghost start = monitored@;
    let ghost texts = paths@.map_values(|s: String| s@);
    let mut out: Vec<String> = Vec::new();
    let mut i: usize = 0;
    assert(texts.take(0) =~= Seq::<Seq<char>>::empty());
    assert(out@.map_values(|s: String| s@) =~= Seq::<Seq<char>>::empty());
    assert(start.union(texts.take(0).to_set()) =~= start);
    while i < paths.len()
        invariant
            i <= paths@.len(),
            texts == paths@.map_values(|s: String| s@),
            monitored.well_formed(),
            monitored@ == start.union(texts.take(i as int).to_set()),
            out@.map_values(|s: String| s@) == first_unwatched(start, texts.take(i as int)),
        decreases paths@.len() - i,
    {
        let ghost prefix = texts.take(i as int);
        let ghost next = texts.take(i + 1);
        assert(next.drop_last() =~= prefix);
        assert(next.last() == paths@[i as int]@);
        let added = monitored.insert(paths[i].as_str());
        proof {
            assert(prefix.to_set().insert(paths@[i as int]@) =~= next.to_set()) by {
                assert(next =~= prefix.push(paths@[i as int]@));
                prefix.lemma_push_to_set_commute(paths@[i as int]@);
            }
            assert(monitored@ =~= start.union(next.to_set()));
            assert(added == !(start.contains(next.last()) || prefix.contains(next.last()))) by {
                if prefix.contains(next.last()) {
                    assert(prefix.to_set().contains(next.last()));
                }
                if start.union(prefix.to_set()).contains(next.last()) && !start.contains(next.last()) {
                    assert(prefix.to_set().contains(next.last()));
                }
            }
        }
        if added {
            out.push(paths[i].clone());
            assert(out@.map_values(|s: String| s@) =~= first_unwatched(start, prefix).push(next.last()));
        }
        i = i + 1;
    }
    assert(texts.take(paths@.len() as int) =~= texts);
    out
}

/// Law: an access point's strength is subscribed to once: a second
/// `Added` for the same path asks for nothing, while after its `Removed` a
/// new `Added` asks again.
pub proof fn law_strength_watched_once(watched: Set<Seq<char>>, p: String)
    ensures
        newly_watched(
            watched_after(watched, NetworkChange::Added(p)),
            NetworkChange::Added(p),
        ) is None,
        newly_watched(
            watched_after(watched_after(watched, NetworkChange::Added(p)), NetworkChange::Removed(p)),
            NetworkChange::Added(p),
        ) == Some(p@),
        watched_after(watched_after(watched, NetworkChange::Added(p)), NetworkChange::Removed(p))
            == watched.remove(p@),
{
    assert(watched.insert(p@).remove(p@) =~= watched.remove(p@));
}

/// Law: every change but a new device notifies the callback at once, and a
/// strength change leaves the watched set as it is.
pub proof fn law_notifications(watched: Set<Seq<char>>, change: NetworkChange)
    ensures
        notifies_now(change) == (device_to_subscribe(change) is None),
        watched_after(watched, NetworkChange::SignalStrengthChanged) == watched,
{
}

} // verus!
