//! Polling listeners: the process-wide registry of running listeners,
//! the per-poll decision of which events a state change produces, and the
//! event records themselves.
//!
//! A listener is a host-side loop that polls the OS on a fixed interval;
//! each iteration hands the freshly polled state to one of the step
//! functions here and emits exactly the events they return.

use vstd::prelude::*;

use crate::textutil::{contains_seq, lowercase_of, text_contains, text_equals, to_lowercase_text};

verus! {

/// Metadata of one top-level window, as reported to the host.
#[derive(Debug)]
pub struct WindowDetails {
    pub id: u32,
    pub title: String,
    /// x, y, width, height.
    pub position: (i32, i32, i32, i32),
    pub is_full_screen: bool,
    pub process_name: String,
    pub process_path: String,
    pub process_id: u32,
    /// Which platform reported the window.
    pub os: String,
}

/// One key going down or up.
#[derive(Debug)]
pub struct KeyboardEvent {
    pub key: String,
    pub is_key_press: bool,
}

/// One mouse button going down or up, with the pointer position.
#[derive(Debug)]
pub struct MouseEvent {
    pub button: String,
    pub is_button_press: bool,
    pub coords: (i32, i32),
    pub is_left_click: bool,
    pub is_right_click: bool,
}

/// Process-wide registry of running listeners: which identifiers are
/// live, and the next identifier to hand out.  Stopping is keyed by the
/// identifier returned at start; there is no automatic expiry.
pub struct ListenerRegistry {
    pub next_id: u64,
    pub running: Vec<u64>,
}

impl ListenerRegistry {
    /// Identifiers are unique and always below the next one handed out.
    pub open spec fn wf(self) -> bool {
        &&& self.next_id >= 1
        &&& forall|i: int| 0 <= i < self.running@.len() ==> self.running@[i] < self.next_id
        &&& forall|i: int, j: int|
            0 <= i < j < self.running@.len() ==> self.running@[i] != self.running@[j]
    }

    /// Whether the listener `id` is currently running.
    pub open spec fn spec_is_running(self, id: u64) -> bool {
        self.running@.contains(id)
    }

    /// An empty registry; identifiers start at one.
    pub fn new() -> (r: Self)
        ensures
            r.wf(),
            r.next_id == 1,
            forall|id: u64| !r.spec_is_running(id),
    {
        let r = ListenerRegistry { next_id: 1, running: Vec::new() };
        proof {
            assert(forall|id: u64| !r.running@.contains(id));
        }
        r
    }

    /// Register a new listener and return its fresh identifier.  No other
    /// listener's state changes.
    pub fn start_listener(&mut self) -> (id: u64)
        requires
            old(self).wf(),
            old(self).next_id < u64::MAX,
        ensures
            final(self).wf(),
            id == old(self).next_id,
            final(self).next_id == old(self).next_id + 1,
            final(self).spec_is_running(id),
            forall|x: u64|
                x != id ==> final(self).spec_is_running(x) == old(self).spec_is_running(x),
    {
        let id = self.next_id;
        self.running.push(id);
        self.next_id = self.next_id + 1;
        proof {
            let pre = old(self).running@;
            let post = self.running@;
            assert(post == pre.push(id));
            assert(post[post.len() - 1] == id);
            assert(post.contains(id));
            assert forall|x: u64| x != id implies post.contains(x) == pre.contains(x) by {
                if post.contains(x) {
                    let k = choose|k: int| 0 <= k < post.len() && post[k] == x;
                    assert(k < pre.len());
                    assert(pre[k] == x);
                }
                if pre.contains(x) {
                    let k = choose|k: int| 0 <= k < pre.len() && pre[k] == x;
                    assert(post[k] == x);
                }
            }
        }
        id
    }

    /// Stop the listener `id`.  Returns whether it was running; afterwards
    /// it is not, and no other listener's state changes.
    #[verifier::loop_isolation(false)]
    pub fn stop_listener(&mut self, id: u64) -> (r: bool)
        requires
            old(self).wf(),
        ensures
            final(self).wf(),
            final(self).next_id == old(self).next_id,
            r == old(self).spec_is_running(id),
            !final(self).spec_is_running(id),
            forall|x: u64|
                x != id ==> final(self).spec_is_running(x) == old(self).spec_is_running(x),
    {
        let ghost pre = self.running@;
        let n = self.running.len();
        let mut i: usize = 0;
        while i < n
            invariant
                n == self.running@.len(),
                self.running@ == pre,
                self.next_id == old(self).next_id,
                i <= n,
                forall|j: int| 0 <= j < i ==> pre[j] != id,
            decreases n - i,
        {
            if self.running[i] == id {
                self.running.remove(i);
                proof {
                    let post = self.running@;
                    assert(post == pre.remove(i as int));
                    assert forall|x: u64| x != id implies post.contains(x) == pre.contains(x) by {
                        if post.contains(x) {
                            let k = choose|k: int| 0 <= k < post.len() && post[k] == x;
                            if k < i {
                                assert(pre[k] == x);
                            } else {
                                assert(pre[k + 1] == x);
                            }
                        }
                        if pre.contains(x) {
                            let k = choose|k: int| 0 <= k < pre.len() && pre[k] == x;
                            if k < i {
                                assert(post[k] == x);
                            } else {
                                assert(k != i);
                                assert(post[k - 1] == x);
                            }
                        }
                    }
                    assert forall|k: int| 0 <= k < post.len() implies post[k] != id by {
                        if k < i {
                            assert(pre[k] == post[k]);
                        } else {
                            assert(pre[k + 1] == post[k]);
                            assert(pre[i as int] == id);
                        }
                    }
                    assert(!post.contains(id));
                    assert(pre.contains(id));
                }
                return true;
            }
            i = i + 1;
        }
        proof {
            assert forall|k: int| 0 <= k < pre.len() implies pre[k] != id by {}
            assert(!pre.contains(id));
        }
        false
    }

    /// Whether the listener `id` is currently running.
    pub fn is_running(&self, id: u64) -> (r: bool)
        ensures
            r == self.spec_is_running(id),
    {
        let n = self.running.len();
        let mut i: usize = 0;
        while i < n
            invariant
                n == self.running@.len(),
                i <= n,
                forall|j: int| 0 <= j < i ==> self.running@[j] != id,
            decreases n - i,
        {
            if self.running[i] == id {
                return true;
            }
            i = i + 1;
        }
        false
    }
}

/// Position of the window with identifier `id` in a listing, when it is
/// there; used to pick the window whose icon is asked for.
#[verifier::loop_isolation(false)]
pub fn find_window_index(windows: &Vec<WindowDetails>, id: u32) -> (r: Option<usize>)
    ensures
        r matches Some(i) ==> i < windows@.len() && windows@[i as int].id == id,
        r is None ==> forall|j: int| 0 <= j < windows@.len() ==> windows@[j].id != id,
{
    let n = windows.len();
    let mut i: usize = 0;
    while i < n
        invariant
            n == windows@.len(),
            i <= n,
            forall|j: int| 0 <= j < i ==> windows@[j].id != id,
        decreases n - i,
    {
        if windows[i].id == id {
            return Some(i);
        }
        i = i + 1;
    }
    None
}

/// What one poll of the window listener does: remember the last window
/// identifier seen, and emit the window exactly when it is running and
/// the foreground window changed.
pub open spec fn window_poll_spec(running: bool, last_id: u32, current: Option<WindowDetails>) -> (
    u32,
    Option<WindowDetails>,
) {
    if !running {
        (last_id, None)
    } else {
        match current {
            Some(w) => if w.id != last_id {
                (w.id, Some(w))
            } else {
                (last_id, None)
            },
            None => (last_id, None),
        }
    }
}

/// One poll step of the window listener.  `current` is the freshly polled
/// foreground window, `None` when the poll failed; a failed poll emits
/// nothing and keeps the previous state.
pub fn window_poll_step(running: bool, last_id: u32, current: Option<WindowDetails>) -> (r: (
    u32,
    Option<WindowDetails>,
))
    ensures
        r == window_poll_spec(running, last_id, current),
        !running ==> r.1 is None,
{
    if !running {
        (last_id, None)
    } else {
        match current {
            Some(w) => {
                if w.id != last_id {
                    let new_id = w.id;
                    (new_id, Some(w))
                } else {
                    (last_id, None)
                }
            },
            None => (last_id, None),
        }
    }
}

/// Stopping a listener silences it: once `stop_listener(id)` has taken
/// effect the registry no longer reports `id` as running, and every poll
/// step driven by that flag emits no event, whatever is polled.
pub proof fn lemma_stop_silences_listener(
    after: ListenerRegistry,
    id: u64,
    last_id: u32,
    current: Option<WindowDetails>,
)
    requires
        !after.spec_is_running(id),
    ensures
        window_poll_spec(after.spec_is_running(id), last_id, current).1 is None,
{
}

/// Whether some string in `v` has exactly the text `k`.
pub open spec fn texts_contain(v: Seq<String>, k: Seq<char>) -> bool {
    exists|i: int| 0 <= i < v.len() && #[trigger] v[i]@ == k
}

/// Whether `events` holds a key event for text `k` in direction `press`.
pub open spec fn has_key_event(events: Seq<KeyboardEvent>, k: Seq<char>, press: bool) -> bool {
    exists|i: int|
        0 <= i < events.len() && #[trigger] events[i].key@ == k && events[i].is_key_press == press
}

/// Whether `v` holds a string with the text of `s`.
fn contains_text(v: &Vec<String>, s: &String) -> (r: bool)
    ensures
        r == texts_contain(v@, s@),
{
    let n = v.len();
    let mut i: usize = 0;
    while i < n
        invariant
            n == v@.len(),
            i <= n,
            forall|j: int| 0 <= j < i ==> #[trigger] v@[j]@ != s@,
        decreases n - i,
    {
        if v[i] == *s {
            return true;
        }
        i = i + 1;
    }
    false
}

/// Events one keyboard poll produces: a press for every key held now but
/// not before, a release for every key held before but not now.  The
/// held keys are given as sets — no text repeats within `previous` or
/// within `current` — and accordingly no key repeats among the events of
/// one direction.
#[verifier::loop_isolation(false)]
pub fn key_transitions(previous: &Vec<String>, current: &Vec<String>) -> (events: Vec<
    KeyboardEvent,
>)
    requires
        forall|i1: int, i2: int|
            #![trigger previous@[i1], previous@[i2]]
            0 <= i1 < i2 < previous@.len() ==> previous@[i1]@ != previous@[i2]@,
        forall|i1: int, i2: int|
            #![trigger current@[i1], current@[i2]]
            0 <= i1 < i2 < current@.len() ==> current@[i1]@ != current@[i2]@,
    ensures
        forall|i: int|
            0 <= i < events@.len() ==> {
                let ev = #[trigger] events@[i];
                if ev.is_key_press {
                    texts_contain(current@, ev.key@) && !texts_contain(previous@, ev.key@)
                } else {
                    texts_contain(previous@, ev.key@) && !texts_contain(current@, ev.key@)
                }
            },
        forall|j: int|
            0 <= j < current@.len() && !texts_contain(previous@, #[trigger] current@[j]@)
                ==> has_key_event(events@, current@[j]@, true),
        forall|j: int|
            0 <= j < previous@.len() && !texts_contain(current@, #[trigger] previous@[j]@)
                ==> has_key_event(events@, previous@[j]@, false),
        forall|i1: int, i2: int|
            #![trigger events@[i1], events@[i2]]
            0 <= i1 < i2 < events@.len() && events@[i1].is_key_press
                == events@[i2].is_key_press ==> events@[i1].key@ != events@[i2].key@,
{
    let mut events: Vec<KeyboardEvent> = Vec::new();
    let nc = current.len();
    let mut j: usize = 0;
    while j < nc
        invariant
            nc == current@.len(),
            j <= nc,
            forall|i: int|
                0 <= i < events@.len() ==> {
                    let ev = #[trigger] events@[i];
                    ev.is_key_press && texts_contain(current@, ev.key@) && !texts_contain(
                        previous@,
                        ev.key@,
                    )
                },
            forall|q: int|
                0 <= q < j && !texts_contain(previous@, #[trigger] current@[q]@)
                    ==> has_key_event(events@, current@[q]@, true),
            forall|i: int|
                #![trigger events@[i]]
                0 <= i < events@.len() ==> exists|q: int|
                    0 <= q < j && events@[i].key@ == #[trigger] current@[q]@,
            forall|i1: int, i2: int|
                #![trigger events@[i1], events@[i2]]
                0 <= i1 < i2 < events@.len() ==> events@[i1].key@ != events@[i2].key@,
        decreases nc - j,
    {
        let ghost at_entry = events@;
        if !contains_text(previous, &current[j]) {
            events.push(KeyboardEvent { key: current[j].clone(), is_key_press: true });
            proof {
                assert(events@[at_entry.len() as int].key@ == current@[j as int]@);
                assert forall|q: int|
                    0 <= q < j + 1 && !texts_contain(previous@, #[trigger] current@[q]@)
                        implies has_key_event(events@, current@[q]@, true) by {
                    if q < j {
                        let w = choose|w: int|
                            0 <= w < at_entry.len() && #[trigger] at_entry[w].key@ == current@[q]@
                                && at_entry[w].is_key_press == true;
                        assert(events@[w].key@ == current@[q]@);
                    }
                }
            }
        }
        proof {
            assert forall|i: int| #![trigger events@[i]] 0 <= i < events@.len() implies exists|
                q: int,
            |
                0 <= q < j + 1 && events@[i].key@ == #[trigger] current@[q]@ by {
                if i < at_entry.len() {
                    assert(events@[i] == at_entry[i]);
                    let q = choose|q: int|
                        0 <= q < j && at_entry[i].key@ == #[trigger] current@[q]@;
                    assert(events@[i].key@ == current@[q]@);
                } else {
                    assert(events@[i].key@ == current@[j as int]@);
                }
            }
            assert forall|i1: int, i2: int|
                #![trigger events@[i1], events@[i2]]
                0 <= i1 < i2 < events@.len() implies events@[i1].key@ != events@[i2].key@ by {
                if i2 >= at_entry.len() {
                    assert(events@[i1] == at_entry[i1]);
                    let q = choose|q: int|
                        0 <= q < j && at_entry[i1].key@ == #[trigger] current@[q]@;
                    assert(current@[q]@ != current@[j as int]@);
                    assert(events@[i2].key@ == current@[j as int]@);
                }
            }
        }
        j = j + 1;
    }
    let np = previous.len();
    let mut k: usize = 0;
    while k < np
        invariant
            np == previous@.len(),
            k <= np,
            forall|i: int|
                0 <= i < events@.len() ==> {
                    let ev = #[trigger] events@[i];
                    if ev.is_key_press {
                        texts_contain(current@, ev.key@) && !texts_contain(previous@, ev.key@)
                    } else {
                        texts_contain(previous@, ev.key@) && !texts_contain(current@, ev.key@)
                    }
                },
            forall|q: int|
                0 <= q < current@.len() && !texts_contain(previous@, #[trigger] current@[q]@)
                    ==> has_key_event(events@, current@[q]@, true),
            forall|q: int|
                0 <= q < k && !texts_contain(current@, #[trigger] previous@[q]@)
                    ==> has_key_event(events@, previous@[q]@, false),
            forall|i: int|
                #![trigger events@[i]]
                0 <= i < events@.len() && !events@[i].is_key_press ==> exists|q: int|
                    0 <= q < k && events@[i].key@ == #[trigger] previous@[q]@,
            forall|i1: int, i2: int|
                #![trigger events@[i1], events@[i2]]
                0 <= i1 < i2 < events@.len() && events@[i1].is_key_press
                    == events@[i2].is_key_press ==> events@[i1].key@ != events@[i2].key@,
        decreases np - k,
    {
        let ghost at_entry = events@;
        if !contains_text(current, &previous[k]) {
            events.push(KeyboardEvent { key: previous[k].clone(), is_key_press: false });
            proof {
                assert(events@[at_entry.len() as int].key@ == previous@[k as int]@);
                assert forall|q: int|
                    0 <= q < current@.len() && !texts_contain(previous@, #[trigger] current@[q]@)
                        implies has_key_event(events@, current@[q]@, true) by {
                    let w = choose|w: int|
                        0 <= w < at_entry.len() && #[trigger] at_entry[w].key@ == current@[q]@
                            && at_entry[w].is_key_press == true;
                    assert(events@[w].key@ == current@[q]@);
                }
                assert forall|q: int|
                    0 <= q < k + 1 && !texts_contain(current@, #[trigger] previous@[q]@)
                        implies has_key_event(events@, previous@[q]@, false) by {
                    if q < k {
                        let w = choose|w: int|
                            0 <= w < at_entry.len() && #[trigger] at_entry[w].key@
                                == previous@[q]@ && at_entry[w].is_key_press == false;
                        assert(events@[w].key@ == previous@[q]@);
                    }
                }
            }
        }
        proof {
            assert forall|i: int|
                #![trigger events@[i]]
                0 <= i < events@.len() && !events@[i].is_key_press implies exists|q: int|
                0 <= q < k + 1 && events@[i].key@ == #[trigger] previous@[q]@ by {
                if i < at_entry.len() {
                    assert(events@[i] == at_entry[i]);
                    let q = choose|q: int|
                        0 <= q < k && at_entry[i].key@ == #[trigger] previous@[q]@;
                    assert(events@[i].key@ == previous@[q]@);
                } else {
                    assert(events@[i].key@ == previous@[k as int]@);
                }
            }
            assert forall|i1: int, i2: int|
                #![trigger events@[i1], events@[i2]]
                0 <= i1 < i2 < events@.len() && events@[i1].is_key_press
                    == events@[i2].is_key_press implies events@[i1].key@ != events@[i2].key@ by {
                if i2 >= at_entry.len() && !events@[i1].is_key_press {
                    assert(events@[i1] == at_entry[i1]);
                    let q = choose|q: int|
                        0 <= q < k && at_entry[i1].key@ == #[trigger] previous@[q]@;
                    assert(previous@[q]@ != previous@[k as int]@);
                    assert(events@[i2].key@ == previous@[k as int]@);
                }
            }
        }
        k = k + 1;
    }
    events
}

/// Friendly name and click flags derived from a raw button description:
/// the lower-cased description is searched for "left", then "right", then
/// "middle"; anything else keeps its lower-cased text with no flags.
pub fn mouse_button_to_event_data_from_str(s: &str) -> (r: (String, bool, bool))
    ensures
        ({
            let l = lowercase_of(s@);
            &&& contains_seq(l, "left"@) ==> (r.0@ == "left"@ && r.1 == true && r.2 == false)
            &&& !contains_seq(l, "left"@) && contains_seq(l, "right"@) ==> (r.0@ == "right"@
                && r.1 == false && r.2 == true)
            &&& !contains_seq(l, "left"@) && !contains_seq(l, "right"@) && contains_seq(
                l,
                "middle"@,
            ) ==> (r.0@ == "middle"@ && r.1 == false && r.2 == false)
            &&& !contains_seq(l, "left"@) && !contains_seq(l, "right"@) && !contains_seq(
                l,
                "middle"@,
            ) ==> (r.0@ == l && r.1 == false && r.2 == false)
        }),
{
    let lower = to_lowercase_text(s);
    if text_contains(lower.as_str(), "left") {
        (String::from_str("left"), true, false)
    } else if text_contains(lower.as_str(), "right") {
        (String::from_str("right"), false, true)
    } else if text_contains(lower.as_str(), "middle") {
        (String::from_str("middle"), false, false)
    } else {
        (lower, false, false)
    }
}

/// The click flags a friendly button name stands for.
pub open spec fn spec_release_flags(name: Seq<char>) -> (bool, bool) {
    if name == "left"@ {
        (true, false)
    } else if name == "right"@ {
        (false, true)
    } else {
        (false, false)
    }
}

/// Click flags reported with a release event, from the friendly name.
pub fn release_event_flags(name: &str) -> (r: (bool, bool))
    ensures
        r == spec_release_flags(name@),
{
    if text_equals(name, "left") {
        (true, false)
    } else if text_equals(name, "right") {
        (false, true)
    } else {
        (false, false)
    }
}

/// Whether some mapped button tuple in `v` carries the name `k`.
pub open spec fn tuples_contain(v: Seq<(String, bool, bool)>, k: Seq<char>) -> bool {
    exists|i: int| 0 <= i < v.len() && #[trigger] v[i].0@ == k
}

/// Whether `events` holds a button event named `k` in direction `press`.
pub open spec fn has_mouse_event(events: Seq<MouseEvent>, k: Seq<char>, press: bool) -> bool {
    exists|i: int|
        0 <= i < events.len() && #[trigger] events[i].button@ == k && events[i].is_button_press
            == press
}

/// Whether a press event could come from one of the mapped tuples: same
/// name, same click flags.
pub open spec fn press_from_tuples(v: Seq<(String, bool, bool)>, ev: MouseEvent) -> bool {
    exists|i: int|
        0 <= i < v.len() && #[trigger] v[i].0@ == ev.button@ && v[i].1 == ev.is_left_click
            && v[i].2 == ev.is_right_click
}

/// Whether `v` holds a tuple named like `s`.
fn contains_tuple_name(v: &Vec<(String, bool, bool)>, s: &String) -> (r: bool)
    ensures
        r == tuples_contain(v@, s@),
{
    let n = v.len();
    let mut i: usize = 0;
    while i < n
        invariant
            n == v@.len(),
            i <= n,
            forall|j: int| 0 <= j < i ==> #[trigger] v@[j].0@ != s@,
        decreases n - i,
    {
        if v[i].0 == *s {
            return true;
        }
        i = i + 1;
    }
    false
}

/// Events one mouse poll produces.  `current` holds the mapped tuples of
/// the buttons held now (friendly name, left flag, right flag);
/// `previous` the friendly names held at the last poll.  Both are sets:
/// no name repeats within either, and accordingly no button repeats
/// among the events of one direction.  A button held now but not before
/// is a press carrying its tuple's flags; one held before but not now is
/// a release carrying the flags its name stands for.  Every event
/// reports the polled pointer position.
#[verifier::loop_isolation(false)]
pub fn mouse_transitions(
    previous: &Vec<String>,
    current: &Vec<(String, bool, bool)>,
    coords: (i32, i32),
) -> (events: Vec<MouseEvent>)
    requires
        forall|i1: int, i2: int|
            #![trigger previous@[i1], previous@[i2]]
            0 <= i1 < i2 < previous@.len() ==> previous@[i1]@ != previous@[i2]@,
        forall|i1: int, i2: int|
            #![trigger current@[i1], current@[i2]]
            0 <= i1 < i2 < current@.len() ==> current@[i1].0@ != current@[i2].0@,
    ensures
        forall|i: int|
            0 <= i < events@.len() ==> {
                let ev = #[trigger] events@[i];
                &&& ev.coords == coords
                &&& if ev.is_button_press {
                    press_from_tuples(current@, ev) && !texts_contain(previous@, ev.button@)
                } else {
                    texts_contain(previous@, ev.button@) && !tuples_contain(current@, ev.button@)
                        && (ev.is_left_click, ev.is_right_click) == spec_release_flags(ev.button@)
                }
            },
        forall|j: int|
            0 <= j < current@.len() && !texts_contain(previous@, #[trigger] current@[j].0@)
                ==> has_mouse_event(events@, current@[j].0@, true),
        forall|j: int|
            0 <= j < previous@.len() && !tuples_contain(current@, #[trigger] previous@[j]@)
                ==> has_mouse_event(events@, previous@[j]@, false),
        forall|i1: int, i2: int|
            #![trigger events@[i1], events@[i2]]
            0 <= i1 < i2 < events@.len() && events@[i1].is_button_press
                == events@[i2].is_button_press ==> events@[i1].button@ != events@[i2].button@,
{
    let mut events: Vec<MouseEvent> = Vec::new();
    let nc = current.len();
    let mut j: usize = 0;
    while j < nc
        invariant
            nc == current@.len(),
            j <= nc,
            forall|i: int|
                0 <= i < events@.len() ==> {
                    let ev = #[trigger] events@[i];
                    &&& ev.coords == coords
                    &&& ev.is_button_press
                    &&& press_from_tuples(current@, ev)
                    &&& !texts_contain(previous@, ev.button@)
                },
            forall|q: int|
                0 <= q < j && !texts_contain(previous@, #[trigger] current@[q].0@)
                    ==> has_mouse_event(events@, current@[q].0@, true),
            forall|i: int|
                #![trigger events@[i]]
                0 <= i < events@.len() ==> exists|q: int|
                    0 <= q < j && events@[i].button@ == #[trigger] current@[q].0@,
            forall|i1: int, i2: int|
                #![trigger events@[i1], events@[i2]]
                0 <= i1 < i2 < events@.len() ==> events@[i1].button@ != events@[i2].button@,
        decreases nc - j,
    {
        let ghost at_entry = events@;
        if !contains_text(previous, &current[j].0) {
            events.push(
                MouseEvent {
                    button: current[j].0.clone(),
                    is_button_press: true,
                    coords,
                    is_left_click: current[j].1,
                    is_right_click: current[j].2,
                },
            );
            proof {
                let ev = events@[at_entry.len() as int];
                assert(current@[j as int].0@ == ev.button@);
                assert(press_from_tuples(current@, ev));
                assert forall|q: int|
                    0 <= q < j + 1 && !texts_contain(previous@, #[trigger] current@[q].0@)
                        implies has_mouse_event(events@, current@[q].0@, true) by {
                    if q < j {
                        let w = choose|w: int|
                            0 <= w < at_entry.len() && #[trigger] at_entry[w].button@
                                == current@[q].0@ && at_entry[w].is_button_press == true;
                        assert(events@[w].button@ == current@[q].0@);
                    }
                }
            }
        }
        proof {
            assert forall|i: int| #![trigger events@[i]] 0 <= i < events@.len() implies exists|
                q: int,
            |
                0 <= q < j + 1 && events@[i].button@ == #[trigger] current@[q].0@ by {
                if i < at_entry.len() {
                    assert(events@[i] == at_entry[i]);
                    let q = choose|q: int|
                        0 <= q < j && at_entry[i].button@ == #[trigger] current@[q].0@;
                    assert(events@[i].button@ == current@[q].0@);
                } else {
                    assert(events@[i].button@ == current@[j as int].0@);
                }
            }
            assert forall|i1: int, i2: int|
                #![trigger events@[i1], events@[i2]]
                0 <= i1 < i2 < events@.len() implies events@[i1].button@
                != events@[i2].button@ by {
                if i2 >= at_entry.len() {
                    assert(events@[i1] == at_entry[i1]);
                    let q = choose|q: int|
                        0 <= q < j && at_entry[i1].button@ == #[trigger] current@[q].0@;
                    assert(current@[q].0@ != current@[j as int].0@);
                    assert(events@[i2].button@ == current@[j as int].0@);
                }
            }
        }
        j = j + 1;
    }
    let np = previous.len();
    let mut k: usize = 0;
    while k < np
        invariant
            np == previous@.len(),
            k <= np,
            forall|i: int|
                0 <= i < events@.len() ==> {
                    let ev = #[trigger] events@[i];
                    &&& ev.coords == coords
                    &&& if ev.is_button_press {
                        press_from_tuples(current@, ev) && !texts_contain(previous@, ev.button@)
                    } else {
                        texts_contain(previous@, ev.button@) && !tuples_contain(
                            current@,
                            ev.button@,
                        ) && (ev.is_left_click, ev.is_right_click) == spec_release_flags(
                            ev.button@,
                        )
                    }
                },
            forall|q: int|
                0 <= q < current@.len() && !texts_contain(previous@, #[trigger] current@[q].0@)
                    ==> has_mouse_event(events@, current@[q].0@, true),
            forall|q: int|
                0 <= q < k && !tuples_contain(current@, #[trigger] previous@[q]@)
                    ==> has_mouse_event(events@, previous@[q]@, false),
            forall|i: int|
                #![trigger events@[i]]
                0 <= i < events@.len() && !events@[i].is_button_press ==> exists|q: int|
                    0 <= q < k && events@[i].button@ == #[trigger] previous@[q]@,
            forall|i1: int, i2: int|
                #![trigger events@[i1], events@[i2]]
                0 <= i1 < i2 < events@.len() && events@[i1].is_button_press
                    == events@[i2].is_button_press ==> events@[i1].button@
                    != events@[i2].button@,
        decreases np - k,
    {
        let ghost at_entry = events@;
        if !contains_tuple_name(current, &previous[k]) {
            let flags = release_event_flags(previous[k].as_str());
            events.push(
                MouseEvent {
                    button: previous[k].clone(),
                    is_button_press: false,
                    coords,
                    is_left_click: flags.0,
                    is_right_click: flags.1,
                },
            );
            proof {
                assert(events@[at_entry.len() as int].button@ == previous@[k as int]@);
                assert forall|q: int|
                    0 <= q < current@.len() && !texts_contain(previous@, #[trigger] current@[q].0@)
                        implies has_mouse_event(events@, current@[q].0@, true) by {
                    let w = choose|w: int|
                        0 <= w < at_entry.len() && #[trigger] at_entry[w].button@
                            == current@[q].0@ && at_entry[w].is_button_press == true;
                    assert(events@[w].button@ == current@[q].0@);
                }
                assert forall|q: int|
                    0 <= q < k + 1 && !tuples_contain(current@, #[trigger] previous@[q]@)
                        implies has_mouse_event(events@, previous@[q]@, false) by {
                    if q < k {
                        let w = choose|w: int|
                            0 <= w < at_entry.len() && #[trigger] at_entry[w].button@
                                == previous@[q]@ && at_entry[w].is_button_press == false;
                        assert(events@[w].button@ == previous@[q]@);
                    }
                }
            }
        }
        proof {
            assert forall|i: int|
                #![trigger events@[i]]
                0 <= i < events@.len() && !events@[i].is_button_press implies exists|q: int|
                0 <= q < k + 1 && events@[i].button@ == #[trigger] previous@[q]@ by {
                if i < at_entry.len() {
                    assert(events@[i] == at_entry[i]);
                    let q = choose|q: int|
                        0 <= q < k && at_entry[i].button@ == #[trigger] previous@[q]@;
                    assert(events@[i].button@ == previous@[q]@);
                } else {
                    assert(events@[i].button@ == previous@[k as int]@);
                }
            }
            assert forall|i1: int, i2: int|
                #![trigger events@[i1], events@[i2]]
                0 <= i1 < i2 < events@.len() && events@[i1].is_button_press
                    == events@[i2].is_button_press implies events@[i1].button@
                != events@[i2].button@ by {
                if i2 >= at_entry.len() && !events@[i1].is_button_press {
                    assert(events@[i1] == at_entry[i1]);
                    let q = choose|q: int|
                        0 <= q < k && at_entry[i1].button@ == #[trigger] previous@[q]@;
                    assert(previous@[q]@ != previous@[k as int]@);
                    assert(events@[i2].button@ == previous@[k as int]@);
                }
            }
        }
        k = k + 1;
    }
    events
}

} // verus!
