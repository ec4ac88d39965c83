//! Deciding, from file-system events, when the open document has changed: a
//! burst of changes is reported once, after it has settled.

use vstd::prelude::*;
use crate::viewer::{DocPath, opt_bytes, opt_text};

verus! {

/// The kind of a file-system event.
#[derive(Debug, Clone, Copy, PartialEq, Eq, Structural)]
pub enum ChangeKind {
    Any,
    Access,
    Create,
    Modify,
    Remove,
    Other,
}

/// A path named by an event: its last component as text (ill-formed parts
/// replaced), its last component as the platform's encoded bytes, and the
/// components of its parent, each as the platform's encoded bytes.
pub struct EventPath {
    pub name: Option<String>,
    pub raw_name: Option<Vec<u8>>,
    pub parent_components: Option<Vec<Vec<u8>>>,
}

/// A file-system event: its kind and the paths it concerns.
pub struct FsEvent {
    pub kind: ChangeKind,
    pub paths: Vec<EventPath>,
}

/// The file being watched: its last component as the platform's encoded
/// bytes, and the components of its parent, each as encoded bytes.
pub struct WatchedFile {
    pub raw_name: Option<Vec<u8>>,
    pub parent_components: Option<Vec<Vec<u8>>>,
}

/// The components of an optional path, each as bytes.
pub open spec fn opt_components(o: Option<Vec<Vec<u8>>>) -> Option<Seq<Seq<u8>>> {
    match o {
        Some(v) => Some(v@.map_values(|c: Vec<u8>| c@)),
        None => None,
    }
}



/// Whether events of kind `k` can mean that a file's contents changed.
pub open spec fn is_change(k: ChangeKind) -> bool {
    k == ChangeKind::Modify || k == ChangeKind::Create || k == ChangeKind::Any
}

/// Whether `e` is a change to a path whose last component is `name`.
pub open spec fn names_file(e: FsEvent, name: Seq<char>) -> bool {
    is_change(e.kind) && exists|i: int| 0 <= i < e.paths@.len() && opt_text(#[trigger] e.paths@[i].name) == Some(name)
}

/// Whether `e` is a change to the watched file itself: same last component and
/// same parent.
pub open spec fn names_watched(e: FsEvent, w: WatchedFile) -> bool {
    is_change(e.kind) && exists|i: int|
        0 <= i < e.paths@.len() && opt_bytes(#[trigger] e.paths@[i].raw_name) == opt_bytes(w.raw_name)
            && opt_components(e.paths@[i].parent_components) == opt_components(w.parent_components)
}

/// Whether `o` is an event that is a change to the watched file itself.
pub open spec fn some_names_watched(o: Option<FsEvent>, w: WatchedFile) -> bool {
    match o {
        Some(e) => names_watched(e, w),
        None => false,
    }
}

/// Whether some event of `batch` is a change to the watched file itself.
pub open spec fn batch_names_watched(batch: Seq<Option<FsEvent>>, w: WatchedFile) -> bool {
    exists|i: int| 0 <= i < batch.len() && some_names_watched(#[trigger] batch[i], w)
}

/// Whether `o` is an event that is a change to a path whose last component is `name`.
pub open spec fn some_names_file(o: Option<FsEvent>, name: Seq<char>) -> bool {
    match o {
        Some(e) => names_file(e, name),
        None => false,
    }
}

/// Whether some event of `batch` (failed reads of the event queue are `None`)
/// is a change to a path whose last component is `name`.
pub open spec fn batch_names_file(batch: Seq<Option<FsEvent>>, name: Seq<char>) -> bool {
    exists|i: int| 0 <= i < batch.len() && some_names_file(#[trigger] batch[i], name)
}

/// Whole milliseconds from `since` to `now` (both in nanoseconds from one
/// origin); zero when `now` is earlier.
pub open spec fn elapsed_ms(now: u128, since: u128) -> int {
    if now >= since {
        (now - since) / 1_000_000
    } else {
        0
    }
}

/// Waits for changes to settle: a change is reported once the window's length
/// in milliseconds has passed since the latest change, so a burst of changes is
/// reported once, after its last change.
pub struct Debouncer {
    pending_since: Option<u128>,
    window_ms: u128,
}

/// The time of the latest change not yet reported, once a change is seen
/// (`touched`) at `now`.
pub open spec fn pending_after_change(before: Debouncer, now: u128, touched: bool) -> Option<u128> {
    if touched {
        Some(now)
    } else {
        before.pending()
    }
}

/// Whether one decision of a debouncer goes from `before` to `after` at time
/// `now`, reporting `fired`: a change seen now (`touched`) becomes the latest
/// unreported change; a report is made when there is an unreported change and
/// at least the window has passed since it, and it clears the unreported change.
pub open spec fn fire_step(before: Debouncer, now: u128, touched: bool, fired: bool, after: Debouncer) -> bool {
    let since = pending_after_change(before, now, touched);
    &&& fired == (since matches Some(t) && elapsed_ms(now, t) >= before.window())
    &&& after.window() == before.window()
    &&& after.pending() == if fired { None } else { since }
}

impl Debouncer {
    /// The time of the latest change not yet reported, in nanoseconds.
    pub closed spec fn pending(self) -> Option<u128> {
        self.pending_since
    }

    /// The window's length in milliseconds.
    pub closed spec fn window(self) -> u128 {
        self.window_ms
    }

    /// A debouncer with no unreported change and a window of `window_ms`
    /// milliseconds.
    pub fn new(window_ms: u128) -> (r: Debouncer)
        ensures
            r.pending() is None,
            r.window() == window_ms,
    {
        Debouncer { pending_since: None, window_ms }
    }

    /// Takes note of a change seen at `now_ns` (`touched`), then reports the
    /// latest unreported change if at least the window has passed since it.
    pub fn decide(&mut self, touched: bool, now_ns: u128) -> (fired: bool)
        ensures
            fire_step(*old(self), now_ns, touched, fired, *final(self)),
    {
        if touched {
            self.pending_since = Some(now_ns);
        }
        match self.pending_since {
            Some(t) => {
                let elapsed: u128 = if now_ns >= t {
                    (now_ns - t) / 1_000_000
                } else {
                    0
                };
                if elapsed >= self.window_ms {
                    self.pending_since = None;
                    true
                } else {
                    false
                }
            },
            None => false,
        }
    }

    /// One round of polling the event queue: the events of `batch` that change a
    /// path named `file_name` count as a change seen at `now_ns`; a report is made
    /// when the window has passed since the latest change.
    pub fn poll_round(&mut self, batch: &Vec<Option<FsEvent>>, file_name: &str, now_ns: u128) -> (fired: bool)
        ensures
            fire_step(*old(self), now_ns, batch_names_file(batch@, file_name@), fired, *final(self)),
    {
        let touched = batch_touches(batch, file_name);
        self.decide(touched, now_ns)
    }

    /// The events taken from the queue at once: those that change the watched
    /// file itself count as a change seen at `now_ns`; a report is made when the
    /// window has passed since the latest change. Failed reads (`None`) count as
    /// no change.
    pub fn check_batch(&mut self, batch: &Vec<Option<FsEvent>>, watched: &WatchedFile, now_ns: u128) -> (fired: bool)
        ensures
            fire_step(*old(self), now_ns, batch_names_watched(batch@, *watched), fired, *final(self)),
    {
        let touched = batch_touches_watched(batch, watched);
        self.decide(touched, now_ns)
    }
}

/// The folder to watch for changes to the document `file`: its parent folder,
/// or the message that it has none.
pub fn watched_folder(file: &DocPath) -> (r: Result<Vec<u8>, String>)
    ensures
        match opt_bytes(file.raw_parent) {
            Some(b) => r is Ok && r->Ok_0@ == b,
            None => r is Err && r->Err_0@ == "Cannot determine parent directory"@,
        },
{
    match &file.raw_parent {
        Some(b) => Ok(b.clone()),
        None => Err(String::from_str("Cannot determine parent directory")),
    }
}

fn opt_text_eq(a: &Option<String>, b: &Option<String>) -> (r: bool)
    ensures
        r == (opt_text(*a) == opt_text(*b)),
{
    match (a, b) {
        (Some(x), Some(y)) => *x == *y,
        (None, None) => true,
        _ => false,
    }
}

fn bytes_eq(a: &Vec<u8>, b: &Vec<u8>) -> (r: bool)
    ensures
        r == (a@ == b@),
{
    if a.len() != b.len() {
        return false;
    }
    let mut i: usize = 0;
    while i < a.len()
        invariant
            a.len() == b.len(),
            i <= a.len(),
            forall|j: int| 0 <= j < i ==> a@[j] == b@[j],
        decreases a.len() - i,
    {
        if a[i] != b[i] {
            return false;
        }
        i = i + 1;
    }
    assert(a@ =~= b@);
    true
}

fn opt_bytes_eq(a: &Option<Vec<u8>>, b: &Option<Vec<u8>>) -> (r: bool)
    ensures
        r == (opt_bytes(*a) == opt_bytes(*b)),
{
    match (a, b) {
        (Some(x), Some(y)) => bytes_eq(x, y),
        (None, None) => true,
        _ => false,
    }
}

fn components_eq(a: &Vec<Vec<u8>>, b: &Vec<Vec<u8>>) -> (r: bool)
    ensures
        r == (a@.map_values(|c: Vec<u8>| c@) == b@.map_values(|c: Vec<u8>| c@)),
{
    let ghost av = a@.map_values(|c: Vec<u8>| c@);
    let ghost bv = b@.map_values(|c: Vec<u8>| c@);
    if a.len() != b.len() {
        assert(av.len() != bv.len());
        return false;
    }
    let mut i: usize = 0;
    while i < a.len()
        invariant
            a.len() == b.len(),
            i <= a.len(),
            av == a@.map_values(|c: Vec<u8>| c@),
            bv == b@.map_values(|c: Vec<u8>| c@),
            forall|j: int| 0 <= j < i ==> av[j] == bv[j],
        decreases a.len() - i,
    {
        if !bytes_eq(&a[i], &b[i]) {
            assert(av[i as int] != bv[i as int]);
            return false;
        }
        i = i + 1;
    }
    assert(av =~= bv);
    true
}

fn opt_components_eq(a: &Option<Vec<Vec<u8>>>, b: &Option<Vec<Vec<u8>>>) -> (r: bool)
    ensures
        r == (opt_components(*a) == opt_components(*b)),
{
    match (a, b) {
        (Some(x), Some(y)) => components_eq(x, y),
        (None, None) => true,
        _ => false,
    }
}

fn kind_is_change(k: ChangeKind) -> (r: bool)
    ensures
        r == is_change(k),
{
    match k {
        ChangeKind::Modify | ChangeKind::Create | ChangeKind::Any => true,
        _ => false,
    }
}

/// Whether `e` is a change to a path whose last component is `name`.
pub fn event_touches(e: &FsEvent, name: &str) -> (r: bool)
    ensures
        r == names_file(*e, name@),
{
    let change = kind_is_change(e.kind);
    if !change {
        return false;
    }
    let target = Some(String::from_str(name));
    let mut i: usize = 0;
    while i < e.paths.len()
        invariant
            i <= e.paths@.len(),
            is_change(e.kind),
            opt_text(target) == Some(name@),
            forall|j: int| 0 <= j < i ==> opt_text(#[trigger] e.paths@[j].name) != Some(name@),
        decreases e.paths@.len() - i,
    {
        if opt_text_eq(&e.paths[i].name, &target) {
            assert(opt_text(e.paths@[i as int].name) == Some(name@));
            return true;
        }
        i = i + 1;
    }
    false
}

/// Whether `e` is a change to the watched file: same last component and parent.
pub fn event_touches_watched(e: &FsEvent, watched: &WatchedFile) -> (r: bool)
    ensures
        r == names_watched(*e, *watched),
{
    let change = kind_is_change(e.kind);
    if !change {
        return false;
    }
    let mut i: usize = 0;
    while i < e.paths.len()
        invariant
            i <= e.paths@.len(),
            is_change(e.kind),
            forall|j: int|
                0 <= j < i ==> !(opt_bytes(#[trigger] e.paths@[j].raw_name) == opt_bytes(watched.raw_name)
                    && opt_components(e.paths@[j].parent_components) == opt_components(watched.parent_components)),
        decreases e.paths@.len() - i,
    {
        if opt_bytes_eq(&e.paths[i].raw_name, &watched.raw_name) && opt_components_eq(
            &e.paths[i].parent_components,
            &watched.parent_components,
        ) {
            assert(opt_bytes(e.paths@[i as int].raw_name) == opt_bytes(watched.raw_name));
            return true;
        }
        i = i + 1;
    }
    false
}

/// Whether some event of `batch` is a change to a path named `file_name`.
pub fn batch_touches(batch: &Vec<Option<FsEvent>>, file_name: &str) -> (r: bool)
    ensures
        r == batch_names_file(batch@, file_name@),
{
    let mut i: usize = 0;
    while i < batch.len()
        invariant
            i <= batch@.len(),
            forall|j: int| 0 <= j < i ==> !some_names_file(#[trigger] batch@[j], file_name@),
        decreases batch@.len() - i,
    {
        match &batch[i] {
            Some(e) => {
                if event_touches(e, file_name) {
                    return true;
                }
            },
            None => {},
        }
        i = i + 1;
    }
    false
}

/// Whether some event of `batch` is a change to the watched file itself.
pub fn batch_touches_watched(batch: &Vec<Option<FsEvent>>, watched: &WatchedFile) -> (r: bool)
    ensures
        r == batch_names_watched(batch@, *watched),
{
    let mut i: usize = 0;
    while i < batch.len()
        invariant
            i <= batch@.len(),
            forall|j: int| 0 <= j < i ==> !some_names_watched(#[trigger] batch@[j], *watched),
        decreases batch@.len() - i,
    {
        match &batch[i] {
            Some(e) => {
                if event_touches_watched(e, watched) {
                    return true;
                }
            },
            None => {},
        }
        i = i + 1;
    }
    false
}

/// Whether `states`, `times`, `touched` and `fired` describe a run of decisions:
/// decision `k` is taken at `times[k]` from `states[k]` to `states[k + 1]`.
pub open spec fn is_run(states: Seq<Debouncer>, times: Seq<u128>, touched: Seq<bool>, fired: Seq<bool>) -> bool {
    &&& states.len() == times.len() + 1
    &&& touched.len() == times.len()
    &&& fired.len() == times.len()
    &&& forall|k: int| 0 <= k < times.len() ==> fire_step(
        #[trigger] states[k],
        times[k],
        touched[k],
        fired[k],
        states[k + 1],
    )
}

/// Whether the clock of `times` never goes back.
pub open spec fn nondecreasing(times: Seq<u128>) -> bool {
    forall|a: int, b: int| 0 <= a <= b < times.len() ==> times[a] <= times[b]
}

/// After the report of decision `i`, every unreported change was seen no
/// earlier than that report.
proof fn lemma_pending_after_report(
    states: Seq<Debouncer>,
    times: Seq<u128>,
    touched: Seq<bool>,
    fired: Seq<bool>,
    i: int,
    m: int,
)
    requires
        is_run(states, times, touched, fired),
        nondecreasing(times),
        0 <= i < times.len(),
        fired[i],
        i < m <= times.len(),
    ensures
        states[m].pending() matches Some(t) ==> times[i] <= t <= times[m - 1],
        states[m].window() == states[i].window(),
    decreases m - i,
{
    assert(fire_step(states[i], times[i], touched[i], fired[i], states[i + 1]));
    if m > i + 1 {
        lemma_pending_after_report(states, times, touched, fired, i, m - 1);
        assert(fire_step(states[m - 1], times[m - 1], touched[m - 1], fired[m - 1], states[m]));
        assert(times[i] <= times[m - 1]);
        assert(times[m - 2] <= times[m - 1]);
    }
}

/// Reports are spaced: on a clock that never goes back, any two reports of a
/// run are at least the window's length in milliseconds apart.
pub proof fn lemma_reports_spaced(
    states: Seq<Debouncer>,
    times: Seq<u128>,
    touched: Seq<bool>,
    fired: Seq<bool>,
    i: int,
    j: int,
)
    requires
        is_run(states, times, touched, fired),
        nondecreasing(times),
        0 <= i < j < times.len(),
        fired[i],
        fired[j],
    ensures
        elapsed_ms(times[j], times[i]) >= states[i].window(),
{
    lemma_pending_after_report(states, times, touched, fired, i, j);
    assert(fire_step(states[j], times[j], touched[j], fired[j], states[j + 1]));
    let t = pending_after_change(states[j], times[j], touched[j])->0;
    assert(times[j - 1] <= times[j]);
    assert(times[i] <= t <= times[j]);
    assert((times[j] - t) / 1_000_000 <= (times[j] - times[i]) / 1_000_000) by (nonlinear_arith)
        requires
            times[i] <= t <= times[j],
    ;
}

/// No change is lost: after a change seen at decision `k` with no change after
/// it, some decision from `k` up to `j` reports, once decision `j` comes at
/// least the window after the change.
pub proof fn lemma_change_reported(
    states: Seq<Debouncer>,
    times: Seq<u128>,
    touched: Seq<bool>,
    fired: Seq<bool>,
    k: int,
    j: int,
)
    requires
        is_run(states, times, touched, fired),
        0 <= k <= j < times.len(),
        touched[k],
        forall|m: int| k < m <= j ==> !#[trigger] touched[m],
        elapsed_ms(times[j], times[k]) >= states[k].window(),
    ensures
        exists|m: int| k <= m <= j && #[trigger] fired[m],
{
    if k == j {
        assert(fire_step(states[j], times[j], touched[j], fired[j], states[j + 1]));
        assert(fired[j]);
    } else if forall|m: int| k <= m < j ==> !#[trigger] fired[m] {
        lemma_quiet_run_keeps_change(states, times, touched, fired, k, j);
        assert(fire_step(states[j], times[j], touched[j], fired[j], states[j + 1]));
        assert(fired[j]);
    }
}

/// Without reports after the change of decision `k` and no further change, that
/// change stays the unreported one and the window stays as it was.
proof fn lemma_quiet_run_keeps_change(
    states: Seq<Debouncer>,
    times: Seq<u128>,
    touched: Seq<bool>,
    fired: Seq<bool>,
    k: int,
    to: int,
)
    requires
        is_run(states, times, touched, fired),
        0 <= k < to < times.len() + 1,
        touched[k],
        forall|m: int| k < m < to ==> !#[trigger] touched[m],
        forall|m: int| k <= m < to ==> !#[trigger] fired[m],
    ensures
        states[to].pending() == Some(times[k]),
        states[to].window() == states[k].window(),
    decreases to - k,
{
    assert(fire_step(states[to - 1], times[to - 1], touched[to - 1], fired[to - 1], states[to]));
    if to > k + 1 {
        lemma_quiet_run_keeps_change(states, times, touched, fired, k, to - 1);
    }
}

/// Any event of a batch counts: as soon as one event, at any position, is a
/// change (modify, create or unspecified) to a path, at any position, whose last
/// component is `name`, the batch is a change to the file named `name`.
pub proof fn lemma_any_event_of_a_batch_counts(batch: Seq<Option<FsEvent>>, name: Seq<char>, i: int, p: int)
    requires
        0 <= i < batch.len(),
        batch[i] is Some,
        batch[i]->0.kind == ChangeKind::Modify || batch[i]->0.kind == ChangeKind::Create || batch[i]->0.kind
            == ChangeKind::Any,
        0 <= p < batch[i]->0.paths@.len(),
        batch[i]->0.paths@[p].name is Some,
        batch[i]->0.paths@[p].name->0@ == name,
    ensures
        batch_names_file(batch, name),
{
    let e = batch[i]->0;
    assert(opt_text(e.paths@[p].name) == Some(name));
    assert(names_file(e, name));
    assert(some_names_file(batch[i], name));
}

/// A batch is a change to the file named `name` only because of such an event:
/// some event of it is a change (modify, create or unspecified) to a path whose
/// last component is `name`.
pub proof fn lemma_batch_change_has_a_cause(batch: Seq<Option<FsEvent>>, name: Seq<char>)
    requires
        batch_names_file(batch, name),
    ensures
        exists|i: int, p: int|
            #![trigger batch[i]->0.paths@[p]]
            0 <= i < batch.len() && batch[i] is Some && (batch[i]->0.kind == ChangeKind::Modify
                || batch[i]->0.kind == ChangeKind::Create || batch[i]->0.kind == ChangeKind::Any) && 0 <= p
                < batch[i]->0.paths@.len() && batch[i]->0.paths@[p].name is Some && batch[i]->0.paths@[p].name->0@
                == name,
{
    let i = choose|i: int| 0 <= i < batch.len() && some_names_file(#[trigger] batch[i], name);
    let e = batch[i]->0;
    let p = choose|p: int| 0 <= p < e.paths@.len() && opt_text(#[trigger] e.paths@[p].name) == Some(name);
    assert(batch[i]->0.paths@[p].name->0@ == name);
}

/// Joining two batches: the joined batch is a change to the file named `name`
/// exactly when one of them is, so adding events to a batch never hides a change.
pub proof fn lemma_joined_batches(a: Seq<Option<FsEvent>>, b: Seq<Option<FsEvent>>, name: Seq<char>)
    ensures
        batch_names_file(a + b, name) == (batch_names_file(a, name) || batch_names_file(b, name)),
{
    let ab = a + b;
    if batch_names_file(ab, name) {
        let i = choose|i: int| 0 <= i < ab.len() && some_names_file(#[trigger] ab[i], name);
        if i < a.len() {
            assert(ab[i] == a[i]);
            assert(some_names_file(a[i], name));
        } else {
            assert(ab[i] == b[i - a.len()]);
            assert(some_names_file(b[i - a.len()], name));
        }
    }
    if batch_names_file(a, name) {
        let i = choose|i: int| 0 <= i < a.len() && some_names_file(#[trigger] a[i], name);
        assert(ab[i] == a[i]);
        assert(some_names_file(ab[i], name));
    }
    if batch_names_file(b, name) {
        let i = choose|i: int| 0 <= i < b.len() && some_names_file(#[trigger] b[i], name);
        assert(ab[a.len() + i] == b[i]);
        assert(some_names_file(ab[a.len() + i], name));
    }
}

/// Any path of an event counts: a change (modify, create or unspecified) with a
/// path, at any position, that has the watched file's last component and parent
/// is a change to the watched file.
pub proof fn lemma_any_path_of_an_event_counts(e: FsEvent, w: WatchedFile, p: int)
    requires
        e.kind == ChangeKind::Modify || e.kind == ChangeKind::Create || e.kind == ChangeKind::Any,
        0 <= p < e.paths@.len(),
        opt_bytes(e.paths@[p].raw_name) == opt_bytes(w.raw_name),
        opt_components(e.paths@[p].parent_components) == opt_components(w.parent_components),
    ensures
        names_watched(e, w),
{
    assert(opt_bytes(e.paths@[p].raw_name) == opt_bytes(w.raw_name));
}

/// An event is a change to the watched file only because of such a path: it is a
/// change (modify, create or unspecified) and one of its paths has the watched
/// file's last component and parent.
pub proof fn lemma_watched_change_has_a_cause(e: FsEvent, w: WatchedFile)
    requires
        names_watched(e, w),
    ensures
        e.kind == ChangeKind::Modify || e.kind == ChangeKind::Create || e.kind == ChangeKind::Any,
        exists|p: int|
            0 <= p < e.paths@.len() && opt_bytes(#[trigger] e.paths@[p].raw_name) == opt_bytes(w.raw_name)
                && opt_components(e.paths@[p].parent_components) == opt_components(w.parent_components),
{
}

/// The order of an event's paths does not matter: two events of one kind that
/// name the same paths are both changes to the watched file, or neither is.
pub proof fn lemma_path_order_does_not_matter(e1: FsEvent, e2: FsEvent, w: WatchedFile)
    requires
        e1.kind == e2.kind,
        forall|i: int| 0 <= i < e1.paths@.len() ==> e2.paths@.contains(#[trigger] e1.paths@[i]),
        forall|j: int| 0 <= j < e2.paths@.len() ==> e1.paths@.contains(#[trigger] e2.paths@[j]),
    ensures
        names_watched(e1, w) == names_watched(e2, w),
{
    lemma_paths_carry_over(e1, e2, w);
    lemma_paths_carry_over(e2, e1, w);
}

/// A change to the watched file stays one when every path of it is kept.
proof fn lemma_paths_carry_over(e1: FsEvent, e2: FsEvent, w: WatchedFile)
    requires
        e1.kind == e2.kind,
        forall|i: int| 0 <= i < e1.paths@.len() ==> e2.paths@.contains(#[trigger] e1.paths@[i]),
    ensures
        names_watched(e1, w) ==> names_watched(e2, w),
{
    if names_watched(e1, w) {
        let i = choose|i: int|
            0 <= i < e1.paths@.len() && opt_bytes(#[trigger] e1.paths@[i].raw_name) == opt_bytes(w.raw_name)
                && opt_components(e1.paths@[i].parent_components) == opt_components(w.parent_components);
        assert(e2.paths@.contains(e1.paths@[i]));
        let j = choose|j: int| 0 <= j < e2.paths@.len() && e2.paths@[j] == e1.paths@[i];
        assert(opt_bytes(e2.paths@[j].raw_name) == opt_bytes(w.raw_name));
    }
}

/// Any event of a batch counts for the watched file too: the batch is a change to
/// the watched file as soon as one event of it, at any position, is.
pub proof fn lemma_any_event_counts_for_the_watched_file(batch: Seq<Option<FsEvent>>, w: WatchedFile, i: int)
    requires
        0 <= i < batch.len(),
        batch[i] is Some,
        names_watched(batch[i]->0, w),
    ensures
        batch_names_watched(batch, w),
{
    assert(some_names_watched(batch[i], w));
}

/// Joining two batches: the joined batch is a change to the watched file exactly
/// when one of them is.
pub proof fn lemma_joined_batches_watched(a: Seq<Option<FsEvent>>, b: Seq<Option<FsEvent>>, w: WatchedFile)
    ensures
        batch_names_watched(a + b, w) == (batch_names_watched(a, w) || batch_names_watched(b, w)),
{
    let ab = a + b;
    if batch_names_watched(ab, w) {
        let i = choose|i: int| 0 <= i < ab.len() && some_names_watched(#[trigger] ab[i], w);
        if i < a.len() {
            assert(ab[i] == a[i]);
            assert(some_names_watched(a[i], w));
        } else {
            assert(ab[i] == b[i - a.len()]);
            assert(some_names_watched(b[i - a.len()], w));
        }
    }
    if batch_names_watched(a, w) {
        let i = choose|i: int| 0 <= i < a.len() && some_names_watched(#[trigger] a[i], w);
        assert(ab[i] == a[i]);
        assert(some_names_watched(ab[i], w));
    }
    if batch_names_watched(b, w) {
        let i = choose|i: int| 0 <= i < b.len() && some_names_watched(#[trigger] b[i], w);
        assert(ab[a.len() + i] == b[i]);
        assert(some_names_watched(ab[a.len() + i], w));
    }
}

} // verus!
