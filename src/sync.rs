use vstd::prelude::*;
use crate::cache::{CACHE_TTL_SECS, is_fresh, is_cache_valid};
use crate::datasets::Dataset;
use crate::pack::{
    PackFetch, SyncError, descriptor_url, is_success_status, descriptor_url_of, manifest_url, manifest_url_of,
    pack_outcome, resolve_pack,
};

verus! {

/// Where a synchronisation run stands.
#[derive(Clone, Copy, PartialEq, Eq, Structural)]
pub enum Phase {
    /// Waiting for the age of the cache file.
    CheckCache,
    /// Waiting for the cached summaries.
    LoadCache,
    /// Waiting for the manifest.
    FetchManifest,
    /// Waiting for the descriptor fetches, drained in manifest order.
    FanOut,
    /// The run has produced its result.
    Finished,
}

/// What the caller reports back to a run.
pub enum SyncEvent {
    /// Age of the cache file in whole seconds; `None` when it is missing,
    /// its time cannot be read, or that time lies in the future.
    CacheAge(Option<u64>),
    /// The cached summaries; `None` when the file could not be read or parsed.
    CacheLoaded(Option<Vec<Dataset>>),
    /// The manifest's slugs, or why it could not be had.
    ManifestFetched(Result<Vec<String>, SyncError>),
    /// The next descriptor fetch in manifest order.
    PackFetched(PackFetch),
}

/// What a run asks the caller to do next.
pub enum SyncAction {
    /// Report the age of the cache file.
    ReadCacheAge,
    /// Read and parse the cache file.
    LoadCache,
    /// Request the manifest at this address.
    FetchManifest(String),
    /// Start one descriptor request per address, all at once, in this order.
    FetchPacks(Vec<String>),
    /// Report the next descriptor fetch in manifest order.
    AwaitPack,
    /// The run succeeded; write `datasets` to the cache first when `persist` holds.
    Complete { datasets: Vec<Dataset>, persist: bool },
    /// The run failed; the cache is left as it is.
    Fail(SyncError),
}

/// Model of a `SyncAction`.
pub ghost enum ActionView {
    ReadCacheAge,
    LoadCache,
    FetchManifest(Seq<char>),
    FetchPacks(Seq<Seq<char>>),
    AwaitPack,
    Complete { datasets: Seq<Dataset>, persist: bool },
    Fail(SyncError),
}

impl View for SyncAction {
    type V = ActionView;

    open spec fn view(&self) -> ActionView {
        match self {
            SyncAction::ReadCacheAge => ActionView::ReadCacheAge,
            SyncAction::LoadCache => ActionView::LoadCache,
            SyncAction::FetchManifest(u) => ActionView::FetchManifest(u@),
            SyncAction::FetchPacks(us) => ActionView::FetchPacks(us@.map_values(|u: String| u@)),
            SyncAction::AwaitPack => ActionView::AwaitPack,
            SyncAction::Complete { datasets, persist } => ActionView::Complete {
                datasets: datasets@,
                persist: *persist,
            },
            SyncAction::Fail(e) => ActionView::Fail(*e),
        }
    }
}

/// Model of a `SyncSession`.
pub ghost struct SessionView {
    pub phase: Phase,
    pub slugs: Seq<String>,
    pub next: nat,
    pub done: Seq<Dataset>,
    pub fetched: Seq<PackFetch>,
}

/// One synchronisation run: a cache check, then, on a miss or when forced, the
/// manifest and one descriptor per slug, summarised in manifest order.
pub struct SyncSession {
    phase: Phase,
    slugs: Vec<String>,
    next: usize,
    done: Vec<Dataset>,
    fetched: Ghost<Seq<PackFetch>>,
}

impl View for SyncSession {
    type V = SessionView;

    closed spec fn view(&self) -> SessionView {
        SessionView {
            phase: self.phase,
            slugs: self.slugs@,
            next: self.next as nat,
            done: self.done@,
            fetched: self.fetched@,
        }
    }
}

/// The action asks for a network request.
pub open spec fn is_request(a: ActionView) -> bool {
    a is FetchManifest || a is FetchPacks
}

/// The action writes the cache.
pub open spec fn writes_cache(a: ActionView) -> bool {
    match a {
        ActionView::Complete { persist, .. } => persist,
        _ => false,
    }
}

/// `urls` holds exactly one descriptor address per slug, in manifest order.
pub open spec fn requests_for(urls: Seq<Seq<char>>, slugs: Seq<String>) -> bool {
    &&& urls.len() == slugs.len()
    &&& forall|i: int| 0 <= i < slugs.len() ==> #[trigger] urls[i] == descriptor_url_of(slugs[i]@)
}

/// The state is consistent.
pub open spec fn session_wf(s: SessionView) -> bool {
    s.phase == Phase::FanOut ==> {
        &&& 0 < s.slugs.len()
        &&& s.next < s.slugs.len()
        &&& s.done.len() == s.next
        &&& s.fetched.len() == s.next
        &&& forall|i: int| 0 <= i < s.next ==> #[trigger] pack_outcome(
            s.slugs[i],
            s.fetched[i],
            Ok(s.done[i]),
        )
    }
}

/// The event is the one that the state waits for.
pub open spec fn accepts_spec(s: SessionView, e: SyncEvent) -> bool {
    match e {
        SyncEvent::CacheAge(_) => s.phase == Phase::CheckCache,
        SyncEvent::CacheLoaded(_) => s.phase == Phase::LoadCache,
        SyncEvent::ManifestFetched(_) => s.phase == Phase::FetchManifest,
        SyncEvent::PackFetched(_) => s.phase == Phase::FanOut,
    }
}

/// The run moves on to the manifest.
pub open spec fn to_manifest(t: SessionView, a: ActionView) -> bool {
    t.phase == Phase::FetchManifest && a == ActionView::FetchManifest(manifest_url_of())
}

/// The run ends with action `a`.
pub open spec fn ends_with(t: SessionView, a: ActionView, expected: ActionView) -> bool {
    t.phase == Phase::Finished && a == expected
}

/// The first action of a run, forced to refresh or not.
pub open spec fn start_rel(force: bool, t: SessionView, a: ActionView) -> bool {
    if force {
        to_manifest(t, a)
    } else {
        t.phase == Phase::CheckCache && a == ActionView::ReadCacheAge
    }
}

/// How the fan-out moves on once the current pack's outcome `r` is known.
pub open spec fn pack_step(
    s: SessionView,
    f: PackFetch,
    r: Result<Dataset, SyncError>,
    t: SessionView,
    a: ActionView,
) -> bool {
    match r {
        Err(err) => ends_with(t, a, ActionView::Fail(err)),
        Ok(d) => if s.next + 1 == s.slugs.len() {
            ends_with(t, a, ActionView::Complete { datasets: s.done.push(d), persist: true })
        } else {
            &&& t.phase == Phase::FanOut
            &&& t.slugs == s.slugs
            &&& t.next == s.next + 1
            &&& t.done == s.done.push(d)
            &&& t.fetched == s.fetched.push(f)
            &&& a == ActionView::AwaitPack
        },
    }
}

/// One step of a run: from state `s`, on event `e`, to state `t` with action `a`.
pub open spec fn step_rel(s: SessionView, e: SyncEvent, t: SessionView, a: ActionView) -> bool {
    match e {
        SyncEvent::CacheAge(age) => if is_fresh(age) {
            t.phase == Phase::LoadCache && a == ActionView::LoadCache
        } else {
            to_manifest(t, a)
        },
        SyncEvent::CacheLoaded(loaded) => match loaded {
            Some(c) => ends_with(t, a, ActionView::Complete { datasets: c@, persist: false }),
            None => to_manifest(t, a),
        },
        SyncEvent::ManifestFetched(res) => match res {
            Err(err) => ends_with(t, a, ActionView::Fail(err)),
            Ok(slugs) => if slugs@.len() == 0 {
                ends_with(t, a, ActionView::Complete { datasets: Seq::empty(), persist: true })
            } else {
                &&& t.phase == Phase::FanOut
                &&& t.slugs == slugs@
                &&& t.next == 0
                &&& t.done == Seq::<Dataset>::empty()
                &&& t.fetched == Seq::<PackFetch>::empty()
                &&& a is FetchPacks
                &&& requests_for(a->FetchPacks_0, slugs@)
            },
        },
        SyncEvent::PackFetched(f) => exists|r: Result<Dataset, SyncError>|
            #[trigger] pack_outcome(s.slugs[s.next as int], f, r) && pack_step(s, f, r, t, a),
    }
}

/// One descriptor address per slug, in manifest order.
fn descriptor_urls(slugs: &Vec<String>) -> (urls: Vec<String>)
    ensures
        requests_for(urls@.map_values(|u: String| u@), slugs@),
{
    let mut urls: Vec<String> = Vec::new();
    let mut i: usize = 0;
    while i < slugs.len()
        invariant
            i <= slugs@.len(),
            urls@.len() == i,
            forall|j: int| 0 <= j < i ==> #[trigger] urls@[j]@ == descriptor_url_of(slugs@[j]@),
        decreases slugs@.len() - i,
    {
        urls.push(descriptor_url(slugs[i].as_str()));
        i = i + 1;
    }
    urls
}

impl SyncSession {
    pub open spec fn wf(&self) -> bool {
        session_wf(self@)
    }

    /// A run in `phase` with no manifest in hand.
    fn waiting(phase: Phase) -> (s: SyncSession)
        requires
            phase != Phase::FanOut,
        ensures
            s.wf(),
            s@.phase == phase,
    {
        SyncSession { phase, slugs: Vec::new(), next: 0, done: Vec::new(), fetched: Ghost(Seq::empty()) }
    }

    /// Opens a run; `force_invalidate` skips the cache.
    pub fn start(force_invalidate: bool) -> (r: (SyncSession, SyncAction))
        ensures
            r.0.wf(),
            start_rel(force_invalidate, r.0@, r.1@),
    {
        if force_invalidate {
            (
                Self::waiting(Phase::FetchManifest),
                SyncAction::FetchManifest(manifest_url()),
            )
        } else {
            (
                Self::waiting(Phase::CheckCache),
                SyncAction::ReadCacheAge,
            )
        }
    }

    /// The phase the run is in.
    pub fn phase(&self) -> (p: Phase)
        ensures
            p == self@.phase,
    {
        self.phase
    }

    /// Whether `event` is the one the run waits for.
    pub fn accepts(&self, event: &SyncEvent) -> (r: bool)
        ensures
            r == accepts_spec(self@, *event),
    {
        match event {
            SyncEvent::CacheAge(_) => self.phase == Phase::CheckCache,
            SyncEvent::CacheLoaded(_) => self.phase == Phase::LoadCache,
            SyncEvent::ManifestFetched(_) => self.phase == Phase::FetchManifest,
            SyncEvent::PackFetched(_) => self.phase == Phase::FanOut,
        }
    }

    fn to_manifest() -> (r: (SyncSession, SyncAction))
        ensures
            r.0.wf(),
            to_manifest(r.0@, r.1@),
    {
        (
            Self::waiting(Phase::FetchManifest),
            SyncAction::FetchManifest(manifest_url()),
        )
    }

    fn finish(a: SyncAction) -> (r: (SyncSession, SyncAction))
        ensures
            r.0.wf(),
            ends_with(r.0@, r.1@, a@),
    {
        (Self::waiting(Phase::Finished), a)
    }

    /// Feeds the run the event it waits for and returns the next state and action.
    pub fn step(self, event: SyncEvent) -> (r: (SyncSession, SyncAction))
        requires
            self.wf(),
            accepts_spec(self@, event),
        ensures
            r.0.wf(),
            step_rel(self@, event, r.0@, r.1@),
    {
        let ghost s = self@;
        match event {
            SyncEvent::CacheAge(age) => {
                if is_cache_valid(age) {
                    (
                        Self::waiting(Phase::LoadCache),
                        SyncAction::LoadCache,
                    )
                } else {
                    Self::to_manifest()
                }
            },
            SyncEvent::CacheLoaded(loaded) => match loaded {
                Some(c) => Self::finish(SyncAction::Complete { datasets: c, persist: false }),
                None => Self::to_manifest(),
            },
            SyncEvent::ManifestFetched(res) => match res {
                Err(err) => Self::finish(SyncAction::Fail(err)),
                Ok(slugs) => {
                    if slugs.len() == 0 {
                        Self::finish(SyncAction::Complete { datasets: Vec::new(), persist: true })
                    } else {
                        let urls = descriptor_urls(&slugs);
                        (
                            SyncSession { phase: Phase::FanOut, slugs, next: 0, done: Vec::new(), fetched: Ghost(Seq::empty()) },
                            SyncAction::FetchPacks(urls),
                        )
                    }
                },
            },
            SyncEvent::PackFetched(f) => {
                let SyncSession { phase: _, slugs, next, mut done, fetched } = self;
                let ghost gf = f;
                assert(next < slugs@.len());
                let slug = slugs[next].clone();
                let r = resolve_pack(slug, f);
                assert(pack_outcome(s.slugs[s.next as int], f, r));
                match r {
                    Err(err) => Self::finish(SyncAction::Fail(err)),
                    Ok(d) => {
                        done.push(d);
                        if next == slugs.len() - 1 {
                            Self::finish(SyncAction::Complete { datasets: done, persist: true })
                        } else {
                            (
                                SyncSession {
                                    phase: Phase::FanOut,
                                    slugs,
                                    next: next + 1,
                                    done,
                                    fetched: Ghost(fetched@.push(gf)),
                                },
                                SyncAction::AwaitPack,
                            )
                        }
                    },
                }
            },
        }
    }
}

/// The descriptor fetch did not yield a descriptor.
pub open spec fn pack_failed(f: PackFetch) -> bool {
    match f {
        PackFetch::Received { status, body, .. } => !is_success_status(status) || !(body is Parsed),
        _ => true,
    }
}

/// A run that is not forced and finds a fresh cache that loads returns the
/// cached summaries unchanged, asks for no network request and writes nothing.
pub proof fn law_fresh_cache_is_served(
    age: u64,
    cached: Vec<Dataset>,
    s0: SessionView,
    a0: ActionView,
    s1: SessionView,
    a1: ActionView,
    s2: SessionView,
    a2: ActionView,
)
    requires
        age < CACHE_TTL_SECS,
        start_rel(false, s0, a0),
        step_rel(s0, SyncEvent::CacheAge(Some(age)), s1, a1),
        step_rel(s1, SyncEvent::CacheLoaded(Some(cached)), s2, a2),
    ensures
        s2.phase == Phase::Finished,
        a2 == (ActionView::Complete { datasets: cached@, persist: false }),
        !is_request(a0),
        !is_request(a1),
        !is_request(a2),
        !writes_cache(a2),
{
}

/// A forced run, or one whose cache is stale or absent, asks for the manifest
/// as its first request.
pub proof fn law_refresh_requests_manifest(
    force: bool,
    age: Option<u64>,
    s0: SessionView,
    a0: ActionView,
    s1: SessionView,
    a1: ActionView,
)
    requires
        start_rel(force, s0, a0),
        !force ==> !is_fresh(age) && step_rel(s0, SyncEvent::CacheAge(age), s1, a1),
    ensures
        force ==> a0 == ActionView::FetchManifest(manifest_url_of()),
        !force ==> a0 == ActionView::ReadCacheAge && a1 == ActionView::FetchManifest(manifest_url_of()),
{
}

/// A fresh cache that cannot be loaded is a miss: the run asks for the manifest.
pub proof fn law_unreadable_cache_requests_manifest(s: SessionView, t: SessionView, a: ActionView)
    requires
        step_rel(s, SyncEvent::CacheLoaded(None), t, a),
    ensures
        a == ActionView::FetchManifest(manifest_url_of()),
{
}

/// The answer to the manifest request asks for no second manifest; a non-empty
/// manifest starts exactly one descriptor request per slug, in manifest order,
/// and an empty one completes the run with no summaries.
pub proof fn law_one_request_per_slug(
    res: Result<Vec<String>, SyncError>,
    s: SessionView,
    t: SessionView,
    a: ActionView,
)
    requires
        step_rel(s, SyncEvent::ManifestFetched(res), t, a),
    ensures
        !(a is FetchManifest),
        res is Ok && res->Ok_0@.len() > 0 ==> a is FetchPacks && requests_for(a->FetchPacks_0, res->Ok_0@),
        res is Ok && res->Ok_0@.len() == 0 ==> a == (ActionView::Complete { datasets: Seq::empty(), persist: true }),
        res is Err ==> a == ActionView::Fail(res->Err_0),
{
}

/// Draining the descriptor fetches asks for no further network request.
pub proof fn law_fan_out_requests_nothing(f: PackFetch, s: SessionView, t: SessionView, a: ActionView)
    requires
        step_rel(s, SyncEvent::PackFetched(f), t, a),
    ensures
        !is_request(a),
{
}

/// A descriptor fetch that fails ends the run with an error and leaves the
/// cache unwritten; a non-success status is reported with the pack's slug.
pub proof fn law_failed_pack_fails_run(f: PackFetch, s: SessionView, t: SessionView, a: ActionView)
    requires
        step_rel(s, SyncEvent::PackFetched(f), t, a),
        pack_failed(f),
    ensures
        t.phase == Phase::Finished,
        a is Fail,
        !writes_cache(a),
        f is Received && !is_success_status(f->status) ==> a == ActionView::Fail(
            SyncError::HttpStatus { slug: s.slugs[s.next as int], status: f->status, reason: f->reason },
        ),
{
}

/// A run that completes after its fan-out returns one summary per slug, in
/// manifest order: the summary at position `i` is the one made from the
/// `i`-th descriptor fetch reported to the run.
pub proof fn law_summaries_in_manifest_order(f: PackFetch, s: SessionView, t: SessionView, a: ActionView)
    requires
        session_wf(s),
        s.phase == Phase::FanOut,
        step_rel(s, SyncEvent::PackFetched(f), t, a),
        a is Complete,
    ensures
        a->datasets.len() == s.slugs.len(),
        forall|i: int| 0 <= i < s.slugs.len() ==> #[trigger] pack_outcome(
            s.slugs[i],
            s.fetched.push(f)[i],
            Ok(a->datasets[i]),
        ),
{
    let r = choose|r: Result<Dataset, SyncError>| #[trigger] pack_outcome(s.slugs[s.next as int], f, r) && pack_step(s, f, r, t, a);
    assert forall|i: int| 0 <= i < s.slugs.len() implies #[trigger] pack_outcome(
        s.slugs[i],
        s.fetched.push(f)[i],
        Ok(a->datasets[i]),
    ) by {
        if i < s.next {
            assert(s.fetched.push(f)[i] == s.fetched[i]);
            assert(a->datasets[i] == s.done[i]);
        }
    }
}

} // verus!
