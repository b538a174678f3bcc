//! The feed: a state machine that waits for the store, reads the viewer's
//! library, asks the catalog for candidates and publishes them ranked.
//!
//! The machine does no waiting and no input or output of its own. Each call
//! of `step` takes what happened outside, moves to the next state and says
//! what to do next; whoever drives it performs that action and reports back.

use crate::error::{FeedError, FeedErrorView};
use crate::profile::{Profile, ProfileView};
use crate::svd::{profile_of, ranking, top_genre, SVD};
use crate::video::{strings_view, videos_view, Video, VideoView};
use vstd::prelude::*;
use vstd::string::StringExecFns;

verus! {

/// How often the store is probed before a run gives up.
pub const MAX_STORE_ATTEMPTS: u8 = 15;

/// Pause after a probe that found the store not ready, in milliseconds.
pub const RETRY_DELAY_MS: u32 = 200;

/// Where a run of the feed stands.
#[derive(Debug, PartialEq, Eq)]
pub enum FeedState {
    /// Nothing has asked for a feed yet.
    Idle,
    /// Probe number `attempt` of the store is under way, or, when `pausing`,
    /// has failed and the pause after it is running.
    WaitingForStore { attempt: u8, pausing: bool },
    /// The library snapshot has been asked for.
    FetchingHistory,
    /// The snapshot is in; the profile is to be built from it.
    BuildingProfile { library: Vec<Video> },
    /// The catalog has been asked for candidates of the dominant genre.
    FetchingCandidates { library: Vec<Video>, profile: Profile },
    /// The candidates are in; they are to be ranked.
    Ranking { library: Vec<Video>, profile: Profile, candidates: Vec<Video> },
    /// A ranked result has been published.
    Ready,
    /// The library is empty: there is nothing to recommend from.
    Empty,
    /// The run was given up.
    Failed(FeedError),
}

/// What the outside world reports to the machine.
#[derive(Debug, PartialEq, Eq)]
pub enum FeedEvent {
    /// A feed was asked for: on first display or by a refresh.
    Triggered,
    /// The probe found the store ready.
    StoreReady,
    /// The probe found the store not ready.
    StoreNotReady,
    /// The pause between two probes is over.
    DelayElapsed,
    /// The store returned the library snapshot.
    HistoryLoaded(Vec<Video>),
    /// The store failed to return the snapshot.
    HistoryFailed(String),
    /// The catalog returned candidates.
    CandidatesLoaded(Vec<Video>),
    /// The catalog search failed.
    SearchFailed(String),
    /// The step that needed no outside work is acknowledged.
    Advance,
}

/// What the machine asks the outside world to do next.
#[derive(Debug, PartialEq, Eq)]
pub enum FeedAction {
    /// Nothing: the run is over, or the event did not concern it.
    Nothing,
    /// Probe the store and report `StoreReady` or `StoreNotReady`.
    ProbeStore,
    /// Pause for so many milliseconds, then report `DelayElapsed`.
    Wait(u32),
    /// Read the whole library and report `HistoryLoaded` or `HistoryFailed`.
    FetchHistory,
    /// Search the catalog for this term and report `CandidatesLoaded` or
    /// `SearchFailed`.
    Search(String),
    /// Report `Advance` right away.
    Continue,
}

/// What the feed shows: the ranked result, the caption above it, and
/// whether a run is under way.
#[derive(Debug, PartialEq, Eq)]
pub struct Published {
    pub videos: Vec<Video>,
    pub genre_title: String,
    pub loading: bool,
}

/// A `FeedState` as plain values.
pub enum FeedStateView {
    Idle,
    WaitingForStore { attempt: nat, pausing: bool },
    FetchingHistory,
    BuildingProfile { library: Seq<VideoView> },
    FetchingCandidates { library: Seq<VideoView>, profile: ProfileView },
    Ranking { library: Seq<VideoView>, profile: ProfileView, candidates: Seq<VideoView> },
    Ready,
    Empty,
    Failed(FeedErrorView),
}

/// A `FeedEvent` as plain values.
pub enum FeedEventView {
    Triggered,
    StoreReady,
    StoreNotReady,
    DelayElapsed,
    HistoryLoaded(Seq<VideoView>),
    HistoryFailed(Seq<char>),
    CandidatesLoaded(Seq<VideoView>),
    SearchFailed(Seq<char>),
    Advance,
}

/// A `FeedAction` as plain values.
pub enum FeedActionView {
    Nothing,
    ProbeStore,
    Wait(nat),
    FetchHistory,
    Search(Seq<char>),
    Continue,
}

/// A `Published` as plain values.
pub struct PublishedView {
    pub videos: Seq<VideoView>,
    pub genre_title: Seq<char>,
    pub loading: bool,
}

impl View for FeedState {
    type V = FeedStateView;

    open spec fn view(&self) -> FeedStateView {
        match self {
            FeedState::Idle => FeedStateView::Idle,
            FeedState::WaitingForStore { attempt, pausing } => FeedStateView::WaitingForStore {
                attempt: *attempt as nat,
                pausing: *pausing,
            },
            FeedState::FetchingHistory => FeedStateView::FetchingHistory,
            FeedState::BuildingProfile { library } => FeedStateView::BuildingProfile {
                library: videos_view(library@),
            },
            FeedState::FetchingCandidates { library, profile } => {
                FeedStateView::FetchingCandidates {
                    library: videos_view(library@),
                    profile: profile@,
                }
            },
            FeedState::Ranking { library, profile, candidates } => FeedStateView::Ranking {
                library: videos_view(library@),
                profile: profile@,
                candidates: videos_view(candidates@),
            },
            FeedState::Ready => FeedStateView::Ready,
            FeedState::Empty => FeedStateView::Empty,
            FeedState::Failed(error) => FeedStateView::Failed(error@),
        }
    }
}

impl View for FeedEvent {
    type V = FeedEventView;

    open spec fn view(&self) -> FeedEventView {
        match self {
            FeedEvent::Triggered => FeedEventView::Triggered,
            FeedEvent::StoreReady => FeedEventView::StoreReady,
            FeedEvent::StoreNotReady => FeedEventView::StoreNotReady,
            FeedEvent::DelayElapsed => FeedEventView::DelayElapsed,
            FeedEvent::HistoryLoaded(library) => FeedEventView::HistoryLoaded(
                videos_view(library@),
            ),
            FeedEvent::HistoryFailed(message) => FeedEventView::HistoryFailed(message@),
            FeedEvent::CandidatesLoaded(candidates) => FeedEventView::CandidatesLoaded(
                videos_view(candidates@),
            ),
            FeedEvent::SearchFailed(message) => FeedEventView::SearchFailed(message@),
            FeedEvent::Advance => FeedEventView::Advance,
        }
    }
}

impl View for FeedAction {
    type V = FeedActionView;

    open spec fn view(&self) -> FeedActionView {
        match self {
            FeedAction::Nothing => FeedActionView::Nothing,
            FeedAction::ProbeStore => FeedActionView::ProbeStore,
            FeedAction::Wait(millis) => FeedActionView::Wait(*millis as nat),
            FeedAction::FetchHistory => FeedActionView::FetchHistory,
            FeedAction::Search(term) => FeedActionView::Search(term@),
            FeedAction::Continue => FeedActionView::Continue,
        }
    }
}

impl View for Published {
    type V = PublishedView;

    open spec fn view(&self) -> PublishedView {
        PublishedView {
            videos: videos_view(self.videos@),
            genre_title: self.genre_title@,
            loading: self.loading,
        }
    }
}

/// The outcome of one step: the state moved to, the action asked for, and
/// what is shown afterwards.
pub struct Step {
    pub state: FeedStateView,
    pub action: FeedActionView,
    pub published: PublishedView,
}

/// The caption shown before the first recommendations arrive.
pub open spec fn library_title() -> Seq<char> {
    "Your Library"@
}

/// The caption above recommendations for the given genre.
pub open spec fn recommended_title(genre: Seq<char>) -> Seq<char> {
    "Recommended for you ("@ + genre + ")"@
}

/// The ids of the items of a library.
pub open spec fn library_ids(library: Seq<VideoView>) -> Seq<Seq<char>> {
    library.map_values(|v: VideoView| v.video_id)
}

/// A run that ends here: the state is terminal and loading is over.
pub open spec fn finish(state: FeedStateView, published: PublishedView) -> Step {
    Step {
        state,
        action: FeedActionView::Nothing,
        published: PublishedView { loading: false, ..published },
    }
}

/// The transition function of the feed.
pub open spec fn step_spec(
    state: FeedStateView,
    event: FeedEventView,
    published: PublishedView,
) -> Step {
    match (state, event) {
        (_, FeedEventView::Triggered) => Step {
            state: FeedStateView::WaitingForStore { attempt: 1, pausing: false },
            action: FeedActionView::ProbeStore,
            published: PublishedView { loading: true, ..published },
        },
        (
            FeedStateView::WaitingForStore { attempt, pausing: false },
            FeedEventView::StoreReady,
        ) => Step {
            state: FeedStateView::FetchingHistory,
            action: FeedActionView::FetchHistory,
            published,
        },
        (
            FeedStateView::WaitingForStore { attempt, pausing: false },
            FeedEventView::StoreNotReady,
        ) => Step {
            state: FeedStateView::WaitingForStore { attempt, pausing: true },
            action: FeedActionView::Wait(RETRY_DELAY_MS as nat),
            published,
        },
        (
            FeedStateView::WaitingForStore { attempt, pausing: true },
            FeedEventView::DelayElapsed,
        ) => if attempt < MAX_STORE_ATTEMPTS {
            Step {
                state: FeedStateView::WaitingForStore { attempt: attempt + 1, pausing: false },
                action: FeedActionView::ProbeStore,
                published,
            }
        } else {
            finish(FeedStateView::Failed(FeedErrorView::StoreUnavailable), published)
        },
        (FeedStateView::FetchingHistory, FeedEventView::HistoryLoaded(library)) => if library.len()
            == 0 {
            finish(
                FeedStateView::Empty,
                PublishedView { videos: Seq::empty(), ..published },
            )
        } else {
            Step {
                state: FeedStateView::BuildingProfile { library },
                action: FeedActionView::Continue,
                published,
            }
        },
        (FeedStateView::FetchingHistory, FeedEventView::HistoryFailed(message)) => finish(
            FeedStateView::Failed(FeedErrorView::StoreQueryError(message)),
            published,
        ),
        (FeedStateView::BuildingProfile { library }, FeedEventView::Advance) => {
            let profile = profile_of(library);
            let genre = top_genre(profile);
            Step {
                state: FeedStateView::FetchingCandidates { library, profile },
                action: FeedActionView::Search(genre),
                published: PublishedView { genre_title: recommended_title(genre), ..published },
            }
        },
        (
            FeedStateView::FetchingCandidates { library, profile },
            FeedEventView::CandidatesLoaded(candidates),
        ) => Step {
            state: FeedStateView::Ranking { library, profile, candidates },
            action: FeedActionView::Continue,
            published,
        },
        (
            FeedStateView::FetchingCandidates { library, profile },
            FeedEventView::SearchFailed(message),
        ) => finish(
            FeedStateView::Failed(FeedErrorView::SearchProviderError(message)),
            published,
        ),
        (FeedStateView::Ranking { library, profile, candidates }, FeedEventView::Advance) => finish(
            FeedStateView::Ready,
            PublishedView {
                videos: ranking(candidates, profile, library_ids(library)),
                ..published
            },
        ),
        _ => Step { state, action: FeedActionView::Nothing, published },
    }
}

impl Published {
    /// What is shown before any run: no result, the library caption, not
    /// loading.
    pub fn new() -> (published: Published)
        ensures
            published@.videos.len() == 0,
            published@.genre_title == library_title(),
            !published@.loading,
    {
        Published { videos: Vec::new(), genre_title: "Your Library".to_owned(), loading: false }
    }
}

/// The ids of the items of a library, copied out.
pub fn ids_of(library: &Vec<Video>) -> (ids: Vec<String>)
    ensures
        strings_view(ids@) == library_ids(videos_view(library@)),
{
    let mut ids: Vec<String> = Vec::new();
    let mut i: usize = 0;
    while i < library.len()
        invariant
            i <= library@.len(),
            ids@.len() == i,
            forall|j: int| 0 <= j < i ==> (#[trigger] ids@[j])@ == library@[j].video_id@,
        decreases library@.len() - i,
    {
        ids.push(library[i].video_id.clone());
        i += 1;
    }
    ids
}

/// The caption above recommendations for `genre`.
pub fn title_for(genre: &str) -> (title: String)
    ensures
        title@ == recommended_title(genre@),
{
    let mut title = String::from_str("Recommended for you (");
    title.append(genre);
    title.append(")");
    title
}

/// Moves a run one step: takes the state it is in and what happened
/// outside, updates what is shown, and returns the next state with the
/// action to perform. An event that the state does not wait for changes
/// nothing.
pub fn step(state: FeedState, event: FeedEvent, published: &mut Published) -> (next: (
    FeedState,
    FeedAction,
))
    ensures
        next.0@ == step_spec(state@, event@, old(published)@).state,
        next.1@ == step_spec(state@, event@, old(published)@).action,
        final(published)@ == step_spec(state@, event@, old(published)@).published,
{
    match (state, event) {
        (_, FeedEvent::Triggered) => {
            published.loading = true;
            (FeedState::WaitingForStore { attempt: 1, pausing: false }, FeedAction::ProbeStore)
        },
        (FeedState::WaitingForStore { attempt, pausing: false }, FeedEvent::StoreReady) => {
            (FeedState::FetchingHistory, FeedAction::FetchHistory)
        },
        (FeedState::WaitingForStore { attempt, pausing: false }, FeedEvent::StoreNotReady) => {
            (FeedState::WaitingForStore { attempt, pausing: true }, FeedAction::Wait(RETRY_DELAY_MS))
        },
        (FeedState::WaitingForStore { attempt, pausing: true }, FeedEvent::DelayElapsed) => {
            if attempt < MAX_STORE_ATTEMPTS {
                (
                    FeedState::WaitingForStore { attempt: attempt + 1, pausing: false },
                    FeedAction::ProbeStore,
                )
            } else {
                published.loading = false;
                (FeedState::Failed(FeedError::StoreUnavailable), FeedAction::Nothing)
            }
        },
        (FeedState::FetchingHistory, FeedEvent::HistoryLoaded(library)) => {
            if library.len() == 0 {
                published.videos = Vec::new();
                published.loading = false;
                assert(videos_view(published.videos@) =~= Seq::<VideoView>::empty());
                (FeedState::Empty, FeedAction::Nothing)
            } else {
                (FeedState::BuildingProfile { library }, FeedAction::Continue)
            }
        },
        (FeedState::FetchingHistory, FeedEvent::HistoryFailed(message)) => {
            published.loading = false;
            (FeedState::Failed(FeedError::StoreQueryError(message)), FeedAction::Nothing)
        },
        (FeedState::BuildingProfile { library }, FeedEvent::Advance) => {
            let profile = SVD::user_vector(library.as_slice());
            let genre = SVD::get_top_genre(&profile);
            published.genre_title = title_for(genre.as_str());
            (FeedState::FetchingCandidates { library, profile }, FeedAction::Search(genre))
        },
        (
            FeedState::FetchingCandidates { library, profile },
            FeedEvent::CandidatesLoaded(candidates),
        ) => { (FeedState::Ranking { library, profile, candidates }, FeedAction::Continue) },
        (FeedState::FetchingCandidates { library, profile }, FeedEvent::SearchFailed(message)) => {
            published.loading = false;
            (FeedState::Failed(FeedError::SearchProviderError(message)), FeedAction::Nothing)
        },
        (FeedState::Ranking { library, profile, candidates }, FeedEvent::Advance) => {
            let seen = ids_of(&library);
            published.videos = SVD::rank(candidates.as_slice(), &profile, seen.as_slice());
            published.loading = false;
            (FeedState::Ready, FeedAction::Nothing)
        },
        (state, _) => (state, FeedAction::Nothing),
    }
}

/// Where a run stands after a sequence of events, what it asked for last,
/// and what is shown then.
pub open spec fn run(
    state: FeedStateView,
    published: PublishedView,
    events: Seq<FeedEventView>,
) -> Step
    decreases events.len(),
{
    if events.len() == 0 {
        Step { state, action: FeedActionView::Nothing, published }
    } else {
        let before = run(state, published, events.drop_last());
        step_spec(before.state, events.last(), before.published)
    }
}

/// The events of so many probes in a row that find the store not ready,
/// each followed by the end of its pause.
pub open spec fn failed_probes(rounds: nat) -> Seq<FeedEventView> {
    Seq::new(
        2 * rounds,
        |i: int|
            if i % 2 == 0 {
                FeedEventView::StoreNotReady
            } else {
                FeedEventView::DelayElapsed
            },
    )
}

/// The state is one in which a run has ended.
pub open spec fn is_terminal(state: FeedStateView) -> bool {
    state is Ready || state is Empty || state is Failed
}

/// A trigger followed by `rounds` failed probes leaves the run waiting for
/// the next probe while the budget lasts, and failed once it is used up.
/// Nothing that is shown changes but the loading flag, and neither the
/// library nor the catalog is asked for anything.
pub proof fn lemma_failed_probes(state: FeedStateView, published: PublishedView, rounds: nat)
    requires
        rounds <= MAX_STORE_ATTEMPTS,
    ensures
        ({
            let end = run(state, published, seq![FeedEventView::Triggered] + failed_probes(rounds));
            &&& rounds < MAX_STORE_ATTEMPTS ==> end.state == (FeedStateView::WaitingForStore {
                attempt: rounds + 1,
                pausing: false,
            }) && end.action == FeedActionView::ProbeStore && end.published.loading
            &&& rounds == MAX_STORE_ATTEMPTS ==> end.state == FeedStateView::Failed(
                FeedErrorView::StoreUnavailable,
            ) && end.action == FeedActionView::Nothing && !end.published.loading
            &&& end.published.videos == published.videos
            &&& end.published.genre_title == published.genre_title
        }),
        forall|n: int|
            0 <= n <= 1 + 2 * rounds ==> {
                let action = (#[trigger] run(
                    state,
                    published,
                    (seq![FeedEventView::Triggered] + failed_probes(rounds)).take(n),
                )).action;
                !(action is FetchHistory) && !(action is Search)
            },
    decreases rounds,
{
    let start = seq![FeedEventView::Triggered];
    let events = start + failed_probes(rounds);
    if rounds == 0 {
        assert(events.drop_last() =~= Seq::<FeedEventView>::empty());
        assert(run(state, published, events.drop_last()).state == state);
        assert forall|n: int| 0 <= n <= 1 implies {
            let action = (#[trigger] run(state, published, events.take(n))).action;
            !(action is FetchHistory) && !(action is Search)
        } by {
            if n == 0 {
                assert(events.take(0) =~= Seq::<FeedEventView>::empty());
            } else {
                assert(events.take(1) =~= events);
            }
        }
    } else {
        let shorter = start + failed_probes((rounds - 1) as nat);
        lemma_failed_probes(state, published, (rounds - 1) as nat);
        let paused = events.drop_last();
        assert(paused.drop_last() =~= shorter);
        assert forall|n: int| 0 <= n <= 1 + 2 * rounds implies {
            let action = (#[trigger] run(state, published, events.take(n))).action;
            !(action is FetchHistory) && !(action is Search)
        } by {
            if n == 1 + 2 * rounds {
                assert(events.take(n) =~= events);
            } else if n == 2 * rounds {
                assert(events.take(n) =~= paused);
            } else {
                assert(events.take(n) =~= shorter.take(n));
            }
        }
    }
}

/// If the store is not ready at any of the fifteen probes, the run ends
/// failed for want of the store, loading is over, and what was published
/// before is still there.
pub proof fn lemma_store_never_ready(state: FeedStateView, published: PublishedView)
    ensures
        ({
            let end = run(
                state,
                published,
                seq![FeedEventView::Triggered] + failed_probes(MAX_STORE_ATTEMPTS as nat),
            );
            &&& end.state == FeedStateView::Failed(FeedErrorView::StoreUnavailable)
            &&& end.action == FeedActionView::Nothing
            &&& end.published == PublishedView { loading: false, ..published }
        }),
{
    lemma_failed_probes(state, published, MAX_STORE_ATTEMPTS as nat);
}

/// If the library snapshot is empty, the run ends in `Empty`, loading is
/// over, the published result is empty, and at no point of the run was the
/// catalog asked to search.
pub proof fn lemma_empty_library(state: FeedStateView, published: PublishedView, rounds: nat)
    requires
        rounds < MAX_STORE_ATTEMPTS,
    ensures
        ({
            let events = seq![FeedEventView::Triggered] + failed_probes(rounds)
                + seq![
                FeedEventView::StoreReady,
                FeedEventView::HistoryLoaded(Seq::empty()),
            ];
            let end = run(state, published, events);
            &&& end.state == FeedStateView::Empty
            &&& end.action == FeedActionView::Nothing
            &&& end.published == PublishedView {
                videos: Seq::empty(),
                loading: false,
                ..published
            }
            &&& forall|n: int|
                0 <= n <= events.len() ==> !((#[trigger] run(
                    state,
                    published,
                    events.take(n),
                )).action is Search)
        }),
{
    let probing = seq![FeedEventView::Triggered] + failed_probes(rounds);
    let events = probing + seq![
        FeedEventView::StoreReady,
        FeedEventView::HistoryLoaded(Seq::empty()),
    ];
    lemma_failed_probes(state, published, rounds);
    let fetching = events.drop_last();
    assert(fetching.drop_last() =~= probing);
    let waiting = run(state, published, probing);
    let asked = run(state, published, fetching);
    assert(asked == step_spec(waiting.state, FeedEventView::StoreReady, waiting.published));
    let end = run(state, published, events);
    assert(end == step_spec(
        asked.state,
        FeedEventView::HistoryLoaded(Seq::empty()),
        asked.published,
    ));
    assert forall|n: int| 0 <= n <= events.len() implies !((#[trigger] run(
        state,
        published,
        events.take(n),
    )).action is Search) by {
        if n == events.len() {
            assert(events.take(n) =~= events);
        } else if n == events.len() - 1 {
            assert(events.take(n) =~= fetching);
        } else {
            assert(events.take(n) =~= probing.take(n));
        }
    }
}

/// The catalog is asked to search only when a profile has just been built,
/// and a profile is built only from a snapshot that is not empty.
pub proof fn lemma_search_needs_library(
    state: FeedStateView,
    event: FeedEventView,
    published: PublishedView,
)
    ensures
        step_spec(state, event, published).action is Search ==> state is BuildingProfile && event
            == FeedEventView::Advance,
        step_spec(state, event, published).state is BuildingProfile && !(state is BuildingProfile)
            ==> state is FetchingHistory && event is HistoryLoaded && event->HistoryLoaded_0.len()
            > 0,
{
}

/// A run that has ended stays as it is until the next trigger: it asks for
/// nothing and changes nothing that is shown.
pub proof fn lemma_terminal_is_quiet(
    state: FeedStateView,
    event: FeedEventView,
    published: PublishedView,
)
    requires
        is_terminal(state),
        event != FeedEventView::Triggered,
    ensures
        step_spec(state, event, published) == (Step {
            state,
            action: FeedActionView::Nothing,
            published,
        }),
{
}

/// Loading is on exactly between a trigger and the end of the run: a
/// trigger turns it on, a step into a terminal state turns it off, and no
/// other step touches it.
pub proof fn lemma_loading_flag(
    state: FeedStateView,
    event: FeedEventView,
    published: PublishedView,
)
    ensures
        ({
            let next = step_spec(state, event, published);
            if event == FeedEventView::Triggered {
                next.published.loading
            } else if is_terminal(next.state) && !is_terminal(state) {
                !next.published.loading
            } else {
                next.published.loading == published.loading
            }
        }),
{
}

} // verus!
