//! The order of work in one transcription: load the model, create its state,
//! run it over the audio, then fetch the text of every segment in turn. The
//! speech model itself is the caller's: a session says what to do next and is
//! told how it went.

use vstd::prelude::*;
use vstd::string::StringExecFns;
use crate::command::texts;

verus! {

/// The steps of a transcription, in the order they are taken.
#[derive(Clone, Copy, Debug, PartialEq, Eq, Structural)]
pub enum Step {
    /// Taking the model's path as text.
    ModelPath,
    /// Loading the model from its file.
    LoadModel,
    /// Creating the state that a run works in.
    CreateState,
    /// Running the model over the audio.
    RunModel,
    /// Asking how many segments the run found.
    CountSegments,
    /// Fetching the text of one segment.
    SegmentText,
}

impl Step {
    /// What is said of a failure at this step. The words for the model's
    /// path come before the path itself, which the caller adds.
    pub open spec fn text(self) -> Seq<char> {
        match self {
            Step::ModelPath => "Failed to convert model path to &str"@,
            Step::LoadModel => "failed to load model"@,
            Step::CreateState => "failed to create state"@,
            Step::RunModel => "failed to run model"@,
            Step::CountSegments => "failed to get number of segments"@,
            Step::SegmentText => "failed to get segment"@,
        }
    }
}

/// What is said of a failure at `step`.
pub fn message(step: Step) -> (r: String)
    ensures
        r@ == step.text(),
{
    match step {
        Step::ModelPath => "Failed to convert model path to &str".to_owned(),
        Step::LoadModel => "failed to load model".to_owned(),
        Step::CreateState => "failed to create state".to_owned(),
        Step::RunModel => "failed to run model".to_owned(),
        Step::CountSegments => "failed to get number of segments".to_owned(),
        Step::SegmentText => "failed to get segment".to_owned(),
    }
}

/// What the caller is asked to do next.
#[derive(Debug, PartialEq, Eq)]
pub enum Action {
    /// Load the model from the file at this path.
    LoadModel(String),
    /// Create a state for the loaded model.
    CreateState,
    /// Run the model over the audio, with greedy sampling that keeps the
    /// best of this many candidates.
    RunModel { best_of: i32 },
    /// Report the number of segments that the run found.
    CountSegments,
    /// Report the text of the segment with this index.
    SegmentText(i32),
    /// Nothing more: the session is over.
    Stop,
}

/// How the action that was asked for went.
#[derive(Debug, PartialEq, Eq)]
pub enum Event {
    /// The action succeeded and has nothing to report.
    Done,
    /// The number of segments.
    Count(i32),
    /// The text of the segment that was asked for.
    Text(String),
    /// The action failed.
    Failed,
}

/// An [`Action`] as a plain value.
pub enum ActionView {
    LoadModel(Seq<char>),
    CreateState,
    RunModel { best_of: int },
    CountSegments,
    SegmentText(int),
    Stop,
}

/// An [`Event`] as a plain value.
pub enum EventView {
    Done,
    Count(int),
    Text(Seq<char>),
    Failed,
}

/// A [`Session`] as a plain value.
pub enum Progress {
    /// `step` is under way. While segments are fetched, `total` is their
    /// number and `texts` holds the ones fetched so far.
    Pending { step: Step, total: int, texts: Seq<Seq<char>> },
    /// Every segment was fetched.
    Finished { texts: Seq<Seq<char>> },
    /// `step` failed, and nothing was done after it.
    Failed { step: Step },
}

impl View for Action {
    type V = ActionView;

    open spec fn view(&self) -> ActionView {
        match self {
            Action::LoadModel(path) => ActionView::LoadModel(path@),
            Action::CreateState => ActionView::CreateState,
            Action::RunModel { best_of } => ActionView::RunModel { best_of: *best_of as int },
            Action::CountSegments => ActionView::CountSegments,
            Action::SegmentText(index) => ActionView::SegmentText(*index as int),
            Action::Stop => ActionView::Stop,
        }
    }
}

impl View for Event {
    type V = EventView;

    open spec fn view(&self) -> EventView {
        match self {
            Event::Done => EventView::Done,
            Event::Count(n) => EventView::Count(*n as int),
            Event::Text(text) => EventView::Text(text@),
            Event::Failed => EventView::Failed,
        }
    }
}

/// The number of candidates that greedy sampling keeps.
pub const BEST_OF: i32 = 1;

/// Where a session starts: with a model path that is text, the model is
/// loaded from it; without, the session has failed before anything was done.
pub open spec fn start(model_path: Option<Seq<char>>) -> (Progress, ActionView) {
    match model_path {
        Some(path) => (
            Progress::Pending { step: Step::LoadModel, total: 0, texts: Seq::empty() },
            ActionView::LoadModel(path),
        ),
        None => (Progress::Failed { step: Step::ModelPath }, ActionView::Stop),
    }
}

/// Where a session goes on an event, and what it asks for next. Each step
/// goes on to the next when it reports what it was asked for, and fails on
/// anything else; segments are asked for by index, from 0 up to the count;
/// a session that is over stays as it is.
pub open spec fn transition(progress: Progress, event: EventView) -> (Progress, ActionView) {
    match progress {
        Progress::Pending { step, total, texts } => match (step, event) {
            (Step::LoadModel, EventView::Done) => (
                Progress::Pending { step: Step::CreateState, total, texts },
                ActionView::CreateState,
            ),
            (Step::CreateState, EventView::Done) => (
                Progress::Pending { step: Step::RunModel, total, texts },
                ActionView::RunModel { best_of: BEST_OF as int },
            ),
            (Step::RunModel, EventView::Done) => (
                Progress::Pending { step: Step::CountSegments, total, texts },
                ActionView::CountSegments,
            ),
            (Step::CountSegments, EventView::Count(n)) => if n <= 0 {
                (Progress::Finished { texts: Seq::empty() }, ActionView::Stop)
            } else {
                (
                    Progress::Pending { step: Step::SegmentText, total: n, texts: Seq::empty() },
                    ActionView::SegmentText(0),
                )
            },
            (Step::SegmentText, EventView::Text(text)) => if texts.len() + 1 >= total {
                (Progress::Finished { texts: texts.push(text) }, ActionView::Stop)
            } else {
                (
                    Progress::Pending { step, total, texts: texts.push(text) },
                    ActionView::SegmentText(texts.len() as int + 1),
                )
            },
            _ => (Progress::Failed { step }, ActionView::Stop),
        },
        _ => (progress, ActionView::Stop),
    }
}

/// Where a session is after a run of events.
pub open spec fn run(progress: Progress, events: Seq<EventView>) -> Progress
    decreases events.len(),
{
    if events.len() == 0 {
        progress
    } else {
        transition(run(progress, events.drop_last()), events.last()).0
    }
}

/// The reports of a transcription in which every step succeeds and the run
/// finds the segments `list`.
pub open spec fn success(list: Seq<Seq<char>>) -> Seq<EventView> {
    seq![EventView::Done, EventView::Done, EventView::Done, EventView::Count(list.len() as int)]
        + list.map_values(|text: Seq<char>| EventView::Text(text))
}

/// In a transcription in which every step succeeds, the session that has
/// loaded the model, created its state and run it is waiting for the number
/// of segments.
proof fn lemma_reaches_the_count(path: Seq<char>, list: Seq<Seq<char>>)
    ensures
        run(start(Some(path)).0, success(list).take(3)) == (Progress::Pending {
            step: Step::CountSegments,
            total: 0,
            texts: Seq::empty(),
        }),
{
    let events = success(list);
    let begun = start(Some(path)).0;
    assert(events.take(3).drop_last() =~= events.take(2));
    assert(events.take(2).drop_last() =~= events.take(1));
    assert(events.take(1).drop_last() =~= events.take(0));
    assert(run(begun, events.take(0)) == begun);
    assert(run(begun, events.take(1)) == transition(begun, events[0]).0);
    assert(run(begun, events.take(2)) == transition(run(begun, events.take(1)), events[1]).0);
}

/// In a transcription in which every step succeeds, the session that has been
/// given the first `k` of the segments `list`, with more to come, holds these
/// `k` in order and has asked for the segment with index `k`.
pub proof fn lemma_fetches_in_order(path: Seq<char>, list: Seq<Seq<char>>, k: int)
    requires
        0 <= k < list.len(),
    ensures
        run(start(Some(path)).0, success(list).take(4 + k)) == (Progress::Pending {
            step: Step::SegmentText,
            total: list.len() as int,
            texts: list.take(k),
        }),
        transition(
            run(start(Some(path)).0, success(list).take(3 + k)),
            success(list)[3 + k],
        ).1 == ActionView::SegmentText(k),
    decreases k,
{
    let events = success(list);
    assert(events.take(4 + k).drop_last() =~= events.take(3 + k));
    assert(events.take(4 + k).last() == events[3 + k]);
    if k == 0 {
        lemma_reaches_the_count(path, list);
        assert(list.take(0) =~= Seq::<Seq<char>>::empty());
    } else {
        lemma_fetches_in_order(path, list, k - 1);
        assert(events[3 + k] == EventView::Text(list[k - 1]));
        assert(list.take(k - 1).push(list[k - 1]) =~= list.take(k));
    }
}

/// A transcription in which every step succeeds ends with the text of every
/// segment, in the order of the segments.
pub proof fn lemma_collects_in_order(path: Seq<char>, list: Seq<Seq<char>>)
    ensures
        run(start(Some(path)).0, success(list)) == (Progress::Finished { texts: list }),
{
    let events = success(list);
    let n = list.len() as int;
    assert(events.take(4 + n) =~= events);
    assert(events.drop_last() =~= events.take(3 + n));
    if n == 0 {
        lemma_reaches_the_count(path, list);
        assert(list =~= Seq::<Seq<char>>::empty());
    } else {
        lemma_fetches_in_order(path, list, n - 1);
        assert(events.last() == EventView::Text(list[n - 1]));
        assert(list.take(n - 1).push(list[n - 1]) =~= list);
    }
}

/// A session that is over, finished or failed, stays as it is whatever it is
/// told.
pub proof fn lemma_over_stays_over(progress: Progress, events: Seq<EventView>)
    requires
        !(progress is Pending),
    ensures
        run(progress, events) == progress,
    decreases events.len(),
{
    if events.len() > 0 {
        lemma_over_stays_over(progress, events.drop_last());
    }
}

/// A step that does not report what it was asked for fails the session at
/// that step.
pub proof fn lemma_failure_stops(step: Step, total: int, texts: Seq<Seq<char>>)
    ensures
        transition(Progress::Pending { step, total, texts }, EventView::Failed) == (
            Progress::Failed { step },
            ActionView::Stop,
        ),
{
}

enum Phase {
    Pending(Step),
    Finished,
    Failed(Step),
}

/// One transcription, from the model's path to the text of its segments.
pub struct Session {
    phase: Phase,
    total: i32,
    texts: Vec<String>,
}

impl View for Session {
    type V = Progress;

    closed spec fn view(&self) -> Progress {
        match self.phase {
            Phase::Pending(step) => Progress::Pending {
                step,
                total: self.total as int,
                texts: texts(self.texts@),
            },
            Phase::Finished => Progress::Finished { texts: texts(self.texts@) },
            Phase::Failed(step) => Progress::Failed { step },
        }
    }
}

impl Session {
    #[verifier::type_invariant]
    spec fn inv(self) -> bool {
        self.phase matches Phase::Pending(Step::SegmentText) ==> self.texts@.len() < self.total
    }

    /// Starts a session for the model at `model_path`, which is `None` where
    /// the path is not UTF-8.
    pub fn begin(model_path: Option<&str>) -> (r: (Session, Action))
        ensures
            (r.0@, r.1@) == start(
                match model_path {
                    Some(path) => Some(path@),
                    None => None,
                },
            ),
    {
        assert(texts(Seq::<String>::empty()) =~= Seq::<Seq<char>>::empty());
        match model_path {
            Some(path) => (
                Session { phase: Phase::Pending(Step::LoadModel), total: 0, texts: Vec::new() },
                Action::LoadModel(path.to_owned()),
            ),
            None => (
                Session { phase: Phase::Failed(Step::ModelPath), total: 0, texts: Vec::new() },
                Action::Stop,
            ),
        }
    }

    /// Takes the report on the action that was asked for last, and asks for
    /// the next.
    pub fn advance(self, event: Event) -> (r: (Session, Action))
        ensures
            (r.0@, r.1@) == transition(self@, event@),
    {
        proof {
            use_type_invariant(&self);
            assert(texts(Seq::<String>::empty()) =~= Seq::<Seq<char>>::empty());
        }
        let Session { phase, total, texts: mut fetched } = self;
        match phase {
            Phase::Pending(step) => match (step, event) {
                (Step::LoadModel, Event::Done) => (
                    Session { phase: Phase::Pending(Step::CreateState), total, texts: fetched },
                    Action::CreateState,
                ),
                (Step::CreateState, Event::Done) => (
                    Session { phase: Phase::Pending(Step::RunModel), total, texts: fetched },
                    Action::RunModel { best_of: BEST_OF },
                ),
                (Step::RunModel, Event::Done) => (
                    Session { phase: Phase::Pending(Step::CountSegments), total, texts: fetched },
                    Action::CountSegments,
                ),
                (Step::CountSegments, Event::Count(n)) => {
                    if n <= 0 {
                        (
                            Session { phase: Phase::Finished, total: 0, texts: Vec::new() },
                            Action::Stop,
                        )
                    } else {
                        (
                            Session {
                                phase: Phase::Pending(Step::SegmentText),
                                total: n,
                                texts: Vec::new(),
                            },
                            Action::SegmentText(0),
                        )
                    }
                },
                (Step::SegmentText, Event::Text(text)) => {
                    let ghost before = fetched@;
                    fetched.push(text);
                    assert(texts(fetched@) =~= texts(before).push(text@));
                    let count = fetched.len();
                    if count >= total as usize {
                        (Session { phase: Phase::Finished, total, texts: fetched }, Action::Stop)
                    } else {
                        (
                            Session { phase: Phase::Pending(step), total, texts: fetched },
                            Action::SegmentText(count as i32),
                        )
                    }
                },
                (step, _) => (
                    Session { phase: Phase::Failed(step), total, texts: fetched },
                    Action::Stop,
                ),
            },
            Phase::Finished => (Session { phase: Phase::Finished, total, texts: fetched }, Action::Stop),
            Phase::Failed(step) => (
                Session { phase: Phase::Failed(step), total, texts: fetched },
                Action::Stop,
            ),
        }
    }

    /// The outcome of the session: the text of every segment in order where
    /// all of them were fetched, else the step that failed or, if the session
    /// was left before its end, the step that was under way.
    pub fn finish(self) -> (r: Result<Vec<String>, Step>)
        ensures
            match self@ {
                Progress::Finished { texts: all } => r matches Ok(list) && texts(list@) == all,
                Progress::Pending { step, .. } => r == Err::<Vec<String>, Step>(step),
                Progress::Failed { step } => r == Err::<Vec<String>, Step>(step),
            },
    {
        match self.phase {
            Phase::Finished => Ok(self.texts),
            Phase::Pending(step) => Err(step),
            Phase::Failed(step) => Err(step),
        }
    }
}

/// The text that is written out for a list of segments: every segment on a
/// line of its own, in order.
pub open spec fn lines(segments: Seq<Seq<char>>) -> Seq<char>
    decreases segments.len(),
{
    if segments.len() == 0 {
        Seq::empty()
    } else {
        lines(segments.drop_last()) + segments.last() + seq!['\n']
    }
}

/// The text that is written out for the segments of a finished session.
pub fn transcript(segments: &Vec<String>) -> (r: String)
    ensures
        r@ == lines(texts(segments@)),
{
    let mut out = String::new();
    let mut i: usize = 0;
    while i < segments.len()
        invariant
            i <= segments.len(),
            out@ == lines(texts(segments@).take(i as int)),
        decreases segments.len() - i,
    {
        let ghost before = out@;
        out.append(segments[i].as_str());
        out.append("\n");
        proof {
            reveal_strlit("\n");
            let upto = texts(segments@).take(i as int + 1);
            assert(upto.drop_last() =~= texts(segments@).take(i as int));
            assert(upto.last() == segments@[i as int]@);
            assert("\n"@ =~= seq!['\n']);
            assert(out@ =~= before + segments@[i as int]@ + seq!['\n']);
        }
        i += 1;
    }
    assert(texts(segments@).take(segments@.len() as int) =~= texts(segments@));
    out
}

} // verus!
