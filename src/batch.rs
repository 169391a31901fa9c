//! The patch batch: a state machine that applies patches one after another
//! and stops at the first failure. The caller performs each action it hands
//! out (reading a patch, probing paths, running the patch tool) and answers
//! with the matching event.
use vstd::prelude::*;
use crate::paths::{join_path, path_join, texts};
use crate::strip::{chosen_level, candidates_of, guess_strip_level, strip_candidates, views, Candidate};

verus! {

/// Why a batch failed.
pub enum PatchError {
    /// Reading a patch file, or starting the patch tool, failed.
    Io(String),
    /// The patch tool could not be found.
    ToolUnavailable,
    /// The patch tool reported failure on the patch at this path.
    PatchFailed(String),
}

/// The model of a `PatchError`: its text as a sequence of characters.
pub enum PatchErrorView {
    Io(Seq<char>),
    ToolUnavailable,
    PatchFailed(Seq<char>),
}

impl View for PatchError {
    type V = PatchErrorView;

    open spec fn view(&self) -> PatchErrorView {
        match self {
            PatchError::Io(m) => PatchErrorView::Io(m@),
            PatchError::ToolUnavailable => PatchErrorView::ToolUnavailable,
            PatchError::PatchFailed(p) => PatchErrorView::PatchFailed(p@),
        }
    }
}

impl PatchError {
    /// A copy of this error.
    pub fn duplicate(&self) -> (r: PatchError)
        ensures
            r@ == self@,
    {
        match self {
            PatchError::Io(m) => PatchError::Io(m.clone()),
            PatchError::ToolUnavailable => PatchError::ToolUnavailable,
            PatchError::PatchFailed(p) => PatchError::PatchFailed(p.clone()),
        }
    }
}

/// The view of a batch outcome.
pub open spec fn outcome_view(r: Result<(), PatchError>) -> Result<(), PatchErrorView> {
    match r {
        Ok(()) => Ok(()),
        Err(e) => Err(e@),
    }
}

/// What the caller reports back after performing an action.
pub enum Event {
    /// The patch file was read: the old paths of its file records, in order,
    /// or `None` where its text does not parse as a multi-file patch.
    Parsed(Option<Vec<String>>),
    /// Reading the patch file failed, with this message.
    ReadFailed(String),
    /// For each probed path, in order, whether it exists.
    Probed(Vec<bool>),
    /// The patch tool could not be found.
    ToolMissing,
    /// The patch tool could not be started, with this message.
    ToolError(String),
    /// The patch tool ran; whether its exit status was success.
    ToolExited(bool),
}

/// The model of an `Event`.
pub enum EventView {
    Parsed(Option<Seq<Seq<char>>>),
    ReadFailed(Seq<char>),
    Probed(Seq<bool>),
    ToolMissing,
    ToolError(Seq<char>),
    ToolExited(bool),
}

impl View for Event {
    type V = EventView;

    open spec fn view(&self) -> EventView {
        match self {
            Event::Parsed(Some(p)) => EventView::Parsed(Some(texts(p@))),
            Event::Parsed(None) => EventView::Parsed(None),
            Event::ReadFailed(m) => EventView::ReadFailed(m@),
            Event::Probed(e) => EventView::Probed(e@),
            Event::ToolMissing => EventView::ToolMissing,
            Event::ToolError(m) => EventView::ToolError(m@),
            Event::ToolExited(ok) => EventView::ToolExited(*ok),
        }
    }
}

/// What the caller is asked to do next.
pub enum Action {
    /// Read the patch file at `path` and parse it.
    ReadPatch { path: String },
    /// Tell which of these paths exist.
    ProbePaths { paths: Vec<String> },
    /// Find the patch tool and run it on `patch` in `work_dir`, stripping
    /// `strip_level` leading components of the recorded paths.
    RunTool { strip_level: usize, patch: String, work_dir: String },
    /// The batch is over, with this outcome.
    Finish(Result<(), PatchError>),
}

/// The model of an `Action`.
pub enum ActionView {
    ReadPatch { path: Seq<char> },
    ProbePaths { paths: Seq<Seq<char>> },
    RunTool { strip_level: nat, patch: Seq<char>, work_dir: Seq<char> },
    Finish(Result<(), PatchErrorView>),
}

impl View for Action {
    type V = ActionView;

    open spec fn view(&self) -> ActionView {
        match self {
            Action::ReadPatch { path } => ActionView::ReadPatch { path: path@ },
            Action::ProbePaths { paths } => ActionView::ProbePaths { paths: texts(paths@) },
            Action::RunTool { strip_level, patch, work_dir } => ActionView::RunTool {
                strip_level: *strip_level as nat,
                patch: patch@,
                work_dir: work_dir@,
            },
            Action::Finish(r) => ActionView::Finish(outcome_view(*r)),
        }
    }
}

/// Where the current patch stands.
pub enum Stage {
    /// Its text is awaited.
    Reading,
    /// Its paths are being probed with these candidates.
    Probing(Vec<Candidate>),
    /// The patch tool is to run on it with this strip level.
    Running(usize),
    /// The batch is over.
    Done(Result<(), PatchError>),
}

/// The model of a `Stage`.
pub enum StageView {
    Reading,
    Probing(Seq<(nat, Seq<char>)>),
    Running(nat),
    Done(Result<(), PatchErrorView>),
}

impl View for Stage {
    type V = StageView;

    open spec fn view(&self) -> StageView {
        match self {
            Stage::Reading => StageView::Reading,
            Stage::Probing(c) => StageView::Probing(views(c@)),
            Stage::Running(l) => StageView::Running(*l as nat),
            Stage::Done(r) => StageView::Done(outcome_view(*r)),
        }
    }
}

/// The model of a batch: the resolved patch paths, the working directory, the
/// index of the current patch and where it stands.
pub struct BatchView {
    pub patches: Seq<Seq<char>>,
    pub work_dir: Seq<char>,
    pub current: nat,
    pub stage: StageView,
}

/// A batch of patches being applied in order.
pub struct PatchBatch {
    patches: Vec<String>,
    work_dir: String,
    current: usize,
    stage: Stage,
}

impl View for PatchBatch {
    type V = BatchView;

    closed spec fn view(&self) -> BatchView {
        BatchView {
            patches: texts(self.patches@),
            work_dir: self.work_dir@,
            current: self.current as nat,
            stage: self.stage@,
        }
    }
}

/// A batch that is not over is at one of its patches.
pub open spec fn valid(s: BatchView) -> bool {
    !(s.stage is Done) ==> s.current < s.patches.len()
}

/// The batch at its start: each patch resolved against `base_dir`, the first
/// one to be read, or the batch over with success where there is none.
pub open spec fn initial(patches: Seq<Seq<char>>, work_dir: Seq<char>, base_dir: Seq<char>) -> BatchView {
    BatchView {
        patches: Seq::new(patches.len(), |i: int| path_join(base_dir, patches[i])),
        work_dir,
        current: 0,
        stage: if patches.len() == 0 { StageView::Done(Ok(())) } else { StageView::Reading },
    }
}

/// The action that a batch asks for.
pub open spec fn pending(s: BatchView) -> ActionView {
    match s.stage {
        StageView::Reading => ActionView::ReadPatch { path: s.patches[s.current as int] },
        StageView::Probing(c) => ActionView::ProbePaths { paths: c.map_values(|x: (nat, Seq<char>)| x.1) },
        StageView::Running(l) => ActionView::RunTool {
            strip_level: l,
            patch: s.patches[s.current as int],
            work_dir: s.work_dir,
        },
        StageView::Done(r) => ActionView::Finish(r),
    }
}

/// The stage that follows `stage` on event `e`. An event that does not answer
/// the pending action leaves the stage as it is.
pub open spec fn next_stage(s: BatchView, e: EventView) -> StageView {
    match (s.stage, e) {
        (StageView::Reading, EventView::Parsed(Some(p))) => StageView::Probing(candidates_of(s.work_dir, p)),
        (StageView::Reading, EventView::Parsed(None)) => StageView::Running(1),
        (StageView::Reading, EventView::ReadFailed(m)) => StageView::Done(Err(PatchErrorView::Io(m))),
        (StageView::Probing(c), EventView::Probed(x)) => StageView::Running(chosen_level(c, x)),
        (StageView::Running(_), EventView::ToolMissing) => StageView::Done(Err(PatchErrorView::ToolUnavailable)),
        (StageView::Running(_), EventView::ToolError(m)) => StageView::Done(Err(PatchErrorView::Io(m))),
        (StageView::Running(_), EventView::ToolExited(true)) => if s.current + 1 < s.patches.len() {
            StageView::Reading
        } else {
            StageView::Done(Ok(()))
        },
        (StageView::Running(_), EventView::ToolExited(false)) => StageView::Done(
            Err(PatchErrorView::PatchFailed(s.patches[s.current as int])),
        ),
        _ => s.stage,
    }
}

/// The batch after event `e`: the next patch becomes current when the tool has
/// applied the current one and another remains.
pub open spec fn transition(s: BatchView, e: EventView) -> BatchView {
    let advance = s.stage is Running && e == EventView::ToolExited(true) && s.current + 1 < s.patches.len();
    BatchView {
        current: if advance { s.current + 1 } else { s.current },
        stage: next_stage(s, e),
        ..s
    }
}

/// Starts applying `patches`, each a path relative to `base_dir`, to
/// `work_dir`: gives back the batch and the first action it asks for.
pub fn apply_patches(patches: &Vec<String>, work_dir: &str, base_dir: &str) -> (r: (PatchBatch, Action))
    ensures
        r.0.wf(),
        r.0@ == initial(texts(patches@), work_dir@, base_dir@),
        r.1@ == pending(r.0@),
{
    let mut resolved: Vec<String> = Vec::new();
    let mut i: usize = 0;
    while i < patches.len()
        invariant
            i <= patches.len(),
            texts(resolved@) == Seq::new(i as nat, |j: int| path_join(base_dir@, patches@[j]@)),
        decreases patches.len() - i,
    {
        let p = join_path(base_dir, patches[i].as_str());
        let ghost prev = resolved@;
        resolved.push(p);
        assert(texts(resolved@) =~= texts(prev).push(resolved@[i as int]@));
        assert(texts(resolved@) =~= Seq::new((i + 1) as nat, |j: int| path_join(base_dir@, patches@[j]@)));
        i = i + 1;
    }
    let stage = if patches.len() == 0 { Stage::Done(Ok(())) } else { Stage::Reading };
    let batch = PatchBatch { patches: resolved, work_dir: work_dir.to_owned(), current: 0, stage };
    assert(batch@.patches =~= initial(texts(patches@), work_dir@, base_dir@).patches);
    let action = batch.pending_action();
    (batch, action)
}

impl PatchBatch {
    /// The batch is consistent with its model.
    pub open spec fn wf(&self) -> bool {
        valid(self@)
    }

    /// The action that the batch asks for.
    pub fn pending_action(&self) -> (r: Action)
        requires
            self.wf(),
        ensures
            r@ == pending(self@),
    {
        match &self.stage {
            Stage::Reading => Action::ReadPatch { path: self.patches[self.current].clone() },
            Stage::Probing(c) => {
                let mut paths: Vec<String> = Vec::new();
                let mut i: usize = 0;
                while i < c.len()
                    invariant
                        i <= c.len(),
                        texts(paths@) == views(c@).take(i as int).map_values(|x: (nat, Seq<char>)| x.1),
                    decreases c.len() - i,
                {
                    let ghost prev = paths@;
                    paths.push(c[i].path.clone());
                    assert(texts(paths@) =~= texts(prev).push(paths@[i as int]@));
                    assert(views(c@).take(i + 1) =~= views(c@).take(i as int).push(views(c@)[i as int]));
                    assert(texts(paths@) =~= views(c@).take(i + 1).map_values(|x: (nat, Seq<char>)| x.1));
                    i = i + 1;
                }
                assert(views(c@).take(c.len() as int) =~= views(c@));
                Action::ProbePaths { paths }
            },
            Stage::Running(l) => Action::RunTool {
                strip_level: *l,
                patch: self.patches[self.current].clone(),
                work_dir: self.work_dir.clone(),
            },
            Stage::Done(Ok(())) => Action::Finish(Ok(())),
            Stage::Done(Err(e)) => Action::Finish(Err(e.duplicate())),
        }
    }

    /// Takes in the answer to the pending action and gives back the next one.
    pub fn step(&mut self, event: Event) -> (r: Action)
        requires
            old(self).wf(),
        ensures
            final(self).wf(),
            final(self)@ == transition(old(self)@, event@),
            r@ == pending(final(self)@),
    {
        proof {
            assert(!(self.stage is Done) ==> self.current < self.patches.len());
        }
        let next: Option<Stage> = match &self.stage {
            Stage::Reading => match event {
                Event::Parsed(Some(p)) => Some(Stage::Probing(strip_candidates(&p, self.work_dir.as_str()))),
                Event::Parsed(None) => Some(Stage::Running(1)),
                Event::ReadFailed(m) => Some(Stage::Done(Err(PatchError::Io(m)))),
                _ => None,
            },
            Stage::Probing(c) => match event {
                Event::Probed(x) => Some(Stage::Running(guess_strip_level(c, &x))),
                _ => None,
            },
            Stage::Running(_) => match event {
                Event::ToolMissing => Some(Stage::Done(Err(PatchError::ToolUnavailable))),
                Event::ToolError(m) => Some(Stage::Done(Err(PatchError::Io(m)))),
                Event::ToolExited(true) => if self.current + 1 < self.patches.len() {
                    self.current = self.current + 1;
                    Some(Stage::Reading)
                } else {
                    Some(Stage::Done(Ok(())))
                },
                Event::ToolExited(false) => Some(
                    Stage::Done(Err(PatchError::PatchFailed(self.patches[self.current].clone()))),
                ),
                _ => None,
            },
            Stage::Done(_) => None,
        };
        if let Some(s) = next {
            self.stage = s;
        }
        self.pending_action()
    }
}

} // verus!
