//! Phases and the immutable cycle they form.
use vstd::prelude::*;

verus! {

/// Whether a phase is spent working or resting.
#[derive(Clone, Copy, Debug, PartialEq, Eq, Structural)]
pub enum PhaseKind {
    Focus,
    Break,
}

/// One labelled segment of the cycle, with its allotted time in milliseconds.
#[derive(Clone, Debug)]
pub struct Phase {
    pub label: String,
    pub kind: PhaseKind,
    pub nominal_duration: u64,
}

/// Minutes to milliseconds.
pub const MS_PER_MINUTE: u64 = 60000;

impl Phase {
    pub fn new(label: &str, kind: PhaseKind, nominal_duration: u64) -> (r: Phase)
        ensures
            r.label@ == label@,
            r.kind == kind,
            r.nominal_duration == nominal_duration,
    {
        Phase { label: label.to_owned(), kind, nominal_duration }
    }
}

/// A non-empty ordered sequence of phases, walked cyclically.
pub struct PhaseCycle {
    phases: Vec<Phase>,
}

/// Index of the phase that follows `index` in a cycle of `len` phases.
pub open spec fn next_index(index: int, len: int) -> int {
    (index + 1) % len
}

/// Whether advancing from `index` passes the end of a cycle of `len` phases.
pub open spec fn wraps(index: int, len: int) -> bool {
    index + 1 == len
}

impl PhaseCycle {
    pub closed spec fn view(&self) -> Seq<Phase> {
        self.phases@
    }

    pub open spec fn wf(&self) -> bool {
        self@.len() > 0
    }

    pub open spec fn spec_len(&self) -> int {
        self@.len() as int
    }

    /// Kind of the phase at `index`, taken modulo the length.
    pub open spec fn kind_at(&self, index: int) -> PhaseKind {
        self@[index % self.spec_len()].kind
    }

    /// Allotted milliseconds of the phase at `index`, taken modulo the length.
    pub open spec fn duration_at(&self, index: int) -> int {
        self@[index % self.spec_len()].nominal_duration as int
    }

    /// Builds a cycle; an empty sequence is a configuration error.
    pub fn new(phases: Vec<Phase>) -> (r: Option<PhaseCycle>)
        ensures
            phases@.len() == 0 <==> r.is_none(),
            r matches Some(c) ==> c@ == phases@ && c.wf(),
    {
        if phases.len() == 0 {
            None
        } else {
            Some(PhaseCycle { phases })
        }
    }

    /// The classic cycle: three focus intervals of 30 minutes separated by
    /// two 10-minute short breaks, closed by a 30-minute long break.
    pub fn standard() -> (r: PhaseCycle)
        ensures
            r.wf(),
            r@.len() == 6,
            forall|i: int| 0 <= i < 6 ==> (#[trigger] r@[i]).kind == (if i % 2 == 0 {
                PhaseKind::Focus
            } else {
                PhaseKind::Break
            }),
            r@[0].nominal_duration == 30 * MS_PER_MINUTE,
            r@[1].nominal_duration == 10 * MS_PER_MINUTE,
            r@[2].nominal_duration == 30 * MS_PER_MINUTE,
            r@[3].nominal_duration == 10 * MS_PER_MINUTE,
            r@[4].nominal_duration == 30 * MS_PER_MINUTE,
            r@[5].nominal_duration == 30 * MS_PER_MINUTE,
    {
        let mut phases: Vec<Phase> = Vec::new();
        phases.push(Phase::new("Focus", PhaseKind::Focus, 30 * MS_PER_MINUTE));
        phases.push(Phase::new("Short Break", PhaseKind::Break, 10 * MS_PER_MINUTE));
        phases.push(Phase::new("Focus", PhaseKind::Focus, 30 * MS_PER_MINUTE));
        phases.push(Phase::new("Short Break", PhaseKind::Break, 10 * MS_PER_MINUTE));
        phases.push(Phase::new("Focus", PhaseKind::Focus, 30 * MS_PER_MINUTE));
        phases.push(Phase::new("Long Break", PhaseKind::Break, 30 * MS_PER_MINUTE));
        PhaseCycle { phases }
    }

    pub fn len(&self) -> (r: usize)
        ensures
            r == self@.len(),
    {
        self.phases.len()
    }

    /// The phase at `index` modulo the length.
    pub fn current(&self, index: usize) -> (r: &Phase)
        requires
            self.wf(),
        ensures
            *r == self@[(index as int) % self.spec_len()],
    {
        &self.phases[index % self.phases.len()]
    }

    /// The index after `index` modulo the length, and whether the step
    /// wrapped past the last phase back to the first.
    pub fn advance(&self, index: usize) -> (r: (usize, bool))
        requires
            self.wf(),
            index < self@.len(),
        ensures
            r.0 == next_index(index as int, self.spec_len()),
            r.1 == wraps(index as int, self.spec_len()),
            r.0 < self@.len(),
            r.1 <==> r.0 == 0,
    {
        let n = self.phases.len();
        let next = index + 1;
        if next == n {
            assert(next_index(index as int, n as int) == 0) by {
                vstd::arithmetic::div_mod::lemma_mod_self_0(n as int);
            }
            (0, true)
        } else {
            assert(next_index(index as int, n as int) == next) by {
                vstd::arithmetic::div_mod::lemma_small_mod(next as nat, n as nat);
            }
            (next, false)
        }
    }
}

} // verus!
