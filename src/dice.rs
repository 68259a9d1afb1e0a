//! Sources of the random draws a battle needs: percent rolls for hit chances
//! and variance multipliers for damage and healing.
use vstd::prelude::*;
use rand::Rng;

verus! {

/// Smallest variance multiplier, in thousandths (1.0).
pub const VARIANCE_MIN: u32 = 1000;

/// Largest variance multiplier, in thousandths (1.2).
pub const VARIANCE_MAX: u32 = 1200;

/// A source of random draws. The counts of draws made are part of its
/// contract, so that callers can state which draws a computation asks for.
pub trait Dice {
    /// Whether the source can keep drawing.
    spec fn wf(&self) -> bool;

    /// How many percent rolls were made so far.
    spec fn percent_rolls(&self) -> nat;

    /// How many variance draws were made so far.
    spec fn variance_rolls(&self) -> nat;

    /// A uniform integer in `0..100`.
    fn roll_percent(&mut self) -> (r: u32)
        requires
            old(self).wf(),
        ensures
            r < 100,
            final(self).wf(),
            final(self).percent_rolls() == old(self).percent_rolls() + 1,
            final(self).variance_rolls() == old(self).variance_rolls(),
    ;

    /// A variance multiplier in `VARIANCE_MIN..=VARIANCE_MAX`.
    fn roll_variance(&mut self) -> (r: u32)
        requires
            old(self).wf(),
        ensures
            VARIANCE_MIN <= r <= VARIANCE_MAX,
            final(self).wf(),
            final(self).percent_rolls() == old(self).percent_rolls(),
            final(self).variance_rolls() == old(self).variance_rolls() + 1,
    ;
}

/// Relies on rand's `thread_rng` and `Rng::gen_range` over an inclusive
/// range: the draw lies between the two bounds (gen_range panics only on an
/// empty range, which `requires` leaves out).
#[verifier::external_body]
fn draw_between(low: u32, high: u32) -> (r: u32)
    requires
        low <= high,
    ensures
        low <= r <= high,
{
    rand::thread_rng().gen_range(low..=high)
}

/// Draws from the thread-local generator of the process.
pub struct ThreadDice {
    percents: Ghost<nat>,
    variances: Ghost<nat>,
}

impl ThreadDice {
    pub fn new() -> (r: ThreadDice)
        ensures
            r.wf(),
            r.percent_rolls() == 0,
            r.variance_rolls() == 0,
    {
        ThreadDice { percents: Ghost(0), variances: Ghost(0) }
    }
}

impl Dice for ThreadDice {
    open spec fn wf(&self) -> bool {
        true
    }

    closed spec fn percent_rolls(&self) -> nat {
        self.percents@
    }

    closed spec fn variance_rolls(&self) -> nat {
        self.variances@
    }

    fn roll_percent(&mut self) -> (r: u32) {
        let r = draw_between(0, 99);
        self.percents = Ghost(self.percents@ + 1);
        r
    }

    fn roll_variance(&mut self) -> (r: u32) {
        let r = draw_between(VARIANCE_MIN, VARIANCE_MAX);
        self.variances = Ghost(self.variances@ + 1);
        r
    }
}

/// Replays fixed draws, from the start again once a list is used up, and
/// counts the draws made.
pub struct ScriptedDice {
    percents: Vec<u32>,
    variances: Vec<u32>,
    next_percent: usize,
    next_variance: usize,
    percent_calls: usize,
    variance_calls: usize,
    percent_count: Ghost<nat>,
    variance_count: Ghost<nat>,
}

/// `n` as a machine counter that stops at the largest `usize`.
pub open spec fn capped(n: nat) -> usize {
    if n > usize::MAX { usize::MAX } else { n as usize }
}

impl ScriptedDice {
    /// The percent rolls to replay, in order.
    pub closed spec fn percents(&self) -> Seq<u32> {
        self.percents@
    }

    /// The variance draws to replay, in order.
    pub closed spec fn variances(&self) -> Seq<u32> {
        self.variances@
    }

    /// A source that replays `percents` and `variances`. Fails unless both are
    /// non-empty, every percent roll is below 100, and every variance lies in
    /// `VARIANCE_MIN..=VARIANCE_MAX`.
    pub fn new(percents: Vec<u32>, variances: Vec<u32>) -> (r: Option<ScriptedDice>)
        ensures
            r is Some <==> (percents@.len() > 0 && variances@.len() > 0
                && (forall|i: int| 0 <= i < percents@.len() ==> percents@[i] < 100)
                && (forall|i: int| 0 <= i < variances@.len()
                    ==> VARIANCE_MIN <= #[trigger] variances@[i] <= VARIANCE_MAX)),
            r is Some ==> r->Some_0.wf() && r->Some_0.percents() == percents@
                && r->Some_0.variances() == variances@ && r->Some_0.percent_rolls() == 0
                && r->Some_0.variance_rolls() == 0,
    {
        if percents.len() == 0 || variances.len() == 0 {
            return None;
        }
        let mut i: usize = 0;
        while i < percents.len()
            invariant
                0 <= i <= percents@.len(),
                forall|j: int| 0 <= j < i ==> percents@[j] < 100,
            decreases percents@.len() - i,
        {
            if percents[i] >= 100 {
                return None;
            }
            i = i + 1;
        }
        let mut k: usize = 0;
        while k < variances.len()
            invariant
                0 <= k <= variances@.len(),
                forall|j: int| 0 <= j < k ==> VARIANCE_MIN <= #[trigger] variances@[j] <= VARIANCE_MAX,
            decreases variances@.len() - k,
        {
            if variances[k] < VARIANCE_MIN || variances[k] > VARIANCE_MAX {
                return None;
            }
            k = k + 1;
        }
        Some(ScriptedDice {
            percents,
            variances,
            next_percent: 0,
            next_variance: 0,
            percent_calls: 0,
            variance_calls: 0,
            percent_count: Ghost(0),
            variance_count: Ghost(0),
        })
    }

    /// Percent rolls made so far (stopping at the largest `usize`).
    pub fn percent_calls(&self) -> (r: usize)
        requires
            self.wf(),
        ensures
            r == capped(self.percent_rolls()),
    {
        self.percent_calls
    }

    /// Variance draws made so far (stopping at the largest `usize`).
    pub fn variance_calls(&self) -> (r: usize)
        requires
            self.wf(),
        ensures
            r == capped(self.variance_rolls()),
    {
        self.variance_calls
    }
}

impl Dice for ScriptedDice {
    closed spec fn wf(&self) -> bool {
        &&& self.percents@.len() > 0
        &&& self.variances@.len() > 0
        &&& self.next_percent < self.percents@.len()
        &&& self.next_variance < self.variances@.len()
        &&& forall|i: int| 0 <= i < self.percents@.len() ==> self.percents@[i] < 100
        &&& forall|i: int| 0 <= i < self.variances@.len()
            ==> VARIANCE_MIN <= #[trigger] self.variances@[i] <= VARIANCE_MAX
        &&& self.percent_calls == capped(self.percent_count@)
        &&& self.variance_calls == capped(self.variance_count@)
    }

    closed spec fn percent_rolls(&self) -> nat {
        self.percent_count@
    }

    closed spec fn variance_rolls(&self) -> nat {
        self.variance_count@
    }

    fn roll_percent(&mut self) -> (r: u32) {
        let r = self.percents[self.next_percent];
        self.next_percent = if self.next_percent < self.percents.len() - 1 {
            self.next_percent + 1
        } else {
            0
        };
        self.percent_calls = self.percent_calls.saturating_add(1);
        self.percent_count = Ghost(self.percent_count@ + 1);
        r
    }

    fn roll_variance(&mut self) -> (r: u32) {
        let r = self.variances[self.next_variance];
        self.next_variance = if self.next_variance < self.variances.len() - 1 {
            self.next_variance + 1
        } else {
            0
        };
        self.variance_calls = self.variance_calls.saturating_add(1);
        self.variance_count = Ghost(self.variance_count@ + 1);
        r
    }
}

} // verus!
