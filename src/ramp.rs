//! Ramps: an ordered list of thresholds, each with a glyph, that picks the
//! glyph standing for a reading.
use vstd::prelude::*;

verus! {

/// One step of a ramp: readings from `threshold` up to the next step's
/// threshold show `glyph`.
#[derive(Debug)]
pub struct RampStep {
    pub threshold: u32,
    pub glyph: String,
}

/// A ramp: steps with strictly increasing thresholds. Readings below the first
/// threshold show the first glyph.
#[derive(Debug)]
pub struct Ramp {
    pub steps: Vec<RampStep>,
}

impl Ramp {
    /// At least one step, and thresholds strictly increasing.
    pub open spec fn wf(&self) -> bool {
        &&& self.steps@.len() > 0
        &&& forall|i: int, j: int|
            0 <= i < j < self.steps@.len() ==> #[trigger] self.steps@[i].threshold
                < #[trigger] self.steps@[j].threshold
    }

    /// Step `i` is the one that shows `value`: the last step whose threshold
    /// is at most `value`, or the first step when there is none. A reading
    /// equal to a threshold belongs to the step that the threshold starts.
    pub open spec fn selects(&self, value: u32, i: int) -> bool {
        &&& 0 <= i < self.steps@.len()
        &&& (i == 0 || self.steps@[i].threshold <= value)
        &&& (i + 1 == self.steps@.len() || value < self.steps@[i + 1].threshold)
    }

    /// The glyph that shows `value`.
    pub open spec fn glyph_for(&self, value: u32) -> Seq<char> {
        self.steps@[choose|i: int| self.selects(value, i)].glyph@
    }

    /// Builds a ramp from its steps; `None` unless there is at least one step
    /// and the thresholds strictly increase.
    pub fn new(steps: Vec<RampStep>) -> (r: Option<Ramp>)
        ensures
            r.is_some() <==> (Ramp { steps }).wf(),
            r.is_some() ==> r.unwrap().steps == steps,
    {
        if steps.len() == 0 {
            return None;
        }
        let mut i: usize = 1;
        while i < steps.len()
            invariant
                1 <= i <= steps@.len(),
                forall|a: int, b: int|
                    0 <= a < b < i ==> #[trigger] steps@[a].threshold
                        < #[trigger] steps@[b].threshold,
            decreases steps@.len() - i,
        {
            if steps[i - 1].threshold >= steps[i].threshold {
                assert(!(Ramp { steps }).wf()) by {
                    assert(steps@[i - 1].threshold >= steps@[i as int].threshold);
                }
                return None;
            }
            i += 1;
        }
        Some(Ramp { steps })
    }

    /// The index of the step that shows `value`: there is always exactly one.
    pub fn choose_index(&self, value: u32) -> (i: usize)
        requires
            self.wf(),
        ensures
            self.selects(value, i as int),
    {
        let mut i: usize = 0;
        while i < self.steps.len() - 1 && self.steps[i + 1].threshold <= value
            invariant
                self.wf(),
                i < self.steps@.len(),
                i == 0 || self.steps@[i as int].threshold <= value,
            decreases self.steps@.len() - i,
        {
            i += 1;
        }
        i
    }

    /// The glyph that shows `value`.
    pub fn select(&self, value: u32) -> (r: String)
        requires
            self.wf(),
        ensures
            r@ == self.glyph_for(value),
    {
        let i = self.choose_index(value);
        proof {
            lemma_ramp_selects_one(self, value, i as int);
        }
        self.steps[i].glyph.clone()
    }
}

/// Exactly one step shows any reading: the step that `choose_index` finds
/// is the only one that `selects` holds of.
pub proof fn lemma_ramp_selects_one(ramp: &Ramp, value: u32, i: int)
    requires
        ramp.wf(),
        ramp.selects(value, i),
    ensures
        forall|j: int| #[trigger] ramp.selects(value, j) ==> j == i,
        ramp.glyph_for(value) == ramp.steps@[i].glyph@,
{
    assert forall|j: int| #[trigger] ramp.selects(value, j) implies j == i by {
        if j < i {
            assert(ramp.steps@[j + 1].threshold <= ramp.steps@[i].threshold);
        } else if i < j {
            assert(ramp.steps@[i + 1].threshold <= ramp.steps@[j].threshold);
        }
    }
}

} // verus!
