use vstd::prelude::*;

verus! {

/// Largest depth a search may be asked for.
pub const MAX_DEPTH: i32 = 512;

/// Largest margin a tunable may hold.
pub const MAX_MARGIN: i32 = 2000;

/// Tunable depths and margins of the pruning and reduction rules.
#[derive(PartialEq, Eq, Structural, Clone, Copy, Debug)]
pub struct Parameters {
    /// Depth from which a node without a table move is searched one ply shallower.
    pub iir_depth: i32,
    /// Depth below which reverse futility pruning applies.
    pub rfp_depth: i32,
    pub rfp_margin: i32,
    /// Depth up to which razoring applies.
    pub razoring_depth: i32,
    pub razoring_margin: i32,
    pub razoring_fixed_margin: i32,
    /// Depth up to which futility pruning applies.
    pub fp_depth: i32,
    pub fp_margin: i32,
    pub fp_fixed_margin: i32,
    /// Depth below which moves losing material are skipped.
    pub see_depth: i32,
    pub see_quiet_margin: i32,
    pub see_noisy_margin: i32,
    /// Moves searched at full depth before late ones are reduced.
    pub lmr_moves_played: usize,
    /// Depth from which late moves are reduced.
    pub lmr_depth: i32,
}

impl Parameters {
    pub open spec fn wf(&self) -> bool {
        &&& 0 <= self.iir_depth <= MAX_DEPTH
        &&& 0 <= self.rfp_depth <= MAX_DEPTH
        &&& 0 <= self.rfp_margin <= MAX_MARGIN
        &&& 0 <= self.razoring_depth <= MAX_DEPTH
        &&& 0 <= self.razoring_margin <= MAX_MARGIN
        &&& 0 <= self.razoring_fixed_margin <= MAX_MARGIN
        &&& 0 <= self.fp_depth <= MAX_DEPTH
        &&& 0 <= self.fp_margin <= MAX_MARGIN
        &&& 0 <= self.fp_fixed_margin <= MAX_MARGIN
        &&& 0 <= self.see_depth <= MAX_DEPTH
        &&& 0 <= self.see_quiet_margin <= MAX_MARGIN
        &&& 0 <= self.see_noisy_margin <= MAX_MARGIN
        &&& 0 <= self.lmr_depth <= MAX_DEPTH
    }
}

impl Default for Parameters {
    fn default() -> (r: Parameters)
        ensures
            r.wf(),
    {
        Parameters {
            iir_depth: 4,
            rfp_depth: 8,
            rfp_margin: 75,
            razoring_depth: 3,
            razoring_margin: 200,
            razoring_fixed_margin: 150,
            fp_depth: 6,
            fp_margin: 100,
            fp_fixed_margin: 100,
            see_depth: 8,
            see_quiet_margin: 60,
            see_noisy_margin: 90,
            lmr_moves_played: 3,
            lmr_depth: 3,
        }
    }
}

/// What one search is asked for: the deepest iteration and the time it may take.
#[derive(PartialEq, Eq, Structural, Clone, Copy, Debug)]
pub struct SearchParams {
    pub depth: i32,
    /// Milliseconds.
    pub search_time: u128,
}

} // verus!
