use vstd::prelude::*;
use crate::report::{block_report, call_views, heights_with_txs, spec_heights_with_txs, spec_report, block_msg_views, ContractCall};
use crate::rpc::{CosmosRPC, CosmosRPCResponse};

verus! {

/// The number of heights by which each window lies below the one before;
/// a window asks for the blocks from its top height less this, to its top
/// height.
pub const STEP: u64 = 20;

/// The top height of the first window.
pub const START_HEIGHT: u64 = 5372138;

/// Where the scan stands.
#[derive(Clone, Copy, Debug, PartialEq, Eq, Structural)]
pub enum Phase {
    /// The status of the node was asked for.
    AwaitStatus,
    /// The metadata of the window below the current height was asked for.
    AwaitBlockchain,
    /// The first pending block was asked for.
    AwaitBlock,
    /// Nothing is left to ask.
    Finished,
}

/// What to do next.
#[derive(Clone, Copy, Debug, PartialEq, Eq, Structural)]
pub enum Next {
    /// Send this request and hand its answer to `Scanner::on_response`.
    Fetch(CosmosRPC),
    /// The next window would begin below height zero: the window's lower
    /// height, this height less `STEP`, is not a `u64`.
    Underflow(u64),
    /// The scan is over.
    Done,
}

/// The outcome of handing an answer to the scanner: the executions to
/// report, in order, then what to do next.
pub struct Step {
    pub report: Vec<ContractCall>,
    pub next: Next,
}

/// The scan as the contracts see it.
pub struct ScannerView {
    pub phase: Phase,
    /// The top height of the current window.
    pub height: u64,
    /// The heights of the blocks of the current window still to fetch, the
    /// one asked for first.
    pub pending: Seq<u64>,
}

/// The walk down the chain, window by window: for each window, the heights
/// of its blocks with transactions, and for each such block, what it
/// executes.
pub struct Scanner {
    phase: Phase,
    height: u64,
    pending: Vec<u64>,
}

impl View for Scanner {
    type V = ScannerView;

    closed spec fn view(&self) -> ScannerView {
        ScannerView { phase: self.phase, height: self.height, pending: self.pending@ }
    }
}

/// The states that a scan passes through: a window is asked for or walked
/// only at a height from which `STEP` can be taken, and blocks are awaited
/// only while some are pending.
pub open spec fn scanner_wf(s: ScannerView) -> bool {
    match s.phase {
        Phase::AwaitStatus => s.pending.len() == 0,
        Phase::AwaitBlockchain => s.height >= STEP && s.pending.len() == 0,
        Phase::AwaitBlock => s.height >= STEP && s.pending.len() > 0,
        Phase::Finished => s.pending.len() == 0,
    }
}

/// The state and the next step where the window with top height `height`
/// comes next: the scan ends at height zero, cannot go on below `STEP`, and
/// else asks for the blocks from `height - STEP` to `height`.
pub open spec fn spec_open_window(height: u64) -> (ScannerView, Next) {
    if height == 0 {
        (ScannerView { phase: Phase::Finished, height, pending: Seq::empty() }, Next::Done)
    } else if height < STEP {
        (ScannerView { phase: Phase::Finished, height, pending: Seq::empty() }, Next::Underflow(height))
    } else {
        (
            ScannerView { phase: Phase::AwaitBlockchain, height, pending: Seq::empty() },
            Next::Fetch(CosmosRPC::Blockchain { min_height: (height - STEP) as u64, max_height: height }),
        )
    }
}

/// The state and next step where the blocks `pending` of the window with
/// top height `height` are still to fetch: the first of them, or else the
/// window below.
pub open spec fn spec_next_block(height: u64, pending: Seq<u64>) -> (ScannerView, Next) {
    if pending.len() > 0 {
        (
            ScannerView { phase: Phase::AwaitBlock, height, pending },
            Next::Fetch(CosmosRPC::Block { height: pending[0] }),
        )
    } else {
        spec_open_window((height - STEP) as u64)
    }
}

/// The scan's answer to an answer of the node: its next state, what it
/// reports, and what it does next.
/// - Awaiting the status: a status opens the first window; any other answer
///   ends the scan.
/// - Awaiting a window: the blocks with transactions become pending (none
///   for another kind of answer), and the first is asked for, or else the
///   window below.
/// - Awaiting a block: a block is reported (see `spec_report`), at the
///   height asked for, and the next pending block is asked for, or else the
///   window below.
/// - Finished: nothing changes.
pub open spec fn spec_on_response(s: ScannerView, r: CosmosRPCResponse) -> (
    ScannerView,
    Seq<(u64, Seq<char>, Seq<u8>)>,
    Next,
) {
    match s.phase {
        Phase::AwaitStatus => match r {
            CosmosRPCResponse::Status(_) => {
                let (t, next) = spec_open_window(s.height);
                (t, Seq::empty(), next)
            },
            _ => (
                ScannerView { phase: Phase::Finished, height: s.height, pending: Seq::empty() },
                Seq::empty(),
                Next::Done,
            ),
        },
        Phase::AwaitBlockchain => {
            let heights = match r {
                CosmosRPCResponse::Blockchain(bc) => spec_heights_with_txs(bc.block_metas@),
                _ => Seq::empty(),
            };
            let (t, next) = spec_next_block(s.height, heights);
            (t, Seq::empty(), next)
        },
        Phase::AwaitBlock => {
            let report = match r {
                CosmosRPCResponse::Block(b) => spec_report(s.pending[0], block_msg_views(b.block.data.txs@)),
                _ => Seq::empty(),
            };
            let (t, next) = spec_next_block(s.height, s.pending.drop_first());
            (t, report, next)
        },
        Phase::Finished => (s, Seq::empty(), Next::Done),
    }
}

/// The state in which a scan begins.
pub open spec fn spec_initial() -> ScannerView {
    ScannerView { phase: Phase::AwaitStatus, height: START_HEIGHT, pending: Seq::empty() }
}

impl Scanner {
    #[verifier::type_invariant]
    closed spec fn inv(self) -> bool {
        scanner_wf(self@)
    }

    /// A scan that begins by asking for the node's status.
    pub fn new() -> (res: (Scanner, Next))
        ensures
            res.0@ == spec_initial(),
            res.1 == Next::Fetch(CosmosRPC::Status),
    {
        (
            Scanner { phase: Phase::AwaitStatus, height: START_HEIGHT, pending: Vec::new() },
            Next::Fetch(CosmosRPC::Status),
        )
    }

    /// Where the scan stands.
    pub fn phase(&self) -> (p: Phase)
        ensures
            p == self@.phase,
    {
        self.phase
    }

    /// The top height of the current window.
    pub fn height(&self) -> (h: u64)
        ensures
            h == self@.height,
    {
        self.height
    }

    fn open_window(height: u64) -> (res: (Scanner, Next))
        ensures
            (res.0@, res.1) == spec_open_window(height),
    {
        if height == 0 {
            (Scanner { phase: Phase::Finished, height, pending: Vec::new() }, Next::Done)
        } else if height < STEP {
            (Scanner { phase: Phase::Finished, height, pending: Vec::new() }, Next::Underflow(height))
        } else {
            (
                Scanner { phase: Phase::AwaitBlockchain, height, pending: Vec::new() },
                Next::Fetch(CosmosRPC::Blockchain { min_height: height - STEP, max_height: height }),
            )
        }
    }

    fn next_block(height: u64, pending: Vec<u64>) -> (res: (Scanner, Next))
        requires
            height >= STEP,
        ensures
            (res.0@, res.1) == spec_next_block(height, pending@),
    {
        if pending.len() > 0 {
            let first = pending[0];
            (Scanner { phase: Phase::AwaitBlock, height, pending }, Next::Fetch(CosmosRPC::Block { height: first }))
        } else {
            Scanner::open_window(height - STEP)
        }
    }

    /// Takes the node's answer to the request last asked for, and says what
    /// to report and what to do next (see `spec_on_response`).
    pub fn on_response(&mut self, response: CosmosRPCResponse) -> (step: Step)
        ensures
            spec_on_response(old(self)@, response) == (final(self)@, call_views(step.report@), step.next),
    {
        proof { use_type_invariant(&*self); }
        match self.phase {
            Phase::AwaitStatus => {
                match response {
                    CosmosRPCResponse::Status(_) => {
                        let (s, next) = Scanner::open_window(self.height);
                        *self = s;
                        Step { report: Vec::new(), next }
                    },
                    _ => {
                        *self = Scanner { phase: Phase::Finished, height: self.height, pending: Vec::new() };
                        Step { report: Vec::new(), next: Next::Done }
                    },
                }
            },
            Phase::AwaitBlockchain => {
                let heights = match &response {
                    CosmosRPCResponse::Blockchain(bc) => heights_with_txs(bc),
                    _ => Vec::new(),
                };
                let (s, next) = Scanner::next_block(self.height, heights);
                *self = s;
                Step { report: Vec::new(), next }
            },
            Phase::AwaitBlock => {
                let current = self.pending[0];
                let report = match &response {
                    CosmosRPCResponse::Block(b) => block_report(current, b),
                    _ => Vec::new(),
                };
                let mut rest = self.pending.clone();
                rest.remove(0);
                assert(rest@ =~= self.pending@.drop_first());
                let (s, next) = Scanner::next_block(self.height, rest);
                *self = s;
                Step { report, next }
            },
            Phase::Finished => Step { report: Vec::new(), next: Next::Done },
        }
    }
}

} // verus!
