//! The panel command protocol. Each operation of a panel session yields the
//! bus transactions that carry it out, in order; a driver performs them on the
//! hardware and reports the busy line back through [`poll_busy`].
use crate::epd_configs::{actions_view, epd7in5_v2, Action, ActionModel, EpdConfig};
use vstd::prelude::*;

verus! {

/// Largest number of data bytes written in one bus transfer.
pub const DATA_BUFFER_SIZE: usize = 4096;

/// Command that starts the transfer of the old frame.
pub const CMD_DATA_START_1: u8 = 0x10;

/// Command that starts the transfer of the new frame.
pub const CMD_DATA_START_2: u8 = 0x13;

/// Command that refreshes the panel from the transferred frame.
pub const CMD_REFRESH: u8 = 0x12;

/// Command that asks the panel for its status.
pub const CMD_GET_STATUS: u8 = 0x71;

/// Command that switches the panel's power off.
pub const CMD_POWER_OFF: u8 = 0x02;

/// Command that sends the panel into deep sleep.
pub const CMD_DEEP_SLEEP: u8 = 0x07;

/// Payload that confirms a deep sleep command.
pub const DEEP_SLEEP_CHECK: u8 = 0xA5;

/// Pause after a refresh command before the busy line is polled, in ms.
pub const REFRESH_SETTLE_MS: u64 = 100;

/// Pause that lets the panel latch into deep sleep, in ms.
pub const SLEEP_LATCH_MS: u64 = 1500;

/// Pause between two reads of the busy line, in ms.
pub const BUSY_POLL_MS: u64 = 100;

/// Pause around each edge of the reset pulse while the line is high, in ms.
pub const RESET_HIGH_MS: u64 = 20;

/// Pause while the reset line is held low, in ms.
pub const RESET_LOW_MS: u64 = 2;

/// Error returned when the size of the image data does not match the panel's
/// configuration.
#[derive(Debug, Clone, Copy, PartialEq, Eq, Structural)]
pub struct ImgSizeMismatchError;

/// One transaction on the panel's bus.
#[derive(Debug)]
pub enum BusOp {
    /// Drive the reset line high (`true`) or low (`false`).
    Reset(bool),
    /// Write one command byte.
    Command(u8),
    /// Write one chunk of data bytes, at most [`DATA_BUFFER_SIZE`] of them.
    Data(Vec<u8>),
    /// Read the busy line until the panel is idle, as [`poll_busy`] decides.
    WaitIdle,
    /// Pause for the given number of milliseconds.
    Delay(u64),
}

/// What a bus transaction does, with its payload as a sequence.
pub enum Step {
    Reset(bool),
    Command(u8),
    Data(Seq<u8>),
    WaitIdle,
    Delay(u64),
}

impl View for BusOp {
    type V = Step;

    open spec fn view(&self) -> Step {
        match self {
            BusOp::Reset(level) => Step::Reset(*level),
            BusOp::Command(c) => Step::Command(*c),
            BusOp::Data(d) => Step::Data(d@),
            BusOp::WaitIdle => Step::WaitIdle,
            BusOp::Delay(ms) => Step::Delay(*ms),
        }
    }
}

/// The steps that a list of bus transactions performs.
pub open spec fn steps_of(ops: Seq<BusOp>) -> Seq<Step> {
    ops.map_values(|op: BusOp| op@)
}

/// Number of bus transfers that carry `n` data bytes.
pub open spec fn chunk_count(n: int) -> int {
    if n <= 0 {
        0
    } else {
        (n - 1) / (DATA_BUFFER_SIZE as int) + 1
    }
}

/// The `k`-th transfer of a payload.
pub open spec fn chunk(data: Seq<u8>, k: int) -> Seq<u8> {
    let lo = k * DATA_BUFFER_SIZE;
    let hi = lo + DATA_BUFFER_SIZE;
    data.subrange(lo, if hi < data.len() { hi } else { data.len() as int })
}

/// A payload split into consecutive transfers of at most [`DATA_BUFFER_SIZE`]
/// bytes.
pub open spec fn data_steps(data: Seq<u8>) -> Seq<Step> {
    Seq::new(chunk_count(data.len() as int) as nat, |k: int| Step::Data(chunk(data, k)))
}

/// The busy wait: ask for the status, then poll until the panel is idle.
pub open spec fn busy_wait_steps() -> Seq<Step> {
    seq![Step::Command(CMD_GET_STATUS), Step::WaitIdle]
}

/// The reset pulse: high, low, high, with a pause after each edge.
pub open spec fn reset_steps() -> Seq<Step> {
    seq![
        Step::Reset(true),
        Step::Delay(RESET_HIGH_MS),
        Step::Reset(false),
        Step::Delay(RESET_LOW_MS),
        Step::Reset(true),
        Step::Delay(RESET_HIGH_MS),
    ]
}

/// The steps that carry out one action of an initialisation list.
pub open spec fn action_steps(action: ActionModel) -> Seq<Step> {
    match action {
        ActionModel::SendCommand(c) => seq![Step::Command(c)],
        ActionModel::SendData(d) => data_steps(d),
        ActionModel::ReadBusy => busy_wait_steps(),
        ActionModel::Delay(ms) => seq![Step::Delay(ms)],
    }
}

/// The steps that carry out a list of actions, one after another in order.
pub open spec fn actions_steps(actions: Seq<ActionModel>) -> Seq<Step>
    decreases actions.len(),
{
    if actions.len() == 0 {
        Seq::empty()
    } else {
        actions_steps(actions.drop_last()) + action_steps(actions.last())
    }
}

/// Initialisation: the reset pulse, then the profile's actions in order.
pub open spec fn init_steps(config: EpdConfig) -> Seq<Step> {
    reset_steps() + actions_steps(actions_view(config.init_commands@))
}

/// Clearing: an all-zero frame as both old and new frame, then a refresh.
pub open spec fn clear_steps(config: EpdConfig) -> Seq<Step> {
    let blank = Seq::new(config.frame_len() as nat, |i: int| 0u8);
    seq![Step::Command(CMD_DATA_START_1)] + data_steps(blank) + seq![Step::Command(CMD_DATA_START_2)]
        + data_steps(blank) + seq![Step::Command(CMD_REFRESH), Step::Delay(REFRESH_SETTLE_MS)]
        + busy_wait_steps()
}

/// Showing a frame: the frame as new frame, then a refresh.
pub open spec fn display_steps(frame: Seq<u8>) -> Seq<Step> {
    seq![Step::Command(CMD_DATA_START_2)] + data_steps(frame) + seq![
        Step::Command(CMD_REFRESH),
        Step::Delay(REFRESH_SETTLE_MS),
    ] + busy_wait_steps()
}

/// Going to sleep: power off, wait, deep sleep with its check byte, then a pause.
pub open spec fn sleep_steps() -> Seq<Step> {
    seq![Step::Command(CMD_POWER_OFF)] + busy_wait_steps() + seq![
        Step::Command(CMD_DEEP_SLEEP),
        Step::Data(seq![DEEP_SLEEP_CHECK]),
        Step::Delay(SLEEP_LATCH_MS),
    ]
}

/// What the driver does after one read of the busy line.
#[derive(Debug, Clone, Copy, PartialEq, Eq, Structural)]
pub enum PollStep {
    /// The panel is idle: the wait is over.
    Done,
    /// The panel is busy: pause for the given number of milliseconds, then
    /// read the line again.
    Pause(u64),
}

/// Decides the next move of a busy wait from the level just read on the busy
/// line: a high level means that the panel is idle. There is no limit on the
/// number of polls.
pub fn poll_busy(level_high: bool) -> (r: PollStep)
    ensures
        r == (if level_high {
            PollStep::Done
        } else {
            PollStep::Pause(BUSY_POLL_MS)
        }),
{
    if level_high {
        PollStep::Done
    } else {
        PollStep::Pause(BUSY_POLL_MS)
    }
}

proof fn lemma_chunk_count_bounds(n: int, k: int)
    requires
        n > 0,
        0 <= k,
    ensures
        k < chunk_count(n) <==> k * (DATA_BUFFER_SIZE as int) < n,
{
    let s = DATA_BUFFER_SIZE as int;
    assert(k < (n - 1) / s + 1 <==> k * s < n) by (nonlinear_arith)
        requires
            n > 0,
            k >= 0,
            s == 4096,
    ;
}

/// Appends to `ops` the transfers that carry `data`.
fn push_data(ops: &mut Vec<BusOp>, data: &[u8])
    ensures
        steps_of(final(ops)@) == steps_of(old(ops)@) + data_steps(data@),
{
    let ghost start = ops@.len();
    let n = data.len();
    let mut lo: usize = 0;
    let ghost mut k: int = 0;
    while lo < n
        invariant
            n == data@.len(),
            lo <= n,
            0 <= k,
            lo < n ==> lo == k * DATA_BUFFER_SIZE && k < chunk_count(n as int),
            lo == n ==> k == chunk_count(n as int),
            ops@.len() == start + k,
            steps_of(ops@).subrange(0, start as int) == steps_of(old(ops)@),
            forall|j: int|
                0 <= j < k ==> #[trigger] steps_of(ops@)[start + j] == Step::Data(chunk(data@, j)),
        decreases n - lo,
    {
        let hi = if n - lo > DATA_BUFFER_SIZE {
            lo + DATA_BUFFER_SIZE
        } else {
            n
        };
        let mut piece: Vec<u8> = Vec::with_capacity(hi - lo);
        let mut i: usize = lo;
        while i < hi
            invariant
                lo <= i <= hi,
                hi <= n == data@.len(),
                piece@ == data@.subrange(lo as int, i as int),
            decreases hi - i,
        {
            piece.push(data[i]);
            i = i + 1;
            assert(piece@ =~= data@.subrange(lo as int, i as int));
        }
        let ghost old_ops = ops@;
        ops.push(BusOp::Data(piece));
        proof {
            assert(piece@ == chunk(data@, k));
            assert(steps_of(ops@).subrange(0, start as int) =~= steps_of(old_ops).subrange(
                0,
                start as int,
            ));
            assert forall|j: int| 0 <= j < k + 1 implies #[trigger] steps_of(ops@)[start + j]
                == Step::Data(chunk(data@, j)) by {
                if j < k {
                    assert(steps_of(ops@)[start + j] == steps_of(old_ops)[start + j]);
                }
            }
            lemma_chunk_count_bounds(n as int, k + 1);
            if hi < n {
                assert((k + 1) * DATA_BUFFER_SIZE == hi);
            } else {
                assert((k + 1) * DATA_BUFFER_SIZE >= n) by (nonlinear_arith)
                    requires
                        n - k * DATA_BUFFER_SIZE <= DATA_BUFFER_SIZE,
                ;
                lemma_chunk_count_bounds(n as int, k);
                assert(k + 1 >= chunk_count(n as int));
            }
            k = k + 1;
        }
        lo = hi;
    }
    proof {
        let lhs = steps_of(ops@);
        let rhs = steps_of(old(ops)@) + data_steps(data@);
        assert(lhs.len() == rhs.len());
        assert forall|j: int| 0 <= j < lhs.len() implies lhs[j] == rhs[j] by {
            if j < start {
                assert(lhs[j] == lhs.subrange(0, start as int)[j]);
            } else {
                assert(lhs[start + (j - start)] == Step::Data(chunk(data@, j - start)));
            }
        }
        assert(lhs =~= rhs);
    }
}

fn push_op(ops: &mut Vec<BusOp>, op: BusOp)
    ensures
        steps_of(final(ops)@) == steps_of(old(ops)@).push(op@),
{
    ops.push(op);
    assert(steps_of(ops@) =~= steps_of(old(ops)@).push(op@));
}

/// Appends to `ops` the busy wait.
fn push_busy_wait(ops: &mut Vec<BusOp>)
    ensures
        steps_of(final(ops)@) == steps_of(old(ops)@) + busy_wait_steps(),
{
    push_op(ops, BusOp::Command(CMD_GET_STATUS));
    push_op(ops, BusOp::WaitIdle);
    assert(steps_of(ops@) =~= steps_of(old(ops)@) + busy_wait_steps());
}

/// A panel session: one panel profile, and whether the panel is initialised
/// and awake.
pub struct Epd {
    config: EpdConfig,
    awake: bool,
}

impl Epd {
    #[verifier::type_invariant]
    spec fn inv(&self) -> bool {
        self.config.wf()
    }

    /// The profile of the panel that the session drives.
    pub closed spec fn profile(&self) -> EpdConfig {
        self.config
    }

    /// Whether the panel has been initialised and not yet put to sleep.
    pub closed spec fn awake(&self) -> bool {
        self.awake
    }

    /// Creates a session for a panel with the given profile and initialises
    /// the panel: the result is the session, awake, and the steps of the
    /// initialisation (see [`Epd::init`]) that the driver performs first.
    pub fn new(config: EpdConfig) -> (r: (Epd, Vec<BusOp>))
        requires
            config.wf(),
        ensures
            r.0.profile() == config,
            r.0.awake(),
            steps_of(r.1@) == init_steps(config),
    {
        let mut epd = Epd { config, awake: false };
        let ops = epd.init();
        (epd, ops)
    }

    /// Creates a session for the 7.5 inch V2 panel, as [`Epd::new`] does.
    pub fn default() -> (r: (Epd, Vec<BusOp>))
        ensures
            r.0.profile().width == 800,
            r.0.profile().height == 480,
            r.0.awake(),
            steps_of(r.1@) == init_steps(r.0.profile()),
    {
        Epd::new(epd7in5_v2::epd_config())
    }

    /// Whether the panel is initialised and awake.
    pub fn is_awake(&self) -> (r: bool)
        ensures
            r == self.awake(),
    {
        self.awake
    }

    /// Initialises the panel again, after [`Epd::sleep`]: the reset pulse,
    /// then each action of the profile's initialisation list in order. The
    /// panel is awake afterwards.
    pub fn init(&mut self) -> (ops: Vec<BusOp>)
        ensures
            final(self).profile() == old(self).profile(),
            final(self).awake(),
            steps_of(ops@) == init_steps(old(self).profile()),
    {
        proof {
            use_type_invariant(&*self);
        }
        let mut ops: Vec<BusOp> = Vec::new();
        push_op(&mut ops, BusOp::Reset(true));
        push_op(&mut ops, BusOp::Delay(RESET_HIGH_MS));
        push_op(&mut ops, BusOp::Reset(false));
        push_op(&mut ops, BusOp::Delay(RESET_LOW_MS));
        push_op(&mut ops, BusOp::Reset(true));
        push_op(&mut ops, BusOp::Delay(RESET_HIGH_MS));
        assert(steps_of(ops@) =~= reset_steps());
        let ghost actions = self.config.init_commands@;
        let n = self.config.init_commands.len();
        let mut i: usize = 0;
        while i < n
            invariant
                n == actions.len(),
                actions == self.config.init_commands@,
                i <= n,
                steps_of(ops@) == reset_steps() + actions_steps(
                    actions_view(actions.subrange(0, i as int)),
                ),
            decreases n - i,
        {
            let ghost before = steps_of(ops@);
            match &self.config.init_commands[i] {
                Action::SendCommand(c) => {
                    push_op(&mut ops, BusOp::Command(*c));
                },
                Action::SendData(d) => {
                    push_data(&mut ops, d.as_slice());
                },
                Action::ReadBusy => {
                    push_busy_wait(&mut ops);
                },
                Action::Delay(ms) => {
                    push_op(&mut ops, BusOp::Delay(*ms));
                },
            }
            proof {
                assert(steps_of(ops@) =~= before + action_steps(actions[i as int]@));
                let next = actions_view(actions.subrange(0, i + 1));
                assert(next.drop_last() =~= actions_view(actions.subrange(0, i as int)));
                assert(next.last() == actions[i as int]@);
            }
            i = i + 1;
        }
        assert(actions_view(actions.subrange(0, n as int)) =~= actions_view(actions));
        self.awake = true;
        ops
    }

    /// Number of bytes in one frame of the panel.
    pub fn image_buffer_size(&self) -> (n: usize)
        ensures
            n == self.profile().frame_len(),
    {
        proof {
            use_type_invariant(self);
        }
        self.config.width * self.config.height / 8
    }

    /// Asks the panel for its status and waits until it is no longer busy.
    pub fn read_busy(&self) -> (ops: Vec<BusOp>)
        ensures
            steps_of(ops@) == busy_wait_steps(),
    {
        let mut ops: Vec<BusOp> = Vec::new();
        push_busy_wait(&mut ops);
        assert(steps_of(ops@) =~= busy_wait_steps());
        ops
    }

    /// Clears the screen: an all-zero frame goes out as both the old and the
    /// new frame, then the panel refreshes.
    pub fn clear(&self) -> (ops: Vec<BusOp>)
        requires
            self.awake(),
        ensures
            steps_of(ops@) == clear_steps(self.profile()),
    {
        let n = self.image_buffer_size();
        let mut blank: Vec<u8> = Vec::with_capacity(n);
        let mut i: usize = 0;
        while i < n
            invariant
                i <= n,
                blank@ == Seq::new(i as nat, |j: int| 0u8),
            decreases n - i,
        {
            blank.push(0);
            i = i + 1;
            assert(blank@ =~= Seq::new(i as nat, |j: int| 0u8));
        }
        let mut ops: Vec<BusOp> = Vec::new();
        push_op(&mut ops, BusOp::Command(CMD_DATA_START_1));
        push_data(&mut ops, blank.as_slice());
        push_op(&mut ops, BusOp::Command(CMD_DATA_START_2));
        push_data(&mut ops, blank.as_slice());
        push_op(&mut ops, BusOp::Command(CMD_REFRESH));
        push_op(&mut ops, BusOp::Delay(REFRESH_SETTLE_MS));
        push_busy_wait(&mut ops);
        assert(steps_of(ops@) =~= clear_steps(self.profile()));
        ops
    }

    /// Shows a frame on the panel. The frame must be exactly one panel's worth
    /// of bytes; otherwise the result is `Err(ImgSizeMismatchError)` and there
    /// is nothing to put on the bus.
    ///
    /// Each set bit is a white pixel, each clear bit a black one; the bytes run
    /// row by row from the top left corner, eight pixels to a byte with the
    /// leftmost in the most significant bit.
    pub fn display(&self, data: &[u8]) -> (r: Result<Vec<BusOp>, ImgSizeMismatchError>)
        requires
            self.awake(),
        ensures
            r is Err <==> data@.len() != self.profile().frame_len(),
            r matches Ok(ops) ==> steps_of(ops@) == display_steps(data@),
    {
        if data.len() != self.image_buffer_size() {
            return Err(ImgSizeMismatchError);
        }
        let mut ops: Vec<BusOp> = Vec::new();
        push_op(&mut ops, BusOp::Command(CMD_DATA_START_2));
        push_data(&mut ops, data);
        push_op(&mut ops, BusOp::Command(CMD_REFRESH));
        push_op(&mut ops, BusOp::Delay(REFRESH_SETTLE_MS));
        push_busy_wait(&mut ops);
        assert(steps_of(ops@) =~= display_steps(data@));
        Ok(ops)
    }

    /// Puts the panel into its low power state. It is no longer awake: only a
    /// new [`Epd::init`] wakes it.
    pub fn sleep(&mut self) -> (ops: Vec<BusOp>)
        requires
            old(self).awake(),
        ensures
            final(self).profile() == old(self).profile(),
            !final(self).awake(),
            steps_of(ops@) == sleep_steps(),
    {
        proof {
            use_type_invariant(&*self);
        }
        let mut ops: Vec<BusOp> = Vec::new();
        push_op(&mut ops, BusOp::Command(CMD_POWER_OFF));
        push_busy_wait(&mut ops);
        push_op(&mut ops, BusOp::Command(CMD_DEEP_SLEEP));
        let mut check: Vec<u8> = Vec::new();
        check.push(DEEP_SLEEP_CHECK);
        assert(check@ =~= seq![DEEP_SLEEP_CHECK]);
        push_op(&mut ops, BusOp::Data(check));
        push_op(&mut ops, BusOp::Delay(SLEEP_LATCH_MS));
        assert(steps_of(ops@) =~= sleep_steps());
        self.awake = false;
        ops
    }
}

} // verus!
