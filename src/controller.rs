use vstd::prelude::*;

use crate::outcome::{ErrorKind, OutcomeView, TransferError, TransferOutcome};

verus! {

/// Where the controller's one transfer slot stands.
#[derive(Clone, Copy, Debug, PartialEq, Eq, Structural)]
pub enum TransferState {
    Idle,
    Running,
    Completed,
    Cancelled,
    Failed,
}

/// A displayed fraction `done / total`; a zero `total` means the size is not
/// known yet and the fraction reads as zero.
#[derive(Clone, Copy, Debug, PartialEq, Eq, Structural)]
pub struct Fraction {
    pub done: u64,
    pub total: u64,
}

/// The fraction in thousandths, held at a thousand.
pub open spec fn fraction_per_mille(f: Fraction) -> int {
    if f.total == 0 {
        0
    } else if f.done >= f.total {
        1000
    } else {
        f.done * 1000 / f.total as int
    }
}

/// The fraction reads exactly one.
pub open spec fn fraction_is_whole(f: Fraction) -> bool {
    f.total > 0 && f.done == f.total
}

impl Fraction {
    pub fn per_mille(&self) -> (r: u64)
        ensures
            r as int == fraction_per_mille(*self),
            r <= 1000,
    {
        if self.total == 0 {
            0
        } else if self.done >= self.total {
            1000
        } else {
            let scaled: u128 = self.done as u128 * 1000;
            let r: u128 = scaled / self.total as u128;
            proof {
                assert(scaled < self.total as u128 * 1000) by (nonlinear_arith)
                    requires
                        scaled == self.done as u128 * 1000,
                        self.done < self.total,
                ;
                assert(r <= 1000) by (nonlinear_arith)
                    requires
                        r == scaled / self.total as u128,
                        scaled < self.total as u128 * 1000,
                        self.total > 0,
                ;
            }
            r as u64
        }
    }
}

/// What the user interface and the copy tasks tell the controller.
#[derive(Clone, Debug)]
pub enum Message {
    /// The user asks to pick a source file.
    SourceChanged,
    /// The file picker closed, with the chosen path or none.
    SourcePicked(Option<String>),
    DestChanged(String),
    StartCopy,
    /// The running transfer found the size of its source.
    SizeKnown(u64),
    /// The latest byte count of the running transfer.
    CopyProgress(u64),
    CopyComplete(TransferOutcome),
    Cancel,
}

pub enum MessageView {
    SourceChanged,
    SourcePicked(Option<Seq<char>>),
    DestChanged(Seq<char>),
    StartCopy,
    SizeKnown(u64),
    CopyProgress(u64),
    CopyComplete(OutcomeView),
    Cancel,
}

impl View for Message {
    type V = MessageView;

    open spec fn view(&self) -> MessageView {
        match self {
            Message::SourceChanged => MessageView::SourceChanged,
            Message::SourcePicked(p) => MessageView::SourcePicked(
                match p {
                    Some(s) => Some(s@),
                    None => None,
                },
            ),
            Message::DestChanged(d) => MessageView::DestChanged(d@),
            Message::StartCopy => MessageView::StartCopy,
            Message::SizeKnown(t) => MessageView::SizeKnown(*t),
            Message::CopyProgress(b) => MessageView::CopyProgress(*b),
            Message::CopyComplete(o) => MessageView::CopyComplete(o@),
            Message::Cancel => MessageView::Cancel,
        }
    }
}

/// What the controller asks its surroundings to do.
#[derive(Clone, Copy, Debug, PartialEq, Eq, Structural)]
pub enum Command {
    Nothing,
    /// Open a file picker and answer with `SourcePicked`.
    PickSource,
    /// Start a transfer from `source` to `dest` with a fresh cancellation
    /// signal and progress channel.
    StartTransfer,
    /// Fire the running transfer's cancellation signal.
    SignalCancel,
}

/// The state of the copy screen: the request being edited and the one
/// transfer slot.
pub struct IsoMaker {
    pub source: String,
    pub dest: String,
    pub progress: Fraction,
    pub total: u64,
    pub state: TransferState,
    pub error: Option<TransferError>,
}

pub struct IsoMakerView {
    pub source: Seq<char>,
    pub dest: Seq<char>,
    pub progress: Fraction,
    pub total: u64,
    pub state: TransferState,
    pub error: Option<(ErrorKind, Seq<char>)>,
}

impl View for IsoMaker {
    type V = IsoMakerView;

    open spec fn view(&self) -> IsoMakerView {
        IsoMakerView {
            source: self.source@,
            dest: self.dest@,
            progress: self.progress,
            total: self.total,
            state: self.state,
            error: match self.error {
                Some(e) => Some(e@),
                None => None,
            },
        }
    }
}

pub open spec fn required_text() -> Seq<char> {
    "Source and Destination are both required"@
}

pub open spec fn picking_cancelled_text() -> Seq<char> {
    "Source file picking was cancelled."@
}

/// The state after a message.
pub open spec fn controller_next(v: IsoMakerView, m: MessageView) -> IsoMakerView {
    let running = v.state == TransferState::Running;
    match m {
        MessageView::SourceChanged => v,
        MessageView::SourcePicked(p) => match p {
            Some(s) => IsoMakerView { source: s, ..v },
            None => if v.source.len() == 0 {
                IsoMakerView {
                    error: Some((ErrorKind::Validation, picking_cancelled_text())),
                    ..v
                }
            } else {
                v
            },
        },
        MessageView::DestChanged(d) => IsoMakerView { dest: d, ..v },
        MessageView::StartCopy => if running {
            v
        } else if v.source.len() == 0 || v.dest.len() == 0 {
            IsoMakerView { error: Some((ErrorKind::Validation, required_text())), ..v }
        } else {
            IsoMakerView {
                state: TransferState::Running,
                error: None,
                progress: Fraction { done: 0, total: 0 },
                total: 0,
                ..v
            }
        },
        MessageView::SizeKnown(t) => if running {
            IsoMakerView { total: t, ..v }
        } else {
            v
        },
        MessageView::CopyProgress(b) => if running {
            IsoMakerView { progress: Fraction { done: b, total: v.total }, ..v }
        } else {
            v
        },
        MessageView::CopyComplete(o) => if !running {
            v
        } else {
            match o {
                OutcomeView::Success => IsoMakerView {
                    state: TransferState::Completed,
                    progress: Fraction { done: 1, total: 1 },
                    ..v
                },
                OutcomeView::Cancelled => IsoMakerView { state: TransferState::Cancelled, ..v },
                OutcomeView::Failed(k, c) => IsoMakerView {
                    state: TransferState::Failed,
                    error: Some((k, c)),
                    ..v
                },
            }
        },
        MessageView::Cancel => v,
    }
}

/// The command that follows a message.
pub open spec fn controller_command(v: IsoMakerView, m: MessageView) -> Command {
    let running = v.state == TransferState::Running;
    match m {
        MessageView::SourceChanged => Command::PickSource,
        MessageView::StartCopy => if !running && v.source.len() > 0 && v.dest.len() > 0 {
            Command::StartTransfer
        } else {
            Command::Nothing
        },
        MessageView::Cancel => if running {
            Command::SignalCancel
        } else {
            Command::Nothing
        },
        _ => Command::Nothing,
    }
}

/// A cancel request while no transfer runs (idle, or after it finished in
/// any way) changes nothing and signals nothing.
pub proof fn lemma_late_cancel_is_noop(v: IsoMakerView)
    requires
        v.state != TransferState::Running,
    ensures
        controller_next(v, MessageView::Cancel) == v,
        controller_command(v, MessageView::Cancel) == Command::Nothing,
{
}

/// A start request with an empty source or destination starts nothing and
/// leaves the transfer state as it was.
pub proof fn lemma_empty_path_never_starts(v: IsoMakerView)
    requires
        v.source.len() == 0 || v.dest.len() == 0,
    ensures
        controller_next(v, MessageView::StartCopy).state == v.state,
        controller_command(v, MessageView::StartCopy) != Command::StartTransfer,
{
}

/// While a transfer runs, no second one is started.
pub proof fn lemma_one_transfer_at_a_time(v: IsoMakerView, m: MessageView)
    requires
        v.state == TransferState::Running,
    ensures
        controller_command(v, m) != Command::StartTransfer,
{
}

/// A running transfer that reports success leaves the displayed fraction at
/// exactly one, whatever progress was seen before.
pub proof fn lemma_success_shows_whole(v: IsoMakerView)
    requires
        v.state == TransferState::Running,
    ensures
        fraction_is_whole(controller_next(v, MessageView::CopyComplete(OutcomeView::Success)).progress),
        fraction_per_mille(controller_next(v, MessageView::CopyComplete(OutcomeView::Success)).progress) == 1000,
        controller_next(v, MessageView::CopyComplete(OutcomeView::Success)).state
            == TransferState::Completed,
{
}

/// Only the outcome of the transfer ends it: progress, size and cancel
/// messages leave a running transfer running.
pub proof fn lemma_only_outcome_ends_transfer(v: IsoMakerView, m: MessageView)
    requires
        v.state == TransferState::Running,
        !(m is CopyComplete),
    ensures
        controller_next(v, m).state == TransferState::Running,
{
}

impl IsoMaker {
    pub fn new() -> (r: IsoMaker)
        ensures
            r@.source.len() == 0,
            r@.dest.len() == 0,
            r@.progress == (Fraction { done: 0, total: 0 }),
            r@.total == 0,
            r@.state == TransferState::Idle,
            r@.error.is_none(),
    {
        IsoMaker {
            source: String::new(),
            dest: String::new(),
            progress: Fraction { done: 0, total: 0 },
            total: 0,
            state: TransferState::Idle,
            error: None,
        }
    }

    pub fn is_copying(&self) -> (r: bool)
        ensures
            r == (self.state == TransferState::Running),
    {
        self.state == TransferState::Running
    }
}

impl Default for IsoMaker {
    fn default() -> (r: IsoMaker)
        ensures
            r@.source.len() == 0,
            r@.dest.len() == 0,
            r@.progress == (Fraction { done: 0, total: 0 }),
            r@.total == 0,
            r@.state == TransferState::Idle,
            r@.error.is_none(),
    {
        IsoMaker::new()
    }
}

/// Takes one message, updates the controller, and returns what to do next.
pub fn update(iso_maker: &mut IsoMaker, message: Message) -> (r: Command)
    ensures
        final(iso_maker)@ == controller_next(old(iso_maker)@, message@),
        r == controller_command(old(iso_maker)@, message@),
{
    let running = iso_maker.state == TransferState::Running;
    match message {
        Message::SourceChanged => Command::PickSource,
        Message::SourcePicked(picked) => {
            match picked {
                Some(p) => iso_maker.source = p,
                None => {
                    if iso_maker.source.as_str().is_empty() {
                        let cause = "Source file picking was cancelled.".to_owned();
                        iso_maker.error = Some(TransferError::new(ErrorKind::Validation, cause));
                    }
                },
            }
            Command::Nothing
        },
        Message::DestChanged(d) => {
            iso_maker.dest = d;
            Command::Nothing
        },
        Message::StartCopy => {
            if running {
                return Command::Nothing;
            }
            if iso_maker.source.as_str().is_empty() || iso_maker.dest.as_str().is_empty() {
                let cause = "Source and Destination are both required".to_owned();
                iso_maker.error = Some(TransferError::new(ErrorKind::Validation, cause));
                return Command::Nothing;
            }
            iso_maker.state = TransferState::Running;
            iso_maker.error = None;
            iso_maker.progress = Fraction { done: 0, total: 0 };
            iso_maker.total = 0;
            Command::StartTransfer
        },
        Message::SizeKnown(t) => {
            if running {
                iso_maker.total = t;
            }
            Command::Nothing
        },
        Message::CopyProgress(b) => {
            if running {
                iso_maker.progress = Fraction { done: b, total: iso_maker.total };
            }
            Command::Nothing
        },
        Message::CopyComplete(outcome) => {
            if running {
                match outcome {
                    TransferOutcome::Success => {
                        iso_maker.state = TransferState::Completed;
                        iso_maker.progress = Fraction { done: 1, total: 1 };
                    },
                    TransferOutcome::Cancelled => iso_maker.state = TransferState::Cancelled,
                    TransferOutcome::Failed(e) => {
                        iso_maker.state = TransferState::Failed;
                        iso_maker.error = Some(e);
                    },
                }
            }
            Command::Nothing
        },
        Message::Cancel => {
            if running {
                Command::SignalCancel
            } else {
                Command::Nothing
            }
        },
    }
}

} // verus!
