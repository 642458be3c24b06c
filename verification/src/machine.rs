//! The vocabulary between the engine and its caller: what the engine asks
//! for, what the caller answers, and what the user is told.
use crate::clock::Countdown;
use crate::report::ErrInfo;
use vstd::prelude::*;

verus! {

/// Seconds that the daemon sleeps between two checks.
pub const POLL_SECONDS: u64 = 30;

/// What the engine is waiting for.
#[derive(Clone, Copy, Debug, PartialEq, Eq, Structural)]
pub enum Phase {
    /// Nothing: no command has begun, or the last one has ended.
    Idle,
    /// The state file, at the start of a command.
    Loading,
    /// The write of a fresh state, after the state file failed to load.
    Restoring,
    /// The final address of the image.
    Resolving,
    /// The bytes of the image.
    Downloading,
    /// The write of the new image.
    Storing,
    /// The removal of the previous image.
    Removing,
    /// The run of the helper that applies the image.
    Applying,
    /// The write of the state that an update attempt has changed.
    Committing,
    /// The write of the state that marks the daemon as running.
    Starting,
    /// The end of the pause between two checks of the daemon.
    Sleeping,
    /// The state file, after a pause of the daemon.
    Reloading,
    /// The write of the state that marks the daemon as stopped.
    Stopping,
    /// The write of a state after which the command ends, whatever comes of it.
    Closing,
    /// The seconds that the typed hours amount to.
    Converting,
    /// The write of a new interval.
    SavingInterval,
    /// The write of a new source.
    SavingSource,
}

/// What the engine asks its caller to do. Each request is answered by one
/// [`Event`].
#[derive(Debug, PartialEq, Eq)]
pub enum Effect {
    /// Read the state file whole. Answer: [`Event::StateRead`].
    ReadState { path: String },
    /// Overwrite the state file with the encoded state; where the state could
    /// not be encoded, write nothing and answer with the encoder's complaint.
    /// Answer: [`Event::Finished`].
    Flush { path: String, encoded: Result<Vec<u8>, ErrInfo> },
    /// Request `url`, follow the redirects, and give the address that the
    /// last response came from. Answer: [`Event::Resolved`].
    Resolve { url: String },
    /// Request `url` and give the body of the response. Answer:
    /// [`Event::Downloaded`].
    Download { url: String },
    /// Create the file `path` with these bytes. Answer: [`Event::Finished`].
    WriteImage { path: String, bytes: Vec<u8> },
    /// Delete the file `path`. Answer: [`Event::Finished`].
    RemoveImage { path: String },
    /// Run `helper` with `image` as its only argument. Answer:
    /// [`Event::Finished`].
    Apply { helper: String, image: String },
    /// Wait for `seconds` seconds. Answer: [`Event::Finished`].
    Sleep { seconds: u64 },
    /// Read `hours` as a decimal number of hours and give the seconds it
    /// amounts to, rounded towards zero. Answer: [`Event::Converted`].
    Convert { hours: String },
    /// Nothing is left to do.
    Exit,
}

/// The mathematical content of an [`Effect`]. Of a state that could not be
/// encoded it tells only that there are no bytes; the complaint that comes
/// with it is spoken of in the contracts of the engine, which state that it
/// is not the empty message.
pub enum EffectView {
    ReadState { path: Seq<char> },
    Flush { path: Seq<char>, encoded: Option<Seq<u8>> },
    Resolve { url: Seq<char> },
    Download { url: Seq<char> },
    WriteImage { path: Seq<char>, bytes: Seq<u8> },
    RemoveImage { path: Seq<char> },
    Apply { helper: Seq<char>, image: Seq<char> },
    Sleep { seconds: nat },
    Convert { hours: Seq<char> },
    Exit,
}

impl View for Effect {
    type V = EffectView;

    open spec fn view(&self) -> EffectView {
        match self {
            Effect::ReadState { path } => EffectView::ReadState { path: path@ },
            Effect::Flush { path, encoded } => EffectView::Flush {
                path: path@,
                encoded: match encoded {
                    Ok(bytes) => Some(bytes@),
                    Err(_) => None,
                },
            },
            Effect::Resolve { url } => EffectView::Resolve { url: url@ },
            Effect::Download { url } => EffectView::Download { url: url@ },
            Effect::WriteImage { path, bytes } => EffectView::WriteImage {
                path: path@,
                bytes: bytes@,
            },
            Effect::RemoveImage { path } => EffectView::RemoveImage { path: path@ },
            Effect::Apply { helper, image } => EffectView::Apply {
                helper: helper@,
                image: image@,
            },
            Effect::Sleep { seconds } => EffectView::Sleep { seconds: *seconds as nat },
            Effect::Convert { hours } => EffectView::Convert { hours: hours@ },
            Effect::Exit => EffectView::Exit,
        }
    }
}

/// What the caller answers. A cause of failure is a message; where only a
/// message is given, the empty message stands for success.
#[derive(Debug, PartialEq, Eq)]
pub enum Event {
    /// The bytes of the state file, or `None` where it could not be read.
    StateRead(Option<Vec<u8>>),
    /// The final address of the image, or why there is none.
    Resolved(Result<String, ErrInfo>),
    /// The bytes of the image, or why there are none.
    Downloaded(Result<Vec<u8>, ErrInfo>),
    /// How a write, a removal, a run of the helper or a pause ended.
    Finished(ErrInfo),
    /// The seconds that the typed hours amount to, or why they are no number.
    Converted(Result<usize, ErrInfo>),
}

/// The mathematical content of an [`Event`].
pub enum EventView {
    StateRead(Option<Seq<u8>>),
    Resolved(Result<Seq<char>, Seq<char>>),
    Downloaded(Result<Seq<u8>, Seq<char>>),
    Finished(Seq<char>),
    Converted(Result<nat, Seq<char>>),
}

impl View for Event {
    type V = EventView;

    open spec fn view(&self) -> EventView {
        match self {
            Event::StateRead(file) => EventView::StateRead(
                match file {
                    Some(bytes) => Some(bytes@),
                    None => None,
                },
            ),
            Event::Resolved(r) => EventView::Resolved(
                match r {
                    Ok(url) => Ok(url@),
                    Err(e) => Err(e@),
                },
            ),
            Event::Downloaded(r) => EventView::Downloaded(
                match r {
                    Ok(bytes) => Ok(bytes@),
                    Err(e) => Err(e@),
                },
            ),
            Event::Finished(e) => EventView::Finished(e@),
            Event::Converted(r) => EventView::Converted(
                match r {
                    Ok(seconds) => Ok(*seconds as nat),
                    Err(e) => Err(e@),
                },
            ),
        }
    }
}

/// What the user is told at the end of a step.
#[derive(Debug, PartialEq, Eq)]
pub enum Notice {
    /// Nothing.
    Nothing,
    /// The wallpaper has been updated.
    Updated,
    /// No update is due yet.
    NotDue,
    /// The clock lies before the last update; the time of the last update
    /// has been set to now.
    TimeReset,
    /// The image could not be fetched.
    FetchFailed(ErrInfo),
    /// The image could not be written.
    StoreFailed(ErrInfo),
    /// The image is in place, but the helper could not apply it.
    HelperFailed(ErrInfo),
    /// The state could not be written.
    FlushFailed(ErrInfo),
    /// A daemon already holds this workspace.
    AlreadyRunning,
    /// The daemon leaves because it was asked to.
    Exiting,
    /// The list of commands is wanted.
    Help,
    /// The tip is wanted.
    Tip,
    /// The user wants to uninstall.
    Bye,
    /// The new interval has been stored.
    IntervalSet,
    /// The new source has been stored.
    SourceSet,
    /// How `freq` is used, with the cause where an argument was refused, and
    /// the time left until the next update; `None` where the clock lies
    /// before the last update, whose time has then been set to now.
    FrequencyUsage { cause: ErrInfo, left: Option<Countdown> },
    /// How `from` is used, with the argument that was refused, if any.
    SourceUsage { rejected: Option<String> },
}

/// The mathematical content of a [`Notice`].
pub enum NoticeView {
    Nothing,
    Updated,
    NotDue,
    TimeReset,
    FetchFailed(Seq<char>),
    StoreFailed(Seq<char>),
    HelperFailed(Seq<char>),
    FlushFailed(Seq<char>),
    AlreadyRunning,
    Exiting,
    Help,
    Tip,
    Bye,
    IntervalSet,
    SourceSet,
    FrequencyUsage { cause: Seq<char>, left: Option<Countdown> },
    SourceUsage { rejected: Option<Seq<char>> },
}

impl View for Notice {
    type V = NoticeView;

    open spec fn view(&self) -> NoticeView {
        match self {
            Notice::Nothing => NoticeView::Nothing,
            Notice::Updated => NoticeView::Updated,
            Notice::NotDue => NoticeView::NotDue,
            Notice::TimeReset => NoticeView::TimeReset,
            Notice::FetchFailed(e) => NoticeView::FetchFailed(e@),
            Notice::StoreFailed(e) => NoticeView::StoreFailed(e@),
            Notice::HelperFailed(e) => NoticeView::HelperFailed(e@),
            Notice::FlushFailed(e) => NoticeView::FlushFailed(e@),
            Notice::AlreadyRunning => NoticeView::AlreadyRunning,
            Notice::Exiting => NoticeView::Exiting,
            Notice::Help => NoticeView::Help,
            Notice::Tip => NoticeView::Tip,
            Notice::Bye => NoticeView::Bye,
            Notice::IntervalSet => NoticeView::IntervalSet,
            Notice::SourceSet => NoticeView::SourceSet,
            Notice::FrequencyUsage { cause, left } => NoticeView::FrequencyUsage {
                cause: cause@,
                left: *left,
            },
            Notice::SourceUsage { rejected } => NoticeView::SourceUsage {
                rejected: match rejected {
                    Some(text) => Some(text@),
                    None => None,
                },
            },
        }
    }
}

/// The result of one step: what to tell the user, then what to do.
#[derive(Debug, PartialEq, Eq)]
pub struct Output {
    pub notice: Notice,
    pub effect: Effect,
}

/// The mathematical content of an [`Output`].
pub struct OutputView {
    pub notice: NoticeView,
    pub effect: EffectView,
}

impl View for Output {
    type V = OutputView;

    open spec fn view(&self) -> OutputView {
        OutputView { notice: self.notice@, effect: self.effect@ }
    }
}

} // verus!
