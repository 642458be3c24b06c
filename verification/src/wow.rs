//! The engine: one state, advanced one answer at a time.
//!
//! [`Wow::run`] begins a command and [`Wow::step`] continues it. Each returns
//! an [`Output`]: a notice for the user and the next request. The caller
//! carries the request out and hands the answer to `step`, until the request
//! is [`Effect::Exit`]. What a step does is given by [`WowView::next`].
use crate::clock::{countdown, countdown_at, due, is_due, Timestamp, NANOS_PER_SEC};
use crate::command::{command_of, texts, Command, CommandView};
use crate::config::{decoding, url_of, Config, ConfigView};
use crate::machine::{
    Effect, EffectView, Event, EventView, Notice, NoticeView, Output, OutputView, Phase,
    POLL_SECONDS,
};
use crate::paths::{helper_file, helper_path, image_file, image_path, state_file, state_path};
pub use crate::report::ErrInfo;
use vstd::prelude::*;
use vstd::string::*;

verus! {

/// The updater: the command in hand, the persisted state, the workspace, and
/// where the command stands.
pub struct Wow {
    command: Command,
    config: Config,
    working_space: String,
    phase: Phase,
    daemon: bool,
    stamp: Timestamp,
}

/// The mathematical content of a [`Wow`].
pub struct WowView {
    /// The command in hand.
    pub command: CommandView,
    /// The persisted state as it is in memory.
    pub config: ConfigView,
    /// The directory that holds the state file, the helper and the images.
    pub working_space: Seq<char>,
    /// What the engine is waiting for.
    pub phase: Phase,
    /// Whether the daemon loop is running in this process.
    pub daemon: bool,
    /// The time of the update attempt in hand, in nanoseconds since the epoch.
    pub stamp: nat,
}

impl View for Wow {
    type V = WowView;

    closed spec fn view(&self) -> WowView {
        WowView {
            command: self.command@,
            config: self.config@,
            working_space: self.working_space@,
            phase: self.phase,
            daemon: self.daemon,
            stamp: self.stamp@,
        }
    }
}

/// The state that the bytes of the state file hold, if the file could be read
/// and holds a valid one.
pub open spec fn file_state(file: Option<Seq<u8>>) -> Option<ConfigView> {
    match file {
        Some(bytes) => decoding(bytes),
        None => None,
    }
}

/// What is said of a write: nothing where it went well, else that the state
/// could not be written.
pub open spec fn flush_notice(e: Seq<char>) -> NoticeView {
    if e.len() == 0 {
        NoticeView::Nothing
    } else {
        NoticeView::FlushFailed(e)
    }
}

impl WowView {
    /// Before the first command: a fresh state, no workspace.
    pub open spec fn initial() -> WowView {
        WowView {
            command: CommandView::Check,
            config: ConfigView::initial(),
            working_space: Seq::empty(),
            phase: Phase::Idle,
            daemon: false,
            stamp: 0,
        }
    }

    /// The image file of the update attempt in hand.
    pub open spec fn new_image(self) -> Seq<char> {
        image_file(self.working_space, self.stamp / (NANOS_PER_SEC as nat))
    }

    /// With a fresh state, and out of the daemon loop.
    pub open spec fn reset(self) -> WowView {
        WowView { config: ConfigView::initial(), daemon: false, ..self }
    }

    /// The command ends.
    pub open spec fn left(self, notice: NoticeView) -> (WowView, OutputView) {
        (
            WowView { phase: Phase::Idle, daemon: false, ..self },
            OutputView { notice, effect: EffectView::Exit },
        )
    }

    /// An update attempt ends: the daemon pauses, a single command ends.
    pub open spec fn settled(self, notice: NoticeView) -> (WowView, OutputView) {
        if self.daemon {
            (
                WowView { phase: Phase::Sleeping, ..self },
                OutputView { notice, effect: EffectView::Sleep { seconds: POLL_SECONDS as nat } },
            )
        } else {
            self.left(notice)
        }
    }

    /// The state in memory is written to the state file, and `phase` waits
    /// for the outcome.
    pub open spec fn flushing(self, notice: NoticeView, phase: Phase) -> (WowView, OutputView) {
        (
            WowView { phase, ..self },
            OutputView {
                notice,
                effect: EffectView::Flush {
                    path: state_file(self.working_space),
                    encoded: self.config.encoding(),
                },
            },
        )
    }

    /// A command begins: the arguments are read and the state file is asked
    /// for.
    pub open spec fn begun(self, args: Seq<Seq<char>>) -> (WowView, OutputView) {
        (
            WowView { command: command_of(args), phase: Phase::Loading, daemon: false, ..self },
            OutputView {
                notice: NoticeView::Nothing,
                effect: EffectView::ReadState { path: state_file(self.working_space) },
            },
        )
    }

    /// An update attempt at `now`. A clock that lies before the last update
    /// is corrected first: the time of the last update becomes `now`, the
    /// state is written, and nothing is fetched. Otherwise the fetch begins
    /// if an update is due, or is forced by `anyway`.
    pub open spec fn attempted(self, now: nat, anyway: bool) -> (WowView, OutputView) {
        if now < self.config.last_update_at {
            WowView { config: ConfigView { last_update_at: now, ..self.config }, ..self }.flushing(
                NoticeView::TimeReset,
                Phase::Committing,
            )
        } else if due(now, self.config.last_update_at, self.config.interval, anyway) {
            (
                WowView { phase: Phase::Resolving, stamp: now, ..self },
                OutputView {
                    notice: NoticeView::Nothing,
                    effect: EffectView::Resolve { url: url_of(self.config.source) },
                },
            )
        } else {
            self.settled(NoticeView::NotDue)
        }
    }

    /// The new image becomes the current one and the helper is asked to
    /// apply it.
    pub open spec fn applying(self) -> (WowView, OutputView) {
        (
            WowView {
                config: ConfigView { current_image_path: self.new_image(), ..self.config },
                phase: Phase::Applying,
                ..self
            },
            OutputView {
                notice: NoticeView::Nothing,
                effect: EffectView::Apply {
                    helper: helper_file(self.working_space),
                    image: self.new_image(),
                },
            },
        )
    }

    /// The new image is on disk: the previous one, if there is one, is
    /// removed before the new one is applied. Where the new image has taken
    /// the place of the previous one, under the same name, nothing is
    /// removed: the image that has just been written is never lost to the
    /// cleanup.
    pub open spec fn stored(self) -> (WowView, OutputView) {
        if self.config.current_image_path.len() > 0 && self.config.current_image_path
            != self.new_image() {
            (
                WowView { phase: Phase::Removing, ..self },
                OutputView {
                    notice: NoticeView::Nothing,
                    effect: EffectView::RemoveImage { path: self.config.current_image_path },
                },
            )
        } else {
            self.applying()
        }
    }

    /// One step of an update attempt: resolve, download, write, remove the
    /// previous image, apply, commit. A failure before the image is written
    /// ends the attempt and leaves the state as it was. Once the helper has
    /// run, well or not, the time of the last update becomes the time of the
    /// attempt and the state is written.
    pub open spec fn advanced(self, event: EventView) -> (WowView, OutputView) {
        match (self.phase, event) {
            (Phase::Resolving, EventView::Resolved(Ok(url))) => (
                WowView { phase: Phase::Downloading, ..self },
                OutputView { notice: NoticeView::Nothing, effect: EffectView::Download { url } },
            ),
            (Phase::Resolving, EventView::Resolved(Err(e))) => self.settled(
                NoticeView::FetchFailed(e),
            ),
            (Phase::Downloading, EventView::Downloaded(Ok(bytes))) => (
                WowView { phase: Phase::Storing, ..self },
                OutputView {
                    notice: NoticeView::Nothing,
                    effect: EffectView::WriteImage { path: self.new_image(), bytes },
                },
            ),
            (Phase::Downloading, EventView::Downloaded(Err(e))) => self.settled(
                NoticeView::FetchFailed(e),
            ),
            (Phase::Storing, EventView::Finished(e)) => if e.len() == 0 {
                self.stored()
            } else {
                self.settled(NoticeView::StoreFailed(e))
            },
            (Phase::Removing, EventView::Finished(_)) => self.applying(),
            (Phase::Applying, EventView::Finished(e)) => WowView {
                config: ConfigView { last_update_at: self.stamp, ..self.config },
                ..self
            }.flushing(
                if e.len() == 0 {
                    NoticeView::Updated
                } else {
                    NoticeView::HelperFailed(e)
                },
                Phase::Committing,
            ),
            (Phase::Committing, EventView::Finished(e)) => self.settled(flush_notice(e)),
            _ => self.left(NoticeView::Nothing),
        }
    }

    /// The daemon starts, unless one is marked as running already: the state
    /// is marked as running, with no stop asked for, and written.
    pub open spec fn started(self) -> (WowView, OutputView) {
        if self.config.running {
            self.left(NoticeView::AlreadyRunning)
        } else {
            WowView {
                config: ConfigView { running: true, stop_requested: false, ..self.config },
                daemon: true,
                ..self
            }.flushing(NoticeView::Nothing, Phase::Starting)
        }
    }

    /// The state file has been read again after a pause of the daemon. A
    /// file that fails to load ends the loop with a fresh state; a stop that
    /// was asked for ends it with both flags cleared; otherwise the next
    /// attempt is made with what the file holds.
    pub open spec fn reloaded(self, now: nat, file: Option<Seq<u8>>) -> (WowView, OutputView) {
        match file_state(file) {
            Some(config) => if config.stop_requested {
                WowView {
                    config: ConfigView { running: false, stop_requested: false, ..config },
                    daemon: false,
                    ..self
                }.flushing(NoticeView::Exiting, Phase::Closing)
            } else {
                WowView { config, ..self }.attempted(now, false)
            },
            None => self.reset().flushing(NoticeView::Nothing, Phase::Closing),
        }
    }

    /// One step of the daemon loop between two update attempts.
    pub open spec fn cycled(self, now: nat, event: EventView) -> (WowView, OutputView) {
        match (self.phase, event) {
            (Phase::Starting, EventView::Finished(e)) => if e.len() == 0 {
                self.attempted(now, false)
            } else {
                self.reset().flushing(NoticeView::FlushFailed(e), Phase::Closing)
            },
            (Phase::Sleeping, EventView::Finished(_)) => (
                WowView { phase: Phase::Reloading, ..self },
                OutputView {
                    notice: NoticeView::Nothing,
                    effect: EffectView::ReadState { path: state_file(self.working_space) },
                },
            ),
            (Phase::Reloading, EventView::StateRead(file)) => self.reloaded(now, file),
            _ => self.left(NoticeView::Nothing),
        }
    }

    /// A stop is asked for: the state is marked as not running, with a stop
    /// asked for, and written at once.
    pub open spec fn stopped(self) -> (WowView, OutputView) {
        WowView {
            config: ConfigView { running: false, stop_requested: true, ..self.config },
            daemon: false,
            ..self
        }.flushing(NoticeView::Nothing, Phase::Stopping)
    }

    /// The write that marks the daemon as stopped has ended. Where it
    /// failed, a fresh state is written in its place.
    pub open spec fn halted(self, event: EventView) -> (WowView, OutputView) {
        match event {
            EventView::Finished(e) => if e.len() == 0 {
                self.left(NoticeView::Nothing)
            } else {
                self.reset().flushing(NoticeView::FlushFailed(e), Phase::Closing)
            },
            _ => self.left(NoticeView::Nothing),
        }
    }

    /// How `freq` is used is shown, with the time left until the next
    /// update. A clock that lies before the last update is corrected as in
    /// an update attempt.
    pub open spec fn frequency_usage(self, now: nat, cause: Seq<char>) -> (WowView, OutputView) {
        if now < self.config.last_update_at {
            WowView { config: ConfigView { last_update_at: now, ..self.config }, ..self }.flushing(
                NoticeView::FrequencyUsage { cause, left: None },
                Phase::Committing,
            )
        } else {
            self.left(
                NoticeView::FrequencyUsage {
                    cause,
                    left: Some(
                        countdown_at(now, self.config.last_update_at, self.config.interval),
                    ),
                },
            )
        }
    }

    /// The hours of `freq` have been converted. A positive number of seconds
    /// becomes the interval and the state is written; zero, and what is no
    /// number, is refused and changes nothing.
    pub open spec fn converted(self, now: nat, event: EventView) -> (WowView, OutputView) {
        match event {
            EventView::Converted(Ok(seconds)) => if seconds > 0 {
                WowView { config: ConfigView { interval: seconds, ..self.config }, ..self }.flushing(
                    NoticeView::Nothing,
                    Phase::SavingInterval,
                )
            } else {
                self.frequency_usage(now, Seq::empty())
            },
            EventView::Converted(Err(e)) => self.frequency_usage(now, e),
            _ => self.left(NoticeView::Nothing),
        }
    }

    /// The write of a new setting has ended: the user is told that the
    /// interval, or the source, has been stored, or why it could not be.
    pub open spec fn saved(self, event: EventView) -> (WowView, OutputView) {
        match event {
            EventView::Finished(e) => self.left(
                if e.len() > 0 {
                    NoticeView::FlushFailed(e)
                } else if self.phase == Phase::SavingInterval {
                    NoticeView::IntervalSet
                } else {
                    NoticeView::SourceSet
                },
            ),
            _ => self.left(NoticeView::Nothing),
        }
    }

    /// The command in hand is taken up, with the state loaded.
    pub open spec fn dispatched(self, now: nat) -> (WowView, OutputView) {
        match self.command {
            CommandView::Check => self.attempted(now, false),
            CommandView::Update => self.attempted(now, true),
            CommandView::Help => self.left(NoticeView::Help),
            CommandView::Tip => self.left(NoticeView::Tip),
            CommandView::Bye => self.left(NoticeView::Bye),
            CommandView::Run => self.started(),
            CommandView::Stop => self.stopped(),
            CommandView::FrequencyUsage => self.frequency_usage(now, Seq::empty()),
            CommandView::Frequency(hours) => (
                WowView { phase: Phase::Converting, ..self },
                OutputView { notice: NoticeView::Nothing, effect: EffectView::Convert { hours } },
            ),
            CommandView::SourceUsage => self.left(NoticeView::SourceUsage { rejected: None }),
            CommandView::SourceRejected(text) => self.left(
                NoticeView::SourceUsage { rejected: Some(text) },
            ),
            CommandView::Source(selector) => WowView {
                config: ConfigView { source: selector, ..self.config },
                ..self
            }.flushing(NoticeView::Nothing, Phase::SavingSource),
        }
    }

    /// The state file has been read at the start of a command. Where it
    /// fails to load, the state is reset and the fresh state is written
    /// before the command is taken up.
    pub open spec fn loaded(self, now: nat, event: EventView) -> (WowView, OutputView) {
        match (self.phase, event) {
            (Phase::Loading, EventView::StateRead(file)) => match file_state(file) {
                Some(config) => WowView { config, ..self }.dispatched(now),
                None => WowView { config: ConfigView::initial(), ..self }.flushing(
                    NoticeView::Nothing,
                    Phase::Restoring,
                ),
            },
            (Phase::Restoring, EventView::Finished(e)) => if e.len() == 0 {
                self.dispatched(now)
            } else {
                self.left(NoticeView::FlushFailed(e))
            },
            _ => self.left(NoticeView::Nothing),
        }
    }

    /// One step: the state and the output that follow when `event` arrives
    /// at `now`. An answer that the phase does not wait for ends the command.
    pub open spec fn next(self, now: nat, event: EventView) -> (WowView, OutputView) {
        match self.phase {
            Phase::Idle => self.left(NoticeView::Nothing),
            Phase::Loading => self.loaded(now, event),
            Phase::Restoring => self.loaded(now, event),
            Phase::Resolving => self.advanced(event),
            Phase::Downloading => self.advanced(event),
            Phase::Storing => self.advanced(event),
            Phase::Removing => self.advanced(event),
            Phase::Applying => self.advanced(event),
            Phase::Committing => self.advanced(event),
            Phase::Starting => self.cycled(now, event),
            Phase::Sleeping => self.cycled(now, event),
            Phase::Reloading => self.cycled(now, event),
            Phase::Stopping => self.halted(event),
            Phase::Closing => self.left(NoticeView::Nothing),
            Phase::Converting => self.converted(now, event),
            Phase::SavingInterval => self.saved(event),
            Phase::SavingSource => self.saved(event),
        }
    }
}

/// Whether a request hands out what its caller can rely on. A request to
/// write the state carries bytes that hold `config`, or a complaint that is
/// not the empty message, so that it cannot be taken for success. Of any
/// other request this asks nothing.
pub open spec fn flush_holds(effect: Effect, config: ConfigView) -> bool {
    match effect {
        Effect::Flush { path, encoded } => match encoded {
            Ok(bytes) => decoding(bytes@) == Some(config),
            Err(e) => e@.len() > 0,
        },
        _ => true,
    }
}

impl Wow {
    /// The updater before its first command: a fresh state, no workspace.
    pub fn new() -> (w: Wow)
        ensures
            w@ == WowView::initial(),
    {
        Wow {
            command: Command::Check,
            config: Config::default(),
            working_space: String::new(),
            phase: Phase::Idle,
            daemon: false,
            stamp: Timestamp::epoch(),
        }
    }

    /// Takes the directory of the running executable as the workspace.
    /// Returns `false`, and changes nothing, where there is none: the caller
    /// then has to give up before any state is touched.
    pub fn init_workspace(&mut self, dir: Option<String>) -> (found: bool)
        ensures
            found == (dir is Some),
            dir matches Some(d) ==> final(self)@ == (WowView {
                working_space: d@,
                ..old(self)@
            }),
            dir is None ==> final(self)@ == old(self)@,
    {
        match dir {
            Some(d) => {
                self.working_space = d;
                true
            },
            None => false,
        }
    }

    /// The persisted state as it is in memory.
    pub fn config(&self) -> (c: &Config)
        ensures
            c@ == self@.config,
    {
        &self.config
    }

    /// The workspace.
    pub fn working_space(&self) -> (dir: &str)
        ensures
            dir@ == self@.working_space,
    {
        self.working_space.as_str()
    }

    /// What the engine is waiting for.
    pub fn phase(&self) -> (p: Phase)
        ensures
            p == self@.phase,
    {
        self.phase
    }

    /// Ends the command.
    fn leave(&mut self, notice: Notice) -> (out: Output)
        ensures
            (final(self)@, out@) == old(self)@.left(notice@),
            flush_holds(out.effect, final(self)@.config),
    {
        self.phase = Phase::Idle;
        self.daemon = false;
        Output { notice, effect: Effect::Exit }
    }

    /// Ends an update attempt: the daemon pauses, a single command ends.
    fn settle(&mut self, notice: Notice) -> (out: Output)
        ensures
            (final(self)@, out@) == old(self)@.settled(notice@),
            flush_holds(out.effect, final(self)@.config),
    {
        if self.daemon {
            self.phase = Phase::Sleeping;
            Output { notice, effect: Effect::Sleep { seconds: POLL_SECONDS } }
        } else {
            self.leave(notice)
        }
    }

    /// Has the state in memory written, and waits for the outcome in `phase`.
    fn flush_to(&mut self, notice: Notice, phase: Phase) -> (out: Output)
        ensures
            (final(self)@, out@) == old(self)@.flushing(notice@, phase),
            out.effect matches Effect::Flush { encoded: Err(e), .. } ==> e@.len() > 0,
            out.effect matches Effect::Flush { encoded: Ok(b), .. } ==> decoding(b@) == Some(
                final(self)@.config,
            ),
    {
        self.phase = phase;
        let encoded = self.config.flush();
        Output {
            notice,
            effect: Effect::Flush { path: state_path(self.working_space.as_str()), encoded },
        }
    }

    /// Goes back to a fresh state, out of the daemon loop.
    fn reset(&mut self)
        ensures
            final(self)@ == old(self)@.reset(),
    {
        self.config = Config::default();
        self.daemon = false;
    }

    /// Replaces the state in memory by the one that the state file holds.
    /// Where the file could not be read or holds no valid state, the state
    /// in memory becomes a fresh one and `false` is returned.
    pub fn load_config(&mut self, file: Option<Vec<u8>>) -> (ok: bool)
        ensures
            ok == (file_state(event_file(file)) is Some),
            final(self)@ == (WowView {
                config: match file_state(event_file(file)) {
                    Some(config) => config,
                    None => ConfigView::initial(),
                },
                ..old(self)@
            }),
    {
        let ok = match file {
            Some(bytes) => self.config.load(bytes.as_slice()),
            None => false,
        };
        if !ok {
            self.config = Config::default();
        }
        ok
    }

    /// Begins a command: reads the arguments of the process and asks for the
    /// state file.
    pub fn run(&mut self, args: &Vec<String>) -> (out: Output)
        ensures
            (final(self)@, out@) == old(self)@.begun(texts(args@)),
    {
        self.command = Command::parse(args);
        self.phase = Phase::Loading;
        self.daemon = false;
        Output {
            notice: Notice::Nothing,
            effect: Effect::ReadState { path: state_path(self.working_space.as_str()) },
        }
    }

    /// Asks the daemon to stop: marks the state as not running, with a stop
    /// asked for, and has it written at once. May be called in any phase; a
    /// request that was in flight is abandoned.
    pub fn _stop(&mut self) -> (out: Output)
        ensures
            (final(self)@, out@) == old(self)@.stopped(),
            out.effect matches Effect::Flush { encoded: Err(e), .. } ==> e@.len() > 0,
            out.effect matches Effect::Flush { encoded: Ok(b), .. } ==> decoding(b@) == Some(
                final(self)@.config,
            ),
    {
        self.config.set_daemon_flags(false, true);
        self.daemon = false;
        self.flush_to(Notice::Nothing, Phase::Stopping)
    }

    /// Takes the outcome of the write that marks the daemon as stopped.
    fn halt(&mut self, event: Event) -> (out: Output)
        ensures
            (final(self)@, out@) == old(self)@.halted(event@),
            flush_holds(out.effect, final(self)@.config),
    {
        match event {
            Event::Finished(e) => {
                if e.is_empty() {
                    self.leave(Notice::Nothing)
                } else {
                    self.reset();
                    self.flush_to(Notice::FlushFailed(e), Phase::Closing)
                }
            },
            _ => self.leave(Notice::Nothing),
        }
    }

    /// Begins an update attempt at `now`: corrects a clock that went back,
    /// or begins the fetch if an update is due or `anyway` is set. May be
    /// called in any phase; a request that was in flight is abandoned.
    pub fn try_update(&mut self, now: Timestamp, anyway: bool) -> (out: Output)
        ensures
            (final(self)@, out@) == old(self)@.attempted(now@, anyway),
            out.effect matches Effect::Flush { encoded: Err(e), .. } ==> e@.len() > 0,
            out.effect matches Effect::Flush { encoded: Ok(b), .. } ==> decoding(b@) == Some(
                final(self)@.config,
            ),
    {
        let last = self.config.get_update_at();
        if now.precedes(&last) {
            self.config.set_update_at(now);
            self.flush_to(Notice::TimeReset, Phase::Committing)
        } else if is_due(now, last, self.config.get_freq(), anyway) {
            self.phase = Phase::Resolving;
            self.stamp = now;
            Output {
                notice: Notice::Nothing,
                effect: Effect::Resolve { url: String::from_str(self.config.get_url()) },
            }
        } else {
            self.settle(Notice::NotDue)
        }
    }

    /// Makes the new image the current one and asks the helper to apply it.
    fn apply(&mut self) -> (out: Output)
        ensures
            (final(self)@, out@) == old(self)@.applying(),
            flush_holds(out.effect, final(self)@.config),
    {
        let image = image_path(self.working_space.as_str(), self.stamp.secs());
        self.config.set_cur_img(image.as_str());
        self.phase = Phase::Applying;
        Output {
            notice: Notice::Nothing,
            effect: Effect::Apply { helper: helper_path(self.working_space.as_str()), image },
        }
    }

    /// Asks for the removal of the previous image, if there is one and it is
    /// not the file that has just been written, now that the new one is on
    /// disk.
    fn delete_pre_img(&mut self) -> (out: Output)
        ensures
            (final(self)@, out@) == old(self)@.stored(),
            flush_holds(out.effect, final(self)@.config),
    {
        let previous = String::from_str(self.config.get_cur_img());
        let image = image_path(self.working_space.as_str(), self.stamp.secs());
        if previous.as_str().is_empty() || previous == image {
            self.apply()
        } else {
            self.phase = Phase::Removing;
            Output { notice: Notice::Nothing, effect: Effect::RemoveImage { path: previous } }
        }
    }

    /// Takes one answer of an update attempt: the address, the bytes, and
    /// the outcomes of the write, the removal, the helper and the commit.
    fn update_paper(&mut self, event: Event) -> (out: Output)
        ensures
            (final(self)@, out@) == old(self)@.advanced(event@),
            flush_holds(out.effect, final(self)@.config),
    {
        match (self.phase, event) {
            (Phase::Resolving, Event::Resolved(Ok(url))) => {
                self.phase = Phase::Downloading;
                Output { notice: Notice::Nothing, effect: Effect::Download { url } }
            },
            (Phase::Resolving, Event::Resolved(Err(e))) => self.settle(Notice::FetchFailed(e)),
            (Phase::Downloading, Event::Downloaded(Ok(bytes))) => {
                self.phase = Phase::Storing;
                let path = image_path(self.working_space.as_str(), self.stamp.secs());
                Output { notice: Notice::Nothing, effect: Effect::WriteImage { path, bytes } }
            },
            (Phase::Downloading, Event::Downloaded(Err(e))) => self.settle(
                Notice::FetchFailed(e),
            ),
            (Phase::Storing, Event::Finished(e)) => {
                if e.is_empty() {
                    self.delete_pre_img()
                } else {
                    self.settle(Notice::StoreFailed(e))
                }
            },
            (Phase::Removing, Event::Finished(_)) => self.apply(),
            (Phase::Applying, Event::Finished(e)) => {
                self.config.set_update_at(self.stamp);
                let notice = if e.is_empty() {
                    Notice::Updated
                } else {
                    Notice::HelperFailed(e)
                };
                self.flush_to(notice, Phase::Committing)
            },
            (Phase::Committing, Event::Finished(e)) => {
                let notice = if e.is_empty() {
                    Notice::Nothing
                } else {
                    Notice::FlushFailed(e)
                };
                self.settle(notice)
            },
            _ => self.leave(Notice::Nothing),
        }
    }

    /// Starts the daemon loop, unless one is marked as running.
    fn start(&mut self) -> (out: Output)
        ensures
            (final(self)@, out@) == old(self)@.started(),
            flush_holds(out.effect, final(self)@.config),
    {
        if self.config.is_working() {
            self.leave(Notice::AlreadyRunning)
        } else {
            self.config.set_daemon_flags(true, false);
            self.daemon = true;
            self.flush_to(Notice::Nothing, Phase::Starting)
        }
    }

    /// Takes the state file as it is after a pause of the daemon.
    fn reload(&mut self, now: Timestamp, file: Option<Vec<u8>>) -> (out: Output)
        ensures
            (final(self)@, out@) == old(self)@.reloaded(now@, event_file(file)),
            flush_holds(out.effect, final(self)@.config),
    {
        if self.load_config(file) {
            if self.config.is_ask_stop() {
                self.config.set_daemon_flags(false, false);
                self.daemon = false;
                self.flush_to(Notice::Exiting, Phase::Closing)
            } else {
                self.try_update(now, false)
            }
        } else {
            self.daemon = false;
            self.flush_to(Notice::Nothing, Phase::Closing)
        }
    }

    /// Takes one answer of the daemon loop between two update attempts.
    fn _run(&mut self, now: Timestamp, event: Event) -> (out: Output)
        ensures
            (final(self)@, out@) == old(self)@.cycled(now@, event@),
            flush_holds(out.effect, final(self)@.config),
    {
        match (self.phase, event) {
            (Phase::Starting, Event::Finished(e)) => {
                if e.is_empty() {
                    self.try_update(now, false)
                } else {
                    self.reset();
                    self.flush_to(Notice::FlushFailed(e), Phase::Closing)
                }
            },
            (Phase::Sleeping, Event::Finished(_)) => {
                self.phase = Phase::Reloading;
                Output {
                    notice: Notice::Nothing,
                    effect: Effect::ReadState { path: state_path(self.working_space.as_str()) },
                }
            },
            (Phase::Reloading, Event::StateRead(file)) => self.reload(now, file),
            _ => self.leave(Notice::Nothing),
        }
    }

    /// Shows how `freq` is used, with the time left until the next update.
    fn print_info(&mut self, now: Timestamp, cause: ErrInfo) -> (out: Output)
        ensures
            (final(self)@, out@) == old(self)@.frequency_usage(now@, cause@),
            flush_holds(out.effect, final(self)@.config),
    {
        match countdown(now, self.config.get_update_at(), self.config.get_freq()) {
            None => {
                self.config.set_update_at(now);
                self.flush_to(Notice::FrequencyUsage { cause, left: None }, Phase::Committing)
            },
            Some(left) => self.leave(Notice::FrequencyUsage { cause, left: Some(left) }),
        }
    }

    /// Stores an interval of `seconds` seconds, unless it is zero.
    fn _set_update_frequance(&mut self, now: Timestamp, seconds: usize) -> (out: Output)
        ensures
            (final(self)@, out@) == old(self)@.converted(
                now@,
                EventView::Converted(Ok(seconds as nat)),
            ),
            flush_holds(out.effect, final(self)@.config),
    {
        if self.config.set_freq(seconds) {
            self.flush_to(Notice::Nothing, Phase::SavingInterval)
        } else {
            self.print_info(now, ErrInfo::empty())
        }
    }

    /// Takes the seconds that the hours of `freq` amount to: a positive
    /// number becomes the interval, and the state that holds it is to be
    /// written; zero, and hours that are no number, change nothing. May be
    /// called in any phase; a request that was in flight is abandoned.
    pub fn set_update_frequance(&mut self, now: Timestamp, event: Event) -> (out: Output)
        ensures
            (final(self)@, out@) == old(self)@.converted(now@, event@),
            out.effect matches Effect::Flush { encoded: Err(e), .. } ==> e@.len() > 0,
            out.effect matches Effect::Flush { encoded: Ok(b), .. } ==> decoding(b@) == Some(
                final(self)@.config,
            ),
    {
        match event {
            Event::Converted(Ok(seconds)) => self._set_update_frequance(now, seconds),
            Event::Converted(Err(e)) => self.print_info(now, e),
            _ => self.leave(Notice::Nothing),
        }
    }

    /// Stores a source selector.
    fn set_img_souce(&mut self, selector: u8) -> (out: Output)
        ensures
            (final(self)@, out@) == (WowView {
                config: ConfigView { source: selector, ..old(self)@.config },
                ..old(self)@
            }).flushing(NoticeView::Nothing, Phase::SavingSource),
            flush_holds(out.effect, final(self)@.config),
    {
        self.config.set_url(selector);
        self.flush_to(Notice::Nothing, Phase::SavingSource)
    }

    /// Takes the outcome of the write of a new setting.
    fn save(&mut self, event: Event) -> (out: Output)
        ensures
            (final(self)@, out@) == old(self)@.saved(event@),
            flush_holds(out.effect, final(self)@.config),
    {
        match event {
            Event::Finished(e) => {
                let notice = if !e.is_empty() {
                    Notice::FlushFailed(e)
                } else {
                    match self.phase {
                        Phase::SavingInterval => Notice::IntervalSet,
                        _ => Notice::SourceSet,
                    }
                };
                self.leave(notice)
            },
            _ => self.leave(Notice::Nothing),
        }
    }

    /// Takes up the command in hand.
    fn dispatch(&mut self, now: Timestamp) -> (out: Output)
        ensures
            (final(self)@, out@) == old(self)@.dispatched(now@),
            flush_holds(out.effect, final(self)@.config),
    {
        match &self.command {
            Command::Check => self.try_update(now, false),
            Command::Update => self.try_update(now, true),
            Command::Help => self.leave(Notice::Help),
            Command::Tip => self.leave(Notice::Tip),
            Command::Bye => self.leave(Notice::Bye),
            Command::Run => self.start(),
            Command::Stop => self._stop(),
            Command::FrequencyUsage => self.print_info(now, ErrInfo::empty()),
            Command::Frequency(hours) => {
                let hours = hours.clone();
                self.phase = Phase::Converting;
                Output { notice: Notice::Nothing, effect: Effect::Convert { hours } }
            },
            Command::SourceUsage => self.leave(Notice::SourceUsage { rejected: None }),
            Command::SourceRejected(text) => {
                let text = text.clone();
                self.leave(Notice::SourceUsage { rejected: Some(text) })
            },
            Command::Source(selector) => {
                let selector = *selector;
                self.set_img_souce(selector)
            },
        }
    }

    /// Takes the state file at the start of a command, or the outcome of
    /// the write that replaced it.
    fn load(&mut self, now: Timestamp, event: Event) -> (out: Output)
        ensures
            (final(self)@, out@) == old(self)@.loaded(now@, event@),
            flush_holds(out.effect, final(self)@.config),
    {
        match (self.phase, event) {
            (Phase::Loading, Event::StateRead(file)) => {
                if self.load_config(file) {
                    self.dispatch(now)
                } else {
                    self.flush_to(Notice::Nothing, Phase::Restoring)
                }
            },
            (Phase::Restoring, Event::Finished(e)) => {
                if e.is_empty() {
                    self.dispatch(now)
                } else {
                    self.leave(Notice::FlushFailed(e))
                }
            },
            _ => self.leave(Notice::Nothing),
        }
    }

    /// Continues the command with the answer to the last request. `now` is
    /// the time at which the answer arrived. Where the next request is to
    /// write the state, its bytes hold the state as it now is in memory; a
    /// state that could not be encoded comes with a complaint that is not
    /// the empty message, which the caller hands back as the answer.
    pub fn step(&mut self, now: Timestamp, event: Event) -> (out: Output)
        ensures
            (final(self)@, out@) == old(self)@.next(now@, event@),
            out.effect matches Effect::Flush { encoded: Err(e), .. } ==> e@.len() > 0,
            out.effect matches Effect::Flush { encoded: Ok(b), .. } ==> decoding(b@) == Some(
                final(self)@.config,
            ),
    {
        match self.phase {
            Phase::Idle => self.leave(Notice::Nothing),
            Phase::Loading => self.load(now, event),
            Phase::Restoring => self.load(now, event),
            Phase::Resolving => self.update_paper(event),
            Phase::Downloading => self.update_paper(event),
            Phase::Storing => self.update_paper(event),
            Phase::Removing => self.update_paper(event),
            Phase::Applying => self.update_paper(event),
            Phase::Committing => self.update_paper(event),
            Phase::Starting => self._run(now, event),
            Phase::Sleeping => self._run(now, event),
            Phase::Reloading => self._run(now, event),
            Phase::Stopping => self.halt(event),
            Phase::Closing => self.leave(Notice::Nothing),
            Phase::Converting => self.set_update_frequance(now, event),
            Phase::SavingInterval => self.save(event),
            Phase::SavingSource => self.save(event),
        }
    }
}

/// The bytes of the state file as an answer gives them.
pub open spec fn event_file(file: Option<Vec<u8>>) -> Option<Seq<u8>> {
    match file {
        Some(bytes) => Some(bytes@),
        None => None,
    }
}

} // verus!
