//! What holds of the engine whatever the caller answers.
use crate::clock::NANOS_PER_SEC;
use crate::command::CommandView;
use crate::config::{everyday_url, random_url, url_of, ConfigView};
use crate::machine::{EffectView, EventView, NoticeView, Phase};
use crate::paths::{image_file, lemma_image_file_injective, state_file};
use crate::wow::{file_state, WowView};
use vstd::prelude::*;

verus! {

/// The image files of the workspace once the caller has carried out
/// `effect`: a written image is there, a removed one is not.
pub open spec fn images_after(images: Set<Seq<char>>, effect: EffectView) -> Set<Seq<char>> {
    match effect {
        EffectView::WriteImage { path, bytes } => images.insert(path),
        EffectView::RemoveImage { path } => images.remove(path),
        _ => images,
    }
}

/// A forced update at `now` in which every request succeeds, but for the
/// helper, which ends with `helper`: the state after the last step, and the
/// image files that the workspace then holds if it held `images` before.
pub open spec fn updated(
    s: WowView,
    now: nat,
    url: Seq<char>,
    bytes: Seq<u8>,
    helper: Seq<char>,
    images: Set<Seq<char>>,
) -> (WowView, Set<Seq<char>>) {
    let ok = Seq::<char>::empty();
    let (resolving, _) = s.attempted(now, true);
    let (downloading, _) = resolving.next(now, EventView::Resolved(Ok(url)));
    let (storing, write) = downloading.next(now, EventView::Downloaded(Ok(bytes)));
    let written = images_after(images, write.effect);
    let (after_write, request) = storing.next(now, EventView::Finished(ok));
    let cleaned = images_after(written, request.effect);
    let (applying, _) = if request.effect is RemoveImage {
        after_write.next(now, EventView::Finished(ok))
    } else {
        (after_write, request)
    };
    let (committing, _) = applying.next(now, EventView::Finished(helper));
    let (done, _) = committing.next(now, EventView::Finished(ok));
    (done, cleaned)
}

/// Whether an update attempt has passed the check of the clock and has not
/// yet been committed.
pub open spec fn in_flight(phase: Phase) -> bool {
    phase == Phase::Resolving || phase == Phase::Downloading || phase == Phase::Storing || phase
        == Phase::Removing || phase == Phase::Applying
}

/// What the engine maintains: a valid state, an attempt time whose seconds
/// fit 64 bits, and, while an update attempt is in flight, an attempt time
/// that does not lie before the last update.
pub open spec fn well_formed(s: WowView) -> bool {
    &&& s.config.valid()
    &&& s.stamp / (NANOS_PER_SEC as nat) <= u64::MAX
    &&& in_flight(s.phase) ==> s.config.last_update_at <= s.stamp
}

/// A clock that lies before the last update is corrected, not obeyed: the
/// time of the last update becomes the present, the corrected state is
/// written, the user is told of the reset, and no fetch begins.
pub proof fn lemma_clock_regression_resets(s: WowView, now: nat, anyway: bool)
    requires
        now < s.config.last_update_at,
    ensures
        ({
            let (after, out) = s.attempted(now, anyway);
            &&& after.config == (ConfigView { last_update_at: now, ..s.config })
            &&& out.notice == NoticeView::TimeReset
            &&& out.effect == (EffectView::Flush {
                path: state_file(s.working_space),
                encoded: after.config.encoding(),
            })
            &&& after.phase == Phase::Committing
        }),
{
}

/// A fetch that fails, while resolving or while downloading, leaves the
/// state and the image files as they were, and the user is told why.
pub proof fn lemma_failed_fetch_changes_nothing(
    s: WowView,
    now: nat,
    cause: Seq<char>,
    images: Set<Seq<char>>,
)
    requires
        s.phase == Phase::Resolving || s.phase == Phase::Downloading,
    ensures
        ({
            let event = if s.phase == Phase::Resolving {
                EventView::Resolved(Err(cause))
            } else {
                EventView::Downloaded(Err(cause))
            };
            let (after, out) = s.next(now, event);
            &&& after.config == s.config
            &&& images_after(images, out.effect) == images
            &&& out.notice == NoticeView::FetchFailed(cause)
        }),
{
}

/// Until the new image has been written, nothing that arrives changes the
/// state: a fetch that is abandoned half way leaves no trace in it.
pub proof fn lemma_state_untouched_before_write(s: WowView, now: nat, event: EventView)
    requires
        s.phase == Phase::Resolving || s.phase == Phase::Downloading,
    ensures
        s.next(now, event).0.config == s.config,
{
}

/// During an update attempt the time of the last update changes in one
/// step only: when the helper has run, it becomes the time of the attempt,
/// which does not lie before it.
pub proof fn lemma_time_moves_only_on_commit(s: WowView, now: nat, event: EventView)
    requires
        well_formed(s),
        in_flight(s.phase),
    ensures
        ({
            let after = s.next(now, event).0;
            if s.phase == Phase::Applying && event is Finished {
                after.config.last_update_at == s.stamp && s.config.last_update_at <= s.stamp
            } else {
                after.config.last_update_at == s.config.last_update_at
            }
        }),
{
}

/// While a daemon is marked as running, a second one does not start, and
/// the state is left as it is.
pub proof fn lemma_second_daemon_refused(s: WowView, now: nat)
    requires
        s.command == CommandView::Run,
        s.config.running,
    ensures
        ({
            let (after, out) = s.dispatched(now);
            &&& after.config == s.config
            &&& !after.daemon
            &&& out.notice == NoticeView::AlreadyRunning
            &&& out.effect == EffectView::Exit
        }),
{
}

/// A daemon whose start could not be written does not run: the state is
/// reset, so that it is not marked as running.
pub proof fn lemma_failed_start_resets(s: WowView, now: nat, cause: Seq<char>)
    requires
        s.phase == Phase::Starting,
        cause.len() > 0,
    ensures
        ({
            let (after, out) = s.next(now, EventView::Finished(cause));
            &&& after.config == ConfigView::initial()
            &&& !after.config.running
            &&& !after.daemon
            &&& out.notice == NoticeView::FlushFailed(cause)
        }),
{
}

/// A stop that another invocation has written is obeyed at the next reload:
/// the loop ends, and the state is written with both flags cleared.
pub proof fn lemma_stop_request_ends_loop(s: WowView, now: nat, file: Option<Seq<u8>>)
    requires
        s.phase == Phase::Reloading,
        file_state(file) matches Some(config) && config.stop_requested,
    ensures
        ({
            let (after, out) = s.next(now, EventView::StateRead(file));
            &&& !after.daemon
            &&& !after.config.running
            &&& !after.config.stop_requested
            &&& out.notice == NoticeView::Exiting
            &&& out.effect == (EffectView::Flush {
                path: state_file(s.working_space),
                encoded: after.config.encoding(),
            })
            &&& after.next(now, EventView::Finished(Seq::empty())).1.effect == EffectView::Exit
        }),
{
}

/// An image that cannot be written leaves the state and the image files as
/// they were: nothing is removed for an image that is not there.
pub proof fn lemma_failed_write_changes_nothing(
    s: WowView,
    now: nat,
    cause: Seq<char>,
    images: Set<Seq<char>>,
)
    requires
        s.phase == Phase::Storing,
        cause.len() > 0,
    ensures
        ({
            let (after, out) = s.next(now, EventView::Finished(cause));
            &&& after.config == s.config
            &&& images_after(images, out.effect) == images
            &&& out.notice == NoticeView::StoreFailed(cause)
        }),
{
}

/// A helper that fails does not undo the update: the new image stays the
/// current one, the time of the last update is the time of the attempt, and
/// the state is written.
pub proof fn lemma_helper_failure_still_commits(s: WowView, now: nat, cause: Seq<char>)
    requires
        s.phase == Phase::Applying,
        cause.len() > 0,
    ensures
        ({
            let (after, out) = s.next(now, EventView::Finished(cause));
            &&& after.config == (ConfigView { last_update_at: s.stamp, ..s.config })
            &&& out.notice == NoticeView::HelperFailed(cause)
            &&& out.effect == (EffectView::Flush {
                path: state_file(s.working_space),
                encoded: after.config.encoding(),
            })
        }),
{
}

/// After an update that succeeds, the new image is the current one and the
/// time of the last update is the time of the attempt. If the workspace held
/// no image but the current one before, it holds the new image after, and no
/// other: the previous one has been removed, and the new one has not, also
/// where it was written under the name of the previous one.
pub proof fn lemma_update_replaces_image(
    s: WowView,
    now: nat,
    url: Seq<char>,
    bytes: Seq<u8>,
    helper: Seq<char>,
    images: Set<Seq<char>>,
)
    requires
        s.config.last_update_at <= now,
        forall|p: Seq<char>|
            images.contains(p) ==> p == s.config.current_image_path && p.len() > 0,
    ensures
        ({
            let (after, left) = updated(s, now, url, bytes, helper, images);
            let image = image_file(s.working_space, now / (NANOS_PER_SEC as nat));
            &&& after.config == (ConfigView {
                last_update_at: now,
                current_image_path: image,
                ..s.config
            })
            &&& after.working_space == s.working_space
            &&& left =~= set![image]
            &&& image.len() > 0
        }),
{
    reveal_strlit("/");
    let image = image_file(s.working_space, now / (NANOS_PER_SEC as nat));
    assert(image.len() > 0);
}

/// After two updates in a row that succeed, exactly one image is left: the
/// second one, which is the current one. The first has been removed, unless
/// the second was written in its place, in the same second and so under the
/// same name.
pub proof fn lemma_one_image_remains(
    s: WowView,
    first: nat,
    second: nat,
    url1: Seq<char>,
    bytes1: Seq<u8>,
    helper1: Seq<char>,
    url2: Seq<char>,
    bytes2: Seq<u8>,
    helper2: Seq<char>,
    images: Set<Seq<char>>,
)
    requires
        s.config.last_update_at <= first <= second,
        forall|p: Seq<char>|
            images.contains(p) ==> p == s.config.current_image_path && p.len() > 0,
    ensures
        ({
            let (between, kept) = updated(s, first, url1, bytes1, helper1, images);
            let (after, left) = updated(between, second, url2, bytes2, helper2, kept);
            let image1 = image_file(s.working_space, first / (NANOS_PER_SEC as nat));
            let image2 = image_file(s.working_space, second / (NANOS_PER_SEC as nat));
            &&& left =~= set![image2]
            &&& first / (NANOS_PER_SEC as nat) != second / (NANOS_PER_SEC as nat)
                ==> !left.contains(image1)
            &&& after.config.current_image_path == image2
            &&& left.contains(after.config.current_image_path)
            &&& after.config.last_update_at == second
        }),
{
    let (between, kept) = updated(s, first, url1, bytes1, helper1, images);
    let image1 = image_file(s.working_space, first / (NANOS_PER_SEC as nat));
    let image2 = image_file(s.working_space, second / (NANOS_PER_SEC as nat));
    lemma_update_replaces_image(s, first, url1, bytes1, helper1, images);
    lemma_update_replaces_image(between, second, url2, bytes2, helper2, kept);
    if image1 == image2 {
        lemma_image_file_injective(
            s.working_space,
            first / (NANOS_PER_SEC as nat),
            second / (NANOS_PER_SEC as nat),
        );
    }
}

/// The image that has just been written is never asked to be removed:
/// whatever the state, the step that follows the write removes at most the
/// previous image, under another name.
pub proof fn lemma_new_image_is_never_removed(s: WowView, now: nat, event: EventView)
    requires
        s.phase == Phase::Storing,
    ensures
        s.next(now, event).1.effect matches EffectView::RemoveImage { path } ==> path
            != s.new_image() && path == s.config.current_image_path && path.len() > 0,
{
}

/// A state file that fails to load at the start of a command is replaced by
/// a fresh state, which is written at once; when it has been written, the
/// command is taken up with the fresh state.
pub proof fn lemma_failed_load_restores_defaults(
    s: WowView,
    now: nat,
    file: Option<Seq<u8>>,
    later: nat,
)
    requires
        s.phase == Phase::Loading,
        file_state(file) is None,
    ensures
        ({
            let (restoring, out) = s.next(now, EventView::StateRead(file));
            &&& restoring.config == ConfigView::initial()
            &&& restoring.command == s.command
            &&& out.effect == (EffectView::Flush {
                path: state_file(s.working_space),
                encoded: ConfigView::initial().encoding(),
            })
            &&& restoring.next(later, EventView::Finished(Seq::empty())) == restoring.dispatched(
                later,
            )
        }),
{
}

/// An interval of zero seconds is refused and changes nothing: the state
/// stays as it is and nothing is written. (A clock that lies before the last
/// update is still corrected; the law speaks of a clock that does not.)
pub proof fn lemma_zero_interval_rejected(s: WowView, now: nat)
    requires
        s.phase == Phase::Converting,
        s.config.last_update_at <= now,
    ensures
        ({
            let (after, out) = s.next(now, EventView::Converted(Ok(0)));
            &&& after.config == s.config
            &&& out.effect == EffectView::Exit
            &&& out.notice is FrequencyUsage
        }),
{
}

/// An argument that is refused changes nothing: hours that are no number,
/// a source that is no selector, and `freq` or `from` without exactly one
/// argument leave the state as it is, write nothing, and end the command
/// with the usage. (As before, the law speaks of a clock that does not lie
/// before the last update.)
pub proof fn lemma_refused_argument_changes_nothing(s: WowView, now: nat, cause: Seq<char>)
    requires
        s.config.last_update_at <= now,
    ensures
        s.phase == Phase::Converting ==> ({
            let (after, out) = s.next(now, EventView::Converted(Err(cause)));
            &&& after.config == s.config
            &&& out.effect == EffectView::Exit
            &&& out.notice matches NoticeView::FrequencyUsage { cause: c, left } && c == cause
        }),
        s.command == CommandView::FrequencyUsage ==> ({
            let (after, out) = s.dispatched(now);
            &&& after.config == s.config
            &&& out.effect == EffectView::Exit
            &&& out.notice is FrequencyUsage
        }),
        s.command == CommandView::SourceUsage ==> ({
            let (after, out) = s.dispatched(now);
            &&& after.config == s.config
            &&& out.effect == EffectView::Exit
            &&& out.notice == (NoticeView::SourceUsage { rejected: None })
        }),
        s.command == CommandView::SourceRejected(cause) ==> ({
            let (after, out) = s.dispatched(now);
            &&& after.config == s.config
            &&& out.effect == EffectView::Exit
            &&& out.notice == (NoticeView::SourceUsage { rejected: Some(cause) })
        }),
{
}

/// A positive number of seconds becomes the interval, with every other
/// field kept, and the state that holds it is written; when it has been
/// written the user is told so, and the command ends with the state
/// unchanged.
pub proof fn lemma_positive_interval_stored(s: WowView, now: nat, seconds: nat, later: nat)
    requires
        s.phase == Phase::Converting,
        seconds > 0,
    ensures
        ({
            let (after, out) = s.next(now, EventView::Converted(Ok(seconds)));
            let (end, told) = after.next(later, EventView::Finished(Seq::empty()));
            &&& after.config == (ConfigView { interval: seconds, ..s.config })
            &&& out.effect == (EffectView::Flush {
                path: state_file(s.working_space),
                encoded: after.config.encoding(),
            })
            &&& end.config == after.config
            &&& told.notice == NoticeView::IntervalSet
            &&& told.effect == EffectView::Exit
        }),
{
}

/// A source selector that is given is stored as it is and written; from
/// then on an update that is due is fetched from the endpoint that the
/// selector stands for: the random archive for 1, the picture of the day
/// for 2.
pub proof fn lemma_source_selects_endpoint(s: WowView, now: nat, selector: u8, later: nat)
    requires
        s.command == CommandView::Source(selector),
    ensures
        ({
            let (after, out) = s.dispatched(now);
            let (_, fetch) = after.attempted(later, true);
            &&& after.config == (ConfigView { source: selector, ..s.config })
            &&& out.effect == (EffectView::Flush {
                path: state_file(s.working_space),
                encoded: after.config.encoding(),
            })
            &&& after.config.last_update_at <= later ==> fetch.effect == (EffectView::Resolve {
                url: url_of(selector),
            })
        }),
        url_of(1) == random_url(),
        url_of(2) == everyday_url(),
{
}

/// Whether an answer can come from a caller: its numbers fit the machine.
pub open spec fn plausible(event: EventView) -> bool {
    event matches EventView::Converted(Ok(seconds)) ==> seconds <= usize::MAX
}

/// Whether `phase` waits for the answer to `effect`.
pub open spec fn awaits(phase: Phase, effect: EffectView) -> bool {
    match effect {
        EffectView::ReadState { path } => phase == Phase::Loading || phase == Phase::Reloading,
        EffectView::Flush { path, encoded } => phase == Phase::Restoring || phase
            == Phase::Committing || phase == Phase::Starting || phase == Phase::Stopping || phase
            == Phase::Closing || phase == Phase::SavingInterval || phase == Phase::SavingSource,
        EffectView::Resolve { url } => phase == Phase::Resolving,
        EffectView::Download { url } => phase == Phase::Downloading,
        EffectView::WriteImage { path, bytes } => phase == Phase::Storing,
        EffectView::RemoveImage { path } => phase == Phase::Removing,
        EffectView::Apply { helper, image } => phase == Phase::Applying,
        EffectView::Sleep { seconds } => phase == Phase::Sleeping,
        EffectView::Convert { hours } => phase == Phase::Converting,
        EffectView::Exit => phase == Phase::Idle,
    }
}

/// The engine always waits for the answer to the request it has just made,
/// and for nothing once it has asked for none. Every state file, read or
/// written, is the state file of the workspace.
pub proof fn lemma_request_matches_phase(
    s: WowView,
    now: nat,
    event: EventView,
    args: Seq<Seq<char>>,
)
    ensures
        awaits(s.begun(args).0.phase, s.begun(args).1.effect),
        awaits(s.stopped().0.phase, s.stopped().1.effect),
        awaits(s.attempted(now, true).0.phase, s.attempted(now, true).1.effect),
        awaits(s.attempted(now, false).0.phase, s.attempted(now, false).1.effect),
        awaits(s.converted(now, event).0.phase, s.converted(now, event).1.effect),
        awaits(s.next(now, event).0.phase, s.next(now, event).1.effect),
        s.next(now, event).1.effect matches EffectView::Flush { path, encoded } ==> path
            == state_file(s.working_space) && encoded == s.next(now, event).0.config.encoding(),
        s.next(now, event).1.effect matches EffectView::ReadState { path } ==> path == state_file(
            s.working_space,
        ),
        s.next(now, event).0.working_space == s.working_space,
{
    lemma_attempt_awaits(s, now, false);
    lemma_attempt_awaits(s, now, true);
    lemma_dispatch_awaits(s, now);
    if let EventView::StateRead(file) = event {
        if let Some(config) = file_state(file) {
            lemma_attempt_awaits(WowView { config, ..s }, now, false);
            lemma_dispatch_awaits(WowView { config, ..s }, now);
        }
    }
}

proof fn lemma_attempt_awaits(s: WowView, now: nat, anyway: bool)
    ensures
        ({
            let (after, out) = s.attempted(now, anyway);
            &&& awaits(after.phase, out.effect)
            &&& after.working_space == s.working_space
            &&& out.effect matches EffectView::Flush { path, encoded } ==> path == state_file(
                s.working_space,
            ) && encoded == after.config.encoding()
            &&& !(out.effect is ReadState)
        }),
{
}

proof fn lemma_dispatch_awaits(s: WowView, now: nat)
    ensures
        ({
            let (after, out) = s.dispatched(now);
            &&& awaits(after.phase, out.effect)
            &&& after.working_space == s.working_space
            &&& out.effect matches EffectView::Flush { path, encoded } ==> path == state_file(
                s.working_space,
            ) && encoded == after.config.encoding()
            &&& !(out.effect is ReadState)
        }),
{
    lemma_attempt_awaits(s, now, false);
    lemma_attempt_awaits(s, now, true);
}

/// How many steps a command that is not the daemon loop takes at most from
/// `phase` until it ends.
pub open spec fn steps_left(phase: Phase) -> nat {
    match phase {
        Phase::Idle => 0,
        Phase::Closing => 1,
        Phase::SavingInterval => 1,
        Phase::SavingSource => 1,
        Phase::Committing => 1,
        Phase::Stopping => 2,
        Phase::Applying => 2,
        Phase::Removing => 3,
        Phase::Storing => 4,
        Phase::Downloading => 5,
        Phase::Resolving => 6,
        Phase::Converting => 7,
        Phase::Restoring => 8,
        Phase::Loading => 9,
        Phase::Starting => 7,
        Phase::Sleeping => 9,
        Phase::Reloading => 8,
    }
}

/// A command that is not the daemon loop comes to an end whatever the
/// caller answers: each step brings it nearer to the end, which it reaches
/// within nine steps of its beginning. A stop that is asked for ends within
/// two, an update attempt within six, a new interval within one.
pub proof fn lemma_command_ends(s: WowView, now: nat, event: EventView, args: Seq<Seq<char>>)
    ensures
        steps_left(s.begun(args).0.phase) == 9,
        steps_left(s.stopped().0.phase) == 2 && !s.stopped().0.daemon,
        !s.daemon ==> steps_left(s.attempted(now, true).0.phase) <= 6 && !s.attempted(
            now,
            true,
        ).0.daemon,
        !s.daemon ==> steps_left(s.converted(now, event).0.phase) <= 1 && !s.converted(
            now,
            event,
        ).0.daemon,
        s.phase != Phase::Idle && !s.next(now, event).0.daemon ==> steps_left(
            s.next(now, event).0.phase,
        ) < steps_left(s.phase),
        s.phase == Phase::Idle ==> s.next(now, event).0.phase == Phase::Idle,
        !s.daemon && s.phase != Phase::Loading && s.phase != Phase::Restoring ==> !s.next(
            now,
            event,
        ).0.daemon,
{
    lemma_attempt_ends(s, now, false);
    lemma_attempt_ends(s, now, true);
    lemma_dispatch_ends(s, now);
    if let EventView::StateRead(file) = event {
        if let Some(config) = file_state(file) {
            lemma_attempt_ends(WowView { config, ..s }, now, false);
            lemma_dispatch_ends(WowView { config, ..s }, now);
        }
    }
}

proof fn lemma_attempt_ends(s: WowView, now: nat, anyway: bool)
    ensures
        ({
            let after = s.attempted(now, anyway).0;
            &&& after.daemon == s.daemon
            &&& !after.daemon ==> steps_left(after.phase) <= 6
        }),
{
}

proof fn lemma_dispatch_ends(s: WowView, now: nat)
    ensures
        ({
            let after = s.dispatched(now).0;
            !after.daemon ==> steps_left(after.phase) <= 7
        }),
{
    lemma_attempt_ends(s, now, false);
    lemma_attempt_ends(s, now, true);
}

proof fn lemma_attempt_keeps_well_formed(s: WowView, now: nat, anyway: bool)
    requires
        s.config.valid(),
        s.stamp / (NANOS_PER_SEC as nat) <= u64::MAX,
        now / (NANOS_PER_SEC as nat) <= u64::MAX,
    ensures
        well_formed(s.attempted(now, anyway).0),
{
}

proof fn lemma_dispatch_keeps_well_formed(s: WowView, now: nat)
    requires
        s.config.valid(),
        s.stamp / (NANOS_PER_SEC as nat) <= u64::MAX,
        now / (NANOS_PER_SEC as nat) <= u64::MAX,
    ensures
        well_formed(s.dispatched(now).0),
{
    lemma_attempt_keeps_well_formed(s, now, false);
    lemma_attempt_keeps_well_formed(s, now, true);
}

proof fn lemma_load_keeps_well_formed(s: WowView, now: nat, event: EventView)
    requires
        well_formed(s),
        now / (NANOS_PER_SEC as nat) <= u64::MAX,
    ensures
        well_formed(s.loaded(now, event).0),
{
    lemma_dispatch_keeps_well_formed(s, now);
    if let EventView::StateRead(file) = event {
        if let Some(config) = file_state(file) {
            lemma_dispatch_keeps_well_formed(WowView { config, ..s }, now);
        }
    }
}

proof fn lemma_cycle_keeps_well_formed(s: WowView, now: nat, event: EventView)
    requires
        well_formed(s),
        now / (NANOS_PER_SEC as nat) <= u64::MAX,
    ensures
        well_formed(s.cycled(now, event).0),
{
    lemma_attempt_keeps_well_formed(s, now, false);
    if let EventView::StateRead(file) = event {
        if let Some(config) = file_state(file) {
            lemma_attempt_keeps_well_formed(WowView { config, ..s }, now, false);
        }
    }
}

/// The engine is well formed before its first command, and beginning a
/// command, asking for a stop, beginning an update attempt, taking a new
/// interval and every step keep it so.
pub proof fn lemma_well_formed_always(
    s: WowView,
    now: nat,
    event: EventView,
    args: Seq<Seq<char>>,
)
    requires
        well_formed(s),
        now / (NANOS_PER_SEC as nat) <= u64::MAX,
        plausible(event),
    ensures
        well_formed(WowView::initial()),
        well_formed(s.begun(args).0),
        well_formed(s.stopped().0),
        well_formed(s.attempted(now, true).0),
        well_formed(s.attempted(now, false).0),
        well_formed(s.converted(now, event).0),
        well_formed(s.next(now, event).0),
{
    lemma_attempt_keeps_well_formed(s, now, true);
    lemma_attempt_keeps_well_formed(s, now, false);
    lemma_load_keeps_well_formed(s, now, event);
    lemma_cycle_keeps_well_formed(s, now, event);
    assert(well_formed(s.advanced(event).0));
    assert(well_formed(s.converted(now, event).0));
}

} // verus!
