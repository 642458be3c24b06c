use std::collections::BTreeMap;
use wow::clock::Timestamp;
use wow::config::Config;
use wow::machine::{Effect, Event, Notice, Output, Phase};
use wow::report::ErrInfo;
use wow::wow::Wow;

const DIR: &str = "/opt/wow";
const STATE: &str = "/opt/wow/wow.conf";
const RANDOM: &str = "https://bing.img.run/rand_uhd.php";
const EVERYDAY: &str = "https://bing.img.run/uhd.php";

/// A stand-in for the world around the engine: a disk, a network, a helper.
struct Shell {
    files: BTreeMap<String, Vec<u8>>,
    resolved: Result<String, String>,
    body: Result<Vec<u8>, String>,
    helper: Result<(), String>,
    image_write: Result<(), String>,
    state_write: Result<(), String>,
    resolve_requests: Vec<String>,
    download_requests: Vec<String>,
    helper_runs: Vec<(String, String)>,
    removals: Vec<String>,
    sleeps: Vec<u64>,
    max_sleeps: usize,
    stop_during_sleep: bool,
}

fn outcome(r: &Result<(), String>) -> ErrInfo {
    match r {
        Ok(()) => ErrInfo::empty(),
        Err(e) => ErrInfo::new(e),
    }
}

impl Shell {
    fn new() -> Shell {
        Shell {
            files: BTreeMap::new(),
            resolved: Ok("https://cdn.example/2024-01-01.jpg".to_string()),
            body: Ok(vec![0xff, 0xd8, 0xff, 0xe0]),
            helper: Ok(()),
            image_write: Ok(()),
            state_write: Ok(()),
            resolve_requests: Vec::new(),
            download_requests: Vec::new(),
            helper_runs: Vec::new(),
            removals: Vec::new(),
            sleeps: Vec::new(),
            max_sleeps: 0,
            stop_during_sleep: false,
        }
    }

    fn images(&self) -> Vec<String> {
        self.files.keys().filter(|k| k.ends_with(".jpg")).cloned().collect()
    }

    fn state(&self) -> Config {
        let mut c = Config::default();
        assert!(c.load(&self.files[STATE]), "the state file holds a valid state");
        c
    }

    fn perform(&mut self, effect: Effect) -> Option<Event> {
        match effect {
            Effect::ReadState { path } => Some(Event::StateRead(self.files.get(&path).cloned())),
            Effect::Flush { path, encoded } => Some(Event::Finished(match encoded {
                Err(e) => e,
                Ok(bytes) => {
                    if self.state_write.is_ok() {
                        self.files.insert(path, bytes);
                    }
                    outcome(&self.state_write)
                }
            })),
            Effect::Resolve { url } => {
                self.resolve_requests.push(url);
                Some(Event::Resolved(match &self.resolved {
                    Ok(u) => Ok(u.clone()),
                    Err(e) => Err(ErrInfo::new(e)),
                }))
            }
            Effect::Download { url } => {
                self.download_requests.push(url);
                Some(Event::Downloaded(match &self.body {
                    Ok(b) => Ok(b.clone()),
                    Err(e) => Err(ErrInfo::new(e)),
                }))
            }
            Effect::WriteImage { path, bytes } => {
                if self.image_write.is_ok() {
                    self.files.insert(path, bytes);
                }
                Some(Event::Finished(outcome(&self.image_write)))
            }
            Effect::RemoveImage { path } => {
                self.removals.push(path.clone());
                let gone = self.files.remove(&path).is_some();
                Some(Event::Finished(if gone {
                    ErrInfo::empty()
                } else {
                    ErrInfo::new("no such file")
                }))
            }
            Effect::Apply { helper, image } => {
                self.helper_runs.push((helper, image));
                Some(Event::Finished(outcome(&self.helper)))
            }
            Effect::Sleep { seconds } => {
                self.sleeps.push(seconds);
                if self.sleeps.len() > self.max_sleeps {
                    return None;
                }
                if self.stop_during_sleep {
                    let mut other = Wow::new();
                    assert!(other.init_workspace(Some(DIR.to_string())));
                    let first = other.run(&args(&["stop"]));
                    let said = drive(&mut other, self, first, at(0));
                    assert_eq!(said, Vec::<Notice>::new());
                }
                Some(Event::Finished(ErrInfo::empty()))
            }
            Effect::Convert { hours } => Some(Event::Converted(match hours.parse::<f32>() {
                Ok(h) => Ok((h * 3600.0) as usize),
                Err(e) => Err(ErrInfo::new(&e.to_string())),
            })),
            Effect::Exit => None,
        }
    }
}

fn at(secs: u64) -> Timestamp {
    Timestamp::new(secs, 0).unwrap()
}

fn args(rest: &[&str]) -> Vec<String> {
    let mut v = vec!["wow".to_string()];
    v.extend(rest.iter().map(|s| s.to_string()));
    v
}

/// Carries out every request until the engine asks for none, and gives what
/// the user was told on the way.
fn drive(wow: &mut Wow, shell: &mut Shell, first: Output, now: Timestamp) -> Vec<Notice> {
    let mut said = Vec::new();
    let mut out = first;
    for _ in 0..1000 {
        if out.notice != Notice::Nothing {
            said.push(out.notice);
        }
        match shell.perform(out.effect) {
            None => return said,
            Some(event) => out = wow.step(now, event),
        }
    }
    panic!("the engine did not come to an end");
}

fn invoke(shell: &mut Shell, rest: &[&str], now: Timestamp) -> (Wow, Vec<Notice>) {
    let mut wow = Wow::new();
    assert!(wow.init_workspace(Some(DIR.to_string())));
    let first = wow.run(&args(rest));
    let said = drive(&mut wow, shell, first, now);
    (wow, said)
}

#[test]
fn fresh_workspace_updates_on_first_check() {
    let mut shell = Shell::new();
    let now = Timestamp::new(1_700_000_000, 250_000_000).unwrap();
    let (wow, said) = invoke(&mut shell, &[], now);

    assert_eq!(said, vec![Notice::Updated]);
    assert_eq!(shell.resolve_requests, vec![RANDOM.to_string()]);
    assert_eq!(shell.download_requests, vec!["https://cdn.example/2024-01-01.jpg".to_string()]);
    assert_eq!(shell.images(), vec!["/opt/wow/1700000000.jpg".to_string()]);
    assert_eq!(shell.files["/opt/wow/1700000000.jpg"], vec![0xff, 0xd8, 0xff, 0xe0]);
    assert_eq!(
        shell.helper_runs,
        vec![("/opt/wow/updater".to_string(), "/opt/wow/1700000000.jpg".to_string())]
    );
    assert!(shell.removals.is_empty());

    let stored = shell.state();
    assert_eq!(stored.get_freq(), 43200);
    assert_eq!(stored.get_url(), RANDOM);
    assert_eq!(stored.get_update_at().secs(), 1_700_000_000);
    assert_eq!(stored.get_update_at().subsec_nanos(), 250_000_000);
    assert_eq!(stored.get_cur_img(), "/opt/wow/1700000000.jpg");
    assert!(!stored.is_working());
    assert_eq!(wow.config().get_cur_img(), "/opt/wow/1700000000.jpg");
    assert_eq!(wow.phase(), Phase::Idle);
}

#[test]
fn fresh_workspace_gets_a_state_file_before_anything_is_fetched() {
    let mut shell = Shell::new();
    let mut wow = Wow::new();
    assert!(wow.init_workspace(Some(DIR.to_string())));
    let out = wow.run(&args(&[]));
    assert_eq!(out.effect, Effect::ReadState { path: STATE.to_string() });
    let out = wow.step(at(1_700_000_000), shell.perform(out.effect).unwrap());
    let fresh = Config::default().flush().ok().unwrap();
    assert_eq!(out.notice, Notice::Nothing);
    assert_eq!(out.effect, Effect::Flush { path: STATE.to_string(), encoded: Ok(fresh) });
    assert_eq!(wow.phase(), Phase::Restoring);
    assert!(shell.resolve_requests.is_empty());
}

#[test]
fn two_updates_leave_one_image() {
    let mut shell = Shell::new();
    let (_, said) = invoke(&mut shell, &["update"], at(1_700_000_000));
    assert_eq!(said, vec![Notice::Updated]);
    assert_eq!(shell.images(), vec!["/opt/wow/1700000000.jpg".to_string()]);

    shell.body = Ok(vec![1, 2, 3]);
    let (_, said) = invoke(&mut shell, &["update"], at(1_700_000_001));
    assert_eq!(said, vec![Notice::Updated]);
    assert_eq!(shell.images(), vec!["/opt/wow/1700000001.jpg".to_string()]);
    assert_eq!(shell.files["/opt/wow/1700000001.jpg"], vec![1, 2, 3]);
    assert_eq!(shell.removals, vec!["/opt/wow/1700000000.jpg".to_string()]);
    assert_eq!(shell.helper_runs.len(), 2);
    assert_eq!(shell.state().get_cur_img(), "/opt/wow/1700000001.jpg");
    assert_eq!(shell.state().get_update_at().secs(), 1_700_000_001);
}

#[test]
fn two_updates_in_one_second_keep_the_second_image() {
    let mut shell = Shell::new();
    shell.body = Ok(vec![1, 1, 1]);
    let (_, said) = invoke(&mut shell, &["update"], Timestamp::new(1_700_000_000, 1).unwrap());
    assert_eq!(said, vec![Notice::Updated]);

    shell.body = Ok(vec![2, 2]);
    let (wow, said) = invoke(&mut shell, &["update"], Timestamp::new(1_700_000_000, 2).unwrap());
    assert_eq!(said, vec![Notice::Updated]);
    assert!(shell.removals.is_empty(), "the file that was just written is not removed");
    assert_eq!(shell.images(), vec!["/opt/wow/1700000000.jpg".to_string()]);
    assert_eq!(shell.files["/opt/wow/1700000000.jpg"], vec![2, 2]);
    assert_eq!(wow.config().get_cur_img(), "/opt/wow/1700000000.jpg");
    assert_eq!(shell.state().get_cur_img(), "/opt/wow/1700000000.jpg");
    assert_eq!(shell.state().get_update_at().subsec_nanos(), 2);
    assert_eq!(
        shell.helper_runs,
        vec![
            ("/opt/wow/updater".to_string(), "/opt/wow/1700000000.jpg".to_string()),
            ("/opt/wow/updater".to_string(), "/opt/wow/1700000000.jpg".to_string()),
        ]
    );

    shell.body = Ok(vec![3]);
    let (_, said) = invoke(&mut shell, &["update"], Timestamp::new(1_700_000_001, 0).unwrap());
    assert_eq!(said, vec![Notice::Updated]);
    assert_eq!(shell.removals, vec!["/opt/wow/1700000000.jpg".to_string()]);
    assert_eq!(shell.images(), vec!["/opt/wow/1700000001.jpg".to_string()]);
    assert_eq!(shell.files["/opt/wow/1700000001.jpg"], vec![3]);
}

#[test]
fn step_after_the_write_never_removes_the_new_image() {
    let mut shell = Shell::new();
    invoke(&mut shell, &["update"], at(77));
    let mut wow = Wow::new();
    assert!(wow.init_workspace(Some(DIR.to_string())));
    assert!(wow.load_config(shell.files.get(STATE).cloned()));

    let out = wow.try_update(at(77), true);
    let out = wow.step(at(77), shell.perform(out.effect).unwrap());
    let out = wow.step(at(77), shell.perform(out.effect).unwrap());
    assert!(matches!(out.effect, Effect::WriteImage { .. }));
    let out = wow.step(at(77), shell.perform(out.effect).unwrap());
    assert_eq!(
        out.effect,
        Effect::Apply { helper: "/opt/wow/updater".to_string(), image: "/opt/wow/77.jpg".to_string() }
    );
    assert_eq!(wow.phase(), Phase::Applying);
}

#[test]
fn failed_resolve_changes_nothing() {
    let mut shell = Shell::new();
    invoke(&mut shell, &["update"], at(1_700_000_000));
    let before = shell.files.clone();

    shell.resolved = Err("connection refused".to_string());
    let (wow, said) = invoke(&mut shell, &["update"], at(1_700_050_000));
    assert_eq!(said, vec![Notice::FetchFailed(ErrInfo::new("connection refused"))]);
    assert_eq!(shell.files, before);
    assert_eq!(wow.config().get_update_at().secs(), 1_700_000_000);
    assert_eq!(wow.config().get_cur_img(), "/opt/wow/1700000000.jpg");
    assert_eq!(shell.download_requests.len(), 1);
    assert_eq!(shell.helper_runs.len(), 1);
}

#[test]
fn failed_download_changes_nothing() {
    let mut shell = Shell::new();
    invoke(&mut shell, &["update"], at(1_700_000_000));
    let before = shell.files.clone();

    shell.body = Err("timed out".to_string());
    let (wow, said) = invoke(&mut shell, &["update"], at(1_700_050_000));
    assert_eq!(said, vec![Notice::FetchFailed(ErrInfo::new("timed out"))]);
    assert_eq!(shell.files, before);
    assert_eq!(wow.config().get_update_at().secs(), 1_700_000_000);
    assert_eq!(wow.config().get_cur_img(), "/opt/wow/1700000000.jpg");
    assert_eq!(shell.helper_runs.len(), 1);
}

#[test]
fn failed_image_write_keeps_the_previous_image() {
    let mut shell = Shell::new();
    invoke(&mut shell, &["update"], at(1_700_000_000));
    let before = shell.files.clone();

    shell.image_write = Err("disk full".to_string());
    let (wow, said) = invoke(&mut shell, &["update"], at(1_700_050_000));
    assert_eq!(said, vec![Notice::StoreFailed(ErrInfo::new("disk full"))]);
    assert_eq!(shell.files, before);
    assert!(shell.removals.is_empty());
    assert_eq!(wow.config().get_cur_img(), "/opt/wow/1700000000.jpg");
    assert_eq!(wow.config().get_update_at().secs(), 1_700_000_000);
}

#[test]
fn failed_helper_still_commits_the_update() {
    let mut shell = Shell::new();
    shell.helper = Err("exit status: 1".to_string());
    let (_, said) = invoke(&mut shell, &["update"], at(1_700_000_000));
    assert_eq!(said, vec![Notice::HelperFailed(ErrInfo::new("exit status: 1"))]);
    assert_eq!(shell.images(), vec!["/opt/wow/1700000000.jpg".to_string()]);
    assert_eq!(shell.state().get_cur_img(), "/opt/wow/1700000000.jpg");
    assert_eq!(shell.state().get_update_at().secs(), 1_700_000_000);
}

#[test]
fn failed_removal_of_the_previous_image_is_swallowed() {
    let mut shell = Shell::new();
    invoke(&mut shell, &["update"], at(1_700_000_000));
    shell.files.remove("/opt/wow/1700000000.jpg");
    let (_, said) = invoke(&mut shell, &["update"], at(1_700_000_009));
    assert_eq!(said, vec![Notice::Updated]);
    assert_eq!(shell.images(), vec!["/opt/wow/1700000009.jpg".to_string()]);
    assert_eq!(shell.state().get_cur_img(), "/opt/wow/1700000009.jpg");
}

#[test]
fn failed_commit_is_reported() {
    let mut shell = Shell::new();
    invoke(&mut shell, &["help"], at(5));
    shell.state_write = Err("read-only file system".to_string());
    let (wow, said) = invoke(&mut shell, &["update"], at(1_700_000_000));
    assert_eq!(
        said,
        vec![Notice::Updated, Notice::FlushFailed(ErrInfo::new("read-only file system"))]
    );
    assert_eq!(wow.config().get_update_at().secs(), 1_700_000_000);
    assert_eq!(shell.state().get_update_at().secs(), 0);
}

#[test]
fn unreadable_state_file_is_replaced_by_defaults() {
    let mut shell = Shell::new();
    shell.files.insert(STATE.to_string(), vec![0xff; 3]);
    let (wow, said) = invoke(&mut shell, &["help"], at(1_700_000_000));
    assert_eq!(said, vec![Notice::Help]);
    assert_eq!(shell.files[STATE], Config::default().flush().ok().unwrap());
    assert_eq!(wow.config().get_freq(), 43200);
    assert_eq!(wow.config().get_update_at().secs(), 0);
}

#[test]
fn command_proceeds_with_defaults_after_a_failed_load() {
    let mut shell = Shell::new();
    shell.files.insert(STATE.to_string(), b"not a state".to_vec());
    let (_, said) = invoke(&mut shell, &[], at(1_700_000_000));
    assert_eq!(said, vec![Notice::Updated]);
    assert_eq!(shell.resolve_requests, vec![RANDOM.to_string()]);
    assert_eq!(shell.state().get_update_at().secs(), 1_700_000_000);
}

#[test]
fn failed_write_of_defaults_ends_the_command() {
    let mut shell = Shell::new();
    shell.state_write = Err("permission denied".to_string());
    let (wow, said) = invoke(&mut shell, &[], at(1_700_000_000));
    assert_eq!(said, vec![Notice::FlushFailed(ErrInfo::new("permission denied"))]);
    assert!(shell.resolve_requests.is_empty());
    assert!(shell.files.is_empty());
    assert_eq!(wow.phase(), Phase::Idle);
}

#[test]
fn clock_regression_resets_the_time_of_the_last_update() {
    let mut shell = Shell::new();
    invoke(&mut shell, &["update"], at(1_700_000_000));
    let fetched = shell.resolve_requests.len();

    let (wow, said) = invoke(&mut shell, &[], at(1_600_000_000));
    assert_eq!(said, vec![Notice::TimeReset]);
    assert_eq!(shell.resolve_requests.len(), fetched);
    assert_eq!(wow.config().get_update_at().secs(), 1_600_000_000);
    assert_eq!(shell.state().get_update_at().secs(), 1_600_000_000);
    assert_eq!(shell.state().get_cur_img(), "/opt/wow/1700000000.jpg");
}

#[test]
fn clock_regression_wins_over_force() {
    let mut shell = Shell::new();
    invoke(&mut shell, &["update"], at(1_700_000_000));
    let (_, said) = invoke(&mut shell, &["update"], at(1_699_999_999));
    assert_eq!(said, vec![Notice::TimeReset]);
    assert_eq!(shell.helper_runs.len(), 1);
    assert_eq!(shell.state().get_update_at().secs(), 1_699_999_999);
}

#[test]
fn check_within_the_interval_fetches_nothing() {
    let mut shell = Shell::new();
    invoke(&mut shell, &["update"], at(1_700_000_000));
    let before = shell.files.clone();
    let (_, said) = invoke(&mut shell, &[], at(1_700_000_000 + 43199));
    assert_eq!(said, vec![Notice::NotDue]);
    assert_eq!(shell.files, before);
    assert_eq!(shell.resolve_requests.len(), 1);
}

#[test]
fn check_at_the_interval_updates() {
    let mut shell = Shell::new();
    invoke(&mut shell, &["update"], at(1_700_000_000));
    let (_, said) = invoke(&mut shell, &[], at(1_700_000_000 + 43200));
    assert_eq!(said, vec![Notice::Updated]);
    assert_eq!(shell.images(), vec!["/opt/wow/1700043200.jpg".to_string()]);
}

#[test]
fn forced_update_ignores_the_interval() {
    let mut shell = Shell::new();
    invoke(&mut shell, &["update"], at(1_700_000_000));
    let (_, said) = invoke(&mut shell, &["update"], at(1_700_000_001));
    assert_eq!(said, vec![Notice::Updated]);
    assert_eq!(shell.resolve_requests.len(), 2);
}

#[test]
fn freq_zero_is_rejected() {
    let mut shell = Shell::new();
    invoke(&mut shell, &["help"], at(10));
    let before = shell.files.clone();
    let (wow, said) = invoke(&mut shell, &["freq", "0"], at(3600));
    assert_eq!(said.len(), 1);
    match &said[0] {
        Notice::FrequencyUsage { cause, left } => {
            assert!(cause.is_empty());
            let left = left.unwrap();
            assert_eq!((left.hours, left.minutes, left.seconds, left.missed), (11, 0, 0, false));
        }
        other => panic!("unexpected notice {:?}", other),
    }
    assert_eq!(shell.files, before);
    assert_eq!(wow.config().get_freq(), 43200);
}

#[test]
fn freq_minus_one_is_rejected() {
    let mut shell = Shell::new();
    invoke(&mut shell, &["help"], at(10));
    let before = shell.files.clone();
    let (wow, said) = invoke(&mut shell, &["freq", "-1"], at(3600));
    assert!(matches!(said[0], Notice::FrequencyUsage { .. }));
    assert_eq!(said.len(), 1);
    assert_eq!(shell.files, before);
    assert_eq!(wow.config().get_freq(), 43200);
}

#[test]
fn freq_two_and_a_half_hours_is_9000_seconds() {
    let mut shell = Shell::new();
    let (wow, said) = invoke(&mut shell, &["freq", "2.5"], at(1_700_000_000));
    assert_eq!(said, vec![Notice::IntervalSet]);
    assert_eq!(wow.config().get_freq(), 9000);
    assert_eq!(shell.state().get_freq(), 9000);
}

#[test]
fn freq_that_is_no_number_is_rejected_with_its_cause() {
    let mut shell = Shell::new();
    let (wow, said) = invoke(&mut shell, &["freq", "often"], at(100));
    match &said[0] {
        Notice::FrequencyUsage { cause, left } => {
            assert_eq!(cause.text(), "invalid float literal");
            assert!(left.is_some());
        }
        other => panic!("unexpected notice {:?}", other),
    }
    assert_eq!(wow.config().get_freq(), 43200);
}

#[test]
fn freq_without_or_with_too_many_arguments_shows_usage() {
    let mut shell = Shell::new();
    let (_, said) = invoke(&mut shell, &["freq"], at(43200 + 61));
    match &said[0] {
        Notice::FrequencyUsage { cause, left } => {
            assert!(cause.is_empty());
            let left = left.unwrap();
            assert_eq!((left.hours, left.minutes, left.seconds, left.missed), (0, 0, 0, true));
        }
        other => panic!("unexpected notice {:?}", other),
    }
    let (wow, said) = invoke(&mut shell, &["freq", "1", "2"], at(10));
    assert!(matches!(said[0], Notice::FrequencyUsage { .. }));
    assert_eq!(wow.config().get_freq(), 43200);
}

#[test]
fn freq_usage_corrects_a_clock_that_went_back() {
    let mut shell = Shell::new();
    invoke(&mut shell, &["update"], at(1_700_000_000));
    let (_, said) = invoke(&mut shell, &["freq"], at(1_500_000_000));
    assert_eq!(said, vec![Notice::FrequencyUsage { cause: ErrInfo::empty(), left: None }]);
    assert_eq!(shell.state().get_update_at().secs(), 1_500_000_000);
}

#[test]
fn failed_write_of_the_interval_is_reported() {
    let mut shell = Shell::new();
    invoke(&mut shell, &["help"], at(10));
    shell.state_write = Err("disk full".to_string());
    let (_, said) = invoke(&mut shell, &["freq", "1"], at(20));
    assert_eq!(said, vec![Notice::FlushFailed(ErrInfo::new("disk full"))]);
    assert_eq!(shell.state().get_freq(), 43200);
}

#[test]
fn from_one_and_two_select_the_endpoints() {
    let mut shell = Shell::new();
    let (_, said) = invoke(&mut shell, &["from", "2"], at(1_700_000_000));
    assert_eq!(said, vec![Notice::SourceSet]);
    assert_eq!(shell.state().get_url(), EVERYDAY);
    invoke(&mut shell, &["update"], at(1_700_000_001));
    assert_eq!(shell.resolve_requests, vec![EVERYDAY.to_string()]);

    let (_, said) = invoke(&mut shell, &["from", "1"], at(1_700_000_002));
    assert_eq!(said, vec![Notice::SourceSet]);
    assert_eq!(shell.state().get_url(), RANDOM);
    invoke(&mut shell, &["update"], at(1_700_000_003));
    assert_eq!(shell.resolve_requests, vec![EVERYDAY.to_string(), RANDOM.to_string()]);
}

#[test]
fn from_an_unknown_selector_is_stored_and_falls_back() {
    let mut shell = Shell::new();
    let (_, said) = invoke(&mut shell, &["from", "7"], at(1_700_000_000));
    assert_eq!(said, vec![Notice::SourceSet]);
    let mut expected = Config::default();
    expected.set_url(7);
    assert_eq!(shell.files[STATE], expected.flush().ok().unwrap());
    assert_eq!(shell.state().get_url(), RANDOM);
}

#[test]
fn from_without_a_selector_shows_usage() {
    let mut shell = Shell::new();
    let (_, said) = invoke(&mut shell, &["from"], at(1));
    assert_eq!(said, vec![Notice::SourceUsage { rejected: None }]);
    let (_, said) = invoke(&mut shell, &["from", "1", "2"], at(1));
    assert_eq!(said, vec![Notice::SourceUsage { rejected: None }]);
    let (wow, said) = invoke(&mut shell, &["from", "two"], at(1));
    assert_eq!(said, vec![Notice::SourceUsage { rejected: Some("two".to_string()) }]);
    assert_eq!(wow.config().get_url(), RANDOM);
}

#[test]
fn help_tip_bye_and_unknown_verbs_touch_nothing() {
    let mut shell = Shell::new();
    invoke(&mut shell, &["help"], at(1));
    let before = shell.files.clone();
    assert_eq!(invoke(&mut shell, &["help"], at(2)).1, vec![Notice::Help]);
    assert_eq!(invoke(&mut shell, &["tip"], at(2)).1, vec![Notice::Tip]);
    assert_eq!(invoke(&mut shell, &["bye"], at(2)).1, vec![Notice::Bye]);
    assert_eq!(invoke(&mut shell, &["dance"], at(2)).1, vec![Notice::Help]);
    assert_eq!(shell.files, before);
}

#[test]
fn daemon_marks_the_state_and_checks_after_every_pause() {
    let mut shell = Shell::new();
    shell.max_sleeps = 2;
    let (wow, said) = invoke(&mut shell, &["run"], at(1_700_000_000));
    assert_eq!(said, vec![Notice::Updated, Notice::NotDue, Notice::NotDue]);
    assert_eq!(shell.sleeps, vec![30, 30, 30]);
    assert_eq!(wow.phase(), Phase::Sleeping);
    assert!(shell.state().is_working());
    assert!(!shell.state().is_ask_stop());
    assert_eq!(shell.resolve_requests.len(), 1);
}

#[test]
fn daemon_refuses_to_start_twice() {
    let mut shell = Shell::new();
    invoke(&mut shell, &["run"], at(1_700_000_000));
    let before = shell.files.clone();
    let (wow, said) = invoke(&mut shell, &["run"], at(1_700_000_100));
    assert_eq!(said, vec![Notice::AlreadyRunning]);
    assert_eq!(shell.files, before);
    assert_eq!(wow.phase(), Phase::Idle);
    assert_eq!(shell.sleeps.len(), 1);
}

#[test]
fn daemon_picks_up_settings_made_while_it_sleeps() {
    let mut shell = Shell::new();
    let mut daemon = Wow::new();
    assert!(daemon.init_workspace(Some(DIR.to_string())));
    let first = daemon.run(&args(&["run"]));
    drive(&mut daemon, &mut shell, first, at(1_700_000_000));
    assert_eq!(daemon.phase(), Phase::Sleeping);

    let mut other = Config::default();
    assert!(other.load(&shell.files[STATE]));
    assert!(other.set_freq(60));
    shell.files.insert(STATE.to_string(), other.flush().ok().unwrap());

    shell.sleeps.clear();
    let out = daemon.step(at(1_700_000_030), Event::Finished(ErrInfo::empty()));
    assert_eq!(out.effect, Effect::ReadState { path: STATE.to_string() });
    let said = drive(&mut daemon, &mut shell, out, at(1_700_000_030));
    assert_eq!(said, vec![Notice::NotDue]);
    assert_eq!(daemon.config().get_freq(), 60);

    shell.sleeps.clear();
    let out = daemon.step(at(1_700_000_060), Event::Finished(ErrInfo::empty()));
    let said = drive(&mut daemon, &mut shell, out, at(1_700_000_060));
    assert_eq!(said, vec![Notice::Updated]);
    assert_eq!(shell.images(), vec!["/opt/wow/1700000060.jpg".to_string()]);
}

#[test]
fn stop_from_another_invocation_ends_the_daemon() {
    let mut shell = Shell::new();
    shell.max_sleeps = 5;
    shell.stop_during_sleep = true;
    let (wow, said) = invoke(&mut shell, &["run"], at(1_700_000_000));
    assert_eq!(said, vec![Notice::Updated, Notice::Exiting]);
    assert_eq!(shell.sleeps, vec![30]);
    assert_eq!(wow.phase(), Phase::Idle);
    assert!(!shell.state().is_working());
    assert!(!shell.state().is_ask_stop());
}

#[test]
fn stop_marks_the_state() {
    let mut shell = Shell::new();
    invoke(&mut shell, &["run"], at(1_700_000_000));
    assert!(shell.state().is_working());
    let (_, said) = invoke(&mut shell, &["stop"], at(1_700_000_010));
    assert_eq!(said, Vec::<Notice>::new());
    assert!(!shell.state().is_working());
    assert!(shell.state().is_ask_stop());
    assert_eq!(shell.state().get_cur_img(), "/opt/wow/1700000000.jpg");
}

#[test]
fn stop_signal_interrupts_whatever_is_in_flight() {
    let mut shell = Shell::new();
    let mut daemon = Wow::new();
    assert!(daemon.init_workspace(Some(DIR.to_string())));
    let first = daemon.run(&args(&["run"]));
    drive(&mut daemon, &mut shell, first, at(1_700_000_000));
    assert_eq!(daemon.phase(), Phase::Sleeping);

    let out = daemon._stop();
    assert_eq!(daemon.phase(), Phase::Stopping);
    let said = drive(&mut daemon, &mut shell, out, at(1_700_000_007));
    assert_eq!(said, Vec::<Notice>::new());
    assert_eq!(daemon.phase(), Phase::Idle);
    assert!(!shell.state().is_working());
    assert!(shell.state().is_ask_stop());
}

#[test]
fn failed_write_of_a_stop_resets_the_state() {
    let mut shell = Shell::new();
    invoke(&mut shell, &["from", "2"], at(1));
    let mut wow = Wow::new();
    assert!(wow.init_workspace(Some(DIR.to_string())));
    let out = wow.run(&args(&["stop"]));
    let out = wow.step(at(2), shell.perform(out.effect).unwrap());
    assert!(matches!(out.effect, Effect::Flush { .. }));
    let out = wow.step(at(2), Event::Finished(ErrInfo::new("disk full")));
    assert_eq!(out.notice, Notice::FlushFailed(ErrInfo::new("disk full")));
    assert_eq!(
        out.effect,
        Effect::Flush { path: STATE.to_string(), encoded: Ok(Config::default().flush().ok().unwrap()) }
    );
    assert_eq!(wow.phase(), Phase::Closing);
    let out = wow.step(at(2), Event::Finished(ErrInfo::new("disk full")));
    assert_eq!(out, Output { notice: Notice::Nothing, effect: Effect::Exit });
}

#[test]
fn failed_start_of_the_daemon_resets_the_state() {
    let mut shell = Shell::new();
    invoke(&mut shell, &["from", "2"], at(1));
    let mut wow = Wow::new();
    assert!(wow.init_workspace(Some(DIR.to_string())));
    let out = wow.run(&args(&["run"]));
    let out = wow.step(at(2), shell.perform(out.effect).unwrap());
    assert!(matches!(out.effect, Effect::Flush { .. }));
    assert_eq!(wow.phase(), Phase::Starting);
    let out = wow.step(at(2), Event::Finished(ErrInfo::new("disk full")));
    assert_eq!(out.notice, Notice::FlushFailed(ErrInfo::new("disk full")));
    assert!(!wow.config().is_working());
    assert_eq!(wow.config().get_url(), RANDOM);
    let said = drive(&mut wow, &mut shell, out, at(2));
    assert_eq!(said, vec![Notice::FlushFailed(ErrInfo::new("disk full"))]);
    assert!(shell.sleeps.is_empty());
    assert!(!shell.state().is_working());
}

#[test]
fn daemon_ends_with_defaults_when_the_reload_fails() {
    let mut shell = Shell::new();
    let mut daemon = Wow::new();
    assert!(daemon.init_workspace(Some(DIR.to_string())));
    let first = daemon.run(&args(&["run"]));
    drive(&mut daemon, &mut shell, first, at(1_700_000_000));
    shell.files.insert(STATE.to_string(), vec![9, 9, 9, 9, 9, 9, 9, 9, 9, 9, 9, 9]);

    shell.sleeps.clear();
    let out = daemon.step(at(1_700_000_030), Event::Finished(ErrInfo::empty()));
    let said = drive(&mut daemon, &mut shell, out, at(1_700_000_030));
    assert_eq!(said, Vec::<Notice>::new());
    assert!(shell.sleeps.is_empty());
    assert_eq!(daemon.phase(), Phase::Idle);
    assert_eq!(shell.files[STATE], Config::default().flush().ok().unwrap());
}

#[test]
fn answer_that_is_not_awaited_ends_the_command() {
    let mut wow = Wow::new();
    assert!(wow.init_workspace(Some(DIR.to_string())));
    let out = wow.step(at(1), Event::Finished(ErrInfo::empty()));
    assert_eq!(out, Output { notice: Notice::Nothing, effect: Effect::Exit });

    wow.run(&args(&["update"]));
    let out = wow.step(at(1), Event::Resolved(Ok("https://cdn.example/x.jpg".to_string())));
    assert_eq!(out, Output { notice: Notice::Nothing, effect: Effect::Exit });
    assert_eq!(wow.phase(), Phase::Idle);
}

#[test]
fn workspace_is_needed_before_anything_else() {
    let mut wow = Wow::new();
    assert!(!wow.init_workspace(None));
    assert_eq!(wow.working_space(), "");
    assert!(wow.init_workspace(Some("/srv/paper".to_string())));
    assert_eq!(wow.working_space(), "/srv/paper");
    let out = wow.run(&args(&[]));
    assert_eq!(out.effect, Effect::ReadState { path: "/srv/paper/wow.conf".to_string() });
}

#[test]
fn load_config_replaces_or_resets_the_state() {
    let mut donor = Config::default();
    donor.set_url(2);
    let bytes = donor.flush().ok().unwrap();

    let mut wow = Wow::new();
    assert!(wow.load_config(Some(bytes)));
    assert_eq!(wow.config().get_url(), EVERYDAY);
    assert!(!wow.load_config(Some(vec![1, 0])));
    assert_eq!(wow.config().get_url(), RANDOM);
    assert!(!wow.load_config(None));
    assert_eq!(wow.config().get_freq(), 43200);
}

#[test]
fn update_attempt_can_be_made_without_a_command() {
    let mut shell = Shell::new();
    let mut wow = Wow::new();
    assert!(wow.init_workspace(Some(DIR.to_string())));

    let out = wow.try_update(at(43199), false);
    assert_eq!(out, Output { notice: Notice::NotDue, effect: Effect::Exit });
    assert_eq!(wow.phase(), Phase::Idle);

    let out = wow.try_update(at(43200), false);
    assert_eq!(out, Output { notice: Notice::Nothing, effect: Effect::Resolve { url: RANDOM.to_string() } });
    assert_eq!(wow.phase(), Phase::Resolving);
    let said = drive(&mut wow, &mut shell, out, at(43207));
    assert_eq!(said, vec![Notice::Updated]);
    assert_eq!(shell.images(), vec!["/opt/wow/43200.jpg".to_string()]);
    assert_eq!(shell.state().get_update_at().secs(), 43200);

    let out = wow.try_update(at(43199), true);
    assert_eq!(out.notice, Notice::TimeReset);
    assert!(matches!(out.effect, Effect::Flush { .. }));
    assert_eq!(wow.config().get_update_at().secs(), 43199);
}

#[test]
fn seconds_of_an_interval_are_stored_with_all_else_kept() {
    let mut shell = Shell::new();
    invoke(&mut shell, &["from", "2"], at(1_700_000_000));
    invoke(&mut shell, &["update"], at(1_700_000_005));
    let mut wow = Wow::new();
    assert!(wow.init_workspace(Some(DIR.to_string())));
    assert!(wow.load_config(shell.files.get(STATE).cloned()));

    let out = wow.set_update_frequance(at(1_700_000_100), Event::Converted(Ok(9000)));
    assert_eq!(out.notice, Notice::Nothing);
    assert_eq!(wow.phase(), Phase::SavingInterval);
    match &out.effect {
        Effect::Flush { path, encoded: Ok(bytes) } => {
            assert_eq!(path, STATE);
            let mut stored = Config::default();
            assert!(stored.load(bytes));
            assert_eq!(stored.get_freq(), 9000);
            assert_eq!(stored.get_url(), EVERYDAY);
            assert_eq!(stored.get_update_at().secs(), 1_700_000_005);
            assert_eq!(stored.get_cur_img(), "/opt/wow/1700000005.jpg");
            assert!(!stored.is_working());
            assert!(!stored.is_ask_stop());
        }
        other => panic!("unexpected request {:?}", other),
    }
    let said = drive(&mut wow, &mut shell, out, at(1_700_000_100));
    assert_eq!(said, vec![Notice::IntervalSet]);
    assert_eq!(shell.state().get_freq(), 9000);
    assert_eq!(wow.phase(), Phase::Idle);

    let out = wow.set_update_frequance(at(1_700_000_100), Event::Converted(Ok(0)));
    assert!(matches!(out.notice, Notice::FrequencyUsage { .. }));
    assert_eq!(out.effect, Effect::Exit);
    assert_eq!(wow.config().get_freq(), 9000);

    let out = wow.set_update_frequance(
        at(1_700_000_100),
        Event::Converted(Err(ErrInfo::new("invalid float literal"))),
    );
    assert!(matches!(out.notice, Notice::FrequencyUsage { .. }));
    assert_eq!(wow.config().get_freq(), 9000);
    assert_eq!(shell.state().get_freq(), 9000);
}

#[test]
fn every_state_that_is_to_be_written_holds_the_state_in_memory() {
    let mut shell = Shell::new();
    let mut wow = Wow::new();
    assert!(wow.init_workspace(Some(DIR.to_string())));
    let mut out = wow.run(&args(&["run"]));
    let mut writes = 0;
    for _ in 0..40 {
        if let Effect::Flush { encoded: Ok(bytes), .. } = &out.effect {
            let mut stored = Config::default();
            assert!(stored.load(bytes));
            assert_eq!(stored.get_freq(), wow.config().get_freq());
            assert_eq!(stored.get_url(), wow.config().get_url());
            assert_eq!(stored.get_cur_img(), wow.config().get_cur_img());
            assert_eq!(stored.is_working(), wow.config().is_working());
            assert_eq!(stored.is_ask_stop(), wow.config().is_ask_stop());
            assert!(stored.get_update_at().same(&wow.config().get_update_at()));
            writes += 1;
        }
        shell.max_sleeps = usize::MAX;
        match shell.perform(out.effect) {
            Some(event) => out = wow.step(at(1_700_000_000), event),
            None => break,
        }
    }
    assert!(writes >= 3);
}
