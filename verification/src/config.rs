//! The persisted state of the updater and its byte form.
use crate::clock::{Timestamp, NANOS_PER_SEC};
use crate::codec::{decode_record, encode_error_text, encode_record, record_bytes, record_of};
use crate::report::ErrInfo;
use vstd::prelude::*;
use vstd::string::*;

verus! {

/// Seconds between automatic updates in a fresh state: twelve hours.
pub const DEFAULT_INTERVAL: usize = 43200;

/// The source selector of a fresh state: a random picture from the archive.
pub const DEFAULT_SOURCE: u8 = 1;

/// The endpoint that redirects to the picture of the day.
pub open spec fn everyday_url() -> Seq<char> {
    "https://bing.img.run/uhd.php"@
}

/// The endpoint that redirects to a random picture from the archive.
pub open spec fn random_url() -> Seq<char> {
    "https://bing.img.run/rand_uhd.php"@
}

/// The endpoint that a source selector stands for. Selector 2 is the picture
/// of the day; every other value, known or not, is the random archive.
pub open spec fn url_of(source: u8) -> Seq<char> {
    if source == 2 {
        everyday_url()
    } else {
        random_url()
    }
}

/// The mathematical content of a [`Config`].
pub struct ConfigView {
    /// Selects the remote source; stored as given, also where it is unknown.
    pub source: u8,
    /// Seconds between automatic updates.
    pub interval: nat,
    /// Time of the last successful update, in nanoseconds since the epoch.
    pub last_update_at: nat,
    /// Whether a daemon loop holds this workspace.
    pub running: bool,
    /// Whether another invocation has asked the daemon to exit.
    pub stop_requested: bool,
    /// Path of the image that is currently applied; empty if there is none.
    pub current_image_path: Seq<char>,
}

impl ConfigView {
    /// The state of a fresh workspace: the default source and interval, a
    /// last update at the epoch (so that the first check finds an update
    /// due), no daemon, no image.
    pub open spec fn initial() -> ConfigView {
        ConfigView {
            source: DEFAULT_SOURCE,
            interval: DEFAULT_INTERVAL as nat,
            last_update_at: 0,
            running: false,
            stop_requested: false,
            current_image_path: Seq::empty(),
        }
    }

    /// What every stored state satisfies: a positive interval that fits the
    /// machine, and a time stamp whose seconds fit 64 bits.
    pub open spec fn valid(self) -> bool {
        &&& 0 < self.interval <= usize::MAX
        &&& self.last_update_at / (NANOS_PER_SEC as nat) <= u64::MAX
    }

    /// The seven fields as they are handed to the encoder: the time of the
    /// last update is split into whole seconds and nanoseconds.
    pub open spec fn record(self) -> (u8, u64, u64, u32, bool, bool, Seq<char>) {
        (
            self.source,
            self.interval as u64,
            (self.last_update_at / (NANOS_PER_SEC as nat)) as u64,
            (self.last_update_at % (NANOS_PER_SEC as nat)) as u32,
            self.running,
            self.stop_requested,
            self.current_image_path,
        )
    }

    /// The byte form of this state, or `None` where the encoder fails.
    pub open spec fn encoding(self) -> Option<Seq<u8>> {
        let r = self.record();
        record_bytes(r.0, r.1, r.2, r.3, r.4, r.5, r.6)
    }
}

/// The state that a decoded record stands for, if it is a valid one: the
/// interval must be positive and fit the machine, the nanoseconds must be a
/// fraction of a second.
pub open spec fn state_of_record(
    record: Option<(u8, u64, u64, u32, bool, bool, Seq<char>)>,
) -> Option<ConfigView> {
    match record {
        Some(t) => if 0 < t.1 <= usize::MAX && t.3 < NANOS_PER_SEC {
            Some(
                ConfigView {
                    source: t.0,
                    interval: t.1 as nat,
                    last_update_at: (t.2 * NANOS_PER_SEC + t.3) as nat,
                    running: t.4,
                    stop_requested: t.5,
                    current_image_path: t.6,
                },
            )
        } else {
            None
        },
        None => None,
    }
}

/// The state that `bytes` hold, if they hold a valid one.
pub open spec fn decoding(bytes: Seq<u8>) -> Option<ConfigView> {
    state_of_record(record_of(bytes))
}

/// The durable state: source, interval, time of the last update, the two
/// daemon flags and the path of the current image.
pub struct Config {
    source: u8,
    freq: usize,
    update_at: Timestamp,
    working: bool,
    ask_stop: bool,
    cur_img: String,
}

impl View for Config {
    type V = ConfigView;

    closed spec fn view(&self) -> ConfigView {
        ConfigView {
            source: self.source,
            interval: self.freq as nat,
            last_update_at: self.update_at@,
            running: self.working,
            stop_requested: self.ask_stop,
            current_image_path: self.cur_img@,
        }
    }
}

impl Config {
    #[verifier::type_invariant]
    spec fn positive_interval(self) -> bool {
        self.freq > 0
    }

    /// The state of a fresh workspace.
    pub fn default() -> (c: Config)
        ensures
            c@ == ConfigView::initial(),
            c@.valid(),
    {
        Config {
            source: DEFAULT_SOURCE,
            freq: DEFAULT_INTERVAL,
            update_at: Timestamp::epoch(),
            working: false,
            ask_stop: false,
            cur_img: String::new(),
        }
    }

    /// Builds the state that a decoded record stands for.
    pub fn from_record(record: Option<(u8, u64, u64, u32, bool, bool, String)>) -> (c: Option<
        Config,
    >)
        ensures
            match c {
                Some(c) => Some(c@) == state_of_record(record_view(record)) && c@.valid(),
                None => state_of_record(record_view(record)) is None,
            },
    {
        match record {
            None => None,
            Some((source, interval, secs, nanos, running, stop_requested, image)) => {
                if interval == 0 || interval > usize::MAX as u64 {
                    return None;
                }
                match Timestamp::new(secs, nanos) {
                    None => None,
                    Some(update_at) => {
                        let c = Config {
                            source,
                            freq: interval as usize,
                            update_at,
                            working: running,
                            ask_stop: stop_requested,
                            cur_img: image,
                        };
                        proof {
                            lemma_seconds_fit(secs, nanos);
                        }
                        Some(c)
                    },
                }
            },
        }
    }

    /// Replaces this state by the one that `data` hold. Returns `false`, and
    /// changes nothing, where `data` hold no valid state.
    pub fn load(&mut self, data: &[u8]) -> (ok: bool)
        ensures
            ok == (decoding(data@) is Some),
            ok ==> Some(final(self)@) == decoding(data@) && final(self)@.valid(),
            !ok ==> *final(self) == *old(self),
    {
        match Config::from_record(decode_record(data)) {
            Some(c) => {
                *self = c;
                true
            },
            None => false,
        }
    }

    /// The byte form of this state, to be written to the state file, or the
    /// encoder's complaint, which is never the empty message. Bytes that are
    /// returned hold this state again.
    pub fn flush(&self) -> (r: Result<Vec<u8>, ErrInfo>)
        ensures
            self@.valid(),
            match r {
                Ok(bytes) => self@.encoding() == Some(bytes@) && decoding(bytes@) == Some(self@),
                Err(e) => self@.encoding() is None && e@.len() > 0,
            },
    {
        proof {
            use_type_invariant(self);
        }
        let secs = self.update_at.secs();
        let nanos = self.update_at.subsec_nanos();
        proof {
            lemma_state_survives_its_record(self@);
        }
        match encode_record(
            self.source,
            self.freq as u64,
            secs,
            nanos,
            self.working,
            self.ask_stop,
            self.cur_img.as_str(),
        ) {
            Ok(bytes) => Ok(bytes),
            Err(e) => {
                let text = encode_error_text(&e);
                if text.as_str().is_empty() {
                    proof {
                        reveal_strlit("the state could not be encoded");
                    }
                    Err(ErrInfo::new("the state could not be encoded"))
                } else {
                    Err(ErrInfo::new(text.as_str()))
                }
            },
        }
    }

    /// Selects the source. Any value is stored as it is; see [`url_of`] for
    /// what an unknown one stands for.
    pub fn set_url(&mut self, i: u8)
        ensures
            final(self)@ == (ConfigView { source: i, ..old(self)@ }),
    {
        proof {
            use_type_invariant(&*self);
        }
        self.source = i;
    }

    /// Seconds between automatic updates; never zero.
    pub fn get_freq(&self) -> (freq: usize)
        ensures
            freq == self@.interval,
            freq > 0,
    {
        proof {
            use_type_invariant(self);
        }
        self.freq
    }

    /// Sets the seconds between automatic updates. Zero is rejected: the
    /// state is then left as it is and `false` is returned.
    pub fn set_freq(&mut self, freq: usize) -> (accepted: bool)
        ensures
            accepted == (freq > 0),
            accepted ==> final(self)@ == (ConfigView { interval: freq as nat, ..old(self)@ }),
            !accepted ==> *final(self) == *old(self),
    {
        if freq == 0 {
            return false;
        }
        self.freq = freq;
        true
    }

    /// Time of the last successful update.
    pub fn get_update_at(&self) -> (t: Timestamp)
        ensures
            t@ == self@.last_update_at,
    {
        self.update_at
    }

    /// Sets the time of the last successful update.
    pub fn set_update_at(&mut self, t: Timestamp)
        ensures
            final(self)@ == (ConfigView { last_update_at: t@, ..old(self)@ }),
    {
        proof {
            use_type_invariant(&*self);
        }
        self.update_at = t;
    }

    /// Path of the image that is currently applied; empty if there is none.
    pub fn get_cur_img(&self) -> (path: &str)
        ensures
            path@ == self@.current_image_path,
    {
        self.cur_img.as_str()
    }

    /// Sets the path of the image that is currently applied.
    pub fn set_cur_img(&mut self, cur_img: &str)
        ensures
            final(self)@ == (ConfigView { current_image_path: cur_img@, ..old(self)@ }),
    {
        proof {
            use_type_invariant(&*self);
        }
        self.cur_img = String::from_str(cur_img);
    }

    /// Whether a daemon loop holds this workspace.
    pub fn is_working(&self) -> (running: bool)
        ensures
            running == self@.running,
    {
        self.working
    }

    /// Whether the daemon has been asked to exit.
    pub fn is_ask_stop(&self) -> (asked: bool)
        ensures
            asked == self@.stop_requested,
    {
        self.ask_stop
    }

    /// Sets the two daemon flags.
    pub fn set_daemon_flags(&mut self, working: bool, ask_stop: bool)
        ensures
            final(self)@ == (ConfigView {
                running: working,
                stop_requested: ask_stop,
                ..old(self)@
            }),
    {
        proof {
            use_type_invariant(&*self);
        }
        self.working = working;
        self.ask_stop = ask_stop;
    }

    /// The endpoint of the selected source.
    pub fn get_url(&self) -> (url: &'static str)
        ensures
            url@ == url_of(self@.source),
    {
        match self.source {
            2 => "https://bing.img.run/uhd.php",
            _ => "https://bing.img.run/rand_uhd.php",
        }
    }
}

/// The view of a decoded record: its text as a sequence of characters.
pub open spec fn record_view(record: Option<(u8, u64, u64, u32, bool, bool, String)>) -> Option<
    (u8, u64, u64, u32, bool, bool, Seq<char>),
> {
    match record {
        Some(t) => Some((t.0, t.1, t.2, t.3, t.4, t.5, t.6@)),
        None => None,
    }
}

proof fn lemma_seconds_fit(secs: u64, nanos: u32)
    requires
        nanos < NANOS_PER_SEC,
    ensures
        ((secs * NANOS_PER_SEC + nanos) as nat) / (NANOS_PER_SEC as nat) == secs,
        ((secs * NANOS_PER_SEC + nanos) as nat) % (NANOS_PER_SEC as nat) == nanos,
{
}

/// A valid state is the state that its own record stands for: nothing that
/// is checked when a record is read turns a stored state away, and joining
/// seconds and nanoseconds undoes their split. Bytes from which the decoder
/// reads the record of a valid state therefore hold that state, in every
/// field.
pub proof fn lemma_state_survives_its_record(c: ConfigView)
    requires
        c.valid(),
    ensures
        state_of_record(Some(c.record())) == Some(c),
        forall|bytes: Seq<u8>|
            (#[trigger] record_of(bytes)) == Some(c.record()) ==> decoding(bytes) == Some(c),
{
}

} // verus!
