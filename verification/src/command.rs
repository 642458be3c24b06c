//! The command line: which verb was given, and with what argument.
use vstd::prelude::*;
use vstd::string::*;

verus! {

/// What one invocation asks for.
#[derive(Debug, PartialEq, Eq)]
pub enum Command {
    /// No verb: update if an update is due.
    Check,
    /// `help`, or a verb that is not known: show the commands.
    Help,
    /// `run`: start the daemon loop.
    Run,
    /// `stop`: ask the running daemon to exit.
    Stop,
    /// `update`: update now, due or not.
    Update,
    /// `freq` without exactly one argument: show how it is used.
    FrequencyUsage,
    /// `freq` with the hours as they were typed.
    Frequency(String),
    /// `from` without exactly one argument: show how it is used.
    SourceUsage,
    /// `from` with an argument that is no source selector.
    SourceRejected(String),
    /// `from` with a source selector.
    Source(u8),
    /// `tip`.
    Tip,
    /// `bye`: uninstall.
    Bye,
}

/// The mathematical content of a [`Command`].
pub enum CommandView {
    Check,
    Help,
    Run,
    Stop,
    Update,
    FrequencyUsage,
    Frequency(Seq<char>),
    SourceUsage,
    SourceRejected(Seq<char>),
    Source(u8),
    Tip,
    Bye,
}

impl View for Command {
    type V = CommandView;

    open spec fn view(&self) -> CommandView {
        match self {
            Command::Check => CommandView::Check,
            Command::Help => CommandView::Help,
            Command::Run => CommandView::Run,
            Command::Stop => CommandView::Stop,
            Command::Update => CommandView::Update,
            Command::FrequencyUsage => CommandView::FrequencyUsage,
            Command::Frequency(text) => CommandView::Frequency(text@),
            Command::SourceUsage => CommandView::SourceUsage,
            Command::SourceRejected(text) => CommandView::SourceRejected(text@),
            Command::Source(selector) => CommandView::Source(*selector),
            Command::Tip => CommandView::Tip,
            Command::Bye => CommandView::Bye,
        }
    }
}

/// Whether `c` is a decimal digit.
pub open spec fn is_digit(c: char) -> bool {
    c == '0' || c == '1' || c == '2' || c == '3' || c == '4' || c == '5' || c == '6' || c == '7'
        || c == '8' || c == '9'
}

/// The value of the decimal digit `c`.
pub open spec fn digit_value(c: char) -> nat {
    if c == '0' {
        0
    } else if c == '1' {
        1
    } else if c == '2' {
        2
    } else if c == '3' {
        3
    } else if c == '4' {
        4
    } else if c == '5' {
        5
    } else if c == '6' {
        6
    } else if c == '7' {
        7
    } else if c == '8' {
        8
    } else {
        9
    }
}

/// Whether `s` is a numeral: one decimal digit or more, and nothing else.
pub open spec fn is_numeral(s: Seq<char>) -> bool {
    s.len() > 0 && forall|i: int| 0 <= i < s.len() ==> is_digit(#[trigger] s[i])
}

/// The number that the digits of `s` spell.
pub open spec fn numeral_value(s: Seq<char>) -> nat
    decreases s.len(),
{
    if s.len() == 0 {
        0
    } else {
        numeral_value(s.drop_last()) * 10 + digit_value(s.last())
    }
}

/// What follows the plus sign of `text`, or all of `text` where it starts
/// with none.
pub open spec fn unsigned_part(text: Seq<char>) -> Seq<char> {
    if text.len() > 0 && text[0] == '+' {
        text.skip(1)
    } else {
        text
    }
}

/// The source selector that `text` spells: a numeral of at most 255, which a
/// plus sign may precede.
pub open spec fn selector_of(text: Seq<char>) -> Option<u8> {
    let body = unsigned_part(text);
    if is_numeral(body) && numeral_value(body) <= 255 {
        Some(numeral_value(body) as u8)
    } else {
        None
    }
}

/// The command that the arguments of the process spell. The first argument
/// is the program itself, the second the verb.
pub open spec fn command_of(args: Seq<Seq<char>>) -> CommandView {
    if args.len() < 2 {
        CommandView::Check
    } else if args[1] == "help"@ {
        CommandView::Help
    } else if args[1] == "run"@ {
        CommandView::Run
    } else if args[1] == "stop"@ {
        CommandView::Stop
    } else if args[1] == "update"@ {
        CommandView::Update
    } else if args[1] == "freq"@ {
        if args.len() == 3 {
            CommandView::Frequency(args[2])
        } else {
            CommandView::FrequencyUsage
        }
    } else if args[1] == "from"@ {
        if args.len() == 3 {
            match selector_of(args[2]) {
                Some(selector) => CommandView::Source(selector),
                None => CommandView::SourceRejected(args[2]),
            }
        } else {
            CommandView::SourceUsage
        }
    } else if args[1] == "tip"@ {
        CommandView::Tip
    } else if args[1] == "bye"@ {
        CommandView::Bye
    } else {
        CommandView::Help
    }
}

/// The texts of the arguments.
pub open spec fn texts(args: Seq<String>) -> Seq<Seq<char>> {
    args.map_values(|s: String| s@)
}

fn digit_of(c: char) -> (d: Option<u32>)
    ensures
        match d {
            Some(d) => is_digit(c) && d == digit_value(c),
            None => !is_digit(c),
        },
{
    if c == '0' {
        Some(0)
    } else if c == '1' {
        Some(1)
    } else if c == '2' {
        Some(2)
    } else if c == '3' {
        Some(3)
    } else if c == '4' {
        Some(4)
    } else if c == '5' {
        Some(5)
    } else if c == '6' {
        Some(6)
    } else if c == '7' {
        Some(7)
    } else if c == '8' {
        Some(8)
    } else if c == '9' {
        Some(9)
    } else {
        None
    }
}

proof fn lemma_numeral_grows(s: Seq<char>, n: int)
    requires
        0 <= n <= s.len(),
    ensures
        numeral_value(s.take(n)) <= numeral_value(s),
    decreases s.len() - n,
{
    if n < s.len() {
        let longer = s.take(n + 1);
        assert(longer.drop_last() =~= s.take(n));
        lemma_numeral_grows(s, n + 1);
    } else {
        assert(s.take(n) =~= s);
    }
}

/// Reads a source selector.
pub fn parse_selector(text: &str) -> (r: Option<u8>)
    ensures
        r == selector_of(text@),
{
    let len = text.unicode_len();
    if len == 0 {
        return None;
    }
    let start: usize = if text.get_char(0) == '+' {
        1
    } else {
        0
    };
    let ghost body = text@.skip(start as int);
    assert(body =~= unsigned_part(text@));
    if start == len {
        return None;
    }
    let mut value: u32 = 0;
    let mut i: usize = start;
    while i < len
        invariant
            start <= i <= len,
            len == text@.len(),
            body == text@.skip(start as int),
            body == unsigned_part(text@),
            value <= 255,
            value == numeral_value(body.take(i - start)),
            forall|k: int| 0 <= k < i - start ==> is_digit(#[trigger] body[k]),
        decreases len - i,
    {
        let c = text.get_char(i);
        assert(c == body[i - start]);
        match digit_of(c) {
            None => {
                assert(!is_digit(body[i - start]));
                return None;
            },
            Some(d) => {
                let ghost longer = body.take(i - start + 1);
                assert(longer.drop_last() =~= body.take(i - start));
                assert(longer.last() == c);
                let next = value * 10 + d;
                if next > 255 {
                    proof {
                        assert(numeral_value(longer) == next);
                        lemma_numeral_grows(body, i - start + 1);
                    }
                    return None;
                }
                value = next;
            },
        }
        i += 1;
    }
    assert(body.take(i - start) =~= body);
    Some(value as u8)
}

fn is_word(text: &String, word: &str) -> (b: bool)
    ensures
        b == (text@ == word@),
{
    let w = String::from_str(word);
    *text == w
}

impl Command {
    /// Reads the command from the arguments of the process.
    pub fn parse(args: &Vec<String>) -> (c: Command)
        ensures
            c@ == command_of(texts(args@)),
    {
        if args.len() < 2 {
            return Command::Check;
        }
        let verb = &args[1];
        assert(texts(args@)[1] == verb@);
        if is_word(verb, "help") {
            Command::Help
        } else if is_word(verb, "run") {
            Command::Run
        } else if is_word(verb, "stop") {
            Command::Stop
        } else if is_word(verb, "update") {
            Command::Update
        } else if is_word(verb, "freq") {
            if args.len() == 3 {
                assert(texts(args@)[2] == args@[2]@);
                Command::Frequency(args[2].clone())
            } else {
                Command::FrequencyUsage
            }
        } else if is_word(verb, "from") {
            if args.len() == 3 {
                assert(texts(args@)[2] == args@[2]@);
                match parse_selector(args[2].as_str()) {
                    Some(selector) => Command::Source(selector),
                    None => Command::SourceRejected(args[2].clone()),
                }
            } else {
                Command::SourceUsage
            }
        } else if is_word(verb, "tip") {
            Command::Tip
        } else if is_word(verb, "bye") {
            Command::Bye
        } else {
            Command::Help
        }
    }
}

} // verus!
