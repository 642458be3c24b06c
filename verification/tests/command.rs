use wow::command::{parse_selector, Command};

fn parse(rest: &[&str]) -> Command {
    let mut args = vec!["wow".to_string()];
    args.extend(rest.iter().map(|s| s.to_string()));
    Command::parse(&args)
}

#[test]
fn no_verb_is_a_check() {
    assert_eq!(parse(&[]), Command::Check);
    assert_eq!(Command::parse(&Vec::new()), Command::Check);
}

#[test]
fn verbs_are_read() {
    assert_eq!(parse(&["help"]), Command::Help);
    assert_eq!(parse(&["run"]), Command::Run);
    assert_eq!(parse(&["stop"]), Command::Stop);
    assert_eq!(parse(&["update"]), Command::Update);
    assert_eq!(parse(&["tip"]), Command::Tip);
    assert_eq!(parse(&["bye"]), Command::Bye);
    assert_eq!(parse(&["run", "now"]), Command::Run);
}

#[test]
fn unknown_verbs_ask_for_help() {
    assert_eq!(parse(&["dance"]), Command::Help);
    assert_eq!(parse(&["Help"]), Command::Help);
    assert_eq!(parse(&[""]), Command::Help);
    assert_eq!(parse(&["updates"]), Command::Help);
}

#[test]
fn freq_takes_exactly_one_argument() {
    assert_eq!(parse(&["freq"]), Command::FrequencyUsage);
    assert_eq!(parse(&["freq", "2.5"]), Command::Frequency("2.5".to_string()));
    assert_eq!(parse(&["freq", "often"]), Command::Frequency("often".to_string()));
    assert_eq!(parse(&["freq", "1", "2"]), Command::FrequencyUsage);
}

#[test]
fn from_takes_exactly_one_selector() {
    assert_eq!(parse(&["from"]), Command::SourceUsage);
    assert_eq!(parse(&["from", "1"]), Command::Source(1));
    assert_eq!(parse(&["from", "2"]), Command::Source(2));
    assert_eq!(parse(&["from", "200"]), Command::Source(200));
    assert_eq!(parse(&["from", "1", "2"]), Command::SourceUsage);
    assert_eq!(parse(&["from", "x"]), Command::SourceRejected("x".to_string()));
    assert_eq!(parse(&["from", "256"]), Command::SourceRejected("256".to_string()));
}

#[test]
fn selectors_are_numerals_up_to_255() {
    assert_eq!(parse_selector("0"), Some(0));
    assert_eq!(parse_selector("1"), Some(1));
    assert_eq!(parse_selector("2"), Some(2));
    assert_eq!(parse_selector("255"), Some(255));
    assert_eq!(parse_selector("007"), Some(7));
    assert_eq!(parse_selector("+2"), Some(2));
    assert_eq!(parse_selector("0000000000000000000255"), Some(255));
}

#[test]
fn selectors_are_refused_like_other_numbers_that_do_not_fit() {
    for text in ["", "+", "-", "-1", "256", "1000", "99999999999999999999999", "1x", "x1", " 1", "1 ", "1.0", "++1", "1+", "٣"] {
        assert_eq!(parse_selector(text), None, "{:?}", text);
        assert_eq!(text.parse::<u8>().ok(), None, "{:?}", text);
    }
    for text in ["0", "9", "+9", "255", "+255", "0255", "00"] {
        assert_eq!(parse_selector(text), text.parse::<u8>().ok(), "{:?}", text);
    }
}

#[test]
fn selectors_agree_with_the_standard_parser_on_short_texts() {
    let alphabet = ['0', '1', '2', '5', '6', '9', '+', '-', ' ', 'x'];
    let mut texts = vec![String::new()];
    let mut from = 0;
    for _ in 0..4 {
        let upto = texts.len();
        for i in from..upto {
            for c in alphabet {
                let mut longer = texts[i].clone();
                longer.push(c);
                texts.push(longer);
            }
        }
        from = upto;
    }
    assert_eq!(texts.len(), 11111);
    for text in texts {
        assert_eq!(parse_selector(&text), text.parse::<u8>().ok(), "{:?}", text);
    }
}
