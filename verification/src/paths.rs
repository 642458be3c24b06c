//! The files of a workspace: the state file, the helper and the images,
//! which are named by the second at which they were fetched.
use vstd::prelude::*;
use vstd::string::*;

verus! {

/// The decimal digit for `d`, which is below ten.
pub open spec fn digit(d: nat) -> char {
    if d == 0 {
        '0'
    } else if d == 1 {
        '1'
    } else if d == 2 {
        '2'
    } else if d == 3 {
        '3'
    } else if d == 4 {
        '4'
    } else if d == 5 {
        '5'
    } else if d == 6 {
        '6'
    } else if d == 7 {
        '7'
    } else if d == 8 {
        '8'
    } else {
        '9'
    }
}

/// The decimal numeral of `n`, without leading zeros.
pub open spec fn decimal(n: nat) -> Seq<char>
    decreases n,
{
    if n < 10 {
        seq![digit(n)]
    } else {
        decimal(n / 10).push(digit(n % 10))
    }
}

/// The state file of the workspace `dir`.
pub open spec fn state_file(dir: Seq<char>) -> Seq<char> {
    dir + "/wow.conf"@
}

/// The helper of the workspace `dir` that applies an image to the desktop.
pub open spec fn helper_file(dir: Seq<char>) -> Seq<char> {
    dir + "/updater"@
}

/// The image that the workspace `dir` keeps for an update made `secs`
/// seconds after the epoch.
pub open spec fn image_file(dir: Seq<char>, secs: nat) -> Seq<char> {
    dir + "/"@ + decimal(secs) + ".jpg"@
}

fn digit_text(d: u64) -> (s: &'static str)
    requires
        d < 10,
    ensures
        s@ == seq![digit(d as nat)],
{
    proof {
        reveal_strlit("0");
        reveal_strlit("1");
        reveal_strlit("2");
        reveal_strlit("3");
        reveal_strlit("4");
        reveal_strlit("5");
        reveal_strlit("6");
        reveal_strlit("7");
        reveal_strlit("8");
        reveal_strlit("9");
    }
    let s = if d == 0 {
        "0"
    } else if d == 1 {
        "1"
    } else if d == 2 {
        "2"
    } else if d == 3 {
        "3"
    } else if d == 4 {
        "4"
    } else if d == 5 {
        "5"
    } else if d == 6 {
        "6"
    } else if d == 7 {
        "7"
    } else if d == 8 {
        "8"
    } else {
        "9"
    };
    assert(s@ =~= seq![digit(d as nat)]);
    s
}

/// Appends the decimal numeral of `n` to `out`.
pub fn push_decimal(out: &mut String, n: u64)
    ensures
        final(out)@ == old(out)@ + decimal(n as nat),
    decreases n,
{
    if n >= 10 {
        push_decimal(out, n / 10);
    }
    out.append(digit_text(n % 10));
    proof {
        if n >= 10 {
            assert(out@ =~= old(out)@ + decimal((n / 10) as nat).push(digit((n % 10) as nat)));
        } else {
            assert(out@ =~= old(out)@ + seq![digit(n as nat)]);
        }
    }
}

/// The path of the state file of the workspace `dir`.
pub fn state_path(dir: &str) -> (p: String)
    ensures
        p@ == state_file(dir@),
{
    String::from_str(dir).concat("/wow.conf")
}

/// The path of the helper of the workspace `dir`.
pub fn helper_path(dir: &str) -> (p: String)
    ensures
        p@ == helper_file(dir@),
{
    String::from_str(dir).concat("/updater")
}

/// The path of the image that the workspace `dir` keeps for an update made
/// `secs` seconds after the epoch.
pub fn image_path(dir: &str, secs: u64) -> (p: String)
    ensures
        p@ == image_file(dir@, secs as nat),
{
    let mut p = String::from_str(dir);
    p.append("/");
    push_decimal(&mut p, secs);
    p.append(".jpg");
    p
}

/// A numeral has at least one digit.
pub proof fn lemma_decimal_nonempty(n: nat)
    ensures
        decimal(n).len() >= 1,
    decreases n,
{
    if n >= 10 {
        lemma_decimal_nonempty(n / 10);
    }
}

/// Different numbers have different numerals.
pub proof fn lemma_decimal_injective(a: nat, b: nat)
    requires
        decimal(a) == decimal(b),
    ensures
        a == b,
    decreases a,
{
    if a < 10 && b < 10 {
        assert(decimal(a)[0] == digit(a));
        assert(decimal(b)[0] == digit(b));
    } else if a < 10 {
        lemma_decimal_nonempty(b / 10);
    } else if b < 10 {
        lemma_decimal_nonempty(a / 10);
    } else {
        let x = decimal(a / 10);
        let y = decimal(b / 10);
        assert(x.push(digit(a % 10)).drop_last() =~= x);
        assert(y.push(digit(b % 10)).drop_last() =~= y);
        assert(x.push(digit(a % 10)).last() == digit(a % 10));
        assert(y.push(digit(b % 10)).last() == digit(b % 10));
        lemma_decimal_injective(a / 10, b / 10);
        assert(a % 10 == b % 10);
    }
}

/// Updates made in different seconds are kept in different files.
pub proof fn lemma_image_file_injective(dir: Seq<char>, a: nat, b: nat)
    requires
        image_file(dir, a) == image_file(dir, b),
    ensures
        a == b,
{
    reveal_strlit("/");
    reveal_strlit(".jpg");
    let head = dir + "/"@;
    let tail = ".jpg"@;
    let x = decimal(a);
    let y = decimal(b);
    let p = head + x + tail;
    let q = head + y + tail;
    assert(p.len() == head.len() + x.len() + tail.len());
    assert(q.len() == head.len() + y.len() + tail.len());
    assert(p.subrange(head.len() as int, (head.len() + x.len()) as int) =~= x);
    assert(q.subrange(head.len() as int, (head.len() + y.len()) as int) =~= y);
    lemma_decimal_injective(a, b);
}

} // verus!
