use vstd::prelude::*;

verus! {

/// The canonical reason phrase of an HTTP status code, if it has one.
pub uninterp spec fn reason_of(code: u16) -> Option<Seq<char>>;

/// Relies on reqwest::StatusCode::canonical_reason (the `http` crate's
/// table): the phrase depends on the code alone.
#[verifier::external_body]
fn canonical_reason(code: u16) -> (r: Option<&'static str>)
    requires
        100 <= code <= 999,
    ensures
        text_of(r) == reason_of(code),
{
    match reqwest::StatusCode::from_u16(code) {
        Ok(status) => status.canonical_reason(),
        Err(_) => None,
    }
}

/// The text an optional phrase holds.
pub open spec fn text_of(phrase: Option<&str>) -> Option<Seq<char>> {
    match phrase {
        Some(p) => Some(p@),
        None => None,
    }
}

/// A status code in the 2xx range.
pub open spec fn is_success_status(code: u16) -> bool {
    200 <= code <= 299
}

/// The decimal digit for `d`, which is below ten.
pub open spec fn digit_char(d: int) -> char {
    if d == 0 {
        '0'
    } else if d == 1 {
        '1'
    } else if d == 2 {
        '2'
    } else if d == 3 {
        '3'
    } else if d == 4 {
        '4'
    } else if d == 5 {
        '5'
    } else if d == 6 {
        '6'
    } else if d == 7 {
        '7'
    } else if d == 8 {
        '8'
    } else {
        '9'
    }
}

/// The decimal form of `n`, without leading zeros.
pub open spec fn decimal(n: nat) -> Seq<char>
    decreases n,
{
    if n < 10 {
        seq![digit_char(n as int)]
    } else {
        decimal(n / 10) + seq![digit_char((n % 10) as int)]
    }
}

/// The text that stands for a code without a reason phrase.
pub open spec fn unknown_reason() -> Seq<char> {
    "<unknown status code>"@
}

/// A status shown with the phrase `reason`: its number, a space, and the
/// phrase (or the text for an unknown code).
pub open spec fn status_text(code: u16, reason: Option<Seq<char>>) -> Seq<char> {
    decimal(code as nat) + " "@ + match reason {
        Some(p) => p,
        None => unknown_reason(),
    }
}

/// How a status is shown, with its canonical reason phrase.
pub open spec fn status_line(code: u16) -> Seq<char> {
    status_text(code, reason_of(code))
}

fn digit_str(d: u16) -> (r: &'static str)
    requires
        d < 10,
    ensures
        r@ == seq![digit_char(d as int)],
{
    proof {
        reveal_strlit("0");
        reveal_strlit("1");
        reveal_strlit("2");
        reveal_strlit("3");
        reveal_strlit("4");
        reveal_strlit("5");
        reveal_strlit("6");
        reveal_strlit("7");
        reveal_strlit("8");
        reveal_strlit("9");
    }
    match d {
        0 => "0",
        1 => "1",
        2 => "2",
        3 => "3",
        4 => "4",
        5 => "5",
        6 => "6",
        7 => "7",
        8 => "8",
        _ => "9",
    }
}

/// Appends `status_line(code)` to `out`.
pub fn append_status_line(out: &mut String, code: u16)
    requires
        100 <= code <= 999,
    ensures
        final(out)@ == old(out)@ + status_line(code),
{
    let reason = canonical_reason(code);
    append_status_text(out, code, reason);
}

/// Appends `code` shown with the phrase `reason` to `out`.
pub fn append_status_text(out: &mut String, code: u16, reason: Option<&str>)
    requires
        100 <= code <= 999,
    ensures
        final(out)@ == old(out)@ + status_text(code, text_of(reason)),
{
    let hundreds = code / 100;
    let tens = (code / 10) % 10;
    let ones = code % 10;
    proof {
        let n = code as nat;
        assert(decimal(n / 100) == seq![digit_char(hundreds as int)]);
        assert(decimal(n / 10) == decimal(n / 100) + seq![digit_char(tens as int)]) by {
            assert((n / 10) / 10 == n / 100);
        }
        assert(decimal(n) =~= seq![
            digit_char(hundreds as int),
            digit_char(tens as int),
            digit_char(ones as int),
        ]);
    }
    out.append(digit_str(hundreds));
    out.append(digit_str(tens));
    out.append(digit_str(ones));
    out.append(" ");
    match reason {
        Some(phrase) => out.append(phrase),
        None => out.append("<unknown status code>"),
    }
    assert(out@ =~= old(out)@ + status_text(code, text_of(reason)));
}

} // verus!
