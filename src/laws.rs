use vstd::prelude::*;

use crate::error::{decimal_of, digit_char, invalid_token_message, status_class, status_text, ErrorView};
use crate::response::{canonical_reason_of, exchange_outcome, is_success};

verus! {

/// `part` occurs in `text` as a contiguous run.
pub open spec fn contains(text: Seq<char>, part: Seq<char>) -> bool {
    exists|i: int|
        0 <= i && i + part.len() <= text.len() && #[trigger] text.subrange(i, i + part.len())
            == part
}

/// A success response whose body decodes to an address yields exactly that
/// address.
pub proof fn success_yields_email(status: u16, email: Seq<char>)
    requires
        is_success(status),
    ensures
        exchange_outcome(status, Ok(email)) == Ok::<Seq<char>, ErrorView>(email),
{
}

/// A 401 response fails with the invalid-token error, whatever its body holds,
/// and the error's text carries the fixed invalid-token message.
pub proof fn unauthorized_fails_regardless_of_body(decoded: Result<Seq<char>, Seq<char>>)
    ensures
        exchange_outcome(401, decoded) == Err::<Seq<char>, ErrorView>(ErrorView::InvalidCredential),
        contains(ErrorView::InvalidCredential.message(), invalid_token_message()),
{
    let text = ErrorView::InvalidCredential.message();
    assert(text.subrange(0, 0 + text.len() as int) =~= text);
}

/// Any other non-2xx response fails with a status error for that code, not the
/// invalid-token error, whatever its body holds; the error's text carries the
/// code and its reason phrase.
pub proof fn other_failure_reports_status(status: u16, decoded: Result<Seq<char>, Seq<char>>)
    requires
        status != 401,
        !is_success(status),
    ensures
        exchange_outcome(status, decoded) == Err::<Seq<char>, ErrorView>(
            ErrorView::HttpStatus { code: status, reason: canonical_reason_of(status) },
        ),
        exchange_outcome(status, decoded) != Err::<Seq<char>, ErrorView>(
            ErrorView::InvalidCredential,
        ),
        contains(
            ErrorView::HttpStatus { code: status, reason: canonical_reason_of(status) }.message(),
            status_text(status, canonical_reason_of(status)),
        ),
{
    let e = ErrorView::HttpStatus { code: status, reason: canonical_reason_of(status) };
    let part = status_text(status, canonical_reason_of(status));
    let head = crate::error::status_class(status) + " ("@;
    assert(e.message() == head + part + ")"@);
    assert(e.message().subrange(head.len() as int, head.len() + part.len() as int) =~= part);
}


proof fn decimal_has_no_period(n: nat)
    ensures
        !decimal_of(n).contains('.'),
    decreases n,
{
    if n >= 10 {
        decimal_has_no_period(n / 10);
        assert(digit_char(n % 10) != '.');
        assert forall|i: int| 0 <= i < decimal_of(n).len() implies #[trigger] decimal_of(n)[i]
            != '.' by {
            if i < decimal_of(n / 10).len() {
                assert(decimal_of(n)[i] == decimal_of(n / 10)[i]);
            }
        }
    } else {
        assert(decimal_of(n) == seq![digit_char(n)]);
    }
}

/// The text of a status error never carries the invalid-token message, for a
/// status whose reason phrase holds no period.
pub proof fn status_failure_text_differs_from_invalid_token(status: u16)
    requires
        canonical_reason_of(status) matches Some(phrase) ==> !phrase.contains('.'),
    ensures
        !contains(
            ErrorView::HttpStatus { code: status, reason: canonical_reason_of(status) }.message(),
            invalid_token_message(),
        ),
{
    reveal_strlit("Invalid addy.io API token.");
    reveal_strlit("HTTP status client error");
    reveal_strlit("HTTP status server error");
    reveal_strlit("HTTP status error");
    reveal_strlit(" (");
    reveal_strlit(" ");
    reveal_strlit(")");
    reveal_strlit("<unknown status code>");
    let text = ErrorView::HttpStatus { code: status, reason: canonical_reason_of(status) }.message();
    let part = invalid_token_message();
    decimal_has_no_period(status as nat);
    let phrase = match canonical_reason_of(status) {
        Some(p) => p,
        None => "<unknown status code>"@,
    };
    assert(text =~= status_class(status) + " ("@ + decimal_of(status as nat) + " "@ + phrase
        + ")"@);
    assert(!status_class(status).contains('.'));
    assert(!phrase.contains('.'));
    assert(!text.contains('.'));
    assert(part[part.len() - 1] == '.');
    if contains(text, part) {
        let i = choose|i: int|
            0 <= i && i + part.len() <= text.len() && #[trigger] text.subrange(i, i + part.len())
                == part;
        assert(text.subrange(i, i + part.len())[part.len() - 1] == text[i + part.len() - 1]);
    }
}

} // verus!
