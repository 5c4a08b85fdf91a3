use vstd::prelude::*;
use vstd::string::StringExecFns;

verus! {

/// Decimal digit character of `d`, for `d < 10`.
pub open spec fn digit_char(d: nat) -> char {
    if d == 0 { '0' }
    else if d == 1 { '1' }
    else if d == 2 { '2' }
    else if d == 3 { '3' }
    else if d == 4 { '4' }
    else if d == 5 { '5' }
    else if d == 6 { '6' }
    else if d == 7 { '7' }
    else if d == 8 { '8' }
    else { '9' }
}

/// Decimal notation of `n`, without leading zeros.
pub open spec fn decimal_of(n: nat) -> Seq<char>
    decreases n,
{
    if n < 10 {
        seq![digit_char(n)]
    } else {
        decimal_of(n / 10) + seq![digit_char(n % 10)]
    }
}

fn digit_str(d: u16) -> (r: &'static str)
    requires
        d < 10,
    ensures
        r@ == seq![digit_char(d as nat)],
{
    proof {
        reveal_strlit("0");
        reveal_strlit("1");
        reveal_strlit("2");
        reveal_strlit("3");
        reveal_strlit("4");
        reveal_strlit("5");
        reveal_strlit("6");
        reveal_strlit("7");
        reveal_strlit("8");
        reveal_strlit("9");
    }
    let r = if d == 0 { "0" }
    else if d == 1 { "1" }
    else if d == 2 { "2" }
    else if d == 3 { "3" }
    else if d == 4 { "4" }
    else if d == 5 { "5" }
    else if d == 6 { "6" }
    else if d == 7 { "7" }
    else if d == 8 { "8" }
    else { "9" };
    assert(r@ =~= seq![digit_char(d as nat)]);
    r
}

/// Writes `n` in decimal notation.
pub fn decimal(n: u16) -> (r: String)
    ensures
        r@ == decimal_of(n as nat),
    decreases n,
{
    if n < 10 {
        String::from_str(digit_str(n))
    } else {
        let mut text = decimal(n / 10);
        text.append(digit_str(n % 10));
        text
    }
}

/// The fixed message of a rejected API token.
pub open spec fn invalid_token_message() -> Seq<char> {
    "Invalid addy.io API token."@
}

/// Which class of failure a status code belongs to, as it is named in messages.
pub open spec fn status_class(code: u16) -> Seq<char> {
    if 400 <= code <= 499 {
        "HTTP status client error"@
    } else if 500 <= code <= 599 {
        "HTTP status server error"@
    } else {
        "HTTP status error"@
    }
}

/// A status code with its reason phrase, as in `403 Forbidden`.
pub open spec fn status_text(code: u16, reason: Option<Seq<char>>) -> Seq<char> {
    decimal_of(code as nat) + " "@ + match reason {
        Some(phrase) => phrase,
        None => "<unknown status code>"@,
    }
}

/// The mathematical content of a [`GeneratorError`].
pub enum ErrorView {
    InvalidCredential,
    HttpStatus { code: u16, reason: Option<Seq<char>> },
    Transport(Seq<char>),
    Decode(Seq<char>),
}

impl ErrorView {
    /// The human-readable text of the error.
    pub open spec fn message(self) -> Seq<char> {
        match self {
            ErrorView::InvalidCredential => invalid_token_message(),
            ErrorView::HttpStatus { code, reason } => status_class(code) + " ("@ + status_text(
                code,
                reason,
            ) + ")"@,
            ErrorView::Transport(text) => text,
            ErrorView::Decode(text) => text,
        }
    }
}

/// Why an alias could not be generated.
#[derive(Debug)]
pub enum GeneratorError {
    /// The provider answered 401: the API token was not accepted.
    InvalidCredential,
    /// The provider answered with another non-success status.
    HttpStatus { code: u16, reason: Option<String> },
    /// No response was received.
    Transport(String),
    /// A success response whose body is not the expected JSON shape.
    Decode(String),
}

impl View for GeneratorError {
    type V = ErrorView;

    open spec fn view(&self) -> ErrorView {
        match self {
            GeneratorError::InvalidCredential => ErrorView::InvalidCredential,
            GeneratorError::HttpStatus { code, reason } => ErrorView::HttpStatus {
                code: *code,
                reason: reason.deep_view(),
            },
            GeneratorError::Transport(text) => ErrorView::Transport(text@),
            GeneratorError::Decode(text) => ErrorView::Decode(text@),
        }
    }
}

impl GeneratorError {
    /// The human-readable text of the error.
    pub fn message(&self) -> (r: String)
        ensures
            r@ == self@.message(),
    {
        match self {
            GeneratorError::InvalidCredential => String::from_str("Invalid addy.io API token."),
            GeneratorError::HttpStatus { code, reason } => {
                let mut text = if 400 <= *code && *code <= 499 {
                    String::from_str("HTTP status client error")
                } else if 500 <= *code && *code <= 599 {
                    String::from_str("HTTP status server error")
                } else {
                    String::from_str("HTTP status error")
                };
                text.append(" (");
                let digits = decimal(*code);
                text.append(digits.as_str());
                text.append(" ");
                match reason {
                    Some(phrase) => text.append(phrase.as_str()),
                    None => text.append("<unknown status code>"),
                }
                text.append(")");
                proof {
                    assert(text@ =~= self@.message());
                }
                text
            },
            GeneratorError::Transport(text) => text.clone(),
            GeneratorError::Decode(text) => text.clone(),
        }
    }
}

} // verus!
