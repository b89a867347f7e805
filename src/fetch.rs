use crate::diff::text_of;
use reqwest::header::{HeaderValue, InvalidHeaderValue};
use vstd::prelude::*;

verus! {

#[verifier::external_type_specification]
#[verifier::external_body]
pub struct ExHeaderValue(HeaderValue);

#[verifier::external_type_specification]
#[verifier::external_body]
pub struct ExInvalidHeaderValue(InvalidHeaderValue);

/// A character that may stand in an HTTP header value: a tab, or any character
/// but the ASCII control characters. (A character beyond ASCII is written in
/// UTF-8 as bytes of 128 and above, which a header value admits.)
pub open spec fn header_safe_char(c: char) -> bool {
    (c as u32 >= 32 && c as u32 != 127) || c == '\t'
}

pub open spec fn header_safe(s: Seq<char>) -> bool {
    forall|i: int| 0 <= i < s.len() ==> header_safe_char(#[trigger] s[i])
}

/// Relies on `HeaderValue::from_str` of the http crate, re-exported by reqwest:
/// it accepts the text exactly when every byte of it is a tab, or at least 32 and
/// not 127.
pub assume_specification[ HeaderValue::from_str ](src: &str) -> (r: Result<
    HeaderValue,
    InvalidHeaderValue,
>)
    ensures
        r is Ok <==> header_safe(src@),
;

/// Why fetching a feed produced no page to compare.
#[derive(Clone, Copy, Debug, PartialEq, Eq, Structural)]
pub enum FetchError {
    /// The server said the feed has not changed since the stored validation token.
    Unmodified,
    /// The stored validation token cannot be sent as a header value.
    InvalidToken,
    /// A request could not be completed.
    Transport,
    /// The feed request was answered with a status other than 200.
    HttpStatus(u16),
    /// The response body is not a feed document.
    EnvelopeParse,
}

/// The decimal digit `d` (below 10) as a character.
pub open spec fn digit_char(d: nat) -> char {
    if d == 0 {
        '0'
    } else if d == 1 {
        '1'
    } else if d == 2 {
        '2'
    } else if d == 3 {
        '3'
    } else if d == 4 {
        '4'
    } else if d == 5 {
        '5'
    } else if d == 6 {
        '6'
    } else if d == 7 {
        '7'
    } else if d == 8 {
        '8'
    } else {
        '9'
    }
}

/// `n` written in decimal, without leading zeros.
pub open spec fn decimal(n: nat) -> Seq<char>
    decreases n,
{
    if n < 10 {
        seq![digit_char(n)]
    } else {
        decimal(n / 10).push(digit_char(n % 10))
    }
}

/// What a fetch error says, for the log.
pub open spec fn message_of(e: FetchError) -> Seq<char> {
    match e {
        FetchError::Unmodified => "ETAG is unmodified"@,
        FetchError::InvalidToken => "Unable to parse etag"@,
        FetchError::Transport => "Unable to get url"@,
        FetchError::HttpStatus(code) => "GET request returned HTTP "@ + decimal(code as nat),
        FetchError::EnvelopeParse => "Unable deserialize response"@,
    }
}

fn digit(d: u16) -> (c: &'static str)
    requires
        d < 10,
    ensures
        c@ == seq![digit_char(d as nat)],
{
    if d == 0 {
        proof {
            reveal_strlit("0");
        }
        "0"
    } else if d == 1 {
        proof {
            reveal_strlit("1");
        }
        "1"
    } else if d == 2 {
        proof {
            reveal_strlit("2");
        }
        "2"
    } else if d == 3 {
        proof {
            reveal_strlit("3");
        }
        "3"
    } else if d == 4 {
        proof {
            reveal_strlit("4");
        }
        "4"
    } else if d == 5 {
        proof {
            reveal_strlit("5");
        }
        "5"
    } else if d == 6 {
        proof {
            reveal_strlit("6");
        }
        "6"
    } else if d == 7 {
        proof {
            reveal_strlit("7");
        }
        "7"
    } else if d == 8 {
        proof {
            reveal_strlit("8");
        }
        "8"
    } else {
        proof {
            reveal_strlit("9");
        }
        "9"
    }
}

fn push_decimal(s: &mut String, n: u16)
    ensures
        final(s)@ == old(s)@ + decimal(n as nat),
    decreases n,
{
    if n >= 10 {
        push_decimal(s, n / 10);
    }
    s.append(digit(n % 10));
    proof {
        if n >= 10 {
            assert(old(s)@ + decimal(n as nat) =~= old(s)@ + decimal((n / 10) as nat) + seq![
                digit_char((n % 10) as nat),
            ]);
        } else {
            assert(old(s)@ + decimal(n as nat) =~= old(s)@.push(digit_char((n % 10) as nat)));
        }
    }
}

impl FetchError {
    /// What this error says, for the log.
    pub fn message(&self) -> (r: String)
        ensures
            r@ == message_of(*self),
    {
        match self {
            FetchError::Unmodified => "ETAG is unmodified".to_owned(),
            FetchError::InvalidToken => "Unable to parse etag".to_owned(),
            FetchError::Transport => "Unable to get url".to_owned(),
            FetchError::HttpStatus(code) => {
                let mut text = "GET request returned HTTP ".to_owned();
                push_decimal(&mut text, *code);
                text
            },
            FetchError::EnvelopeParse => "Unable deserialize response".to_owned(),
        }
    }
}

/// What happened last while fetching a subscriber's feed.
#[derive(Clone, Copy, Debug, PartialEq, Eq, Structural)]
pub enum FetchEvent {
    /// Nothing has been sent yet.
    Start,
    /// The validation request (HEAD with `If-None-Match`) was answered with this status.
    HeadAnswered(u16),
    /// The feed request (GET) was answered with this status.
    GetAnswered(u16),
    /// The last request could not be completed.
    TransportFailed,
}

/// What to do next while fetching a subscriber's feed.
pub enum FetchStep {
    /// Send a HEAD request with this token, which is a valid header value, as
    /// its `If-None-Match` header.
    SendHead(String),
    /// Send a GET request for the feed.
    SendGet,
    /// Read the body of the GET response, with the `etag` header it carried, as the feed.
    ReadBody,
    /// Stop: there is no feed page to compare this cycle.
    Stop(FetchError),
}

/// The shape of a [`FetchStep`], without the token it may carry.
pub enum StepKind {
    SendHead,
    SendGet,
    ReadBody,
    Stop(FetchError),
}

impl FetchStep {
    pub open spec fn kind(self) -> StepKind {
        match self {
            FetchStep::SendHead(_) => StepKind::SendHead,
            FetchStep::SendGet => StepKind::SendGet,
            FetchStep::ReadBody => StepKind::ReadBody,
            FetchStep::Stop(e) => StepKind::Stop(e),
        }
    }
}

/// The step after `event`, for a subscriber whose stored validation token is
/// `last_token`: a stored token is first checked with a HEAD request, and a 304
/// answer to it ends the fetch without a GET; a GET answered with anything but
/// 200 ends it with that status.
pub open spec fn next_step_spec(last_token: Option<Seq<char>>, event: FetchEvent) -> StepKind {
    match event {
        FetchEvent::Start => match last_token {
            None => StepKind::SendGet,
            Some(t) => if header_safe(t) {
                StepKind::SendHead
            } else {
                StepKind::Stop(FetchError::InvalidToken)
            },
        },
        FetchEvent::HeadAnswered(status) => if status == 304 {
            StepKind::Stop(FetchError::Unmodified)
        } else {
            StepKind::SendGet
        },
        FetchEvent::GetAnswered(status) => if status == 200 {
            StepKind::ReadBody
        } else {
            StepKind::Stop(FetchError::HttpStatus(status))
        },
        FetchEvent::TransportFailed => StepKind::Stop(FetchError::Transport),
    }
}

/// Decides the next step of fetching a feed.
pub fn next_step(last_token: &Option<String>, event: FetchEvent) -> (r: FetchStep)
    ensures
        r.kind() == next_step_spec(text_of(*last_token), event),
        r matches FetchStep::SendHead(t) ==> Some(t@) == text_of(*last_token),
{
    match event {
        FetchEvent::Start => match last_token {
            None => FetchStep::SendGet,
            Some(token) => match HeaderValue::from_str(token.as_str()) {
                Ok(_) => FetchStep::SendHead(token.clone()),
                Err(_) => FetchStep::Stop(FetchError::InvalidToken),
            },
        },
        FetchEvent::HeadAnswered(status) => if status == 304 {
            FetchStep::Stop(FetchError::Unmodified)
        } else {
            FetchStep::SendGet
        },
        FetchEvent::GetAnswered(status) => if status == 200 {
            FetchStep::ReadBody
        } else {
            FetchStep::Stop(FetchError::HttpStatus(status))
        },
        FetchEvent::TransportFailed => FetchStep::Stop(FetchError::Transport),
    }
}

} // verus!
