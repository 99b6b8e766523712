//! Email delivery with bounded retry: the decision logic of the delivery
//! loop and the JSON request body sent to the remote email API.
//!
//! The HTTP transport lives outside the core: the caller performs one POST
//! per attempt, feeds the outcome to `EmailClient::decide`, and sleeps for
//! the returned delay before the next attempt.

use vstd::prelude::*;

use crate::domain::UserEmail;

verus! {

/// A transactional message, immutable once built.
#[derive(Debug)]
pub struct EmailMessage {
    pub recipient: UserEmail,
    pub subject: String,
    pub html_body: String,
    pub text_body: String,
}

/// What one delivery attempt against the transport came back with.
#[derive(Debug)]
pub enum AttemptOutcome {
    /// The API accepted the message.
    Sent,
    /// Connection error, timeout or a 5xx response; expected to resolve on
    /// retry.
    TransientFailure(String),
    /// A 4xx response or a malformed address; retrying cannot help.
    PermanentFailure(String),
}

/// Why a delivery failed for good.
#[derive(Debug)]
pub enum DeliveryError {
    /// A non-transient failure; no retry was attempted.
    Permanent(String),
    /// Every allowed attempt failed transiently; carries the last
    /// underlying error.
    Exhausted(String),
}

/// What the delivery loop does after one attempt.
#[derive(Debug)]
pub enum RetryDecision {
    /// The message is delivered; stop.
    Succeeded,
    /// Delivery failed for good; stop.
    Fail(DeliveryError),
    /// Sleep this many milliseconds, then attempt again.
    RetryAfter(u64),
}

/// Client of the remote HTTP email API: the configured base URL, the sender
/// address, and the retry policy.
#[derive(Debug)]
pub struct EmailClient {
    pub base_url: String,
    pub sender: UserEmail,
    pub n_retries: u64,
    pub execute_retry_after_milliseconds: u64,
}

/// How attempts are counted: attempt 0 is the first try, so a policy of
/// `n_retries` allows `n_retries + 1` attempts in all.
impl EmailClient {
    pub fn new(base_url: String, sender: UserEmail, n_retries: u64,
        execute_retry_after_milliseconds: u64) -> (c: Self)
        ensures
            c.base_url@ == base_url@,
            c.sender@ == sender@,
            c.n_retries == n_retries,
            c.execute_retry_after_milliseconds == execute_retry_after_milliseconds,
    {
        EmailClient { base_url, sender, n_retries, execute_retry_after_milliseconds }
    }

    /// Decide what the delivery loop does after one attempt: success stops,
    /// a permanent failure stops without retry, a transient failure retries
    /// after the configured delay until `n_retries` retries are used up,
    /// then reports exhaustion with the last underlying error.
    pub fn decide(&self, outcome: &AttemptOutcome, retries_used: u64) -> (r: RetryDecision)
        ensures
            outcome is Sent ==> r is Succeeded,
            outcome matches AttemptOutcome::PermanentFailure(m) ==> ({
                &&& r matches RetryDecision::Fail(DeliveryError::Permanent(m2))
                &&& m2@ == m@
            }),
            outcome matches AttemptOutcome::TransientFailure(m) ==> ({
                &&& retries_used < self.n_retries ==> (r matches RetryDecision::RetryAfter(d)
                    && d == self.execute_retry_after_milliseconds)
                &&& retries_used >= self.n_retries ==> (r matches RetryDecision::Fail(
                    DeliveryError::Exhausted(m2),
                ) && m2@ == m@)
            }),
    {
        match outcome {
            AttemptOutcome::Sent => RetryDecision::Succeeded,
            AttemptOutcome::PermanentFailure(m) => RetryDecision::Fail(
                DeliveryError::Permanent(m.clone()),
            ),
            AttemptOutcome::TransientFailure(m) => {
                if retries_used < self.n_retries {
                    RetryDecision::RetryAfter(self.execute_retry_after_milliseconds)
                } else {
                    RetryDecision::Fail(DeliveryError::Exhausted(m.clone()))
                }
            },
        }
    }

    /// Run the delivery loop against a scripted transport that answers the
    /// `i`-th attempt with `outcomes[i]`; reports the result, how many
    /// attempts were made, and the delay slept before each retry. In
    /// particular: a transport that fails transiently on every attempt is
    /// tried once and retried exactly `n_retries` times, each retry preceded
    /// by the configured fixed delay, and the delivery reports exhaustion
    /// with the last underlying error; a transport that fails permanently on
    /// the first attempt is tried exactly once, with no delay.
    pub fn deliver_with_retries(&self, outcomes: &Vec<AttemptOutcome>) -> (r: DeliveryReport)
        requires
            self.n_retries < outcomes@.len(),
        ensures
            1 <= r.attempts <= self.n_retries + 1,
            r.attempts <= outcomes@.len(),
            forall|i: int| 0 <= i < r.attempts - 1 ==> outcomes@[i] is TransientFailure,
            r.delays@.len() == r.attempts - 1,
            forall|i: int|
                0 <= i < r.delays@.len() ==> r.delays@[i]
                    == self.execute_retry_after_milliseconds,
            match outcomes@[r.attempts - 1] {
                AttemptOutcome::Sent => r.result is Ok,
                AttemptOutcome::PermanentFailure(m) => ({
                    &&& r.result matches Err(DeliveryError::Permanent(m2))
                    &&& m2@ == m@
                }),
                AttemptOutcome::TransientFailure(m) => ({
                    &&& r.attempts == self.n_retries + 1
                    &&& r.result matches Err(DeliveryError::Exhausted(m2))
                    &&& m2@ == m@
                }),
            },
            (forall|i: int|
                0 <= i <= self.n_retries ==> (#[trigger] outcomes@[i]) is TransientFailure)
                ==> ({
                &&& r.attempts == self.n_retries + 1
                &&& r.delays@.len() == self.n_retries
                &&& outcomes@[self.n_retries as int] matches AttemptOutcome::TransientFailure(m)
                    && (r.result matches Err(DeliveryError::Exhausted(m2)) && m2@ == m@)
            }),
            outcomes@[0] matches AttemptOutcome::PermanentFailure(m) ==> ({
                &&& r.attempts == 1
                &&& r.delays@.len() == 0
                &&& r.result matches Err(DeliveryError::Permanent(m2)) && m2@ == m@
            }),
    {
        let n = outcomes.len();
        let mut attempt: u64 = 0;
        let mut delays: Vec<u64> = Vec::new();
        loop
            invariant
                n == outcomes@.len(),
                self.n_retries < n,
                attempt <= self.n_retries,
                forall|i: int| 0 <= i < attempt ==> outcomes@[i] is TransientFailure,
                delays@.len() == attempt,
                forall|i: int|
                    0 <= i < delays@.len() ==> delays@[i]
                        == self.execute_retry_after_milliseconds,
            decreases self.n_retries - attempt,
        {
            let outcome = &outcomes[attempt as usize];
            match self.decide(outcome, attempt) {
                RetryDecision::Succeeded => {
                    return DeliveryReport { result: Ok(()), attempts: attempt + 1, delays };
                },
                RetryDecision::Fail(e) => {
                    return DeliveryReport { result: Err(e), attempts: attempt + 1, delays };
                },
                RetryDecision::RetryAfter(d) => {
                    delays.push(d);
                    attempt = attempt + 1;
                },
            }
        }
    }
}

/// What a finished delivery loop reports.
#[derive(Debug)]
pub struct DeliveryReport {
    pub result: Result<(), DeliveryError>,
    pub attempts: u64,
    pub delays: Vec<u64>,
}

/// The lower-case hex digit for a value below 16.
pub open spec fn hex_digit(n: u32) -> char {
    seq!['0', '1', '2', '3', '4', '5', '6', '7', '8', '9', 'a', 'b', 'c', 'd', 'e', 'f'][n as int]
}

/// How one character is written inside a JSON string literal: quote,
/// backslash and the named control characters get their short escapes, every
/// other control character below U+0020 gets a `\u00XX` escape.
pub open spec fn json_escape_char(c: char) -> Seq<char> {
    if c == '"' {
        seq!['\\', '"']
    } else if c == '\\' {
        seq!['\\', '\\']
    } else if c == '\n' {
        seq!['\\', 'n']
    } else if c == '\r' {
        seq!['\\', 'r']
    } else if c == '\t' {
        seq!['\\', 't']
    } else if (c as u32) < 32 {
        seq!['\\', 'u', '0', '0', hex_digit((c as u32) / 16), hex_digit((c as u32) % 16)]
    } else {
        seq![c]
    }
}

/// A string written inside a JSON string literal.
pub open spec fn json_escaped(s: Seq<char>) -> Seq<char>
    decreases s.len(),
{
    if s.len() == 0 {
        Seq::empty()
    } else {
        json_escape_char(s.first()) + json_escaped(s.drop_first())
    }
}

proof fn lemma_json_escaped_snoc(s: Seq<char>, c: char)
    ensures
        json_escaped(s.push(c)) == json_escaped(s) + json_escape_char(c),
    decreases s.len(),
{
    if s.len() == 0 {
        assert(s.push(c).first() == c);
        assert(s.push(c).drop_first() =~= Seq::<char>::empty());
        assert(json_escaped(Seq::<char>::empty()) =~= Seq::<char>::empty());
        assert(json_escaped(s.push(c)) =~= json_escaped(s) + json_escape_char(c));
    } else {
        assert(s.push(c).first() == s.first());
        assert(s.push(c).drop_first() =~= s.drop_first().push(c));
        lemma_json_escaped_snoc(s.drop_first(), c);
        assert(json_escaped(s.push(c)) =~= json_escaped(s) + json_escape_char(c));
    }
}

/// The lower-case hex digit for a value below 16.
fn hex_char(n: u32) -> (r: char)
    requires
        n < 16,
    ensures
        r == hex_digit(n),
{
    if n == 0 {
        '0'
    } else if n == 1 {
        '1'
    } else if n == 2 {
        '2'
    } else if n == 3 {
        '3'
    } else if n == 4 {
        '4'
    } else if n == 5 {
        '5'
    } else if n == 6 {
        '6'
    } else if n == 7 {
        '7'
    } else if n == 8 {
        '8'
    } else if n == 9 {
        '9'
    } else if n == 10 {
        'a'
    } else if n == 11 {
        'b'
    } else if n == 12 {
        'c'
    } else if n == 13 {
        'd'
    } else if n == 14 {
        'e'
    } else {
        'f'
    }
}

/// Append `s`, JSON-escaped, to `out`.
fn push_json_escaped(out: &mut String, s: &str)
    ensures
        final(out)@ == old(out)@ + json_escaped(s@),
{
    let n = s.unicode_len();
    let mut i: usize = 0;
    proof {
        assert(s@.subrange(0, 0) =~= Seq::<char>::empty());
        assert(json_escaped(s@.subrange(0, 0)) =~= Seq::<char>::empty());
        assert(out@ =~= old(out)@ + json_escaped(s@.subrange(0, 0)));
    }
    while i < n
        invariant
            i <= n,
            n == s@.len(),
            out@ == old(out)@ + json_escaped(s@.subrange(0, i as int)),
        decreases n - i,
    {
        let c = s.get_char(i);
        if c == '"' {
            out.push('\\');
            out.push('"');
        } else if c == '\\' {
            out.push('\\');
            out.push('\\');
        } else if c == '\n' {
            out.push('\\');
            out.push('n');
        } else if c == '\r' {
            out.push('\\');
            out.push('r');
        } else if c == '\t' {
            out.push('\\');
            out.push('t');
        } else if (c as u32) < 32 {
            let code = c as u32;
            out.push('\\');
            out.push('u');
            out.push('0');
            out.push('0');
            out.push(hex_char(code / 16));
            out.push(hex_char(code % 16));
        } else {
            out.push(c);
        }
        proof {
            assert(s@.subrange(0, i + 1) =~= s@.subrange(0, i as int).push(s@[i as int]));
            lemma_json_escaped_snoc(s@.subrange(0, i as int), s@[i as int]);
            assert(out@ =~= old(out)@ + json_escaped(s@.subrange(0, i + 1)));
        }
        i = i + 1;
    }
    proof {
        assert(s@.subrange(0, n as int) =~= s@);
    }
}

/// The JSON payload of the email-sending request.
pub open spec fn request_body_spec(
    from: Seq<char>,
    to: Seq<char>,
    subject: Seq<char>,
    html_body: Seq<char>,
    text_body: Seq<char>,
) -> Seq<char> {
    "{\"From\":\""@ + json_escaped(from) + "\",\"To\":\""@ + json_escaped(to)
        + "\",\"Subject\":\""@ + json_escaped(subject) + "\",\"HtmlBody\":\""@ + json_escaped(
        html_body,
    ) + "\",\"TextBody\":\""@ + json_escaped(text_body) + "\"}"@
}

impl EmailClient {
    /// Build the JSON payload POSTed to the email API for one message.
    pub fn request_body(&self, message: &EmailMessage) -> (r: String)
        ensures
            r@ == request_body_spec(
                self.sender@,
                message.recipient@,
                message.subject@,
                message.html_body@,
                message.text_body@,
            ),
    {
        let mut out = String::new();
        out.append("{\"From\":\"");
        push_json_escaped(&mut out, self.sender.as_ref());
        out.append("\",\"To\":\"");
        push_json_escaped(&mut out, message.recipient.as_ref());
        out.append("\",\"Subject\":\"");
        push_json_escaped(&mut out, message.subject.as_str());
        out.append("\",\"HtmlBody\":\"");
        push_json_escaped(&mut out, message.html_body.as_str());
        out.append("\",\"TextBody\":\"");
        push_json_escaped(&mut out, message.text_body.as_str());
        out.append("\"}");
        proof {
            assert(out@ =~= request_body_spec(
                self.sender@,
                message.recipient@,
                message.subject@,
                message.html_body@,
                message.text_body@,
            ));
        }
        out
    }
}

} // verus!
