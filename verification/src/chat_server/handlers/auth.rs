//! What signing up or in answers with.
use crate::chat_server::error::ErrorOutput;
use vstd::prelude::*;

verus! {

/// The body of a successful sign-up or sign-in.
#[derive(Debug, Clone)]
pub struct AuthOutput {
    token: String,
}

impl AuthOutput {
    /// The token carried.
    pub closed spec fn view(&self) -> Seq<char> {
        self.token@
    }

    /// A body that carries `token`.
    pub fn new(token: &str) -> (out: Self)
        ensures
            out@ == token@,
    {
        Self { token: token.to_owned() }
    }

    /// The token carried.
    pub fn token(&self) -> (token: &str)
        ensures
            token@ == self@,
    {
        self.token.as_str()
    }
}

/// What signing in answers with.
#[derive(Debug, Clone)]
pub enum SigninAnswer {
    /// Status 200 and the token.
    Granted(AuthOutput),
    /// Status 403 and the reason.
    Refused(ErrorOutput),
}

impl SigninAnswer {
    /// The HTTP status of the answer.
    pub open spec fn spec_status(self) -> u16 {
        match self {
            SigninAnswer::Granted(_) => 200,
            SigninAnswer::Refused(_) => 403,
        }
    }

    /// The HTTP status of the answer.
    pub fn status(&self) -> (code: u16)
        ensures
            code == self.spec_status(),
    {
        match self {
            SigninAnswer::Granted(_) => 200,
            SigninAnswer::Refused(_) => 403,
        }
    }
}

/// Answers a sign-in: with the token signed for the user whom the
/// credentials matched, or with a refusal where they matched nobody.
pub fn signin_answer(token: Option<&str>) -> (answer: SigninAnswer)
    ensures
        match token {
            Some(t) => answer matches SigninAnswer::Granted(out) && out@ == t@,
            None => answer matches SigninAnswer::Refused(out) && out.error@
                == "Invalid email or password"@,
        },
{
    match token {
        Some(t) => SigninAnswer::Granted(AuthOutput::new(t)),
        None => SigninAnswer::Refused(ErrorOutput::new("Invalid email or password".to_owned())),
    }
}

} // verus!
