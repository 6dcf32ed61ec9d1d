//! Realtime (Centrifugo) tokens for a user's personal channel.

use vstd::prelude::*;

use crate::error::AppError;
use crate::text::concat;

verus! {

/// The personal channel of a user.
pub open spec fn personal_channel(user_id: Seq<char>) -> Seq<char> {
    "personal:"@ + user_id
}

/// Hands out the realtime tokens and channel of a user.
#[derive(Default)]
pub struct GetWsTokensCommand;

impl GetWsTokensCommand {
    pub fn new() -> (r: GetWsTokensCommand) {
        GetWsTokensCommand
    }

    /// The user's personal channel, `personal:<user id>`.
    pub fn channel_for(&self, user_id: &str) -> (r: String)
        ensures
            r@ == personal_channel(user_id@),
    {
        concat("personal:", user_id)
    }

    /// The answer, given the channel and what signing gave: the first
    /// signing error, else (connection token, subscription token, channel).
    pub fn assemble(
        &self,
        channel: String,
        connect: Result<String, AppError>,
        subscribe: Result<String, AppError>,
    ) -> (r: Result<(String, String, String), AppError>)
        ensures
            match (connect, subscribe) {
                (Err(e), _) => r == Err::<(String, String, String), AppError>(e),
                (Ok(_), Err(e)) => r == Err::<(String, String, String), AppError>(e),
                (Ok(c), Ok(s)) => r == Ok::<(String, String, String), AppError>((c, s, channel)),
            },
    {
        match connect {
            Err(e) => Err(e),
            Ok(c) => match subscribe {
                Err(e) => Err(e),
                Ok(s) => Ok((c, s, channel)),
            },
        }
    }

    /// Asks `connect_token` for the user's connection token; if that fails,
    /// its error is the answer. Otherwise asks `subscribe_token` for the
    /// user's token on the personal channel, and answers its error or
    /// (connection token, subscription token, channel). The two signers stand
    /// for the service's JWT signing, which the library does not see into.
    pub fn execute<C, S>(&self, connect_token: &C, subscribe_token: &S, user_id: &str) -> (r: Result<
        (String, String, String),
        AppError,
    >) where C: Fn(&str) -> Result<String, AppError>, S: Fn(&str, &str) -> Result<String, AppError>
        requires
            connect_token.requires((user_id,)),
            forall|ch: &str| #[trigger] subscribe_token.requires((user_id, ch)),
        ensures
            exists|c: Result<String, AppError>|
                {
                    &&& #[trigger] connect_token.ensures((user_id,), c)
                    &&& match c {
                        Err(e) => r == Err::<(String, String, String), AppError>(e),
                        Ok(ct) => exists|ch: &str, s: Result<String, AppError>|
                            {
                                &&& ch@ == personal_channel(user_id@)
                                &&& #[trigger] subscribe_token.ensures((user_id, ch), s)
                                &&& match s {
                                    Err(e) => r == Err::<(String, String, String), AppError>(e),
                                    Ok(st) => r matches Ok((a, b, channel)) && a == ct && b == st
                                        && channel@ == ch@,
                                }
                            },
                    }
                },
    {
        let channel = self.channel_for(user_id);
        let connect = connect_token(user_id);
        match connect {
            Err(e) => Err(e),
            Ok(c) => {
                let subscribe = subscribe_token(user_id, channel.as_str());
                self.assemble(channel, Ok(c), subscribe)
            },
        }
    }
}

} // verus!
