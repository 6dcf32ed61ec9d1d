//! Authenticating a node, and the first message of a node's gRPC stream.

use vstd::prelude::*;

use crate::error::AppError;
use crate::text::{concat, str_eq};

verus! {

/// Checks a connecting node's shared secret.
pub struct ConnectNodeCommand {
    expected_secret: String,
}

impl ConnectNodeCommand {
    pub closed spec fn secret(self) -> Seq<char> {
        self.expected_secret@
    }

    pub fn new(expected_secret: String) -> (r: ConnectNodeCommand)
        ensures
            r.secret() == expected_secret@,
    {
        ConnectNodeCommand { expected_secret }
    }

    /// A node may connect only with the configured secret; the node's
    /// details are stored only when this accepts.
    pub fn authorize(&self, auth_secret: &str) -> (r: Result<(), AppError>)
        ensures
            auth_secret@ == self.secret() ==> r is Ok,
            auth_secret@ != self.secret() ==> r == Err::<(), AppError>(AppError::WrongCredentials),
    {
        if str_eq(self.expected_secret.as_str(), auth_secret) {
            Ok(())
        } else {
            Err(AppError::WrongCredentials)
        }
    }
}

/// Why the hub refuses a gRPC stream, as a gRPC status.
#[derive(Debug, Clone, PartialEq, Eq)]
pub enum StreamRejection {
    InvalidArgument(String),
    Unauthenticated(String),
    Internal(String),
}

/// The payload of a node's gRPC message, as far as the hub tells them apart.
#[derive(Debug, Clone)]
pub enum StreamPayload {
    /// A registration with the tags of the node's inbounds.
    Registration { inbound_tags: Vec<String> },
    CommandResult,
    TrafficReport,
}

/// A node's first gRPC message.
#[derive(Debug, Clone)]
pub struct StreamHello {
    pub node_id: String,
    pub auth_secret: String,
    pub payload: Option<StreamPayload>,
}

/// The tags without the empty ones, in order.
pub open spec fn non_empty_tags(tags: Seq<String>) -> Seq<Seq<char>> {
    tags.map_values(|t: String| t@).filter(|t: Seq<char>| t.len() > 0)
}

pub fn filter_non_empty_tags(tags: &Vec<String>) -> (r: Vec<String>)
    ensures
        r@.map_values(|t: String| t@) == non_empty_tags(tags@),
{
    let mut out: Vec<String> = Vec::new();
    let n = tags.len();
    let mut i: usize = 0;
    while i < n
        invariant
            n == tags.len(),
            i <= n,
            out@.map_values(|t: String| t@) == tags@.subrange(0, i as int).map_values(|t: String| t@).filter(
                |t: Seq<char>| t.len() > 0,
            ),
        decreases n - i,
    {
        let ghost prev = out@;
        let t = &tags[i];
        if t.as_str().unicode_len() > 0 {
            out.push(t.clone());
        }
        proof {
            let f = |t: Seq<char>| t.len() > 0;
            let s0 = tags@.subrange(0, i as int).map_values(|t: String| t@);
            let s1 = tags@.subrange(0, i + 1).map_values(|t: String| t@);
            assert(s1 =~= s0.push(tags@[i as int]@));
            reveal_with_fuel(Seq::<Seq<char>>::filter, 1);
            assert(s1.drop_last() =~= s0);
            assert(s1.filter(f) == if f(s1.last()) {
                s0.filter(f).push(s1.last())
            } else {
                s0.filter(f)
            });
            assert(out@.map_values(|t: String| t@) =~= if f(tags@[i as int]@) {
                prev.map_values(|t: String| t@).push(tags@[i as int]@)
            } else {
                prev.map_values(|t: String| t@)
            });
        }
        i = i + 1;
    }
    assert(tags@.subrange(0, n as int) =~= tags@);
    out
}

/// What the first message of a node's stream yields: the node's id and
/// secret and its non-empty inbound tags, or why the stream is refused.
/// `first` is what reading the stream gave: a message, the stream's end,
/// or the read error's text.
pub fn check_stream_hello(first: Result<Option<StreamHello>, String>) -> (r: Result<
    (String, String, Vec<String>),
    StreamRejection,
>)
    ensures
        match first {
            Err(e) => r matches Err(StreamRejection::Internal(m)) && m@ == "Stream read error: "@ + e@,
            Ok(None) => r matches Err(StreamRejection::InvalidArgument(m)) && m@ == "Empty stream"@,
            Ok(Some(h)) => if h.node_id@.len() == 0 || h.auth_secret@.len() == 0 {
                r matches Err(StreamRejection::Unauthenticated(m)) && m@ == "Node ID or auth secret is empty"@
            } else {
                match h.payload {
                    Some(StreamPayload::Registration { inbound_tags }) => r matches Ok((id, secret, tags))
                        && id == h.node_id && secret == h.auth_secret && tags@.map_values(|t: String| t@)
                        == non_empty_tags(inbound_tags@),
                    _ => r matches Err(StreamRejection::InvalidArgument(m)) && m@
                        == "First message must contain NodeRegistration payload"@,
                }
            },
        },
{
    match first {
        Err(e) => Err(StreamRejection::Internal(concat("Stream read error: ", e.as_str()))),
        Ok(None) => Err(StreamRejection::InvalidArgument("Empty stream".to_string())),
        Ok(Some(h)) => {
            if h.node_id.as_str().unicode_len() == 0 || h.auth_secret.as_str().unicode_len() == 0 {
                return Err(StreamRejection::Unauthenticated("Node ID or auth secret is empty".to_string()));
            }
            match h.payload {
                Some(StreamPayload::Registration { inbound_tags }) => {
                    let tags = filter_non_empty_tags(&inbound_tags);
                    Ok((h.node_id, h.auth_secret, tags))
                },
                _ => Err(
                    StreamRejection::InvalidArgument(
                        "First message must contain NodeRegistration payload".to_string(),
                    ),
                ),
            }
        },
    }
}

} // verus!
