//! The requests of the wire protocol and what each one asks for.

use vstd::prelude::*;
use vstd::string::StringExecFns;
use crate::pool::WaitingPool;
use crate::text::text_equals;

verus! {

/// The version of the protocol that `protocol-version` reports.
pub const MATCHMAKER_PROTOCOL_VERSION: &'static str = "1";

/// What one request asks of the connection that received it.
pub enum RequestOutcome {
    /// The text to send back.
    Respond(String),
    /// No server waits: one has to be started before the answer is known.
    Provision,
    /// Not a command of the protocol: nothing is sent.
    Unknown,
}

/// A `RequestOutcome` over plain text.
pub enum Verdict {
    Respond(Seq<char>),
    Provision,
    Unknown,
}

impl View for RequestOutcome {
    type V = Verdict;

    open spec fn view(&self) -> Verdict {
        match self {
            RequestOutcome::Respond(text) => Verdict::Respond(text@),
            RequestOutcome::Provision => Verdict::Provision,
            RequestOutcome::Unknown => Verdict::Unknown,
        }
    }
}

/// The answer to `connect` for a server that is reached by `ticket`.
pub open spec fn port_response(ticket: Seq<char>) -> Seq<char> {
    "port:"@ + ticket
}

/// What `request` asks for when `pool` holds the waiting tickets.
pub open spec fn verdict_of(request: Seq<char>, pool: Seq<Seq<char>>) -> Verdict {
    if request == "protocol-version"@ {
        Verdict::Respond(MATCHMAKER_PROTOCOL_VERSION@)
    } else if request == "connect"@ {
        if pool.len() > 0 {
            Verdict::Respond(port_response(pool.last()))
        } else {
            Verdict::Provision
        }
    } else {
        Verdict::Unknown
    }
}

/// The pool that `request` leaves behind: `connect` takes the newest ticket,
/// nothing else touches the pool.
pub open spec fn pool_after(request: Seq<char>, pool: Seq<Seq<char>>) -> Seq<Seq<char>> {
    if request == "connect"@ && pool.len() > 0 {
        pool.drop_last()
    } else {
        pool
    }
}

/// Interprets a request of one token against the pool of waiting servers.
pub fn process_one_line_request(request: &str, pool: &mut WaitingPool) -> (outcome: RequestOutcome)
    ensures
        outcome@ == verdict_of(request@, old(pool)@),
        final(pool)@ == pool_after(request@, old(pool)@),
{
    proof {
        reveal_strlit("protocol-version");
        reveal_strlit("connect");
        assert("protocol-version"@.len() != "connect"@.len());
    }
    if text_equals(request, "protocol-version") {
        RequestOutcome::Respond(MATCHMAKER_PROTOCOL_VERSION.to_owned())
    } else if text_equals(request, "connect") {
        match pool.try_claim() {
            Some(ticket) => {
                let mut response = "port:".to_owned();
                response.append(ticket.as_str());
                RequestOutcome::Respond(response)
            },
            None => RequestOutcome::Provision,
        }
    } else {
        RequestOutcome::Unknown
    }
}

} // verus!
