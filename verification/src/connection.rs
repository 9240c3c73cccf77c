//! One client connection as a state machine.
//!
//! The program that owns the socket performs what the current state waits
//! for (a read, the start of a server, a write) and reports it as an event;
//! `Connection::advance` decides what follows.

use vstd::prelude::*;
use crate::pool::WaitingPool;
use crate::provision::outcome_response;
use crate::provision::outcome_ticket;
use crate::provision::provision_and_claim;
use crate::provision::ProvisionOutcome;
use crate::request::pool_after;
use crate::request::port_response;
use crate::request::process_one_line_request;
use crate::request::verdict_of;
use crate::request::RequestOutcome;
use crate::request::Verdict;
use crate::ports::first_free_port;
use crate::ports::lemma_no_port_reuse;
use crate::ports::FIRST_PORT;
use crate::ports::PORT_LIMIT;
use crate::text::decimal;
use crate::text::lemma_decimal_is_injective;
use crate::text::split_whitespace;
use crate::text::tokens;

verus! {

/// How long a read waits for a line, in milliseconds, before the connection
/// counts as idle.
pub const READ_TIMEOUT_MILLIS: u64 = 100;

/// What an attempt to read one line gave.
pub enum ReadEvent {
    /// A line arrived.
    Line(String),
    /// Nothing arrived within the read timeout.
    TimedOut,
    /// The client closed the stream.
    EndOfStream,
    /// The socket reported an error.
    Failed,
}

/// What the owner of the socket reports to the state machine.
pub enum Event {
    /// A read ended.
    Read(ReadEvent),
    /// The attempt to start a server ended.
    Provisioned(ProvisionOutcome),
    /// The response was written in full.
    Written,
    /// The socket reported an error while the response was written.
    WriteFailed,
}

/// The state of a connection, which is also what its owner has to do next.
pub enum Connection {
    /// Read one line, waiting no longer than the read timeout.
    Reading,
    /// A `connect` found the pool empty: start a server.
    Dispatching,
    /// Write this text as it is, with nothing before or after it.
    Responding(String),
    /// Release the connection.
    Closed,
}

/// A `Connection` over plain text.
pub enum Phase {
    Reading,
    Dispatching,
    Responding(Seq<char>),
    Closed,
}

impl View for Connection {
    type V = Phase;

    open spec fn view(&self) -> Phase {
        match self {
            Connection::Reading => Phase::Reading,
            Connection::Dispatching => Phase::Dispatching,
            Connection::Responding(text) => Phase::Responding(text@),
            Connection::Closed => Phase::Closed,
        }
    }
}

/// The state that follows a line: a line of exactly one token is dispatched
/// as a request, any other line is dropped.
pub open spec fn phase_after_line(line: Seq<char>, pool: Seq<Seq<char>>) -> Phase {
    let words = tokens(line);
    if words.len() == 1 {
        match verdict_of(words[0], pool) {
            Verdict::Respond(text) => Phase::Responding(text),
            Verdict::Provision => Phase::Dispatching,
            Verdict::Unknown => Phase::Reading,
        }
    } else {
        Phase::Reading
    }
}

/// The pool that a line leaves behind.
pub open spec fn pool_after_line(line: Seq<char>, pool: Seq<Seq<char>>) -> Seq<Seq<char>> {
    let words = tokens(line);
    if words.len() == 1 {
        pool_after(words[0], pool)
    } else {
        pool
    }
}

/// The state that follows `event` in state `phase`. An event that the state
/// does not wait for changes nothing.
pub open spec fn next_phase(phase: Phase, event: Event, pool: Seq<Seq<char>>) -> Phase {
    match (phase, event) {
        (Phase::Reading, Event::Read(ReadEvent::Line(line))) => phase_after_line(line@, pool),
        (Phase::Reading, Event::Read(_)) => Phase::Closed,
        (Phase::Dispatching, Event::Provisioned(outcome)) => Phase::Responding(
            outcome_response(outcome),
        ),
        (Phase::Responding(_), Event::Written) => Phase::Reading,
        (Phase::Responding(_), Event::WriteFailed) => Phase::Closed,
        _ => phase,
    }
}

/// The pool that `event` leaves behind in state `phase`: only a line that is
/// read can change it.
pub open spec fn next_pool(phase: Phase, event: Event, pool: Seq<Seq<char>>) -> Seq<Seq<char>> {
    match (phase, event) {
        (Phase::Reading, Event::Read(ReadEvent::Line(line))) => pool_after_line(line@, pool),
        _ => pool,
    }
}

impl Connection {
    /// A connection that was just accepted.
    pub fn open() -> (connection: Connection)
        ensures
            connection@ == Phase::Reading,
    {
        Connection::Reading
    }

    /// Whether the connection is over.
    pub fn is_closed(&self) -> (closed: bool)
        ensures
            closed == (self@ == Phase::Closed),
    {
        match self {
            Connection::Closed => true,
            _ => false,
        }
    }

    /// Takes one event and moves to the state that follows it.
    pub fn advance(self, event: Event, pool: &mut WaitingPool) -> (next: Connection)
        ensures
            next@ == next_phase(self@, event, old(pool)@),
            final(pool)@ == next_pool(self@, event, old(pool)@),
    {
        match self {
            Connection::Reading => match event {
                Event::Read(ReadEvent::Line(line)) => {
                    let words = split_whitespace(line.as_str());
                    if words.len() == 1 {
                        assert(words.deep_view()[0] == words[0]@);
                        match process_one_line_request(words[0].as_str(), pool) {
                            RequestOutcome::Respond(text) => Connection::Responding(text),
                            RequestOutcome::Provision => Connection::Dispatching,
                            RequestOutcome::Unknown => Connection::Reading,
                        }
                    } else {
                        Connection::Reading
                    }
                },
                Event::Read(_) => Connection::Closed,
                _ => Connection::Reading,
            },
            Connection::Dispatching => match event {
                Event::Provisioned(outcome) => Connection::Responding(
                    provision_and_claim(pool, outcome),
                ),
                _ => Connection::Dispatching,
            },
            Connection::Responding(text) => match event {
                Event::Written => Connection::Reading,
                Event::WriteFailed => Connection::Closed,
                _ => Connection::Responding(text),
            },
            Connection::Closed => Connection::Closed,
        }
    }
}

/// A `connect` that finds tickets in the pool is answered at once with the
/// newest of them, and that ticket leaves the pool.
pub proof fn lemma_connect_claims_newest_ticket(line: String, pool: Seq<Seq<char>>)
    requires
        tokens(line@) == seq!["connect"@],
        pool.len() > 0,
    ensures
        next_phase(Phase::Reading, Event::Read(ReadEvent::Line(line)), pool) == Phase::Responding(
            port_response(pool.last()),
        ),
        next_pool(Phase::Reading, Event::Read(ReadEvent::Line(line)), pool) == pool.drop_last(),
{
    reveal_strlit("connect");
    reveal_strlit("protocol-version");
    assert("connect"@.len() != "protocol-version"@.len());
}

/// A `connect` that finds the pool empty asks for one server to be started.
/// Once a server runs on the port that the scan of the range gave, the client
/// is told that port, which lies in the range, and the connection reads on.
/// The pool is empty all the while.
pub proof fn lemma_connect_provisions_once(line: String, free: spec_fn(u16) -> bool, port: u16)
    requires
        tokens(line@) == seq!["connect"@],
        first_free_port(free, FIRST_PORT as int, PORT_LIMIT as int) == Some(port),
    ensures
        FIRST_PORT <= port < PORT_LIMIT,
        next_phase(Phase::Reading, Event::Read(ReadEvent::Line(line)), Seq::empty())
            == Phase::Dispatching,
        next_pool(Phase::Reading, Event::Read(ReadEvent::Line(line)), Seq::empty())
            == Seq::<Seq<char>>::empty(),
        next_phase(
            Phase::Dispatching,
            Event::Provisioned(ProvisionOutcome::Launched(port)),
            Seq::empty(),
        ) == Phase::Responding(port_response(decimal(port as nat))),
        next_pool(
            Phase::Dispatching,
            Event::Provisioned(ProvisionOutcome::Launched(port)),
            Seq::empty(),
        ) == Seq::<Seq<char>>::empty(),
        next_phase(
            Phase::Responding(port_response(decimal(port as nat))),
            Event::Written,
            Seq::empty(),
        ) == Phase::Reading,
{
    reveal_strlit("connect");
    reveal_strlit("protocol-version");
    assert("connect"@.len() != "protocol-version"@.len());
    crate::ports::lemma_first_free_port(free, FIRST_PORT as int, PORT_LIMIT as int);
}

/// Two clients that connect one after the other, each finding the pool empty,
/// get a server each: the second `connect` asks for a server of its own, and
/// with the first server holding its port when the range is scanned again,
/// the two clients are told different ports.
pub proof fn lemma_sequential_connects_provision_independently(
    line: String,
    free_then: spec_fn(u16) -> bool,
    free_now: spec_fn(u16) -> bool,
    first: u16,
    second: u16,
)
    requires
        tokens(line@) == seq!["connect"@],
        first_free_port(free_then, FIRST_PORT as int, PORT_LIMIT as int) == Some(first),
        first_free_port(free_now, FIRST_PORT as int, PORT_LIMIT as int) == Some(second),
        !free_now(first),
    ensures
        ({
            let empty = Seq::<Seq<char>>::empty();
            let connect = Event::Read(ReadEvent::Line(line));
            let launched = Event::Provisioned(ProvisionOutcome::Launched(first));
            let asked = next_phase(Phase::Reading, connect, empty);
            let after_ask = next_pool(Phase::Reading, connect, empty);
            let answered = next_phase(asked, launched, after_ask);
            let after_answer = next_pool(asked, launched, after_ask);
            let read_on = next_phase(answered, Event::Written, after_answer);
            let at_rest = next_pool(answered, Event::Written, after_answer);
            &&& asked == Phase::Dispatching
            &&& answered == Phase::Responding(port_response(decimal(first as nat)))
            &&& read_on == Phase::Reading
            &&& at_rest == empty
            &&& next_phase(read_on, connect, at_rest) == Phase::Dispatching
        }),
        first != second,
        port_response(decimal(first as nat)) != port_response(decimal(second as nat)),
{
    lemma_connect_provisions_once(line, free_then, first);
    lemma_no_port_reuse(free_then, free_now, first, second);
    let a = port_response(decimal(first as nat));
    let b = port_response(decimal(second as nat));
    if a == b {
        assert(decimal(first as nat) =~= a.skip("port:"@.len() as int));
        assert(decimal(second as nat) =~= b.skip("port:"@.len() as int));
        lemma_decimal_is_injective(first as nat, second as nat);
    }
}

/// A line of one token that is no command of the protocol is dropped:
/// nothing is written, the pool stays as it is, and the connection reads on.
pub proof fn lemma_unknown_request_is_dropped(line: String, pool: Seq<Seq<char>>)
    requires
        tokens(line@).len() == 1,
        tokens(line@)[0] != "protocol-version"@,
        tokens(line@)[0] != "connect"@,
    ensures
        next_phase(Phase::Reading, Event::Read(ReadEvent::Line(line)), pool) == Phase::Reading,
        next_pool(Phase::Reading, Event::Read(ReadEvent::Line(line)), pool) == pool,
{
}

/// A line that does not have exactly one token is dropped: nothing is
/// written, the pool stays as it is, and the connection reads on.
pub proof fn lemma_malformed_line_is_dropped(line: String, pool: Seq<Seq<char>>)
    requires
        tokens(line@).len() != 1,
    ensures
        next_phase(Phase::Reading, Event::Read(ReadEvent::Line(line)), pool) == Phase::Reading,
        next_pool(Phase::Reading, Event::Read(ReadEvent::Line(line)), pool) == pool,
{
}

/// A read that gives no line (the timeout ran out, the stream ended, the
/// socket failed) closes the connection and leaves the pool, the only thing
/// that connections share, as it is. A closed connection stays closed and
/// has no effect on the pool, whatever is reported to it.
pub proof fn lemma_idle_connection_closes(read: ReadEvent, later: Event, pool: Seq<Seq<char>>)
    requires
        !(read is Line),
    ensures
        next_phase(Phase::Reading, Event::Read(read), pool) == Phase::Closed,
        next_pool(Phase::Reading, Event::Read(read), pool) == pool,
        next_phase(Phase::Closed, later, pool) == Phase::Closed,
        next_pool(Phase::Closed, later, pool) == pool,
{
}

/// A write that fails closes the connection and leaves the pool as it is.
pub proof fn lemma_failed_write_closes(response: Seq<char>, pool: Seq<Seq<char>>)
    ensures
        next_phase(Phase::Responding(response), Event::WriteFailed, pool) == Phase::Closed,
        next_pool(Phase::Responding(response), Event::WriteFailed, pool) == pool,
{
}

/// Where no server could be started, the client is told why, in the words
/// of the diagnostic alone, and the connection stays open for its next
/// request.
pub proof fn lemma_failed_provisioning_is_reported(outcome: ProvisionOutcome, pool: Seq<Seq<char>>)
    requires
        !(outcome is Launched),
    ensures
        next_phase(Phase::Dispatching, Event::Provisioned(outcome), pool) == Phase::Responding(
            outcome_ticket(outcome),
        ),
        next_pool(Phase::Dispatching, Event::Provisioned(outcome), pool) == pool,
        outcome is NoPorts ==> outcome_ticket(outcome) == "no ports"@,
        next_phase(Phase::Responding(outcome_ticket(outcome)), Event::Written, pool)
            == Phase::Reading,
{
}

/// No event adds a ticket to the pool: it stays as it is, or loses its newest
/// ticket to a client. So a pool in which no port occurs twice stays one.
pub proof fn lemma_pool_never_grows(phase: Phase, event: Event, pool: Seq<Seq<char>>)
    ensures
        next_pool(phase, event, pool) == pool || (pool.len() > 0 && next_pool(phase, event, pool)
            == pool.drop_last()),
        pool.no_duplicates() ==> next_pool(phase, event, pool).no_duplicates(),
{
}

} // verus!
