//! The exchange with one client of the daemon: one line in, at most one line out.
use vstd::prelude::*;

use crate::text::{blank, is_blank, is_white_space};

verus! {

/// Where the daemon listens.
pub const SOCKET_PATH: &'static str = "/tmp/forkbox.sock";

/// Every local user may connect.
pub const SOCKET_MODE: u32 = 0o777;

/// The answer to a line that is no request.
pub const REFUSAL: &'static str = "{\"error\": \"Payload JSON invalido\"}\n";

/// How far an exchange has come.
#[derive(Clone, Copy, Debug, PartialEq, Eq, Structural)]
pub enum Stage {
    /// The client's line is being read.
    AwaitingLine,
    /// The line is being decoded.
    Decoding,
    /// The request is being carried out.
    Executing,
    /// The response is being encoded.
    Encoding,
    /// The encoded response is being sent.
    SendingReply,
    /// The end of its line is being sent.
    SendingNewline,
    /// What was sent is being flushed.
    Flushing,
    /// The refusal is being sent.
    SendingRefusal,
    /// The exchange is over.
    Closed,
}

/// What came of the pending action.
#[derive(Debug)]
pub enum ClientEvent {
    /// The client's line; empty if the client sent none.
    Line(String),
    /// No line could be read.
    LineFailed,
    /// Whether the line is a request.
    Decoded(bool),
    /// The request was carried out.
    Executed,
    /// The response, encoded.
    Encoded(String),
    /// The response could not be encoded.
    EncodeFailed,
    /// What was to be sent or flushed was tried, with whatever success.
    Sent,
}

/// What is to be done next, with the texts it takes.
#[derive(Debug)]
pub enum ClientAction<T> {
    /// Read a line.
    ReadLine,
    /// Decode this line.
    Decode(T),
    /// Carry out the request that was decoded.
    Execute,
    /// Encode the response.
    Encode,
    /// Send this text.
    Send(T),
    /// Flush what was sent.
    Flush,
    /// Let the client go.
    Close,
    /// Go on with what was asked for before.
    Continue,
}

impl ClientAction<String> {
    /// The action with the texts its strings hold.
    pub open spec fn with_text(self) -> ClientAction<Seq<char>> {
        match self {
            ClientAction::ReadLine => ClientAction::ReadLine,
            ClientAction::Decode(line) => ClientAction::Decode(line@),
            ClientAction::Execute => ClientAction::Execute,
            ClientAction::Encode => ClientAction::Encode,
            ClientAction::Send(text) => ClientAction::Send(text@),
            ClientAction::Flush => ClientAction::Flush,
            ClientAction::Close => ClientAction::Close,
            ClientAction::Continue => ClientAction::Continue,
        }
    }
}

impl Stage {
    /// The stage after an event, and what is to be done then. An event that does not
    /// answer the pending action changes nothing.
    pub open spec fn after(self, event: ClientEvent) -> (Stage, ClientAction<Seq<char>>) {
        match (self, event) {
            (Stage::AwaitingLine, ClientEvent::Line(line)) => if is_blank(line@) {
                (Stage::Closed, ClientAction::Close)
            } else {
                (Stage::Decoding, ClientAction::Decode(line@))
            },
            (Stage::AwaitingLine, ClientEvent::LineFailed) => (Stage::Closed, ClientAction::Close),
            (Stage::Decoding, ClientEvent::Decoded(is_request)) => if is_request {
                (Stage::Executing, ClientAction::Execute)
            } else {
                (Stage::SendingRefusal, ClientAction::Send(REFUSAL@))
            },
            (Stage::Executing, ClientEvent::Executed) => (Stage::Encoding, ClientAction::Encode),
            (Stage::Encoding, ClientEvent::Encoded(response)) => (
                Stage::SendingReply,
                ClientAction::Send(response@),
            ),
            (Stage::Encoding, ClientEvent::EncodeFailed) => (Stage::Closed, ClientAction::Close),
            (Stage::SendingReply, ClientEvent::Sent) => (
                Stage::SendingNewline,
                ClientAction::Send("\n"@),
            ),
            (Stage::SendingNewline, ClientEvent::Sent) => (Stage::Flushing, ClientAction::Flush),
            (Stage::Flushing, ClientEvent::Sent) => (Stage::Closed, ClientAction::Close),
            (Stage::SendingRefusal, ClientEvent::Sent) => (Stage::Closed, ClientAction::Close),
            (stage, _) => (stage, ClientAction::Continue),
        }
    }

    /// All that is sent to the client in the course of these events.
    pub open spec fn sent(self, events: Seq<ClientEvent>) -> Seq<char>
        decreases events.len(),
    {
        if events.len() == 0 {
            Seq::empty()
        } else {
            let (stage, action) = self.after(events[0]);
            let rest = stage.sent(events.drop_first());
            match action {
                ClientAction::Send(text) => text + rest,
                _ => rest,
            }
        }
    }
}

/// The end of a line.
pub open spec fn newline() -> char {
    '\n'
}

/// A text is one line: it ends with the end of a line, and has no other.
pub open spec fn is_one_line(text: Seq<char>) -> bool {
    &&& text.len() > 0
    &&& text.last() == newline()
    &&& !text.drop_last().contains(newline())
}

impl Stage {
    /// How often a request is carried out in the course of these events.
    pub open spec fn executions(self, events: Seq<ClientEvent>) -> nat
        decreases events.len(),
    {
        if events.len() == 0 {
            0
        } else {
            let (stage, action) = self.after(events[0]);
            let rest = stage.executions(events.drop_first());
            if action is Execute {
                rest + 1
            } else {
                rest
            }
        }
    }
}

/// An exchange with one client.
pub struct Exchange {
    stage: Stage,
}

impl View for Exchange {
    type V = Stage;

    closed spec fn view(&self) -> Stage {
        self.stage
    }
}

impl Exchange {
    /// Begins the exchange with a client that just connected.
    pub fn new() -> (exchange: Exchange)
        ensures
            exchange@ == Stage::AwaitingLine,
    {
        Exchange { stage: Stage::AwaitingLine }
    }

    /// Takes what came of the pending action, and says what is to be done next.
    pub fn advance(&mut self, event: ClientEvent) -> (action: ClientAction<String>)
        ensures
            (final(self)@, action.with_text()) == old(self)@.after(event),
    {
        match (self.stage, event) {
            (Stage::AwaitingLine, ClientEvent::Line(line)) => {
                if blank(line.as_str()) {
                    self.stage = Stage::Closed;
                    ClientAction::Close
                } else {
                    self.stage = Stage::Decoding;
                    ClientAction::Decode(line)
                }
            },
            (Stage::Decoding, ClientEvent::Decoded(is_request)) => {
                if is_request {
                    self.stage = Stage::Executing;
                    ClientAction::Execute
                } else {
                    self.stage = Stage::SendingRefusal;
                    ClientAction::Send(REFUSAL.to_owned())
                }
            },
            (Stage::Executing, ClientEvent::Executed) => {
                self.stage = Stage::Encoding;
                ClientAction::Encode
            },
            (Stage::Encoding, ClientEvent::Encoded(response)) => {
                self.stage = Stage::SendingReply;
                ClientAction::Send(response)
            },
            (Stage::SendingReply, ClientEvent::Sent) => {
                self.stage = Stage::SendingNewline;
                ClientAction::Send("\n".to_owned())
            },
            (Stage::SendingNewline, ClientEvent::Sent) => {
                self.stage = Stage::Flushing;
                ClientAction::Flush
            },
            (Stage::AwaitingLine, ClientEvent::LineFailed) | (
                Stage::Encoding,
                ClientEvent::EncodeFailed,
            ) | (Stage::Flushing, ClientEvent::Sent) | (
                Stage::SendingRefusal,
                ClientEvent::Sent,
            ) => {
                self.stage = Stage::Closed;
                ClientAction::Close
            },
            _ => ClientAction::Continue,
        }
    }
}

/// Once its last text is on the way, an exchange sends nothing more.
pub proof fn law_nothing_follows_the_answer(stage: Stage, events: Seq<ClientEvent>)
    requires
        stage is SendingNewline || stage is Flushing || stage is SendingRefusal || stage is Closed,
    ensures
        stage.sent(events) == Seq::<char>::empty(),
    decreases events.len(),
{
    if events.len() > 0 {
        law_nothing_follows_the_answer(stage.after(events[0]).0, events.drop_first());
    }
}

/// A client that sends nothing but white space, or nothing that can be read, gets no
/// answer.
pub proof fn law_blank_line_gets_no_answer(first: ClientEvent, events: Seq<ClientEvent>)
    requires
        first is LineFailed || (first matches ClientEvent::Line(line) && is_blank(line@)),
    ensures
        Stage::AwaitingLine.sent(seq![first] + events) == Seq::<char>::empty(),
{
    let all = seq![first] + events;
    assert(all.drop_first() =~= events);
    law_nothing_follows_the_answer(Stage::Closed, events);
}

/// A line that is no request is answered with the refusal, whatever follows.
pub proof fn law_invalid_payload_is_refused(line: String, events: Seq<ClientEvent>)
    requires
        !is_blank(line@),
    ensures
        Stage::AwaitingLine.sent(
            seq![ClientEvent::Line(line), ClientEvent::Decoded(false)] + events,
        ) == REFUSAL@,
{
    let all = seq![ClientEvent::Line(line), ClientEvent::Decoded(false)] + events;
    let rest = all.drop_first();
    assert(rest[0] == ClientEvent::Decoded(false));
    assert(rest.drop_first() =~= events);
    law_nothing_follows_the_answer(Stage::SendingRefusal, events);
    assert(Stage::Decoding.sent(rest) =~= REFUSAL@);
}

/// A request that was carried out is answered with one line: the encoded response and the
/// end of the line, whatever follows.
pub proof fn law_request_is_answered_with_a_line(
    line: String,
    response: String,
    events: Seq<ClientEvent>,
)
    requires
        !is_blank(line@),
    ensures
        Stage::AwaitingLine.sent(
            seq![
                ClientEvent::Line(line),
                ClientEvent::Decoded(true),
                ClientEvent::Executed,
                ClientEvent::Encoded(response),
                ClientEvent::Sent,
            ] + events,
        ) == response@ + "\n"@,
{
    let all = seq![
        ClientEvent::Line(line),
        ClientEvent::Decoded(true),
        ClientEvent::Executed,
        ClientEvent::Encoded(response),
        ClientEvent::Sent,
    ] + events;
    let e1 = all.drop_first();
    let e2 = e1.drop_first();
    let e3 = e2.drop_first();
    let e4 = e3.drop_first();
    assert(e4.drop_first() =~= events);
    law_nothing_follows_the_answer(Stage::SendingNewline, events);
    assert(Stage::SendingReply.sent(e4) =~= "\n"@);
    assert(Stage::Encoding.sent(e3) =~= response@ + "\n"@);
    assert(Stage::Executing.sent(e2) == Stage::Encoding.sent(e3));
    assert(Stage::Decoding.sent(e1) == Stage::Executing.sent(e2));
}

/// What answers a request is one line, and the encoded response can be read back from it
/// by taking off the end of the line, as long as the encoded response has no end of a line
/// in itself.
pub proof fn law_answer_is_one_line(
    line: String,
    response: String,
    events: Seq<ClientEvent>,
)
    requires
        !is_blank(line@),
        !response@.contains(newline()),
    ensures
        ({
            let answer = Stage::AwaitingLine.sent(
                seq![
                    ClientEvent::Line(line),
                    ClientEvent::Decoded(true),
                    ClientEvent::Executed,
                    ClientEvent::Encoded(response),
                    ClientEvent::Sent,
                ] + events,
            );
            is_one_line(answer) && answer.drop_last() == response@
        }),
{
    law_request_is_answered_with_a_line(line, response, events);
    reveal_strlit("\n");
    assert((response@ + "\n"@).drop_last() =~= response@);
}

/// Whatever happens, a client is sent nothing, or the refusal, or one encoded response
/// with at most the end of its line.
pub proof fn law_answers_are_the_known_ones(events: Seq<ClientEvent>)
    ensures
        ({
            let answer = Stage::AwaitingLine.sent(events);
            ||| answer == Seq::<char>::empty()
            ||| answer == REFUSAL@
            ||| is_response_among(answer, events)
        }),
{
    lemma_what_can_be_sent(Stage::AwaitingLine, events);
}

/// An answer is a response that was encoded in the course of these events, with or without
/// the end of its line.
pub open spec fn is_response_among(answer: Seq<char>, events: Seq<ClientEvent>) -> bool {
    exists|i: int|
        0 <= i < events.len() && (#[trigger] events[i] matches ClientEvent::Encoded(response) && (
        answer == response@ || answer == response@ + "\n"@))
}

/// What can be sent from each stage on.
proof fn lemma_what_can_be_sent(stage: Stage, events: Seq<ClientEvent>)
    ensures
        ({
            let answer = stage.sent(events);
            ||| answer == Seq::<char>::empty()
            ||| stage is SendingReply && answer == "\n"@
            ||| (stage is AwaitingLine || stage is Decoding) && answer == REFUSAL@
            ||| !(stage is SendingReply) && is_response_among(answer, events)
        }),
    decreases events.len(),
{
    if events.len() > 0 {
        let (next, action) = stage.after(events[0]);
        let rest = events.drop_first();
        let tail = next.sent(rest);
        lemma_what_can_be_sent(next, rest);
        if let ClientAction::Send(text) = action {
            if next is SendingReply {
                assert(events[0] is Encoded);
                assert(stage.sent(events) == text + tail);
                assert(text + Seq::<char>::empty() =~= text);
            } else {
                law_nothing_follows_the_answer(next, rest);
                assert(text + tail =~= text);
            }
        } else if is_response_among(tail, rest) {
            let i = choose|i: int|
                0 <= i < rest.len() && (#[trigger] rest[i] matches ClientEvent::Encoded(response)
                    && (tail == response@ || tail == response@ + "\n"@));
            assert(events[i + 1] == rest[i]);
        }
    }
}

/// The refusal is one line too.
pub proof fn law_refusal_is_one_line()
    ensures
        is_one_line(REFUSAL@),
{
    reveal_strlit("{\"error\": \"Payload JSON invalido\"}\n");
}

/// An exchange carries out at most one request, whatever happens.
pub proof fn law_one_execution_per_exchange(events: Seq<ClientEvent>)
    ensures
        Stage::AwaitingLine.executions(events) <= 1,
{
    lemma_executions_left(Stage::AwaitingLine, events);
}

/// Once a request is carried out, or will not be, none is carried out any more.
proof fn lemma_executions_left(stage: Stage, events: Seq<ClientEvent>)
    ensures
        stage.executions(events) <= if stage is AwaitingLine || stage is Decoding {
            1nat
        } else {
            0nat
        },
    decreases events.len(),
{
    if events.len() > 0 {
        lemma_executions_left(stage.after(events[0]).0, events.drop_first());
    }
}

/// Every line that is not blank is handed on to be decoded as it is, however long; a line
/// is blank if it holds nothing but white space, and such a line ends the exchange.
pub proof fn law_line_is_decoded_unchanged(line: String)
    ensures
        (exists|i: int| 0 <= i < line@.len() && !is_white_space(#[trigger] line@[i]))
            ==> Stage::AwaitingLine.after(ClientEvent::Line(line)) == (
            Stage::Decoding,
            ClientAction::<Seq<char>>::Decode(line@),
        ),
        (forall|i: int| 0 <= i < line@.len() ==> is_white_space(#[trigger] line@[i]))
            ==> Stage::AwaitingLine.after(ClientEvent::Line(line)) == (
            Stage::Closed,
            ClientAction::<Seq<char>>::Close,
        ),
{
}

/// The texts of an action are exactly those that its strings hold, and an action has the
/// same sort with texts as with strings.
pub proof fn law_action_carries_its_text(action: ClientAction<String>, text: Seq<char>)
    ensures
        action.with_text() == ClientAction::<Seq<char>>::Decode(text) <==> (action is Decode
            && action->Decode_0@ == text),
        action.with_text() == ClientAction::<Seq<char>>::Send(text) <==> (action is Send
            && action->Send_0@ == text),
        action.with_text() is ReadLine <==> action is ReadLine,
        action.with_text() is Execute <==> action is Execute,
        action.with_text() is Encode <==> action is Encode,
        action.with_text() is Flush <==> action is Flush,
        action.with_text() is Close <==> action is Close,
        action.with_text() is Continue <==> action is Continue,
{
}

/// What an exchange does with what comes, at each of its stages: a request is carried out,
/// encoded and sent as it was encoded, then the end of its line, and is flushed; a line that
/// is no request gets the refusal; what cannot be read or encoded ends the exchange.
pub proof fn law_exchange_goes_step_by_step(response: String)
    ensures
        Stage::AwaitingLine.after(ClientEvent::LineFailed) == (
            Stage::Closed,
            ClientAction::<Seq<char>>::Close,
        ),
        Stage::Decoding.after(ClientEvent::Decoded(true)) == (
            Stage::Executing,
            ClientAction::<Seq<char>>::Execute,
        ),
        Stage::Decoding.after(ClientEvent::Decoded(false)) == (
            Stage::SendingRefusal,
            ClientAction::Send("{\"error\": \"Payload JSON invalido\"}\n"@),
        ),
        Stage::Executing.after(ClientEvent::Executed) == (
            Stage::Encoding,
            ClientAction::<Seq<char>>::Encode,
        ),
        Stage::Encoding.after(ClientEvent::Encoded(response)) == (
            Stage::SendingReply,
            ClientAction::Send(response@),
        ),
        Stage::Encoding.after(ClientEvent::EncodeFailed) == (
            Stage::Closed,
            ClientAction::<Seq<char>>::Close,
        ),
        Stage::SendingReply.after(ClientEvent::Sent) == (
            Stage::SendingNewline,
            ClientAction::Send(seq!['\n']),
        ),
        Stage::SendingNewline.after(ClientEvent::Sent) == (
            Stage::Flushing,
            ClientAction::<Seq<char>>::Flush,
        ),
        Stage::Flushing.after(ClientEvent::Sent) == (
            Stage::Closed,
            ClientAction::<Seq<char>>::Close,
        ),
        Stage::SendingRefusal.after(ClientEvent::Sent) == (
            Stage::Closed,
            ClientAction::<Seq<char>>::Close,
        ),
{
    reveal_strlit("\n");
    assert("\n"@ =~= seq!['\n']);
}

/// What does not answer the pending action leaves the exchange where it is and asks for
/// nothing new; and once it is closed, everything does.
pub proof fn law_other_events_leave_the_exchange(stage: Stage, event: ClientEvent)
    requires
        match event {
            ClientEvent::Line(_) | ClientEvent::LineFailed => !(stage is AwaitingLine),
            ClientEvent::Decoded(_) => !(stage is Decoding),
            ClientEvent::Executed => !(stage is Executing),
            ClientEvent::Encoded(_) | ClientEvent::EncodeFailed => !(stage is Encoding),
            ClientEvent::Sent => stage is AwaitingLine || stage is Decoding || stage is Executing
                || stage is Encoding || stage is Closed,
        },
    ensures
        stage.after(event) == (stage, ClientAction::<Seq<char>>::Continue),
{
}

/// Where the daemon listens, and who may connect.
pub proof fn law_place_of_the_daemon()
    ensures
        SOCKET_PATH@ == "/tmp/forkbox.sock"@,
        SOCKET_MODE == 0x1ff,
{
}

} // verus!
