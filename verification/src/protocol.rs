//! The extraction service's messages: the requests a client sends, the
//! answers the service gives, and what a client makes of an answer; also the
//! echo channel that opens a chat by name.
use vstd::prelude::*;

use crate::decimal::{all_digits, decimal, decimal_round_trip, decimal_value, digit_char, push_decimal};
use crate::errors::{browse_error_text, BrowseError};
use crate::selectors::framed_parts;

verus! {

/// What a request asks the service to extract.
#[derive(PartialEq, Eq, Structural, Clone, Copy, Debug)]
pub enum TypeOperation {
    /// Only the quoted text.
    ExtractSimple,
    /// The whole quote, as JSON.
    ExtractFull,
}

/// A request to the extraction service.
pub struct ExtractReq {
    /// Name of the chat.
    pub collab: String,
    /// Id of the reply message.
    pub message_id: u64,
    /// What to extract.
    pub type__: TypeOperation,
}

/// An answer of the extraction service.
pub struct ExtractResp {
    /// Whether the extraction succeeded.
    pub success: bool,
    /// What was extracted.
    pub quoted_text: Option<String>,
    /// Why the extraction failed.
    pub error: Option<String>,
}

/// An answer of the extraction service, by the characters of its strings.
pub struct ExtractRespView {
    pub success: bool,
    pub quoted_text: Option<Seq<char>>,
    pub error: Option<Seq<char>>,
}

/// Optional string, by its characters.
pub open spec fn opt_seq(o: Option<String>) -> Option<Seq<char>> {
    match o {
        Some(s) => Some(s@),
        None => None,
    }
}

impl View for ExtractResp {
    type V = ExtractRespView;

    open spec fn view(&self) -> ExtractRespView {
        ExtractRespView {
            success: self.success,
            quoted_text: opt_seq(self.quoted_text),
            error: opt_seq(self.error),
        }
    }
}

/// Name under which an operation travels in a request.
pub open spec fn operation_name(op: TypeOperation) -> Seq<char> {
    match op {
        TypeOperation::ExtractSimple => "ExtractSimple"@,
        TypeOperation::ExtractFull => "ExtractFull"@,
    }
}

/// JSON text of a request, given the chat name already written as a JSON
/// string literal `quoted_collab`; keys in sorted order, no white space.
pub open spec fn request_text(quoted_collab: Seq<char>, message_id: nat, op: TypeOperation) -> Seq<char> {
    "{\"collab\":"@ + quoted_collab + ",\"message_id\":"@ + decimal(message_id) + ",\"type__\":\""@
        + operation_name(op) + "\"}"@
}

/// A hexadecimal digit, in lower case (`n < 16`).
pub open spec fn hex_digit(n: nat) -> char {
    if n < 10 {
        digit_char(n)
    } else {
        ((n - 10) + 97) as char
    }
}

/// How one character is written inside a JSON string: quote mark and
/// backslash behind a backslash; backspace, tab, line feed, form feed and
/// carriage return as `\b \t \n \f \r`; other characters below U+0020 as
/// `\u00` and two lower-case hex digits; every other character as itself.
pub open spec fn json_char(c: char) -> Seq<char> {
    if c == '"' {
        seq!['\\', '"']
    } else if c == '\\' {
        seq!['\\', '\\']
    } else if c == '\u{8}' {
        seq!['\\', 'b']
    } else if c == '\t' {
        seq!['\\', 't']
    } else if c == '\n' {
        seq!['\\', 'n']
    } else if c == '\u{c}' {
        seq!['\\', 'f']
    } else if c == '\r' {
        seq!['\\', 'r']
    } else if (c as nat) < 32 {
        seq!['\\', 'u', '0', '0', hex_digit((c as nat) / 16), hex_digit((c as nat) % 16)]
    } else {
        seq![c]
    }
}

/// The characters of `s`, each written as inside a JSON string.
pub open spec fn json_escaped(s: Seq<char>) -> Seq<char>
    decreases s.len(),
{
    if s.len() == 0 {
        Seq::empty()
    } else {
        json_escaped(s.drop_last()) + json_char(s.last())
    }
}

/// The JSON string literal of `s`.
pub open spec fn json_string(s: Seq<char>) -> Seq<char> {
    seq!['"'] + json_escaped(s) + seq!['"']
}

/// Calls `serde_json::to_string` on a string slice. Its source writes the
/// string through `format_escaped_str` into a `Vec`, which cannot fail, so
/// the result is `Ok` with the JSON string literal as `json_string` states
/// it: serde_json's escape table.
#[verifier::external_body]
fn json_quote(s: &str) -> (res: Result<String, String>)
    ensures
        res is Ok,
        res->Ok_0@ == json_string(s@),
{
    serde_json::to_string(s).map_err(|e| e.to_string())
}

/// JSON text of a request for chat `quoted_collab` (already a JSON string
/// literal), message `message_id` and operation `op`.
pub fn request_from_quoted(quoted_collab: &str, message_id: u64, op: TypeOperation) -> (text: String)
    ensures
        text@ == request_text(quoted_collab@, message_id as nat, op),
{
    let mut text = String::from_str("{\"collab\":");
    text.append(quoted_collab);
    text.append(",\"message_id\":");
    push_decimal(&mut text, message_id);
    text.append(",\"type__\":\"");
    match op {
        TypeOperation::ExtractSimple => text.append("ExtractSimple"),
        TypeOperation::ExtractFull => text.append("ExtractFull"),
    }
    text.append("\"}");
    text
}

/// JSON text of a request for chat `collab`, message `message_id` and
/// operation `op`; the chat name is quoted by `serde_json`, whose error
/// message would be returned were it to fail, which it does not.
pub fn encode_extract_request(collab: &str, message_id: u64, op: TypeOperation) -> (res: Result<String, String>)
    ensures
        res matches Ok(t) && t@ == request_text(json_string(collab@), message_id as nat, op),
{
    match json_quote(collab) {
        Ok(quoted) => Ok(request_from_quoted(quoted.as_str(), message_id, op)),
        Err(e) => Err(e),
    }
}

/// The error of the answer to a request that is not valid JSON.
pub open spec fn invalid_json_text(detail: Seq<char>) -> Seq<char> {
    "Invalid JSON: "@ + detail
}

/// The answer that reports the outcome of an extraction.
pub open spec fn extraction_response_spec(outcome: Result<String, BrowseError>) -> ExtractRespView {
    match outcome {
        Ok(payload) => ExtractRespView { success: true, quoted_text: Some(payload@), error: None },
        Err(e) => ExtractRespView { success: false, quoted_text: None, error: Some(browse_error_text(e)) },
    }
}

/// The answer that reports the outcome of an extraction: the extracted text
/// on success, the failure's message otherwise.
pub fn extraction_response(outcome: Result<String, BrowseError>) -> (resp: ExtractResp)
    ensures
        resp@ == extraction_response_spec(outcome),
{
    match outcome {
        Ok(payload) => ExtractResp { success: true, quoted_text: Some(payload), error: None },
        Err(e) => ExtractResp { success: false, quoted_text: None, error: Some(e.message()) },
    }
}

/// The answer to a request that could not be read; `detail` is the parser's
/// report.
pub fn invalid_json_response(detail: &str) -> (resp: ExtractResp)
    ensures
        resp@ == (ExtractRespView {
            success: false,
            quoted_text: None,
            error: Some(invalid_json_text(detail@)),
        }),
{
    let mut error = String::from_str("Invalid JSON: ");
    error.append(detail);
    ExtractResp { success: false, quoted_text: None, error: Some(error) }
}

/// A message that arrives on the extraction channel.
pub enum ProcEvent {
    /// A binary message holding a request.
    Request(ExtractReq),
    /// A binary message that is no request; the parser's report.
    Malformed(String),
    /// The client closes the channel.
    Close,
    /// Receiving failed, or the stream ended.
    Ended,
    /// Any other message.
    Other,
}

/// What the service does about a message on the extraction channel.
pub enum ProcAction {
    /// Extract the quoted text of a message, and answer with the outcome.
    ExtractText { collab: String, message_id: u64 },
    /// Extract the whole quote of a message, and answer with the outcome.
    ExtractQuote { collab: String, message_id: u64 },
    /// Answer at once.
    Reply(ExtractResp),
    /// Close the channel.
    Stop,
    /// Wait for the next message.
    Ignore,
}

/// Whether `action` is what is done about `event` on the extraction
/// channel: run the requested extraction, answer an unreadable request with
/// its error, stop on close or at the end of the stream, ignore anything else.
pub open spec fn proc_decided(event: ProcEvent, action: ProcAction) -> bool {
    match event {
        ProcEvent::Request(req) => match req.type__ {
            TypeOperation::ExtractSimple => action matches ProcAction::ExtractText { collab, message_id }
                && collab@ == req.collab@ && message_id == req.message_id,
            TypeOperation::ExtractFull => action matches ProcAction::ExtractQuote { collab, message_id }
                && collab@ == req.collab@ && message_id == req.message_id,
        },
        ProcEvent::Malformed(detail) => action matches ProcAction::Reply(resp) && resp@ == (ExtractRespView {
            success: false,
            quoted_text: None,
            error: Some(invalid_json_text(detail@)),
        }),
        ProcEvent::Close => action is Stop,
        ProcEvent::Ended => action is Stop,
        ProcEvent::Other => action is Ignore,
    }
}

/// What to do about a message on the extraction channel: run the requested
/// extraction, answer an unreadable request with its error, stop on close or
/// at the end of the stream, and ignore anything else.
pub fn proc_decision(event: ProcEvent) -> (action: ProcAction)
    ensures
        proc_decided(event, action),
{
    match event {
        ProcEvent::Request(req) => match req.type__ {
            TypeOperation::ExtractSimple => ProcAction::ExtractText { collab: req.collab, message_id: req.message_id },
            TypeOperation::ExtractFull => ProcAction::ExtractQuote { collab: req.collab, message_id: req.message_id },
        },
        ProcEvent::Malformed(detail) => ProcAction::Reply(invalid_json_response(detail.as_str())),
        ProcEvent::Close => ProcAction::Stop,
        ProcEvent::Ended => ProcAction::Stop,
        ProcEvent::Other => ProcAction::Ignore,
    }
}

/// A request is served on its own chat and message, as the kind of
/// extraction it asks for: the text of the quote for `ExtractSimple`, the
/// whole quote for `ExtractFull`; no other action answers a request.
pub proof fn proc_request_served_as_asked(req: ExtractReq, action: ProcAction)
    requires
        proc_decided(ProcEvent::Request(req), action),
    ensures
        match action {
            ProcAction::ExtractText { collab, message_id } => req.type__ == TypeOperation::ExtractSimple
                && collab@ == req.collab@ && message_id == req.message_id,
            ProcAction::ExtractQuote { collab, message_id } => req.type__ == TypeOperation::ExtractFull
                && collab@ == req.collab@ && message_id == req.message_id,
            _ => false,
        },
{
}

/// Kind of a message on the extraction channel, as far as a session goes.
#[derive(PartialEq, Eq, Structural, Clone, Copy, Debug)]
pub enum ProcEventKind {
    /// A binary message, a request or not.
    Binary,
    /// A close, a receive failure, or the end of the stream.
    Closing,
    /// Any other message.
    Other,
}

/// Kind of a message on the extraction channel.
pub open spec fn proc_event_kind(event: ProcEvent) -> ProcEventKind {
    match event {
        ProcEvent::Request(_) => ProcEventKind::Binary,
        ProcEvent::Malformed(_) => ProcEventKind::Binary,
        ProcEvent::Close => ProcEventKind::Closing,
        ProcEvent::Ended => ProcEventKind::Closing,
        ProcEvent::Other => ProcEventKind::Other,
    }
}

/// Kind of what is done about a message on the extraction channel.
#[derive(PartialEq, Eq, Structural, Clone, Copy, Debug)]
pub enum ProcActionKind {
    /// One answer is sent (after an extraction, or at once).
    Answer,
    /// The channel is closed.
    Stop,
    /// Nothing is done.
    Ignore,
}

/// Kind of an action on the extraction channel.
pub open spec fn proc_action_kind(action: ProcAction) -> ProcActionKind {
    match action {
        ProcAction::ExtractText { .. } => ProcActionKind::Answer,
        ProcAction::ExtractQuote { .. } => ProcActionKind::Answer,
        ProcAction::Reply(_) => ProcActionKind::Answer,
        ProcAction::Stop => ProcActionKind::Stop,
        ProcAction::Ignore => ProcActionKind::Ignore,
    }
}

/// Whether a closing message is among `history`.
pub open spec fn has_closing(history: Seq<ProcEventKind>) -> bool {
    exists|i: int| 0 <= i < history.len() && history[i] == ProcEventKind::Closing
}

/// What a session does about a message of kind `kind` after the messages
/// `history`: nothing but stop once a closing message came, else answer
/// binary messages, stop at a closing one and ignore the rest.
pub open spec fn session_step(history: Seq<ProcEventKind>, kind: ProcEventKind) -> ProcActionKind {
    if has_closing(history) {
        ProcActionKind::Stop
    } else {
        match kind {
            ProcEventKind::Binary => ProcActionKind::Answer,
            ProcEventKind::Closing => ProcActionKind::Stop,
            ProcEventKind::Other => ProcActionKind::Ignore,
        }
    }
}

/// A session on the extraction channel: the kinds of the messages handled so
/// far, and whether it has stopped.
pub struct ProcSession {
    stopped: bool,
    history: Ghost<Seq<ProcEventKind>>,
}

impl ProcSession {
    #[verifier::type_invariant]
    spec fn stopped_after_closing(self) -> bool {
        self.stopped == has_closing(self.history@)
    }

    /// Kinds of the messages handled so far, in order.
    pub closed spec fn events(self) -> Seq<ProcEventKind> {
        self.history@
    }

    /// A session that has handled no message.
    pub fn new() -> (session: Self)
        ensures
            session.events() == Seq::<ProcEventKind>::empty(),
    {
        ProcSession { stopped: false, history: Ghost(Seq::empty()) }
    }

    /// Whether the session has stopped: a closing message came.
    pub fn is_stopped(&self) -> (stopped: bool)
        ensures
            stopped == has_closing(self.events()),
    {
        proof {
            use_type_invariant(self);
        }
        self.stopped
    }

    /// Handles the next message: once stopped, nothing but `Stop`; before,
    /// what `proc_decision` decides.
    pub fn handle(&mut self, event: ProcEvent) -> (action: ProcAction)
        ensures
            final(self).events() == old(self).events().push(proc_event_kind(event)),
            proc_action_kind(action) == session_step(old(self).events(), proc_event_kind(event)),
            !has_closing(old(self).events()) ==> proc_decided(event, action),
    {
        proof {
            use_type_invariant(&*self);
        }
        let ghost kind = proc_event_kind(event);
        let ghost history = self.history@.push(kind);
        let action = if self.stopped {
            ProcAction::Stop
        } else {
            proc_decision(event)
        };
        let stopped = match action {
            ProcAction::Stop => true,
            _ => false,
        };
        proof {
            assert(history[history.len() - 1] == kind);
            if has_closing(self.history@) {
                let i = choose|i: int| 0 <= i < self.history@.len() && self.history@[i] == ProcEventKind::Closing;
                assert(history[i] == ProcEventKind::Closing);
            }
            if has_closing(history) && !has_closing(self.history@) {
                let i = choose|i: int| 0 <= i < history.len() && history[i] == ProcEventKind::Closing;
                if i < self.history@.len() {
                    assert(self.history@[i] == ProcEventKind::Closing);
                }
            }
        }
        *self = ProcSession { stopped, history: Ghost(history) };
        action
    }

    /// Whether to read on after an answer, sent or not: a failed send does
    /// not end the session, only a closing message does.
    pub fn after_answer(&self, sent: bool) -> (go_on: bool)
        ensures
            go_on == !has_closing(self.events()),
    {
        !self.is_stopped()
    }
}

/// Over a whole session on the extraction channel, handled message by
/// message in order: before the first closing message (a close, a receive
/// failure or the end of the stream) each binary message gets exactly one
/// answer and any other message none; the closing message stops the
/// session, and no message after it is answered.
pub proof fn proc_session_answers_each_binary_message(events: Seq<ProcEventKind>)
    ensures
        forall|i: int|
            #![trigger events.take(i)]
            0 <= i < events.len() && !has_closing(events.take(i)) ==> (session_step(events.take(i), events[i])
                == ProcActionKind::Answer <==> events[i] == ProcEventKind::Binary),
        forall|i: int|
            #![trigger events.take(i)]
            0 <= i < events.len() && events[i] == ProcEventKind::Closing ==> session_step(events.take(i), events[i])
                == ProcActionKind::Stop,
        forall|i: int, j: int|
            #![trigger events[i], events.take(j)]
            0 <= i < j < events.len() && events[i] == ProcEventKind::Closing ==> session_step(events.take(j), events[j])
                == ProcActionKind::Stop,
{
    assert forall|i: int, j: int|
        #![trigger events[i], events.take(j)]
        0 <= i < j < events.len() && events[i] == ProcEventKind::Closing implies session_step(events.take(j), events[j])
            == ProcActionKind::Stop by {
        assert(events.take(j)[i] == ProcEventKind::Closing);
    }
}

/// What a client awaits in a successful answer.
#[derive(PartialEq, Eq, Structural, Clone, Copy, Debug)]
pub enum ReplyPayload {
    /// The whole quote, as JSON.
    QuoteJson,
    /// The quoted text.
    Text,
}

/// What a client received after sending a request.
pub enum ClientReply {
    /// A text message holding an answer.
    Response(ExtractResp),
    /// A text message that is no answer; the parser's report.
    Malformed(String),
    /// No text message came.
    NoReply,
}

/// Why a client got nothing out of a request.
pub enum ClientError {
    /// The service could not be reached.
    Connect,
    /// The request could not be written; the serializer's report.
    Encode(String),
    /// Sending or receiving failed; the transport's report.
    Transport(String),
    /// No answer came.
    NoResponse,
    /// The answer could not be read; the parser's report.
    Malformed(String),
    /// The service reports a failure with this error.
    Server(String),
    /// The service reports success but sent nothing.
    Empty(ReplyPayload),
}

/// The message that reports a client failure.
pub open spec fn client_error_text(e: ClientError) -> Seq<char> {
    match e {
        ClientError::Connect => "Не удалось подключиться к WebSocket"@,
        ClientError::Encode(d) => d@,
        ClientError::Transport(d) => d@,
        ClientError::NoResponse => "Не получен ответ от сервера"@,
        ClientError::Malformed(d) => d@,
        ClientError::Server(m) => "Ошибка сервера: "@ + m@,
        ClientError::Empty(ReplyPayload::QuoteJson) => "Ответ не содержит данных"@,
        ClientError::Empty(ReplyPayload::Text) => "Ответ не содержит текста"@,
    }
}

impl ClientError {
    /// The message that reports this failure.
    pub fn message(&self) -> (text: String)
        ensures
            text@ == client_error_text(*self),
    {
        match self {
            ClientError::Connect => String::from_str("Не удалось подключиться к WebSocket"),
            ClientError::Encode(d) => String::from_str(d.as_str()),
            ClientError::Transport(d) => String::from_str(d.as_str()),
            ClientError::NoResponse => String::from_str("Не получен ответ от сервера"),
            ClientError::Malformed(d) => String::from_str(d.as_str()),
            ClientError::Server(m) => {
                let mut t = String::from_str("Ошибка сервера: ");
                t.append(m.as_str());
                t
            },
            ClientError::Empty(ReplyPayload::QuoteJson) => String::from_str("Ответ не содержит данных"),
            ClientError::Empty(ReplyPayload::Text) => String::from_str("Ответ не содержит текста"),
        }
    }
}

/// The characters of an optional string, or nothing.
pub open spec fn seq_or_empty(o: Option<Seq<char>>) -> Seq<char> {
    match o {
        Some(s) => s,
        None => Seq::empty(),
    }
}

/// What a client makes of an answer: the payload, or the message of the
/// failure.
pub open spec fn answer_outcome(resp: ExtractRespView, payload: ReplyPayload) -> Result<Seq<char>, Seq<char>> {
    if resp.success {
        match resp.quoted_text {
            Some(t) => Ok(t),
            None => Err(client_error_text(ClientError::Empty(payload))),
        }
    } else {
        Err("Ошибка сервера: "@ + seq_or_empty(resp.error))
    }
}

/// What a client makes of what it received: the payload, or the message of
/// the failure.
pub open spec fn client_outcome_spec(reply: ClientReply, payload: ReplyPayload) -> Result<Seq<char>, Seq<char>> {
    match reply {
        ClientReply::Response(resp) => answer_outcome(resp@, payload),
        ClientReply::Malformed(d) => Err(d@),
        ClientReply::NoReply => Err(client_error_text(ClientError::NoResponse)),
    }
}

/// A client outcome, by the characters of the payload or of the failure's
/// message.
pub open spec fn outcome_text(res: Result<String, ClientError>) -> Result<Seq<char>, Seq<char>> {
    match res {
        Ok(p) => Ok(p@),
        Err(e) => Err(client_error_text(e)),
    }
}

/// What a client makes of what it received: a successful answer's payload;
/// a failure where no answer came, where it could not be read, where the
/// service reports a failure (with the service's error, or nothing) and
/// where a successful answer carries nothing.
pub fn client_outcome(reply: ClientReply, payload: ReplyPayload) -> (res: Result<String, ClientError>)
    ensures
        outcome_text(res) == client_outcome_spec(reply, payload),
        match reply {
            ClientReply::Response(resp) => if resp.success {
                match resp.quoted_text {
                    Some(t) => res matches Ok(p) && p@ == t@,
                    None => res matches Err(ClientError::Empty(k)) && k == payload,
                }
            } else {
                res matches Err(ClientError::Server(m)) && m@ == seq_or_empty(opt_seq(resp.error))
            },
            ClientReply::Malformed(d) => res matches Err(ClientError::Malformed(m)) && m@ == d@,
            ClientReply::NoReply => res matches Err(ClientError::NoResponse),
        },
{
    match reply {
        ClientReply::Response(resp) => {
            if resp.success {
                match resp.quoted_text {
                    Some(t) => Ok(t),
                    None => Err(ClientError::Empty(payload)),
                }
            } else {
                let m = match resp.error {
                    Some(e) => e,
                    None => String::new(),
                };
                Err(ClientError::Server(m))
            }
        },
        ClientReply::Malformed(d) => Err(ClientError::Malformed(d)),
        ClientReply::NoReply => Err(ClientError::NoResponse),
    }
}

/// A client that receives the service's answer to an extraction gets the
/// extracted payload where the extraction succeeded, and otherwise a
/// failure whose message is the service's error message behind
/// "Ошибка сервера: ".
pub proof fn client_reads_extraction_outcome(outcome: Result<String, BrowseError>, payload: ReplyPayload)
    ensures
        answer_outcome(extraction_response_spec(outcome), payload) == match outcome {
            Ok(p) => Ok::<Seq<char>, Seq<char>>(p@),
            Err(e) => Err("Ошибка сервера: "@ + browse_error_text(e)),
        },
{
}

/// A client whose request the service could not read gets a failure that
/// carries the parser's report.
pub proof fn client_reads_invalid_request_answer(detail: Seq<char>, payload: ReplyPayload)
    ensures
        answer_outcome(
            ExtractRespView { success: false, quoted_text: None, error: Some(invalid_json_text(detail)) },
            payload,
        ) == Err::<Seq<char>, Seq<char>>("Ошибка сервера: "@ + "Invalid JSON: "@ + detail),
{
    assert("Ошибка сервера: "@ + seq_or_empty(Some(invalid_json_text(detail))) =~= "Ошибка сервера: "@
        + "Invalid JSON: "@ + detail);
}

/// A request's JSON text holds the chat's JSON literal, verbatim, behind
/// `{"collab":`, and then, behind `,"message_id":`, the digits of the
/// message id, without a leading zero (but for id 0), that read back as the
/// id.
pub proof fn request_text_names_chat_and_message(quoted_collab: Seq<char>, message_id: nat, op: TypeOperation)
    ensures
        ({
            let text = request_text(quoted_collab, message_id, op);
            let head = "{\"collab\":"@;
            let mid = ",\"message_id\":"@;
            let id_start = head.len() + quoted_collab.len() + mid.len();
            let id_end = id_start + decimal(message_id).len();
            let digits = text.subrange(id_start as int, id_end as int);
            &&& text.take(head.len() as int) == head
            &&& text.subrange(head.len() as int, (head.len() + quoted_collab.len()) as int) == quoted_collab
            &&& text.subrange((head.len() + quoted_collab.len()) as int, id_start as int) == mid
            &&& digits.len() >= 1
            &&& all_digits(digits)
            &&& decimal_value(digits) == message_id
            &&& (digits[0] == '0' ==> message_id == 0)
        }),
{
    let head = "{\"collab\":"@;
    let mid = ",\"message_id\":"@;
    let rest = ",\"type__\":\""@ + operation_name(op) + "\"}"@;
    let text = request_text(quoted_collab, message_id, op);
    assert(text =~= head + quoted_collab + mid + decimal(message_id) + rest);
    let id_start = head.len() + quoted_collab.len() + mid.len();
    assert(text.take(head.len() as int) =~= head);
    assert(text.subrange(head.len() as int, (head.len() + quoted_collab.len()) as int) =~= quoted_collab);
    assert(text.subrange((head.len() + quoted_collab.len()) as int, id_start as int) =~= mid);
    assert(text.subrange(id_start as int, (id_start + decimal(message_id).len()) as int) =~= decimal(message_id));
    decimal_round_trip(message_id);
}

/// The answer to an unreadable request carries the parser's report,
/// verbatim, behind `Invalid JSON: `.
pub proof fn invalid_json_text_keeps_report(detail: Seq<char>)
    ensures
        invalid_json_text(detail).take("Invalid JSON: "@.len() as int) == "Invalid JSON: "@,
        invalid_json_text(detail).skip("Invalid JSON: "@.len() as int) == detail,
{
    framed_parts("Invalid JSON: "@, detail, Seq::<char>::empty());
    assert(invalid_json_text(detail) =~= "Invalid JSON: "@ + detail + Seq::<char>::empty());
}

/// The answer on the echo channel to a text message `text`.
pub open spec fn echo_text(text: Seq<char>) -> Seq<char> {
    "ECHO:: "@ + text
}

/// A message that arrives on the echo channel.
pub enum EchoEvent {
    /// A text message naming a chat.
    Text(String),
    /// The client closes the channel.
    Close,
    /// Receiving failed, or the stream ended.
    Ended,
    /// Any other message.
    Other,
}

/// What the service does about a message on the echo channel.
pub enum EchoAction {
    /// Open chat `chat`, scroll it down, then send `reply`.
    OpenAndEcho { chat: String, reply: String },
    /// Close the channel.
    Stop,
    /// Wait for the next message.
    Ignore,
}

/// Whether `action` is what is done about `event` on the echo channel: open
/// the named chat and echo the name back, stop on close or at the end of the
/// stream, ignore anything else.
pub open spec fn echo_decided(event: EchoEvent, action: EchoAction) -> bool {
    match event {
        EchoEvent::Text(t) => action matches EchoAction::OpenAndEcho { chat, reply } && chat@ == t@
            && reply@ == echo_text(t@),
        EchoEvent::Close => action is Stop,
        EchoEvent::Ended => action is Stop,
        EchoEvent::Other => action is Ignore,
    }
}

/// What to do about a message on the echo channel: open the named chat and
/// echo the name back, stop on close or at the end of the stream, ignore
/// anything else.
pub fn echo_decision(event: EchoEvent) -> (action: EchoAction)
    ensures
        echo_decided(event, action),
{
    match event {
        EchoEvent::Text(t) => {
            let mut reply = String::from_str("ECHO:: ");
            reply.append(t.as_str());
            EchoAction::OpenAndEcho { chat: t, reply }
        },
        EchoEvent::Close => EchoAction::Stop,
        EchoEvent::Ended => EchoAction::Stop,
        EchoEvent::Other => EchoAction::Ignore,
    }
}

/// On a text message the echo channel opens the chat named by the whole
/// text, and echoes back exactly that name behind `ECHO:: `.
pub proof fn echo_opens_the_named_chat(text: String, action: EchoAction)
    requires
        echo_decided(EchoEvent::Text(text), action),
    ensures
        action matches EchoAction::OpenAndEcho { chat, reply } && chat@ == text@
            && reply@.take("ECHO:: "@.len() as int) == "ECHO:: "@
            && reply@.skip("ECHO:: "@.len() as int) == chat@,
{
    if let EchoAction::OpenAndEcho { chat, reply } = action {
        assert(reply@.take("ECHO:: "@.len() as int) =~= "ECHO:: "@);
        assert(reply@.skip("ECHO:: "@.len() as int) =~= chat@);
    }
}

/// A session on the echo channel.
pub struct EchoSession {
    stopped: bool,
}

impl EchoSession {
    /// Whether the session has stopped.
    pub closed spec fn stopped(self) -> bool {
        self.stopped
    }

    /// A session that has not stopped.
    pub fn new() -> (session: Self)
        ensures
            !session.stopped(),
    {
        EchoSession { stopped: false }
    }

    /// Whether the session has stopped.
    pub fn is_stopped(&self) -> (stopped: bool)
        ensures
            stopped == self.stopped(),
    {
        self.stopped
    }

    /// Handles the next message: once stopped, nothing but `Stop`; before,
    /// what `echo_decision` decides, stopping where that is `Stop`.
    pub fn handle(&mut self, event: EchoEvent) -> (action: EchoAction)
        ensures
            old(self).stopped() ==> action is Stop,
            !old(self).stopped() ==> echo_decided(event, action),
            final(self).stopped() == (action is Stop),
    {
        let action = if self.stopped {
            EchoAction::Stop
        } else {
            echo_decision(event)
        };
        self.stopped = match action {
            EchoAction::Stop => true,
            _ => false,
        };
        action
    }

    /// Notes whether the echo could be sent: a failed send stops the session.
    pub fn echo_sent(&mut self, sent: bool)
        ensures
            final(self).stopped() == (old(self).stopped() || !sent),
    {
        if !sent {
            self.stopped = true;
        }
    }
}

} // verus!
