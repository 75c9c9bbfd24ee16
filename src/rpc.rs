use vstd::prelude::*;

use crate::error::HttpError;

verus! {

/// The shape of a call: how many payloads travel each way.
#[derive(Debug, Clone, Copy, PartialEq, Eq, Structural)]
pub enum GrpcStreaming {
    Unary,
    ClientStreaming,
    ServerStreaming,
    Bidi,
}

/// A remote procedure: its unique name and its call shape.
#[derive(Debug, Clone, PartialEq, Eq)]
pub struct MethodDescriptor {
    pub name: String,
    pub streaming: GrpcStreaming,
}

/// The failures of a call, on either side.
#[derive(Debug, Clone, PartialEq, Eq)]
pub enum GrpcError {
    /// The connection failed or broke the protocol.
    Http(HttpError),
    /// The remote end reported a failure with this status text.
    GrpcMessage(String),
    /// A local failure, with its description.
    Other(String),
    /// A handler aborted abnormally, with the cause.
    Panic(String),
}

/// A failure as a value, its texts as sequences of characters.
pub enum ErrorView {
    Http(HttpError),
    GrpcMessage(Seq<char>),
    Other(Seq<char>),
    Panic(Seq<char>),
}

impl View for GrpcError {
    type V = ErrorView;

    open spec fn view(&self) -> ErrorView {
        match self {
            GrpcError::Http(e) => ErrorView::Http(*e),
            GrpcError::GrpcMessage(m) => ErrorView::GrpcMessage(m@),
            GrpcError::Other(m) => ErrorView::Other(m@),
            GrpcError::Panic(m) => ErrorView::Panic(m@),
        }
    }
}

/// The status text that the remote caller receives for a failure.
pub open spec fn status_text(e: ErrorView) -> Seq<char> {
    match e {
        ErrorView::Http(HttpError::IoError) => "I/O error"@,
        ErrorView::Http(HttpError::InvalidFrame) => "invalid frame"@,
        ErrorView::GrpcMessage(m) => m,
        ErrorView::Other(m) => m,
        ErrorView::Panic(m) => "Panic: "@ + m,
    }
}

impl GrpcError {
    /// The status text that the remote caller receives for this failure.
    pub fn status_message(&self) -> (r: String)
        ensures
            r@ == status_text(self@),
    {
        match self {
            GrpcError::Http(HttpError::IoError) => "I/O error".to_owned(),
            GrpcError::Http(HttpError::InvalidFrame) => "invalid frame".to_owned(),
            GrpcError::GrpcMessage(m) => m.clone(),
            GrpcError::Other(m) => m.clone(),
            GrpcError::Panic(m) => {
                let mut s = "Panic: ".to_owned();
                s.append(m.as_str());
                s
            },
        }
    }
}

/// One part of what the server sends back on a call.
#[derive(Debug, Clone, PartialEq, Eq)]
pub enum ResponsePart {
    /// One encoded response value.
    Message(Vec<u8>),
    /// A failure, reported with its status text; nothing follows it.
    Status(String),
    /// The normal end of the responses.
    End,
}

/// A response part as a value.
pub enum PartView {
    Message(Seq<u8>),
    Status(Seq<char>),
    End,
}

impl View for ResponsePart {
    type V = PartView;

    open spec fn view(&self) -> PartView {
        match self {
            ResponsePart::Message(b) => PartView::Message(b@),
            ResponsePart::Status(m) => PartView::Status(m@),
            ResponsePart::End => PartView::End,
        }
    }
}

/// The outcome of a handler for one value, as a value.
pub open spec fn outcome_view(r: Result<Vec<u8>, GrpcError>) -> Result<Seq<u8>, ErrorView> {
    match r {
        Ok(b) => Ok(b@),
        Err(e) => Err(e@),
    }
}

/// The methods that a server offers, looked up by name.
#[derive(Debug, Clone, PartialEq, Eq)]
pub struct ServerServiceDefinition {
    pub methods: Vec<MethodDescriptor>,
}

/// The status text of a call to a method that the server does not offer.
pub open spec fn not_found_text(name: Seq<char>) -> Seq<char> {
    "Method not found: "@ + name
}

impl ServerServiceDefinition {
    pub fn new(methods: Vec<MethodDescriptor>) -> (r: ServerServiceDefinition)
        ensures
            r.methods == methods,
    {
        ServerServiceDefinition { methods }
    }

    /// The position of the first method called `name`, if there is one.
    pub fn find_method(&self, name: &String) -> (r: Option<usize>)
        ensures
            r matches Some(i) ==> i < self.methods@.len() && self.methods@[i as int].name@ == name@ && forall|
                j: int,
            | 0 <= j < i ==> self.methods@[j].name@ != name@,
            r is None ==> forall|j: int| 0 <= j < self.methods@.len() ==> self.methods@[j].name@ != name@,
    {
        let mut i: usize = 0;
        while i < self.methods.len()
            invariant
                i <= self.methods@.len(),
                forall|j: int| 0 <= j < i ==> self.methods@[j].name@ != name@,
            decreases self.methods@.len() - i,
        {
            if self.methods[i].name == *name {
                return Some(i);
            }
            i += 1;
        }
        None
    }

    /// How the server answers a call to `name` before any handler runs: the
    /// method to invoke, or a status that says that no such method exists.
    /// The definition is only read, so calls on other connections are not
    /// affected.
    pub fn dispatch(&self, name: &String) -> (r: Result<usize, ResponsePart>)
        ensures
            r matches Ok(i) ==> i < self.methods@.len() && self.methods@[i as int].name@ == name@,
            r matches Err(p) ==> p@ == PartView::Status(not_found_text(name@)) && forall|j: int|
                0 <= j < self.methods@.len() ==> self.methods@[j].name@ != name@,
    {
        match self.find_method(name) {
            Some(i) => Ok(i),
            None => {
                let mut s = "Method not found: ".to_owned();
                s.append(name.as_str());
                Err(ResponsePart::Status(s))
            },
        }
    }
}

/// What the server sends for a unary call whose handler gave `r`: the
/// response and the end, or the failure's status alone.
pub open spec fn unary_reply_spec(r: Result<Seq<u8>, ErrorView>) -> Seq<PartView> {
    match r {
        Ok(b) => seq![PartView::Message(b), PartView::End],
        Err(e) => seq![PartView::Status(status_text(e))],
    }
}

/// What the server sends for a unary call whose handler gave `result`.
pub fn unary_reply(result: Result<Vec<u8>, GrpcError>) -> (r: Vec<ResponsePart>)
    ensures
        r@.map_values(|p: ResponsePart| p@) == unary_reply_spec(outcome_view(result)),
{
    let mut r: Vec<ResponsePart> = Vec::new();
    match result {
        Ok(b) => {
            r.push(ResponsePart::Message(b));
            r.push(ResponsePart::End);
        },
        Err(e) => {
            r.push(ResponsePart::Status(e.status_message()));
        },
    }
    assert(r@.map_values(|p: ResponsePart| p@) =~= unary_reply_spec(outcome_view(result)));
    r
}

/// How the caller of a unary call resolves the first part it receives.
pub open spec fn unary_result_spec(p: PartView) -> Result<Seq<u8>, ErrorView> {
    match p {
        PartView::Message(b) => Ok(b),
        PartView::Status(m) => Err(ErrorView::GrpcMessage(m)),
        PartView::End => Err(ErrorView::Other(no_response_text())),
    }
}

/// The description of a call that ended without a response.
pub open spec fn no_response_text() -> Seq<char> {
    "no response"@
}

/// Resolves a unary call from the first part that the server sent: the
/// response, the remote failure, or a local failure when the responses end
/// without one.
pub fn unary_result(first: ResponsePart) -> (r: Result<Vec<u8>, GrpcError>)
    ensures
        outcome_view(r) == unary_result_spec(first@),
{
    match first {
        ResponsePart::Message(b) => Ok(b),
        ResponsePart::Status(m) => Err(GrpcError::GrpcMessage(m)),
        ResponsePart::End => Err(GrpcError::Other("no response".to_owned())),
    }
}

/// The part that the server sends for one step of a streaming handler: the
/// next value, the failure that stops the stream, or the end.
pub open spec fn stream_part_spec(item: Option<Result<Seq<u8>, ErrorView>>) -> PartView {
    match item {
        Some(Ok(b)) => PartView::Message(b),
        Some(Err(e)) => PartView::Status(status_text(e)),
        None => PartView::End,
    }
}

/// What the server sends for a streaming handler that produces `items` and
/// then ends: one message per value in order, up to the first failure,
/// which is sent as a status instead and ends the stream.
pub open spec fn stream_reply_spec(items: Seq<Result<Seq<u8>, ErrorView>>) -> Seq<PartView>
    decreases items.len(),
{
    if items.len() == 0 {
        seq![PartView::End]
    } else {
        match items[0] {
            Ok(b) => seq![PartView::Message(b)] + stream_reply_spec(items.drop_first()),
            Err(e) => seq![PartView::Status(status_text(e))],
        }
    }
}

/// The part that the server sends for one step of a streaming handler,
/// `None` meaning that the handler has no more values.
pub fn stream_part(item: Option<Result<Vec<u8>, GrpcError>>) -> (r: ResponsePart)
    ensures
        r@ == stream_part_spec(
            match item {
                Some(x) => Some(outcome_view(x)),
                None => None,
            },
        ),
{
    match item {
        Some(Ok(b)) => ResponsePart::Message(b),
        Some(Err(e)) => ResponsePart::Status(e.status_message()),
        None => ResponsePart::End,
    }
}

/// What the caller of a streaming call makes of one part: the next value,
/// the remote failure, or the end (`None`).
pub open spec fn stream_item_spec(p: PartView) -> Option<Result<Seq<u8>, ErrorView>> {
    match p {
        PartView::Message(b) => Some(Ok(b)),
        PartView::Status(m) => Some(Err(ErrorView::GrpcMessage(m))),
        PartView::End => None,
    }
}

/// The values a caller takes from the parts of a streaming call, in order,
/// stopping after a failure or at the end.
pub open spec fn stream_items_spec(parts: Seq<PartView>) -> Seq<Result<Seq<u8>, ErrorView>>
    decreases parts.len(),
{
    if parts.len() == 0 {
        seq![]
    } else {
        match stream_item_spec(parts[0]) {
            Some(Ok(b)) => seq![Ok(b)] + stream_items_spec(parts.drop_first()),
            Some(Err(e)) => seq![Err(e)],
            None => seq![],
        }
    }
}

/// What the caller of a streaming call makes of one part it received.
pub fn stream_item(part: ResponsePart) -> (r: Option<Result<Vec<u8>, GrpcError>>)
    ensures
        match r {
            Some(x) => stream_item_spec(part@) == Some(outcome_view(x)),
            None => stream_item_spec(part@) is None,
        },
{
    match part {
        ResponsePart::Message(b) => Some(Ok(b)),
        ResponsePart::Status(m) => Some(Err(GrpcError::GrpcMessage(m))),
        ResponsePart::End => None,
    }
}


/// A unary call whose handler succeeds resolves, at the caller, to exactly
/// the payload that the handler produced.
pub proof fn lemma_unary_success(b: Seq<u8>)
    ensures
        unary_reply_spec(Ok(b)).len() == 2,
        unary_result_spec(unary_reply_spec(Ok(b))[0]) == Ok::<Seq<u8>, ErrorView>(b),
{
}

/// A unary call whose handler fails resolves, at the caller, to a remote
/// failure carrying the handler's status text; for a failure described by a
/// message, that text is the message itself.
pub proof fn lemma_unary_failure(e: ErrorView)
    ensures
        unary_reply_spec(Err(e)).len() == 1,
        unary_result_spec(unary_reply_spec(Err(e))[0]) == Err::<Seq<u8>, ErrorView>(
            ErrorView::GrpcMessage(status_text(e)),
        ),
        e matches ErrorView::Other(m) ==> status_text(e) == m,
{
}

/// A call to a method that the server does not offer resolves, at the
/// caller, to a remote failure naming the method, never to a connection
/// failure, for a unary call and for a streaming call alike.
pub proof fn lemma_not_found_is_status(name: Seq<char>)
    ensures
        unary_result_spec(PartView::Status(not_found_text(name))) == Err::<Seq<u8>, ErrorView>(
            ErrorView::GrpcMessage(not_found_text(name)),
        ),
        stream_items_spec(seq![PartView::Status(not_found_text(name))]) == seq![
            Err::<Seq<u8>, ErrorView>(ErrorView::GrpcMessage(not_found_text(name))),
        ],
{
    let parts = seq![PartView::Status(not_found_text(name))];
    assert(stream_items_spec(parts) == seq![
        Err::<Seq<u8>, ErrorView>(ErrorView::GrpcMessage(not_found_text(name))),
    ]);
}

/// What the caller of a streaming call receives for a handler that
/// produces `items`: the values in order up to the first failure, which
/// arrives as a remote failure with its status text and ends the stream.
pub open spec fn received_items(items: Seq<Result<Seq<u8>, ErrorView>>) -> Seq<Result<Seq<u8>, ErrorView>>
    decreases items.len(),
{
    if items.len() == 0 {
        seq![]
    } else {
        match items[0] {
            Ok(b) => seq![Ok(b)] + received_items(items.drop_first()),
            Err(e) => seq![Err(ErrorView::GrpcMessage(status_text(e)))],
        }
    }
}

/// The caller of a streaming call receives the handler's values in the
/// order they were produced, then the end; when every value succeeds, it
/// receives exactly the handler's sequence.
pub proof fn lemma_stream_order(items: Seq<Result<Seq<u8>, ErrorView>>)
    ensures
        stream_items_spec(stream_reply_spec(items)) == received_items(items),
        (forall|i: int| 0 <= i < items.len() ==> items[i] is Ok) ==> stream_items_spec(
            stream_reply_spec(items),
        ) == items,
    decreases items.len(),
{
    if items.len() > 0 {
        lemma_stream_order(items.drop_first());
        let parts = stream_reply_spec(items);
        match items[0] {
            Ok(b) => {
                assert(parts.drop_first() == stream_reply_spec(items.drop_first()));
                if forall|i: int| 0 <= i < items.len() ==> items[i] is Ok {
                    assert forall|i: int| 0 <= i < items.drop_first().len() implies items.drop_first()[i] is Ok by {
                        assert(items[i + 1] is Ok);
                    }
                    assert(seq![Ok(b)] + items.drop_first() =~= items);
                }
            },
            Err(e) => {},
        }
    } else {
        assert(stream_reply_spec(items) == seq![PartView::End]);
        assert(items =~= seq![]);
    }
}

/// The server side of one streaming call, driven by the caller's requests:
/// how many parts the caller has asked for, how many were sent, and whether
/// the stream is over.
#[derive(Debug, Clone, Copy, PartialEq, Eq, Structural)]
pub struct StreamPump {
    pub requested: u64,
    pub sent: u64,
    pub finished: bool,
}

impl StreamPump {
    /// No part is sent before the caller asked for it.
    pub open spec fn wf(&self) -> bool {
        self.sent <= self.requested
    }

    /// A call on which nothing was asked for or sent yet.
    pub fn new() -> (r: StreamPump)
        ensures
            r.wf(),
            r.requested == 0,
            r.sent == 0,
            !r.finished,
    {
        StreamPump { requested: 0, sent: 0, finished: false }
    }

    /// The caller asks for the next part.
    pub fn request(&mut self)
        requires
            old(self).wf(),
            old(self).requested < u64::MAX,
        ensures
            final(self).wf(),
            final(self).requested == old(self).requested + 1,
            final(self).sent == old(self).sent,
            final(self).finished == old(self).finished,
    {
        self.requested = self.requested + 1;
    }

    /// The handler may be asked for the next value: the caller has asked for
    /// a part that was not sent yet, and the stream is not over.
    pub fn may_produce(&self) -> (r: bool)
        ensures
            r == (self.sent < self.requested && !self.finished),
    {
        self.sent < self.requested && !self.finished
    }

    /// Sends the part for what the handler produced for the part the caller
    /// asked for; a failure or the end closes the stream.
    pub fn send(&mut self, item: Option<Result<Vec<u8>, GrpcError>>) -> (r: ResponsePart)
        requires
            old(self).wf(),
            old(self).sent < old(self).requested,
            !old(self).finished,
        ensures
            final(self).wf(),
            final(self).sent == old(self).sent + 1,
            final(self).sent <= final(self).requested,
            final(self).requested == old(self).requested,
            final(self).finished == !(item matches Some(Ok(_))),
            r@ == stream_part_spec(
                match item {
                    Some(x) => Some(outcome_view(x)),
                    None => None,
                },
            ),
    {
        self.finished = !matches!(item, Some(Ok(_)));
        self.sent = self.sent + 1;
        stream_part(item)
    }
}

} // verus!
