//! The conversation client: message store, request assembler, transport
//! selector, and the classification step of the non-streaming path.

use vstd::prelude::*;
use crate::error::{CompletionError, PreconditionViolation};
use crate::json::{json_accepts, json_well_formed};
use crate::message::{Message, MessageView};
use crate::request::Request;
use crate::response::{ErrorResponse, Response, StreamResponse};

verus! {

/// The outcome of one successful completion call: either the single
/// full response of the non-streaming path, or the ordered chunk
/// sequence of the streaming path, in arrival order.
#[derive(Debug, Clone, PartialEq)]
pub enum CompletionOption {
    NonStream(Response),
    Stream(Vec<StreamResponse>),
}

/// Which completion path a request is routed to.
#[derive(Debug, Clone, PartialEq, Eq)]
pub enum TransportKind {
    NonStreaming,
    Streaming,
}

/// The streaming flag is the sole dispatch key between the two paths.
pub fn select_transport(req: &Request) -> (kind: TransportKind)
    ensures
        req.stream ==> kind == TransportKind::Streaming,
        !req.stream ==> kind == TransportKind::NonStreaming,
{
    if req.is_stream() {
        TransportKind::Streaming
    } else {
        TransportKind::NonStreaming
    }
}

/// One conversation context: an authentication credential, the
/// persistent message history, and the one-shot pending buffer that is
/// consumed by exactly one upcoming request.
#[derive(Debug, Clone, Hash)]
pub struct Groq {
    api_key: String,
    messages: Vec<Message>,
    tmp_messages: Vec<Message>,
}

fn clone_message_vec(v: &Vec<Message>) -> (r: Vec<Message>)
    ensures
        r.deep_view() == v.deep_view(),
{
    let mut r: Vec<Message> = Vec::new();
    let mut i: usize = 0;
    while i < v.len()
        invariant
            i <= v.len(),
            r@.len() == i,
            forall|j: int|
                0 <= j < i ==> #[trigger] r@[j].deep_view() == v@[j].deep_view(),
        decreases v.len() - i,
    {
        r.push(v[i].clone());
        i = i + 1;
    }
    proof {
        assert(r.deep_view() =~= v.deep_view());
    }
    r
}

/// Relies on `Vec::shrink_to`: it only lowers spare capacity and keeps
/// the elements untouched.
#[verifier::external_body]
fn shrink_vec_capacity(v: &mut Vec<Message>, min_capacity: usize)
    ensures
        final(v)@ == old(v)@,
{
    v.shrink_to(min_capacity)
}

impl Groq {
    /// The stored credential, immutable after construction.
    pub closed spec fn credential(&self) -> Seq<char> {
        self.api_key@
    }

    /// The persistent history, as a sequence of message values.
    pub closed spec fn history(&self) -> Seq<MessageView> {
        self.messages.deep_view()
    }

    /// The one-shot pending buffer, as a sequence of message values.
    pub closed spec fn pending(&self) -> Seq<MessageView> {
        self.tmp_messages.deep_view()
    }

    /// A fresh conversation context holding the credential and no
    /// messages at all.
    pub fn new(api_key: &str) -> (g: Groq)
        ensures
            g.credential() == api_key@,
            g.history() == Seq::<MessageView>::empty(),
            g.pending() == Seq::<MessageView>::empty(),
    {
        let g = Groq {
            api_key: api_key.to_owned(),
            messages: Vec::new(),
            tmp_messages: Vec::new(),
        };
        proof {
            assert(g.history() =~= Seq::<MessageView>::empty());
            assert(g.pending() =~= Seq::<MessageView>::empty());
        }
        g
    }

    /// The credential, for building the authentication header.
    pub fn api_key(&self) -> (r: &String)
        ensures
            r@ == self.credential(),
    {
        &self.api_key
    }

    /// Appends one message to the persistent history.
    pub fn add_message(self, msg: Message) -> (res: Groq)
        ensures
            res.history() == self.history().push(msg.deep_view()),
            res.pending() == self.pending(),
            res.credential() == self.credential(),
    {
        let ghost pre = self.messages.deep_view();
        let mut s = self;
        s.messages.push(msg);
        proof {
            assert(s.history() =~= pre.push(msg.deep_view()));
        }
        s
    }

    /// Appends messages to the persistent history, keeping their order.
    pub fn add_messages(self, msgs: Vec<Message>) -> (res: Groq)
        ensures
            res.history() == self.history() + msgs.deep_view(),
            res.pending() == self.pending(),
            res.credential() == self.credential(),
    {
        let ghost pre = self.messages.deep_view();
        let ghost added = msgs.deep_view();
        let mut s = self;
        let mut more = msgs;
        s.messages.append(&mut more);
        proof {
            assert(s.history() =~= pre + added);
        }
        s
    }

    /// Empties the persistent history and shrinks its spare capacity to
    /// a small floor, bounding memory after a long conversation resets.
    pub fn clear_messages(self) -> (res: Groq)
        ensures
            res.history() == Seq::<MessageView>::empty(),
            res.pending() == self.pending(),
            res.credential() == self.credential(),
    {
        let mut s = self;
        s.messages.clear();
        shrink_vec_capacity(&mut s.messages, 3);
        proof {
            assert(s.history() =~= Seq::<MessageView>::empty());
        }
        s
    }

    /// Empties the pending buffer. Meant for internal use right after a
    /// request has consumed the buffer; calling it from outside simply
    /// discards the one-shot messages.
    pub fn clear_tmp_messages_override(&mut self)
        ensures
            final(self).pending() == Seq::<MessageView>::empty(),
            final(self).history() == old(self).history(),
            final(self).credential() == old(self).credential(),
    {
        self.tmp_messages.clear();
        proof {
            assert(self.pending() =~= Seq::<MessageView>::empty());
        }
    }

    /// Appends messages to the one-shot pending buffer.
    pub fn add_tmp_messages(self, msgs: Vec<Message>) -> (res: Groq)
        ensures
            res.pending() == self.pending() + msgs.deep_view(),
            res.history() == self.history(),
            res.credential() == self.credential(),
    {
        let ghost pre = self.tmp_messages.deep_view();
        let ghost added = msgs.deep_view();
        let mut s = self;
        let mut more = msgs;
        s.tmp_messages.append(&mut more);
        proof {
            assert(s.pending() =~= pre + added);
        }
        s
    }

    /// Appends one message to the one-shot pending buffer.
    pub fn add_tmp_message(self, msg: Message) -> (res: Groq)
        ensures
            res.pending() == self.pending().push(msg.deep_view()),
            res.history() == self.history(),
            res.credential() == self.credential(),
    {
        let ghost pre = self.tmp_messages.deep_view();
        let mut s = self;
        s.tmp_messages.push(msg);
        proof {
            assert(s.pending() =~= pre.push(msg.deep_view()));
        }
        s
    }

    /// A copy of the pending buffer if it is non-empty, for inspecting
    /// the pre- or post-request state without mutating it.
    pub fn get_tmp_request_messages(&self) -> (r: Option<Vec<Message>>)
        ensures
            r is Some <==> self.pending().len() != 0,
            r matches Some(v) ==> v.deep_view() == self.pending(),
    {
        if self.tmp_messages.is_empty() {
            None
        } else {
            Some(clone_message_vec(&self.tmp_messages))
        }
    }

    /// The final ordered message list of one outgoing request: the
    /// pending buffer first, then the history; the history alone when
    /// the buffer is empty. The store itself is not changed.
    pub fn get_all_request_messages(&self) -> (r: Vec<Message>)
        ensures
            r.deep_view() == self.pending() + self.history(),
            self.pending().len() == 0 ==> r.deep_view() == self.history(),
    {
        if self.tmp_messages.is_empty() {
            let r = clone_message_vec(&self.messages);
            proof {
                assert(r.deep_view() =~= self.pending() + self.history());
            }
            r
        } else {
            let mut r = clone_message_vec(&self.tmp_messages);
            let mut hist = clone_message_vec(&self.messages);
            r.append(&mut hist);
            proof {
                assert(r.deep_view() =~= self.pending() + self.history());
            }
            r
        }
    }

    /// The assembled message list of one request, with the pending
    /// buffer drained as part of the same operation: read then clear is
    /// one step, so a later failure of the request cannot leave the
    /// buffer half-consumed.
    pub fn get_request_messages_with_tmp_clear(&mut self) -> (r: Vec<Message>)
        ensures
            r.deep_view() == old(self).pending() + old(self).history(),
            final(self).pending() == Seq::<MessageView>::empty(),
            final(self).history() == old(self).history(),
            final(self).credential() == old(self).credential(),
    {
        let all = self.get_all_request_messages();
        self.clear_tmp_messages_override();
        all
    }

    /// Builds the outgoing request from a template: the assembled
    /// message list is injected into the template and the pending
    /// buffer is drained, whatever happens to the request afterwards.
    /// An assembly without a single message is refused.
    pub fn prepare_request(&mut self, template: Request) -> (r: Result<Request, CompletionError>)
        ensures
            final(self).pending() == Seq::<MessageView>::empty(),
            final(self).history() == old(self).history(),
            final(self).credential() == old(self).credential(),
            old(self).pending().len() == 0 && old(self).history().len() == 0 ==> r == Err::<
                Request,
                CompletionError,
            >(CompletionError::Precondition(PreconditionViolation::EmptyMessages)),
            old(self).pending().len() != 0 || old(self).history().len() != 0 ==> (r matches Ok(q)
                && q.messages.deep_view() == old(self).pending() + old(self).history() && q == (
            Request { messages: q.messages, ..template })),
    {
        let all = self.get_request_messages_with_tmp_clear();
        proof {
            assert(all.deep_view().len() == all@.len());
        }
        template.with_messages(all)
    }
}

/// Classifies the outcome of the non-streaming exchange from the
/// observed HTTP status and the received body text.
///
/// On status 200 a well-formed body is the successful response; on any
/// other status a well-formed body is the remote's structured error,
/// annotated with the observed status (which supersedes any status the
/// body itself embeds). A body that is not well-formed JSON is a decode
/// failure on either path, distinct from a remote-reported error.
pub fn finish_non_stream_completion(status: u16, body: String) -> (r: Result<
    CompletionOption,
    CompletionError,
>)
    ensures
        status == 200 && json_accepts(body@) ==> r == Ok::<CompletionOption, CompletionError>(
            CompletionOption::NonStream((Response { body })),
        ),
        status != 200 && json_accepts(body@) ==> r == Err::<CompletionOption, CompletionError>(
            CompletionError::Application((ErrorResponse { code: status, body })),
        ),
        !json_accepts(body@) ==> r == Err::<CompletionOption, CompletionError>(
            CompletionError::Decode(body),
        ),
{
    if !json_well_formed(body.as_str()) {
        Err(CompletionError::Decode(body))
    } else if status == 200 {
        Ok(CompletionOption::NonStream(Response { body }))
    } else {
        Err(CompletionError::Application(ErrorResponse { code: status, body }))
    }
}

} // verus!
