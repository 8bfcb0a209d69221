//! The deep-link dispatcher: converts a URL invocation into a forwarded
//! payload, at most once per invocation.
//!
//! An invocation is a non-empty batch of URL values delivered together by one
//! activation event. The dispatcher reads the first URL only; when it carries
//! a query component (possibly empty), that component is forwarded unchanged
//! as the message body on the fixed channel, and nothing is forwarded
//! otherwise. No state is kept between invocations and nothing is
//! deduplicated: replaying a batch forwards its payload again.

use vstd::prelude::*;

use crate::deep_link_channel;
use crate::deep_link_channel_name;
use crate::url_value::UrlValue;
use crate::url_value::opt_text_view;

verus! {

/// A message sent over the outbound notification channel.
pub struct Message {
    /// The channel the message was sent on.
    pub channel: String,
    /// The message body: for this library, a forwarded payload.
    pub body: String,
}

/// The mathematical model of a [`Message`].
pub struct MessageSpec {
    pub channel: Seq<char>,
    pub body: Seq<char>,
}

impl View for Message {
    type V = MessageSpec;

    open spec fn view(&self) -> MessageSpec {
        MessageSpec { channel: self.channel@, body: self.body@ }
    }
}

/// A message of channel `channel` and body `body`.
pub open spec fn message(channel: Seq<char>, body: Seq<char>) -> MessageSpec {
    MessageSpec { channel, body }
}

/// The message that forwards payload `q` on the fixed channel.
pub open spec fn deep_link_message(q: Seq<char>) -> MessageSpec {
    message(deep_link_channel(), q)
}

/// The error an outbound send reports when it cannot reach a listener. The
/// broadcast emitter modelled here accepts every send (a send with no
/// listener succeeds silently), so its sends never report it; a delivering
/// channel that can refuse reports it to a caller, which logs and drops the
/// event.
pub struct DeliveryError;

/// The outbound notification channel to the presentation surface: a broadcast
/// emitter, shared process-wide, with no backpressure. It records every
/// message sent, oldest first.
pub struct Emitter {
    /// Every message sent so far, oldest first.
    pub sent: Vec<Message>,
}

impl View for Emitter {
    type V = Seq<MessageSpec>;

    open spec fn view(&self) -> Seq<MessageSpec> {
        self.sent@.map_values(|m: Message| m@)
    }
}

impl Emitter {
    /// A fresh channel over which nothing has been sent.
    pub fn new() -> (e: Emitter)
        ensures
            e@ == Seq::<MessageSpec>::empty(),
    {
        let e = Emitter { sent: Vec::new() };
        proof {
            assert(e@ =~= Seq::<MessageSpec>::empty());
        }
        e
    }

    /// Sends one message: fire and forget. Every send is accepted — there is
    /// no backpressure and no listener is required — so the send always
    /// succeeds.
    pub fn emit(&mut self, channel: &str, body: String) -> (r: Result<(), DeliveryError>)
        ensures
            r is Ok,
            final(self)@ == old(self)@.push(message(channel@, body@)),
    {
        let ghost m = message(channel@, body@);
        self.sent.push(Message { channel: String::from_str(channel), body });
        proof {
            assert(self@ =~= old(self)@.push(m));
        }
        Ok(())
    }
}

/// The payload of a URL invocation: the query component of its first URL, if
/// one is present. Meaningful only for non-empty batches; every URL after the
/// first is intentionally ignored.
pub open spec fn batch_payload(urls: Seq<UrlValue>) -> Option<Seq<char>>
    recommends
        urls.len() >= 1,
{
    urls[0]@.query
}

/// The message log after a URL invocation is dispatched over `log`: one
/// forwarded payload on the fixed channel when the first URL carries a query
/// component, the log unchanged otherwise.
pub open spec fn dispatch_effect(log: Seq<MessageSpec>, urls: Seq<UrlValue>) -> Seq<MessageSpec>
    recommends
        urls.len() >= 1,
{
    match batch_payload(urls) {
        Some(q) => log.push(deep_link_message(q)),
        None => log,
    }
}

/// The payload a URL invocation carries: the first URL's query component,
/// unchanged, or `None` when the first URL has no query component. The single
/// extraction step behind every delivery path.
pub fn extract_payload(urls: &Vec<UrlValue>) -> (r: Option<String>)
    requires
        urls@.len() >= 1,
    ensures
        opt_text_view(r) == batch_payload(urls@),
{
    match &urls[0].query {
        Some(q) => Some(String::from_str(q.as_str())),
        None => None,
    }
}

/// Converts a URL invocation into at most one forwarded payload. Reads
/// `urls[0]` only. When its query component is present (possibly empty), it
/// is forwarded unchanged — not URL-decoded — as the body of exactly one
/// message on the fixed channel; when absent, no message is sent. Returns
/// whether a payload was forwarded.
pub fn handle_invocation(emitter: &mut Emitter, urls: &Vec<UrlValue>) -> (forwarded: bool)
    requires
        urls@.len() >= 1,
    ensures
        forwarded == (batch_payload(urls@) is Some),
        final(emitter)@ == dispatch_effect(old(emitter)@, urls@),
        batch_payload(urls@) matches Some(q) ==> final(emitter)@ == old(emitter)@.push(
            deep_link_message(q),
        ),
        batch_payload(urls@) is None ==> final(emitter)@ == old(emitter)@,
{
    match extract_payload(urls) {
        Some(body) => {
            let sent = emitter.emit(deep_link_channel_name(), body);
            sent.is_ok()
        },
        None => false,
    }
}

/// The message log after the startup path runs: the dispatch of the
/// invocation that launched the process, or the log unchanged when no URL
/// invocation caused the launch.
pub open spec fn startup_effect(log: Seq<MessageSpec>, startup: Option<Seq<UrlValue>>) -> Seq<
    MessageSpec,
> {
    match startup {
        Some(urls) => dispatch_effect(log, urls),
        None => log,
    }
}

/// The message log after the live-subscription path delivers one invocation.
pub open spec fn subscription_effect(log: Seq<MessageSpec>, urls: Seq<UrlValue>) -> Seq<
    MessageSpec,
> {
    dispatch_effect(log, urls)
}

/// The view of an optional URL batch.
pub open spec fn opt_batch_view(o: Option<Vec<UrlValue>>) -> Option<Seq<UrlValue>> {
    match o {
        Some(urls) => Some(urls@),
        None => None,
    }
}

/// The startup path: dispatches the URL invocation, if any, that caused this
/// process launch. Invoked once, synchronously, during application setup;
/// when no URL invocation caused the launch, it does nothing.
pub fn handle_startup(emitter: &mut Emitter, startup: Option<Vec<UrlValue>>) -> (forwarded: bool)
    requires
        startup matches Some(urls) ==> urls@.len() >= 1,
    ensures
        forwarded == (opt_batch_view(startup) matches Some(urls) && batch_payload(urls) is Some),
        final(emitter)@ == startup_effect(old(emitter)@, opt_batch_view(startup)),
{
    match startup {
        Some(urls) => handle_invocation(emitter, &urls),
        None => false,
    }
}

/// The live-subscription path: dispatches one URL invocation reported while
/// the process is alive, whether directly by the activation source or relayed
/// from a secondary launch.
pub fn handle_open_url(emitter: &mut Emitter, urls: &Vec<UrlValue>) -> (forwarded: bool)
    requires
        urls@.len() >= 1,
    ensures
        forwarded == (batch_payload(urls@) is Some),
        final(emitter)@ == subscription_effect(old(emitter)@, urls@),
{
    handle_invocation(emitter, urls)
}

/// Law: forwarding is insensitive to the trailing URLs of a batch — two
/// non-empty invocations whose first URLs agree have the same dispatch effect
/// on any message log.
pub proof fn lemma_trailing_urls_ignored(
    log: Seq<MessageSpec>,
    a: Seq<UrlValue>,
    b: Seq<UrlValue>,
)
    requires
        a.len() >= 1,
        b.len() >= 1,
        a[0]@ == b[0]@,
    ensures
        dispatch_effect(log, a) == dispatch_effect(log, b),
{
}

/// Law: replay is not deduplicated — dispatching an invocation twice appends
/// two independent forwarded messages, each carrying the first URL's query
/// component.
pub proof fn lemma_replay_forwards_twice(log: Seq<MessageSpec>, urls: Seq<UrlValue>)
    requires
        urls.len() >= 1,
        batch_payload(urls) is Some,
    ensures
        dispatch_effect(dispatch_effect(log, urls), urls) == log.push(
            deep_link_message(batch_payload(urls)->0),
        ).push(deep_link_message(batch_payload(urls)->0)),
{
}

/// Law: the startup path and the live-subscription path route through
/// identical extraction logic — given the same URL invocation, both produce
/// the same messages over any log.
pub proof fn lemma_paths_agree(log: Seq<MessageSpec>, urls: Seq<UrlValue>)
    requires
        urls.len() >= 1,
    ensures
        startup_effect(log, Some(urls)) == subscription_effect(log, urls),
{
}

} // verus!
