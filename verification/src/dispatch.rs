//! The bot's decision core: what one fetched batch does to the cursor and
//! which outbound action each event earns. The caller performs the network
//! work — issuing the fetch, submitting answers and sends — and hands every
//! decoded outcome back here; a submission that fails affects nothing but
//! its own event.

use vstd::prelude::*;
use vstd::string::StringExecFns;

use crate::answer::{answer_matches, build_answer, AnswerPayload};
use crate::fetcher::DefinitionFetcher;
use crate::models::{Envelope, Event, EventKind, SendMessageRequest, TransportError};
use crate::poller::{delivered, event_ids, folded_offset, UpdatePoller};

verus! {

/// The onboarding reply sent for every direct message.
pub open spec fn onboarding_text_view() -> Seq<char> {
    "@TelereadsBot allows you to search for books on Goodreads and quickly send them to your chat partner.\n\nJust type @TelereadsBot in any chat, followed by a query (<i>i.e.</i> book title, ISBN, or author name), without pressing 'send'. You can choose any result from the pop-up window that will show up and send it by simply clicking on it.\n\nFor instance, try typing <code>@TelereadsBot lord of the rings</code> in this chat, and wait for the results to appear."@
}

/// The onboarding reply sent for every direct message.
pub fn onboarding_text() -> (s: &'static str)
    ensures
        s@ == onboarding_text_view(),
{
    "@TelereadsBot allows you to search for books on Goodreads and quickly send them to your chat partner.\n\nJust type @TelereadsBot in any chat, followed by a query (<i>i.e.</i> book title, ISBN, or author name), without pressing 'send'. You can choose any result from the pop-up window that will show up and send it by simply clicking on it.\n\nFor instance, try typing <code>@TelereadsBot lord of the rings</code> in this chat, and wait for the results to appear."
}

/// What the caller must do for one event: submit an inline-query answer,
/// send a direct message, or nothing.
pub enum Action {
    Answer(AnswerPayload),
    Send(SendMessageRequest),
    Ignore,
}

impl Action {
    /// The platform endpoint an action is submitted to, if any.
    pub fn endpoint(&self) -> (r: Option<&'static str>)
        ensures
            self is Answer ==> r is Some && r->0@ == "/answerInlineQuery"@,
            self is Send ==> r is Some && r->0@ == "/sendMessage"@,
            self is Ignore ==> r is None,
    {
        match self {
            Action::Answer(_) => Some("/answerInlineQuery"),
            Action::Send(_) => Some("/sendMessage"),
            Action::Ignore => None,
        }
    }
}

/// The one action an event earns, determined by that event alone: an inline
/// query is answered from the source's definitions for its text (an empty
/// lookup still earns an answer, with zero results), a direct message earns
/// the onboarding reply, and anything else is ignored.
pub open spec fn is_action_for<F: DefinitionFetcher>(fetcher: &F, e: Event, a: Action) -> bool {
    match e.kind {
        EventKind::InlineQuery(q) => match a {
            Action::Answer(p) => answer_matches(
                p,
                q.query_id@,
                q.query_text@,
                fetcher.spec_definitions(q.query_text@),
            ),
            _ => false,
        },
        EventKind::Message(m) => match a {
            Action::Send(s) => s.chat_id == m.chat_id && s.text@ == onboarding_text_view()
                && s.rich_text,
            _ => false,
        },
        EventKind::Other => a is Ignore,
    }
}

/// Builds the fixed-shape send request: the target chat, the text as given,
/// rich-text rendering on.
pub fn build_send_request(chat_id: u64, text: &str) -> (r: SendMessageRequest)
    ensures
        r.chat_id == chat_id,
        r.text@ == text@,
        r.rich_text,
{
    SendMessageRequest { chat_id, text: String::from_str(text), rich_text: true }
}

/// Decides one event, looking its query up when it is an inline query.
pub fn dispatch<F: DefinitionFetcher>(fetcher: &F, event: &Event) -> (a: Action)
    ensures
        is_action_for(fetcher, *event, a),
{
    match &event.kind {
        EventKind::InlineQuery(q) => {
            let defs = fetcher.get_definitions(q.query_text.as_str());
            Action::Answer(build_answer(q, &defs))
        },
        EventKind::Message(m) => Action::Send(build_send_request(m.chat_id, onboarding_text())),
        EventKind::Other => Action::Ignore,
    }
}

/// Decides a whole batch, in arrival order: exactly one action per event,
/// each determined by its own event alone, so no event's outcome can starve
/// a sibling of its dispatch.
pub fn plan_batch<F: DefinitionFetcher>(fetcher: &F, events: &Vec<Event>) -> (actions: Vec<
    Action,
>)
    ensures
        actions@.len() == events@.len(),
        forall|i: int|
            0 <= i < events@.len() ==> is_action_for(fetcher, events@[i], #[trigger] actions@[i]),
{
    let mut actions: Vec<Action> = Vec::new();
    let n = events.len();
    let mut i: usize = 0;
    while i < n
        invariant
            i <= n,
            n == events@.len(),
            actions@.len() == i,
            forall|j: int|
                0 <= j < i ==> is_action_for(fetcher, events@[j], #[trigger] actions@[j]),
        decreases n - i,
    {
        let a = dispatch(fetcher, &events[i]);
        actions.push(a);
        i = i + 1;
    }
    actions
}

/// The bot's whole state: the cursor-owning poller and the definition
/// source. The network client around it performs the fetches and
/// submissions this core asks for.
pub struct BotCore<F: DefinitionFetcher> {
    pub poller: UpdatePoller,
    pub fetcher: F,
}

impl<F: DefinitionFetcher> BotCore<F> {
    /// A fresh core: cursor unset, ready to fetch from the platform's
    /// default starting point.
    pub fn new(fetcher: F) -> (b: BotCore<F>)
        ensures
            b.poller.cursor() is None,
            b.fetcher == fetcher,
    {
        BotCore { poller: UpdatePoller::new(), fetcher }
    }

    /// One turn of the polling loop, given what the fetch came back with:
    /// advances the cursor over the delivered events (and only then), and
    /// decides one action per delivered event. A transport failure, a
    /// rejected envelope or an empty batch leaves the cursor untouched and
    /// decides nothing, so a retry with the unchanged cursor re-delivers
    /// nothing by itself.
    pub fn handle_fetch(&mut self, fetch: Result<Envelope<Vec<Event>>, TransportError>) -> (actions:
        Vec<Action>)
        requires
            fetch matches Ok(env) ==> forall|k: int|
                0 <= k < delivered(env).len() ==> delivered(env)[k].event_id + delivered(
                    env,
                ).len() <= u64::MAX,
            fetch matches Ok(env) ==> (old(self).poller.cursor() is Some ==> old(
                self,
            ).poller.cursor()->0 + delivered(env).len() <= u64::MAX),
        ensures
            final(self).fetcher == old(self).fetcher,
            match fetch {
                Ok(env) => {
                    &&& final(self).poller.cursor() == folded_offset(
                        old(self).poller.cursor(),
                        event_ids(delivered(env)),
                    )
                    &&& actions@.len() == delivered(env).len()
                    &&& forall|i: int|
                        0 <= i < delivered(env).len() ==> is_action_for(
                            &final(self).fetcher,
                            delivered(env)[i],
                            #[trigger] actions@[i],
                        )
                    &&& delivered(env).len() == 0 ==> final(self).poller.cursor() == old(
                        self,
                    ).poller.cursor()
                },
                Err(_) => final(self).poller.cursor() == old(self).poller.cursor()
                    && actions@.len() == 0,
            },
            old(self).poller.cursor() is Some ==> final(self).poller.cursor() is Some
                && final(self).poller.cursor()->0 >= old(self).poller.cursor()->0,
    {
        match fetch {
            Ok(env) => {
                let events = self.poller.ingest(env);
                plan_batch(&self.fetcher, &events)
            },
            Err(_) => Vec::new(),
        }
    }
}

} // verus!
