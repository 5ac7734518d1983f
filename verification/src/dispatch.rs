//! The dispatcher: formats a record once and offers it to every recipient in
//! turn. A recipient that cannot be found or reached is reported and left
//! behind; the others are still tried.

use vstd::prelude::*;
use vstd::string::StringExecFns;

use crate::models::{WalletData, WalletRecord};
use crate::error::{failed, failures, notices, told, ErrorKind, Notice, NoticeView};
use crate::text::{joined, text_view, views};

verus! {

/// Identifier of a chat on the network, as username resolution returns it.
pub type ChatId = i64;

/// First line of a formatted record.
pub open spec fn header() -> Seq<char> {
    "💎💰  **Wallet Information**  💰💎"@
}

/// The line of dashes that follows the header and closes each field.
pub open spec fn separator() -> Seq<char> {
    "--------------------------------"@
}

/// A field's text, or the placeholder for an absent field.
pub open spec fn or_placeholder(field: Option<Seq<char>>) -> Seq<char> {
    match field {
        Some(t) => t,
        None => "N/A"@,
    }
}

/// One field of a formatted record: label, value, separator, with single
/// spaces in between.
pub open spec fn field_line(label: Seq<char>, field: Option<Seq<char>>) -> Seq<char> {
    label + " "@ + or_placeholder(field) + " "@ + separator()
}

/// The message text of a record: header, separator, then address, name and
/// time, one per line.
pub open spec fn formatted(record: WalletRecord) -> Seq<char> {
    header() + "\n"@ + separator() + "\n"@ + field_line("🌍 Wallet Address:"@, record.address)
        + "\n"@ + field_line("👤 Wallet Name:"@, record.name) + "\n"@ + field_line(
        "⏰ Time:"@,
        record.observed_at,
    )
}

fn append_field_line(out: &mut String, label: &str, field: &Option<String>)
    ensures
        final(out)@ == old(out)@ + field_line(label@, text_view(*field)),
{
    out.append(label);
    out.append(" ");
    match field {
        Some(t) => out.append(t.as_str()),
        None => out.append("N/A"),
    }
    out.append(" ");
    out.append("--------------------------------");
    assert(out@ =~= old(out)@ + field_line(label@, text_view(*field)));
}

/// Formats a record as the message that recipients receive.
pub fn format_wallet_data(wallet_data: &WalletData) -> (message: String)
    ensures
        message@ == formatted(wallet_data@),
{
    let mut out = joined("💎💰  **Wallet Information**  💰💎", "\n");
    out.append("--------------------------------");
    out.append("\n");
    append_field_line(&mut out, "🌍 Wallet Address:", &wallet_data.wallet_address);
    out.append("\n");
    append_field_line(&mut out, "👤 Wallet Name:", &wallet_data.wallet_name);
    out.append("\n");
    append_field_line(&mut out, "⏰ Time:", &wallet_data.wallet_time);
    out
}

/// What the network answered when a username was looked up.
#[derive(Debug, PartialEq, Eq)]
pub enum Lookup {
    /// The name belongs to this chat.
    Found(ChatId),
    /// The network knows no such name.
    NotFound,
    /// The lookup itself failed, with this description.
    Failed(String),
}

/// What became of a message handed to the network.
#[derive(Debug, PartialEq, Eq)]
pub enum Delivery {
    Sent,
    /// The send failed, with this description.
    Failed(String),
}

/// Where a dispatch stands, as a mathematical value.
pub struct DispatchState {
    /// The usernames to serve, in order.
    pub recipients: Seq<Seq<char>>,
    /// The message that each of them receives.
    pub text: Seq<char>,
    /// How many recipients have been dealt with.
    pub position: nat,
    /// The chat of the current recipient, once it has been found.
    pub sending: Option<ChatId>,
}

/// What the caller is asked to do next.
pub enum PendingView {
    /// Look this username up.
    Lookup(Seq<char>),
    /// Send this text to this chat.
    Send(ChatId, Seq<char>),
    /// Every recipient has been dealt with.
    Done,
}

impl DispatchState {
    /// A dispatch that has dealt with nobody yet.
    pub open spec fn initial(recipients: Seq<Seq<char>>, text: Seq<char>) -> DispatchState {
        DispatchState { recipients, text, position: 0, sending: None }
    }

    pub open spec fn well_formed(self) -> bool {
        &&& self.position <= self.recipients.len()
        &&& (self.sending is Some ==> self.position < self.recipients.len())
    }

    pub open spec fn is_done(self) -> bool {
        self.position >= self.recipients.len()
    }

    /// The username being served.
    pub open spec fn current(self) -> Seq<char> {
        self.recipients[self.position as int]
    }

    /// The request that is outstanding in this state.
    pub open spec fn pending(self) -> PendingView {
        if self.is_done() {
            PendingView::Done
        } else {
            match self.sending {
                Some(chat) => PendingView::Send(chat, self.text),
                None => PendingView::Lookup(self.current()),
            }
        }
    }

    /// The state that moves on to the next recipient.
    pub open spec fn advanced(self) -> DispatchState {
        DispatchState { position: self.position + 1, sending: None, ..self }
    }

    /// The state after a lookup was answered. An answer that nobody waits
    /// for changes nothing.
    pub open spec fn after_lookup(self, outcome: Lookup) -> DispatchState {
        if self.is_done() || self.sending is Some {
            self
        } else {
            match outcome {
                Lookup::Found(chat) => DispatchState { sending: Some(chat), ..self },
                _ => self.advanced(),
            }
        }
    }

    /// What is reported when a lookup was answered: one failure for a
    /// recipient that is given up, nothing otherwise.
    pub open spec fn lookup_log(self, outcome: Lookup) -> Seq<NoticeView> {
        if self.is_done() || self.sending is Some {
            Seq::empty()
        } else {
            match outcome {
                Lookup::Found(_) => Seq::empty(),
                Lookup::NotFound => seq![
                    failed(
                        ErrorKind::RecipientLookup,
                        "Error: Could not resolve username: "@ + self.current(),
                    ),
                ],
                Lookup::Failed(reason) => seq![
                    failed(
                        ErrorKind::RecipientLookup,
                        "Error resolving username "@ + self.current() + ": "@ + reason@,
                    ),
                ],
            }
        }
    }

    /// The state after a send was answered. An answer that nobody waits for
    /// changes nothing.
    pub open spec fn after_delivery(self, outcome: Delivery) -> DispatchState {
        if self.is_done() || self.sending is None {
            self
        } else {
            self.advanced()
        }
    }

    /// What is reported when a send was answered: one line, a failure where
    /// the send failed.
    pub open spec fn delivery_log(self, outcome: Delivery) -> Seq<NoticeView> {
        if self.is_done() || self.sending is None {
            Seq::empty()
        } else {
            match outcome {
                Delivery::Sent => seq![told("Message sent to "@ + self.current())],
                Delivery::Failed(reason) => seq![
                    failed(
                        ErrorKind::Send,
                        "Error sending message to "@ + self.current() + ": "@ + reason@,
                    ),
                ],
            }
        }
    }
}

/// What the caller is asked to do next.
#[derive(Debug, PartialEq, Eq)]
pub enum Pending {
    /// Look this username up and report the answer with `on_lookup`.
    Lookup { username: String },
    /// Send this text to this chat and report the answer with `on_delivery`.
    Send { chat: ChatId, text: String },
    /// Every recipient has been dealt with.
    Done,
}

impl View for Pending {
    type V = PendingView;

    open spec fn view(&self) -> PendingView {
        match self {
            Pending::Lookup { username } => PendingView::Lookup(username@),
            Pending::Send { chat, text } => PendingView::Send(*chat, text@),
            Pending::Done => PendingView::Done,
        }
    }
}

/// The answer of the dispatcher to one event: lines to report, and the next
/// request.
#[derive(Debug, PartialEq, Eq)]
pub struct DispatchStep {
    pub log: Vec<Notice>,
    pub next: Pending,
}

/// A dispatch in progress.
pub struct Dispatcher {
    recipients: Vec<String>,
    text: String,
    position: usize,
    sending: Option<ChatId>,
}

impl View for Dispatcher {
    type V = DispatchState;

    closed spec fn view(&self) -> DispatchState {
        DispatchState {
            recipients: views(self.recipients@),
            text: self.text@,
            position: self.position as nat,
            sending: self.sending,
        }
    }
}

impl Dispatcher {
    #[verifier::type_invariant]
    spec fn inv(&self) -> bool {
        &&& self.position <= self.recipients.len()
        &&& (self.sending is Some ==> self.position < self.recipients.len())
    }

    /// Begins the dispatch of `record` to `recipients`.
    pub fn new(record: &WalletData, recipients: Vec<String>) -> (dispatcher: Dispatcher)
        ensures
            dispatcher@ == DispatchState::initial(views(recipients@), formatted(record@)),
            dispatcher@.well_formed(),
    {
        let text = format_wallet_data(record);
        Dispatcher { recipients, text, position: 0, sending: None }
    }

    /// The request that is outstanding.
    pub fn pending(&self) -> (next: Pending)
        ensures
            next@ == self@.pending(),
            self@.well_formed(),
    {
        proof {
            use_type_invariant(self);
        }
        if self.position >= self.recipients.len() {
            Pending::Done
        } else {
            assert(views(self.recipients@)[self.position as int] == self.recipients@[self.position as int]@);
            match self.sending {
                Some(chat) => Pending::Send { chat, text: self.text.clone() },
                None => Pending::Lookup { username: self.recipients[self.position].clone() },
            }
        }
    }

    /// Whether every recipient has been dealt with.
    pub fn is_done(&self) -> (done: bool)
        ensures
            done == self@.is_done(),
    {
        self.position >= self.recipients.len()
    }

    /// Takes the answer to a lookup. A chat that was found is sent to next; a
    /// recipient that was not found, or whose lookup failed, is reported in
    /// one line and left behind.
    pub fn on_lookup(&mut self, outcome: Lookup) -> (step: DispatchStep)
        ensures
            final(self)@ == old(self)@.after_lookup(outcome),
            notices(step.log@) == old(self)@.lookup_log(outcome),
            step.next@ == final(self)@.pending(),
            final(self)@.well_formed(),
    {
        proof {
            use_type_invariant(&*self);
        }
        let mut log: Vec<Notice> = Vec::new();
        if self.position < self.recipients.len() && self.sending.is_none() {
            assert(views(self.recipients@)[self.position as int] == self.recipients@[self.position as int]@);
            let username = self.recipients[self.position].as_str();
            match outcome {
                Lookup::Found(chat) => {
                    self.sending = Some(chat);
                },
                Lookup::NotFound => {
                    log.push(
                        Notice::failure(
                            ErrorKind::RecipientLookup,
                            joined("Error: Could not resolve username: ", username),
                        ),
                    );
                    self.position = self.position + 1;
                },
                Lookup::Failed(reason) => {
                    let mut line = joined("Error resolving username ", username);
                    line.append(": ");
                    line.append(reason.as_str());
                    log.push(Notice::failure(ErrorKind::RecipientLookup, line));
                    self.position = self.position + 1;
                },
            }
        }
        assert(notices(log@) =~= old(self)@.lookup_log(outcome));
        let next = self.pending();
        DispatchStep { log, next }
    }

    /// Takes the answer to a send. Sent or not, the outcome is reported in one
    /// line and the next recipient is taken up.
    pub fn on_delivery(&mut self, outcome: Delivery) -> (step: DispatchStep)
        ensures
            final(self)@ == old(self)@.after_delivery(outcome),
            notices(step.log@) == old(self)@.delivery_log(outcome),
            step.next@ == final(self)@.pending(),
            final(self)@.well_formed(),
    {
        proof {
            use_type_invariant(&*self);
        }
        let mut log: Vec<Notice> = Vec::new();
        if self.position < self.recipients.len() && self.sending.is_some() {
            assert(views(self.recipients@)[self.position as int] == self.recipients@[self.position as int]@);
            let username = self.recipients[self.position].as_str();
            match outcome {
                Delivery::Sent => {
                    log.push(Notice::info(joined("Message sent to ", username)));
                },
                Delivery::Failed(reason) => {
                    let mut line = joined("Error sending message to ", username);
                    line.append(": ");
                    line.append(reason.as_str());
                    log.push(Notice::failure(ErrorKind::Send, line));
                },
            }
            self.sending = None;
            self.position = self.position + 1;
        }
        assert(notices(log@) =~= old(self)@.delivery_log(outcome));
        let next = self.pending();
        DispatchStep { log, next }
    }
}

/// How the dealings with one recipient ended.
pub enum Outcome {
    /// The network knows no such name.
    NotFound,
    /// The lookup failed.
    LookupFailed(String),
    /// The chat was found and the message sent.
    Delivered(ChatId),
    /// The chat was found and the send failed.
    SendFailed(ChatId, String),
}

impl DispatchState {
    /// The state after the current recipient met `outcome`: the answer to its
    /// lookup and, where the chat was found, the answer to the send.
    pub open spec fn after_attempt(self, outcome: Outcome) -> DispatchState {
        match outcome {
            Outcome::NotFound => self.after_lookup(Lookup::NotFound),
            Outcome::LookupFailed(reason) => self.after_lookup(Lookup::Failed(reason)),
            Outcome::Delivered(chat) => self.after_lookup(Lookup::Found(chat)).after_delivery(
                Delivery::Sent,
            ),
            Outcome::SendFailed(chat, reason) => self.after_lookup(
                Lookup::Found(chat),
            ).after_delivery(Delivery::Failed(reason)),
        }
    }

    /// The lines reported while the current recipient met `outcome`.
    pub open spec fn attempt_log(self, outcome: Outcome) -> Seq<NoticeView> {
        match outcome {
            Outcome::NotFound => self.lookup_log(Lookup::NotFound),
            Outcome::LookupFailed(reason) => self.lookup_log(Lookup::Failed(reason)),
            Outcome::Delivered(chat) => self.lookup_log(Lookup::Found(chat))
                + self.after_lookup(Lookup::Found(chat)).delivery_log(Delivery::Sent),
            Outcome::SendFailed(chat, reason) => self.lookup_log(Lookup::Found(chat))
                + self.after_lookup(Lookup::Found(chat)).delivery_log(Delivery::Failed(reason)),
        }
    }

    /// The state after one recipient after the other met the given outcomes.
    pub open spec fn after_attempts(self, outcomes: Seq<Outcome>) -> DispatchState
        decreases outcomes.len(),
    {
        if outcomes.len() == 0 {
            self
        } else {
            self.after_attempts(outcomes.drop_last()).after_attempt(outcomes.last())
        }
    }

    /// All lines reported while the recipients met the given outcomes.
    pub open spec fn attempts_log(self, outcomes: Seq<Outcome>) -> Seq<NoticeView>
        decreases outcomes.len(),
    {
        if outcomes.len() == 0 {
            Seq::empty()
        } else {
            self.attempts_log(outcomes.drop_last()) + self.after_attempts(
                outcomes.drop_last(),
            ).attempt_log(outcomes.last())
        }
    }
}

impl Outcome {
    /// The recipient did not get the message.
    pub open spec fn is_failure(self) -> bool {
        !(self is Delivered)
    }
}

/// How many of the outcomes are failures.
pub open spec fn failed_count(outcomes: Seq<Outcome>) -> nat
    decreases outcomes.len(),
{
    if outcomes.len() == 0 {
        0
    } else if outcomes.last().is_failure() {
        failed_count(outcomes.drop_last()) + 1
    } else {
        failed_count(outcomes.drop_last())
    }
}

/// Dispatch isolation. Whatever the first recipients met -- not found, lookup
/// failed, send failed or delivered -- the dispatch neither stops nor skips:
/// the recipient after them is looked up next (or the dispatch is done, when
/// they were all). Each of them was reported in exactly one line, and the
/// lines that tell of a failure are as many as the recipients that failed.
pub proof fn dispatch_isolation(
    recipients: Seq<Seq<char>>,
    text: Seq<char>,
    outcomes: Seq<Outcome>,
)
    requires
        outcomes.len() <= recipients.len(),
    ensures
        ({
            let start = DispatchState::initial(recipients, text);
            let reached = start.after_attempts(outcomes);
            &&& reached.well_formed()
            &&& reached.recipients == recipients
            &&& reached.text == text
            &&& reached.position == outcomes.len()
            &&& reached.sending is None
            &&& reached.pending() == (if outcomes.len() < recipients.len() {
                PendingView::Lookup(recipients[outcomes.len() as int])
            } else {
                PendingView::Done
            })
            &&& start.attempts_log(outcomes).len() == outcomes.len()
            &&& failures(start.attempts_log(outcomes)) == failed_count(outcomes)
        }),
    decreases outcomes.len(),
{
    if outcomes.len() > 0 {
        let start = DispatchState::initial(recipients, text);
        let before = outcomes.drop_last();
        dispatch_isolation(recipients, text, before);
        let middle = start.after_attempts(before);
        let added = middle.attempt_log(outcomes.last());
        assert(added.len() == 1);
        assert(added[0].failure is Some <==> outcomes.last().is_failure());
        let whole = start.attempts_log(outcomes);
        assert(whole =~= start.attempts_log(before).push(added[0]));
        assert(whole.drop_last() =~= start.attempts_log(before));
    }
}

/// While a recipient is served and its lookup is awaited, a lookup that
/// fails or finds nothing costs one line and moves on to the next recipient.
pub proof fn failed_lookup_moves_on(state: DispatchState, outcome: Lookup)
    requires
        state.well_formed(),
        !state.is_done(),
        state.sending is None,
        !(outcome is Found),
    ensures
        state.after_lookup(outcome).position == state.position + 1,
        state.after_lookup(outcome).sending is None,
        state.after_lookup(outcome).recipients == state.recipients,
        state.lookup_log(outcome).len() == 1,
        state.lookup_log(outcome)[0].failure == Some(ErrorKind::RecipientLookup),
{
}

/// While a send is awaited, its answer, good or bad, costs one line and moves
/// on to the next recipient.
pub proof fn answered_send_moves_on(state: DispatchState, outcome: Delivery)
    requires
        state.well_formed(),
        state.sending is Some,
    ensures
        state.after_delivery(outcome).position == state.position + 1,
        state.after_delivery(outcome).sending is None,
        state.after_delivery(outcome).recipients == state.recipients,
        state.delivery_log(outcome).len() == 1,
        state.delivery_log(outcome)[0].failure == (match outcome {
            Delivery::Sent => None,
            Delivery::Failed(_) => Some(ErrorKind::Send),
        }),
{
}

} // verus!
