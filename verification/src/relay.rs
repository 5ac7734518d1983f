//! The ingestion loop as a state machine. The caller performs each command
//! and reports what came of it; the relay decides what happens next.
//!
//! Bootstrapping runs from connecting through authorization to the resolution
//! of the source channels. Listening is the steady state: every update is
//! pulled, filtered and examined, and a message that carries a signal is
//! dispatched to all recipients before the next update is pulled.

use std::collections::HashSet;
use vstd::prelude::*;

use crate::config::{
    channels_of, load_target_channels, load_target_usernames, recipients_of, ConfigError,
};
use crate::dispatch::{
    formatted, ChatId, Delivery, DispatchState, Dispatcher, Lookup, Pending, PendingView,
};
use crate::error::{failed, notices, told, ErrorKind, Notice, NoticeView};
use crate::extract::{
    examination, examine, local_time_text, skip_line, stamp, stamped, Examination,
    ExtractorConfig, ExtractorSettings, Finding,
};
use crate::text::{clone_texts, joined, list_text, render_list, text_view, views};

verus! {

broadcast use vstd::std_specs::hash::group_hash_axioms;

/// What the caller reports back to the relay.
#[derive(Debug, PartialEq, Eq)]
pub enum Event {
    /// The connection stands.
    Connected,
    /// The connection could not be established.
    ConnectFailed(String),
    /// The network said whether the session is authorized.
    Authorization(bool),
    /// The network did not say whether the session is authorized.
    AuthorizationFailed(String),
    /// The interactive sign-in succeeded.
    Authenticated,
    /// The interactive sign-in failed.
    AuthenticationFailed(String),
    /// The answer to a username lookup.
    Lookup(Lookup),
    /// The feed delivered a new message.
    NewMessage { chat: ChatId, outgoing: bool, text: String },
    /// The feed delivered an update that is no new message.
    OtherUpdate,
    /// The feed failed.
    UpdateFailed(String),
    /// The answer to a send.
    Delivery(Delivery),
}

/// What the relay asks the caller to do.
#[derive(Debug, PartialEq, Eq)]
pub enum Command {
    Connect,
    CheckAuthorization,
    Authenticate,
    ResolveUsername { name: String },
    NextUpdate,
    SendMessage { chat: ChatId, text: String },
    /// End the process with this failure.
    Stop { kind: ErrorKind, detail: String },
}

/// A command as a mathematical value.
pub enum CommandView {
    Connect,
    CheckAuthorization,
    Authenticate,
    ResolveUsername(Seq<char>),
    NextUpdate,
    SendMessage(ChatId, Seq<char>),
    Stop(ErrorKind, Seq<char>),
}

impl View for Command {
    type V = CommandView;

    open spec fn view(&self) -> CommandView {
        match self {
            Command::Connect => CommandView::Connect,
            Command::CheckAuthorization => CommandView::CheckAuthorization,
            Command::Authenticate => CommandView::Authenticate,
            Command::ResolveUsername { name } => CommandView::ResolveUsername(name@),
            Command::NextUpdate => CommandView::NextUpdate,
            Command::SendMessage { chat, text } => CommandView::SendMessage(*chat, text@),
            Command::Stop { kind, detail } => CommandView::Stop(*kind, detail@),
        }
    }
}

/// Where the relay stands.
pub enum PhaseView {
    Connecting,
    CheckingAuthorization,
    Authenticating,
    /// Resolving the source channel at this index.
    ResolvingTargets(nat),
    Listening,
    /// Dispatching a record; the dispatch is not done.
    Dispatching(DispatchState),
    Stopped(ErrorKind, Seq<char>),
}

/// The relay as a mathematical value.
pub struct RelayState {
    pub settings: ExtractorSettings,
    /// The recipient usernames as configured, unread until bootstrapping needs them.
    pub raw_usernames: Option<Seq<char>>,
    /// The source channel names as configured.
    pub raw_channels: Option<Seq<char>>,
    pub channels: Seq<Seq<char>>,
    pub recipients: Seq<Seq<char>>,
    /// The chats whose messages are examined.
    pub targets: Set<ChatId>,
    pub phase: PhaseView,
}

/// The effect of one event: the next state and the lines to report.
pub struct Transition {
    pub state: RelayState,
    pub log: Seq<NoticeView>,
}

impl Transition {
    /// The same transition with one more line reported first.
    pub open spec fn preceded_by(self, line: Seq<char>) -> Transition {
        Transition { state: self.state, log: seq![told(line)] + self.log }
    }
}

impl RelayState {
    /// The relay before anything has happened: it is about to connect.
    pub open spec fn initial(
        settings: ExtractorSettings,
        raw_usernames: Option<Seq<char>>,
        raw_channels: Option<Seq<char>>,
    ) -> RelayState {
        RelayState {
            settings,
            raw_usernames,
            raw_channels,
            channels: Seq::empty(),
            recipients: Seq::empty(),
            targets: Set::empty(),
            phase: PhaseView::Connecting,
        }
    }

    pub open spec fn well_formed(self) -> bool {
        match self.phase {
            PhaseView::ResolvingTargets(cursor) => cursor < self.channels.len(),
            PhaseView::Dispatching(dispatch) => dispatch.well_formed() && !dispatch.is_done(),
            _ => true,
        }
    }

    pub open spec fn with_phase(self, phase: PhaseView) -> RelayState {
        RelayState { phase, ..self }
    }

    /// Nothing changes and nothing is reported.
    pub open spec fn stay(self) -> Transition {
        Transition { state: self, log: Seq::empty() }
    }

    /// The relay stops with a failure.
    pub open spec fn stop(self, kind: ErrorKind, detail: Seq<char>) -> Transition {
        Transition { state: self.with_phase(PhaseView::Stopped(kind, detail)), log: Seq::empty() }
    }

    /// Goes on with the source channel at `cursor`, or starts listening when
    /// there is none left.
    pub open spec fn resolve_from(self, cursor: nat) -> Transition {
        if cursor < self.channels.len() {
            Transition {
                state: self.with_phase(PhaseView::ResolvingTargets(cursor)),
                log: Seq::empty(),
            }
        } else {
            Transition {
                state: self.with_phase(PhaseView::Listening),
                log: seq![told("Listening for new messages..."@)],
            }
        }
    }

    /// Once authorized: reads the recipients, which are required, and the
    /// source channels, and begins to resolve the channels.
    pub open spec fn set_up(self) -> Transition {
        match self.raw_usernames {
            None => self.stop(ErrorKind::Settings(ConfigError::MissingRecipients), Seq::empty()),
            Some(raw) => {
                let ready = RelayState {
                    recipients: recipients_of(raw),
                    channels: channels_of(self.raw_channels),
                    ..self
                };
                ready.resolve_from(0).preceded_by(
                    "Target channels to listen for: "@ + list_text(ready.channels),
                )
            },
        }
    }

    /// The answer to the lookup of the source channel at `cursor`. A chat that
    /// was found joins the targets; a channel that was not is reported and
    /// left out. Either way the next channel is taken up.
    pub open spec fn on_target_lookup(self, cursor: nat, outcome: Lookup) -> Transition {
        let name = self.channels[cursor as int];
        let targets = match outcome {
            Lookup::Found(chat) => self.targets.insert(chat),
            _ => self.targets,
        };
        let log = match outcome {
            Lookup::Found(_) => Seq::empty(),
            Lookup::NotFound => seq![
                failed(ErrorKind::TargetLookup, "Could not resolve chat: "@ + name),
            ],
            Lookup::Failed(_) => seq![
                failed(ErrorKind::TargetLookup, "Error resolving chat: "@ + name),
            ],
        };
        let next = RelayState { targets, ..self }.resolve_from(cursor + 1);
        Transition { state: next.state, log: log + next.log }
    }

    /// Goes on with a dispatch, or back to listening when it is done.
    pub open spec fn dispatching(self, dispatch: DispatchState, log: Seq<NoticeView>) -> Transition {
        if dispatch.is_done() {
            Transition { state: self.with_phase(PhaseView::Listening), log }
        } else {
            Transition { state: self.with_phase(PhaseView::Dispatching(dispatch)), log }
        }
    }

    /// A new message while listening. A message from a chat that is no
    /// target, or that this account sent, is passed over in silence. A message
    /// without a signal is reported as skipped. Any other is stamped with
    /// `observed_at`, formatted, and dispatched to the recipients.
    pub open spec fn on_message(
        self,
        chat: ChatId,
        outgoing: bool,
        text: Seq<char>,
        observed_at: Seq<char>,
    ) -> Transition {
        if !self.targets.contains(chat) || outgoing {
            self.stay()
        } else {
            match examination(self.settings, text) {
                Examination::Skipped(reason) => Transition {
                    state: self,
                    log: seq![told(skip_line(reason))],
                },
                found => self.dispatching(
                    DispatchState::initial(self.recipients, formatted(stamped(found, observed_at))),
                    Seq::empty(),
                ),
            }
        }
    }

    /// The effect of an event. `observed_at` is the capture time given to a
    /// record, should the event give rise to one. An event that the current
    /// phase does not wait for changes nothing.
    pub open spec fn on_event(self, event: Event, observed_at: Seq<char>) -> Transition {
        match self.phase {
            PhaseView::Connecting => match event {
                Event::Connected => Transition {
                    state: self.with_phase(PhaseView::CheckingAuthorization),
                    log: seq![told("Connected to Telegram!"@)],
                },
                Event::ConnectFailed(reason) => self.stop(ErrorKind::Connection, reason@),
                _ => self.stay(),
            },
            PhaseView::CheckingAuthorization => match event {
                Event::Authorization(authorized) => if authorized {
                    self.set_up().preceded_by("Already authorized."@)
                } else {
                    Transition {
                        state: self.with_phase(PhaseView::Authenticating),
                        log: seq![told("Not authorized, starting authentication..."@)],
                    }
                },
                Event::AuthorizationFailed(reason) => self.stop(
                    ErrorKind::Authorization,
                    reason@,
                ),
                _ => self.stay(),
            },
            PhaseView::Authenticating => match event {
                Event::Authenticated => self.set_up().preceded_by("Authentication completed."@),
                Event::AuthenticationFailed(reason) => self.stop(
                    ErrorKind::Authentication,
                    reason@,
                ),
                _ => self.stay(),
            },
            PhaseView::ResolvingTargets(cursor) => match event {
                Event::Lookup(outcome) => self.on_target_lookup(cursor, outcome),
                _ => self.stay(),
            },
            PhaseView::Listening => match event {
                Event::NewMessage { chat, outgoing, text } => self.on_message(
                    chat,
                    outgoing,
                    text@,
                    observed_at,
                ),
                Event::UpdateFailed(reason) => self.stop(ErrorKind::UpdateFeed, reason@),
                _ => self.stay(),
            },
            PhaseView::Dispatching(dispatch) => match event {
                Event::Lookup(outcome) => self.dispatching(
                    dispatch.after_lookup(outcome),
                    dispatch.lookup_log(outcome),
                ),
                Event::Delivery(outcome) => self.dispatching(
                    dispatch.after_delivery(outcome),
                    dispatch.delivery_log(outcome),
                ),
                _ => self.stay(),
            },
            PhaseView::Stopped(_, _) => self.stay(),
        }
    }

    /// The command that is outstanding in this state.
    pub open spec fn command(self) -> CommandView {
        match self.phase {
            PhaseView::Connecting => CommandView::Connect,
            PhaseView::CheckingAuthorization => CommandView::CheckAuthorization,
            PhaseView::Authenticating => CommandView::Authenticate,
            PhaseView::ResolvingTargets(cursor) => CommandView::ResolveUsername(
                self.channels[cursor as int],
            ),
            PhaseView::Listening => CommandView::NextUpdate,
            PhaseView::Dispatching(dispatch) => match dispatch.pending() {
                PendingView::Lookup(username) => CommandView::ResolveUsername(username),
                PendingView::Send(chat, text) => CommandView::SendMessage(chat, text),
                PendingView::Done => CommandView::NextUpdate,
            },
            PhaseView::Stopped(kind, detail) => CommandView::Stop(kind, detail),
        }
    }
}

enum Phase {
    Connecting,
    CheckingAuthorization,
    Authenticating,
    ResolvingTargets { cursor: usize },
    Listening,
    Dispatching { dispatcher: Dispatcher },
    Stopped { kind: ErrorKind, detail: String },
}

impl View for Phase {
    type V = PhaseView;

    closed spec fn view(&self) -> PhaseView {
        match self {
            Phase::Connecting => PhaseView::Connecting,
            Phase::CheckingAuthorization => PhaseView::CheckingAuthorization,
            Phase::Authenticating => PhaseView::Authenticating,
            Phase::ResolvingTargets { cursor } => PhaseView::ResolvingTargets(*cursor as nat),
            Phase::Listening => PhaseView::Listening,
            Phase::Dispatching { dispatcher } => PhaseView::Dispatching(dispatcher@),
            Phase::Stopped { kind, detail } => PhaseView::Stopped(*kind, detail@),
        }
    }
}

/// The relay's answer to one event: lines to report, and the next command.
#[derive(Debug, PartialEq, Eq)]
pub struct Step {
    pub log: Vec<Notice>,
    pub command: Command,
}

/// The relay: configuration, the targets resolved so far, and the phase.
pub struct Relay {
    config: ExtractorConfig,
    raw_usernames: Option<String>,
    raw_channels: Option<String>,
    channels: Vec<String>,
    recipients: Vec<String>,
    targets: HashSet<ChatId>,
    phase: Phase,
}

impl View for Relay {
    type V = RelayState;

    closed spec fn view(&self) -> RelayState {
        RelayState {
            settings: self.config@,
            raw_usernames: text_view(self.raw_usernames),
            raw_channels: text_view(self.raw_channels),
            channels: views(self.channels@),
            recipients: views(self.recipients@),
            targets: self.targets@,
            phase: self.phase@,
        }
    }
}

fn as_raw(value: &Option<String>) -> (raw: Option<&str>)
    ensures
        crate::config::raw_view(raw) == text_view(*value),
{
    match value {
        Some(s) => Some(s.as_str()),
        None => None,
    }
}

impl Relay {
    #[verifier::type_invariant]
    spec fn inv(&self) -> bool {
        self@.well_formed()
    }

    /// A relay that is about to connect. The recipient and channel lists are
    /// kept as given and read once the session is authorized.
    pub fn new(
        config: ExtractorConfig,
        raw_usernames: Option<String>,
        raw_channels: Option<String>,
    ) -> (started: (Relay, Step))
        ensures
            started.0@ == RelayState::initial(
                config@,
                text_view(raw_usernames),
                text_view(raw_channels),
            ),
            notices(started.1.log@) == seq![told("Connecting to Telegram..."@)],
            started.1.command@ == CommandView::Connect,
    {
        let relay = Relay {
            config,
            raw_usernames,
            raw_channels,
            channels: Vec::new(),
            recipients: Vec::new(),
            targets: HashSet::new(),
            phase: Phase::Connecting,
        };
        let mut log: Vec<Notice> = Vec::new();
        log.push(Notice::info("Connecting to Telegram...".to_owned()));
        assert(notices(log@) =~= seq![told("Connecting to Telegram..."@)]);
        assert(views(relay.channels@) =~= Seq::<Seq<char>>::empty());
        assert(views(relay.recipients@) =~= Seq::<Seq<char>>::empty());
        (relay, Step { log, command: Command::Connect })
    }

    /// The command that is outstanding.
    pub fn command(&self) -> (command: Command)
        ensures
            command@ == self@.command(),
            self@.well_formed(),
    {
        proof {
            use_type_invariant(self);
        }
        match &self.phase {
            Phase::Connecting => Command::Connect,
            Phase::CheckingAuthorization => Command::CheckAuthorization,
            Phase::Authenticating => Command::Authenticate,
            Phase::ResolvingTargets { cursor } => {
                assert(views(self.channels@)[*cursor as int] == self.channels@[*cursor as int]@);
                Command::ResolveUsername { name: self.channels[*cursor].clone() }
            },
            Phase::Listening => Command::NextUpdate,
            Phase::Dispatching { dispatcher } => match dispatcher.pending() {
                Pending::Lookup { username } => Command::ResolveUsername { name: username },
                Pending::Send { chat, text } => Command::SendMessage { chat, text },
                Pending::Done => Command::NextUpdate,
            },
            Phase::Stopped { kind, detail } => Command::Stop { kind: *kind, detail: detail.clone() },
        }
    }

    /// True while the relay is bootstrapping: before it listens for the first time.
    pub fn is_bootstrapping(&self) -> (b: bool)
        ensures
            b == (self@.phase is Connecting || self@.phase is CheckingAuthorization
                || self@.phase is Authenticating || self@.phase is ResolvingTargets),
    {
        match &self.phase {
            Phase::Connecting => true,
            Phase::CheckingAuthorization => true,
            Phase::Authenticating => true,
            Phase::ResolvingTargets { .. } => true,
            _ => false,
        }
    }

    /// True once the relay has stopped with a failure.
    pub fn is_stopped(&self) -> (b: bool)
        ensures
            b == (self@.phase is Stopped),
    {
        match &self.phase {
            Phase::Stopped { .. } => true,
            _ => false,
        }
    }

    /// Whether messages of this chat are examined.
    pub fn is_target(&self, chat: ChatId) -> (b: bool)
        ensures
            b == self@.targets.contains(chat),
    {
        self.targets.contains(&chat)
    }

    fn finish(self, log: Vec<Notice>) -> (next: (Relay, Step))
        ensures
            next.0 == self,
            next.1.log == log,
            next.1.command@ == self@.command(),
    {
        let command = self.command();
        (self, Step { log, command })
    }

    fn stopped(self, kind: ErrorKind, detail: String) -> (next: (Relay, Step))
        ensures
            next.0@ == self@.stop(kind, detail@).state,
            notices(next.1.log@) == self@.stop(kind, detail@).log,
            next.1.command@ == next.0@.command(),
    {
        let Relay { config, raw_usernames, raw_channels, channels, recipients, targets, phase } =
            self;
        let relay = Relay {
            config,
            raw_usernames,
            raw_channels,
            channels,
            recipients,
            targets,
            phase: Phase::Stopped { kind, detail },
        };
        let log: Vec<Notice> = Vec::new();
        assert(notices(log@) =~= Seq::<NoticeView>::empty());
        relay.finish(log)
    }

    fn resolving_from(self, cursor: usize, log: Vec<Notice>) -> (next: (Relay, Step))
        requires
            cursor <= self.channels.len(),
        ensures
            next.0@ == self@.resolve_from(cursor as nat).state,
            notices(next.1.log@) == notices(log@) + self@.resolve_from(cursor as nat).log,
            next.1.command@ == next.0@.command(),
    {
        let Relay { config, raw_usernames, raw_channels, channels, recipients, targets, phase } =
            self;
        let mut log = log;
        let ghost before = notices(log@);
        if cursor < channels.len() {
            let relay = Relay {
                config,
                raw_usernames,
                raw_channels,
                channels,
                recipients,
                targets,
                phase: Phase::ResolvingTargets { cursor },
            };
            assert(notices(log@) =~= before + self@.resolve_from(cursor as nat).log);
            relay.finish(log)
        } else {
            let relay = Relay {
                config,
                raw_usernames,
                raw_channels,
                channels,
                recipients,
                targets,
                phase: Phase::Listening,
            };
            log.push(Notice::info("Listening for new messages...".to_owned()));
            assert(notices(log@) =~= before + self@.resolve_from(cursor as nat).log);
            relay.finish(log)
        }
    }

    fn set_up(self, first_line: &str) -> (next: (Relay, Step))
        ensures
            next.0@ == self@.set_up().preceded_by(first_line@).state,
            notices(next.1.log@) == self@.set_up().preceded_by(first_line@).log,
            next.1.command@ == next.0@.command(),
    {
        let mut log: Vec<Notice> = Vec::new();
        log.push(Notice::info(first_line.to_owned()));
        match load_target_usernames(as_raw(&self.raw_usernames)) {
            Err(_) => {
                let next = self.stopped(
                    ErrorKind::Settings(ConfigError::MissingRecipients),
                    String::new(),
                );
                let (relay, step) = next;
                assert(notices(log@) =~= self@.set_up().preceded_by(first_line@).log);
                (relay, Step { log, command: step.command })
            },
            Ok(recipients) => {
                let channels = load_target_channels(as_raw(&self.raw_channels));
                let Relay { config, raw_usernames, raw_channels, targets, phase, .. } = self;
                log.push(
                    Notice::info(
                        joined("Target channels to listen for: ", render_list(&channels).as_str()),
                    ),
                );
                let relay = Relay {
                    config,
                    raw_usernames,
                    raw_channels,
                    channels,
                    recipients,
                    targets,
                    phase: Phase::Connecting,
                };
                let ghost ready = relay@.with_phase(self@.phase);
                assert(ready.resolve_from(0).state == relay@.resolve_from(0).state);
                assert(ready.resolve_from(0).log == relay@.resolve_from(0).log);
                let next = relay.resolving_from(0, log);
                assert(notices(next.1.log@) =~= self@.set_up().preceded_by(first_line@).log);
                next
            },
        }
    }

    fn on_target_lookup(self, cursor: usize, outcome: Lookup) -> (next: (Relay, Step))
        requires
            cursor < self.channels.len(),
        ensures
            next.0@ == self@.on_target_lookup(cursor as nat, outcome).state,
            notices(next.1.log@) == self@.on_target_lookup(cursor as nat, outcome).log,
            next.1.command@ == next.0@.command(),
    {
        let Relay { config, raw_usernames, raw_channels, channels, recipients, targets, phase } =
            self;
        let mut targets = targets;
        let mut log: Vec<Notice> = Vec::new();
        assert(views(channels@)[cursor as int] == channels@[cursor as int]@);
        match outcome {
            Lookup::Found(chat) => {
                targets.insert(chat);
            },
            Lookup::NotFound => {
                log.push(
                    Notice::failure(
                        ErrorKind::TargetLookup,
                        joined("Could not resolve chat: ", channels[cursor].as_str()),
                    ),
                );
            },
            Lookup::Failed(_) => {
                log.push(
                    Notice::failure(
                        ErrorKind::TargetLookup,
                        joined("Error resolving chat: ", channels[cursor].as_str()),
                    ),
                );
            },
        }
        let ghost noted = notices(log@);
        let relay = Relay {
            config,
            raw_usernames,
            raw_channels,
            channels,
            recipients,
            targets,
            phase: Phase::Connecting,
        };
        let ghost updated = RelayState { targets: relay@.targets, ..self@ };
        assert(updated.resolve_from(cursor as nat + 1).state == relay@.resolve_from(
            cursor as nat + 1,
        ).state);
        assert(updated.resolve_from(cursor as nat + 1).log == relay@.resolve_from(
            cursor as nat + 1,
        ).log);
        let next = relay.resolving_from(cursor + 1, log);
        assert(notices(next.1.log@) =~= self@.on_target_lookup(cursor as nat, outcome).log);
        next
    }

    fn dispatching(self, dispatcher: Dispatcher, log: Vec<Notice>) -> (next: (Relay, Step))
        requires
            dispatcher@.well_formed(),
        ensures
            next.0@ == self@.dispatching(dispatcher@, notices(log@)).state,
            notices(next.1.log@) == self@.dispatching(dispatcher@, notices(log@)).log,
            next.1.command@ == next.0@.command(),
    {
        let Relay { config, raw_usernames, raw_channels, channels, recipients, targets, phase } =
            self;
        if dispatcher.is_done() {
            let relay = Relay {
                config,
                raw_usernames,
                raw_channels,
                channels,
                recipients,
                targets,
                phase: Phase::Listening,
            };
            relay.finish(log)
        } else {
            let relay = Relay {
                config,
                raw_usernames,
                raw_channels,
                channels,
                recipients,
                targets,
                phase: Phase::Dispatching { dispatcher },
            };
            relay.finish(log)
        }
    }

    fn on_message(self, chat: ChatId, outgoing: bool, text: String, observed_at: String) -> (next: (
        Relay,
        Step,
    ))
        ensures
            next.0@ == self@.on_message(chat, outgoing, text@, observed_at@).state,
            notices(next.1.log@) == self@.on_message(chat, outgoing, text@, observed_at@).log,
            next.1.command@ == next.0@.command(),
    {
        let mut log: Vec<Notice> = Vec::new();
        assert(notices(log@) =~= Seq::<NoticeView>::empty());
        if !self.targets.contains(&chat) || outgoing {
            return self.finish(log);
        }
        let finding = examine(&self.config, text.as_str());
        match finding {
            Finding::Skipped(reason) => {
                log.push(Notice::info(reason.message()));
                assert(notices(log@) =~= seq![told(skip_line(reason))]);
                self.finish(log)
            },
            _ => {
                let record = stamp(finding, observed_at);
                let dispatcher = Dispatcher::new(&record, clone_texts(&self.recipients));
                self.dispatching(dispatcher, log)
            },
        }
    }

    /// Takes an event and gives `observed_at` as capture time to the record
    /// that a new message may give rise to.
    pub fn step_at(self, event: Event, observed_at: String) -> (next: (Relay, Step))
        ensures
            next.0@ == self@.on_event(event, observed_at@).state,
            notices(next.1.log@) == self@.on_event(event, observed_at@).log,
            next.1.command@ == next.0@.command(),
    {
        proof {
            use_type_invariant(&self);
        }
        let log: Vec<Notice> = Vec::new();
        assert(notices(log@) =~= Seq::<NoticeView>::empty());
        let Relay { config, raw_usernames, raw_channels, channels, recipients, targets, phase } =
            self;
        match phase {
            Phase::Connecting => {
                let relay = Relay {
                    config,
                    raw_usernames,
                    raw_channels,
                    channels,
                    recipients,
                    targets,
                    phase: Phase::Connecting,
                };
                match event {
                    Event::Connected => {
                        let Relay {
                            config,
                            raw_usernames,
                            raw_channels,
                            channels,
                            recipients,
                            targets,
                            phase,
                        } = relay;
                        let relay = Relay {
                            config,
                            raw_usernames,
                            raw_channels,
                            channels,
                            recipients,
                            targets,
                            phase: Phase::CheckingAuthorization,
                        };
                        let mut log = log;
                        log.push(Notice::info("Connected to Telegram!".to_owned()));
                        assert(notices(log@) =~= seq![told("Connected to Telegram!"@)]);
                        relay.finish(log)
                    },
                    Event::ConnectFailed(reason) => relay.stopped(ErrorKind::Connection, reason),
                    _ => relay.finish(log),
                }
            },
            Phase::CheckingAuthorization => {
                let relay = Relay {
                    config,
                    raw_usernames,
                    raw_channels,
                    channels,
                    recipients,
                    targets,
                    phase: Phase::CheckingAuthorization,
                };
                match event {
                    Event::Authorization(authorized) => {
                        if authorized {
                            relay.set_up("Already authorized.")
                        } else {
                            let Relay {
                                config,
                                raw_usernames,
                                raw_channels,
                                channels,
                                recipients,
                                targets,
                                phase,
                            } = relay;
                            let relay = Relay {
                                config,
                                raw_usernames,
                                raw_channels,
                                channels,
                                recipients,
                                targets,
                                phase: Phase::Authenticating,
                            };
                            let mut log = log;
                            log.push(Notice::info("Not authorized, starting authentication...".to_owned()));
                            assert(notices(log@) =~= seq![
                                told("Not authorized, starting authentication..."@),
                            ]);
                            relay.finish(log)
                        }
                    },
                    Event::AuthorizationFailed(reason) => relay.stopped(
                        ErrorKind::Authorization,
                        reason,
                    ),
                    _ => relay.finish(log),
                }
            },
            Phase::Authenticating => {
                let relay = Relay {
                    config,
                    raw_usernames,
                    raw_channels,
                    channels,
                    recipients,
                    targets,
                    phase: Phase::Authenticating,
                };
                match event {
                    Event::Authenticated => relay.set_up("Authentication completed."),
                    Event::AuthenticationFailed(reason) => relay.stopped(
                        ErrorKind::Authentication,
                        reason,
                    ),
                    _ => relay.finish(log),
                }
            },
            Phase::ResolvingTargets { cursor } => {
                let relay = Relay {
                    config,
                    raw_usernames,
                    raw_channels,
                    channels,
                    recipients,
                    targets,
                    phase: Phase::ResolvingTargets { cursor },
                };
                match event {
                    Event::Lookup(outcome) => relay.on_target_lookup(cursor, outcome),
                    _ => relay.finish(log),
                }
            },
            Phase::Listening => {
                let relay = Relay {
                    config,
                    raw_usernames,
                    raw_channels,
                    channels,
                    recipients,
                    targets,
                    phase: Phase::Listening,
                };
                match event {
                    Event::NewMessage { chat, outgoing, text } => relay.on_message(
                        chat,
                        outgoing,
                        text,
                        observed_at,
                    ),
                    Event::UpdateFailed(reason) => relay.stopped(ErrorKind::UpdateFeed, reason),
                    _ => relay.finish(log),
                }
            },
            Phase::Dispatching { dispatcher } => {
                let mut dispatcher = dispatcher;
                match event {
                    Event::Lookup(outcome) => {
                        let answer = dispatcher.on_lookup(outcome);
                        let relay = Relay {
                            config,
                            raw_usernames,
                            raw_channels,
                            channels,
                            recipients,
                            targets,
                            phase: Phase::Listening,
                        };
                        relay.dispatching(dispatcher, answer.log)
                    },
                    Event::Delivery(outcome) => {
                        let answer = dispatcher.on_delivery(outcome);
                        let relay = Relay {
                            config,
                            raw_usernames,
                            raw_channels,
                            channels,
                            recipients,
                            targets,
                            phase: Phase::Listening,
                        };
                        relay.dispatching(dispatcher, answer.log)
                    },
                    _ => {
                        let relay = Relay {
                            config,
                            raw_usernames,
                            raw_channels,
                            channels,
                            recipients,
                            targets,
                            phase: Phase::Dispatching { dispatcher },
                        };
                        relay.finish(log)
                    },
                }
            },
            Phase::Stopped { kind, detail } => {
                let relay = Relay {
                    config,
                    raw_usernames,
                    raw_channels,
                    channels,
                    recipients,
                    targets,
                    phase: Phase::Stopped { kind, detail },
                };
                relay.finish(log)
            },
        }
    }

    /// Takes an event. A record that a new message gives rise to is stamped
    /// with the local time of the call; for every other event the clock is
    /// not read.
    pub fn step(self, event: Event) -> (next: (Relay, Step))
        ensures
            exists|observed_at: Seq<char>|
                {
                    &&& next.0@ == (#[trigger] self@.on_event(event, observed_at)).state
                    &&& notices(next.1.log@) == self@.on_event(event, observed_at).log
                },
            next.1.command@ == next.0@.command(),
    {
        let observed_at = match &event {
            Event::NewMessage { .. } => local_time_text("%Y-%m-%d %H:%M:%S"),
            _ => String::new(),
        };
        self.step_at(event, observed_at)
    }
}

/// No answer to the lookup of a source channel stops the relay: found, not
/// found or failed, the next channel is taken up, or listening begins when
/// there is none left. Only a chat that was found joins the targets.
pub proof fn target_lookup_never_stops(state: RelayState, cursor: nat, outcome: Lookup)
    requires
        state.phase == PhaseView::ResolvingTargets(cursor),
        state.well_formed(),
    ensures
        ({
            let next = state.on_event(Event::Lookup(outcome), Seq::empty()).state;
            &&& next.well_formed()
            &&& next.phase == (if cursor + 1 < state.channels.len() {
                PhaseView::ResolvingTargets(cursor + 1)
            } else {
                PhaseView::Listening
            })
            &&& next.targets == (match outcome {
                Lookup::Found(chat) => state.targets.insert(chat),
                _ => state.targets,
            })
            &&& next.channels == state.channels
            &&& next.recipients == state.recipients
        }),
        !(outcome is Found) ==> state.on_event(Event::Lookup(outcome), Seq::empty()).log[0]
            == failed(
            ErrorKind::TargetLookup,
            state.on_event(Event::Lookup(outcome), Seq::empty()).log[0].line,
        ),
{
}

/// The chats that a run of lookups found.
pub open spec fn found_chats(outcomes: Seq<Lookup>) -> Set<ChatId>
    decreases outcomes.len(),
{
    if outcomes.len() == 0 {
        Set::empty()
    } else {
        match outcomes.last() {
            Lookup::Found(chat) => found_chats(outcomes.drop_last()).insert(chat),
            _ => found_chats(outcomes.drop_last()),
        }
    }
}

impl RelayState {
    /// The state after one lookup after the other was answered.
    pub open spec fn after_lookups(self, outcomes: Seq<Lookup>) -> RelayState
        decreases outcomes.len(),
    {
        if outcomes.len() == 0 {
            self
        } else {
            self.after_lookups(outcomes.drop_last()).on_event(
                Event::Lookup(outcomes.last()),
                Seq::empty(),
            ).state
        }
    }
}

/// Target resolution. From the first source channel on, whatever the lookups
/// answer, the channels are taken up one after the other and listening begins
/// after the last; the targets are then exactly the chats that were found,
/// beside those held before.
pub proof fn target_resolution_collects_found_chats(state: RelayState, outcomes: Seq<Lookup>)
    requires
        state.phase == PhaseView::ResolvingTargets(0),
        state.well_formed(),
        outcomes.len() <= state.channels.len(),
    ensures
        ({
            let reached = state.after_lookups(outcomes);
            &&& reached.well_formed()
            &&& reached.channels == state.channels
            &&& reached.recipients == state.recipients
            &&& reached.targets == state.targets.union(found_chats(outcomes))
            &&& reached.phase == (if outcomes.len() < state.channels.len() {
                PhaseView::ResolvingTargets(outcomes.len())
            } else {
                PhaseView::Listening
            })
        }),
    decreases outcomes.len(),
{
    if outcomes.len() == 0 {
        assert(state.targets.union(found_chats(outcomes)) =~= state.targets);
    } else {
        let before = outcomes.drop_last();
        target_resolution_collects_found_chats(state, before);
        let middle = state.after_lookups(before);
        target_lookup_never_stops(middle, before.len(), outcomes.last());
        let reached = state.after_lookups(outcomes);
        assert(reached.targets =~= state.targets.union(found_chats(outcomes)));
    }
}

/// While listening, a message from a chat that is no target, or one that this
/// account sent, is never examined: nothing changes, nothing is reported, and
/// the next update is pulled.
pub proof fn message_outside_targets_is_ignored(
    state: RelayState,
    chat: ChatId,
    outgoing: bool,
    text: String,
    observed_at: Seq<char>,
)
    requires
        state.phase is Listening,
        !state.targets.contains(chat) || outgoing,
    ensures
        ({
            let effect = state.on_event(Event::NewMessage { chat, outgoing, text }, observed_at);
            &&& effect.state == state
            &&& effect.log.len() == 0
            &&& effect.state.command() == CommandView::NextUpdate
        }),
{
}

/// While listening, a message of a target chat that carries no signal is
/// reported in one line and not dispatched.
pub proof fn message_without_signal_is_skipped(
    state: RelayState,
    chat: ChatId,
    text: String,
    observed_at: Seq<char>,
)
    requires
        state.phase is Listening,
        state.targets.contains(chat),
        examination(state.settings, text@) is Skipped,
    ensures
        ({
            let effect = state.on_event(
                Event::NewMessage { chat, outgoing: false, text },
                observed_at,
            );
            &&& effect.state == state
            &&& effect.log.len() == 1
            &&& effect.log[0].failure is None
            &&& effect.state.command() == CommandView::NextUpdate
        }),
{
}

/// While listening, a message of a target chat that carries a signal is
/// formatted and offered to the first recipient; with no recipients the relay
/// goes on listening.
pub proof fn message_with_signal_is_dispatched(
    state: RelayState,
    chat: ChatId,
    text: String,
    observed_at: Seq<char>,
)
    requires
        state.phase is Listening,
        state.targets.contains(chat),
        !(examination(state.settings, text@) is Skipped),
    ensures
        ({
            let effect = state.on_event(
                Event::NewMessage { chat, outgoing: false, text },
                observed_at,
            );
            let message = formatted(stamped(examination(state.settings, text@), observed_at));
            &&& effect.state.well_formed()
            &&& state.recipients.len() > 0 ==> effect.state.phase == PhaseView::Dispatching(
                DispatchState::initial(state.recipients, message),
            ) && effect.state.command() == CommandView::ResolveUsername(state.recipients[0])
            &&& state.recipients.len() == 0 ==> effect.state.phase is Listening
        }),
{
}

/// Only a failed connection, authorization, sign-in or update feed, or a
/// missing recipient list, stops the relay; a lookup or a send never does.
pub proof fn only_fatal_failures_stop(state: RelayState, event: Event, observed_at: Seq<char>)
    requires
        !(state.phase is Stopped),
        state.on_event(event, observed_at).state.phase is Stopped,
    ensures
        ({
            let kind = state.on_event(event, observed_at).state.phase->Stopped_0;
            &&& crate::error::severity_of(kind) == crate::error::Severity::Fatal
            &&& !(event is Lookup)
            &&& !(event is Delivery)
            &&& !(event is NewMessage)
            &&& !(event is OtherUpdate)
        }),
{
}

/// The relay keeps its shape: the channel being resolved exists, and a
/// dispatch in progress has a recipient left to serve.
pub proof fn well_formedness_is_kept(state: RelayState, event: Event, observed_at: Seq<char>)
    requires
        state.well_formed(),
    ensures
        state.on_event(event, observed_at).state.well_formed(),
{
}

/// While a record is being dispatched the next update is not pulled: the
/// outstanding command is the lookup of, or the send to, the recipient in turn.
pub proof fn dispatch_completes_before_next_update(state: RelayState)
    requires
        state.well_formed(),
        state.phase is Dispatching,
    ensures
        state.command() is ResolveUsername || state.command() is SendMessage,
        state.command() matches CommandView::ResolveUsername(name) ==> name
            == state.phase->Dispatching_0.current(),
        state.command() matches CommandView::SendMessage(_, text) ==> text
            == state.phase->Dispatching_0.text,
{
}

} // verus!
