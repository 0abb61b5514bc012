//! The worker: one key-generation slot, one signing slot, and the rules by
//! which requests and gossip messages fill and empty them.

use vstd::prelude::*;
use crate::network::identity::ValidatorId;
use crate::validator::command::{
    Action, Advance, Command, DkgMessage, Event, Failure, KeyRound, Outgoing, SignMessage,
    SignatureRound, Topic,
};
use crate::validator::participant::{
    derive_identifier, display_format, display_label, frost_identifier, participant_of,
};

verus! {

/// The two reply slots of a worker: the caller waiting for a key, if any, and
/// the caller waiting for a signature, if any.
pub struct Slots<R> {
    pub dkg: Option<R>,
    pub sign: Option<R>,
}

/// What is to be published on `topic` for `outgoing`: its wire form, if it has
/// one.
pub open spec fn publication<R>(topic: Topic, outgoing: Outgoing) -> Seq<Action<R>> {
    match outgoing {
        Outgoing::Encoded(message) => seq![Action::Publish { topic, message }],
        Outgoing::Unencodable(_) => seq![],
    }
}

/// What follows from asking the engine to start a round or to advance a
/// first-phase message: the message it produced is published on `topic`.
pub open spec fn advancement<R>(topic: Topic, advance: Advance) -> Seq<Action<R>> {
    match advance {
        Advance::Produced(outgoing) => publication(topic, outgoing),
        Advance::Refused(_) => seq![],
    }
}

impl<R> Slots<R> {
    /// No caller is waiting.
    pub open spec fn idle() -> Slots<R> {
        Slots { dkg: None, sign: None }
    }

    /// The reaction to a caller's request.
    ///
    /// A key rotation starts key generation and takes the key slot, whoever
    /// held it. A signing request is refused as busy while the signing slot is
    /// taken; else it starts signing and takes the slot. The other requests are
    /// handed on with their reply handle.
    pub open spec fn on_command(self, command: Command<R>) -> (Slots<R>, Seq<Action<R>>) {
        match command {
            Command::RotateKey { sender } => (
                Slots { dkg: Some(sender), sign: self.sign },
                seq![Action::StartDkg],
            ),
            Command::Sign { message, sender } => if self.sign is Some {
                (self, seq![Action::DeliverSignature { sender, result: Err(Failure::Busy) }])
            } else {
                (Slots { dkg: self.dkg, sign: Some(sender) }, seq![Action::StartSign { message }])
            },
            Command::Setup { nt, sender } => (self, seq![Action::Setup { nt, sender }]),
            Command::RemoveValidators { validators, sender } => (
                self,
                seq![Action::RemoveValidators { validators, sender }],
            ),
            Command::AddValidators { validators, sender } => (
                self,
                seq![Action::AddValidators { validators, sender }],
            ),
        }
    }

    /// The reaction to a payload on the key-generation topic.
    ///
    /// A malformed payload changes nothing. What the engine produced from a
    /// first-phase message is published. A second-phase message that completes
    /// the round, or fails it, empties the key slot and answers the caller
    /// that held it; one that continues the round publishes what the engine
    /// produced.
    pub open spec fn on_dkg_message(self, message: DkgMessage) -> (Slots<R>, Seq<Action<R>>) {
        match message {
            DkgMessage::Malformed => (self, seq![]),
            DkgMessage::Part1(advance) => (self, advancement(Topic::Dkg, advance)),
            DkgMessage::Part2(KeyRound::Completed(key)) => (
                Slots { dkg: None, sign: self.sign },
                match self.dkg {
                    Some(sender) => seq![Action::DeliverKey { sender, result: Ok(key) }],
                    None => seq![],
                },
            ),
            DkgMessage::Part2(KeyRound::Continues(outgoing)) => (
                self,
                publication(Topic::Dkg, outgoing),
            ),
            DkgMessage::Part2(KeyRound::Failed(reason)) => (
                Slots { dkg: None, sign: self.sign },
                match self.dkg {
                    Some(sender) => seq![
                        Action::DeliverKey { sender, result: Err(Failure::Protocol(reason)) },
                    ],
                    None => seq![],
                },
            ),
        }
    }

    /// The reaction to a payload on the signing topic.
    ///
    /// A malformed payload changes nothing. For a first-phase message, what the
    /// engine produced from it is published, and then the message itself once
    /// more. A second-phase message that completes the round, or fails it,
    /// empties the signing slot and answers the caller that held it; one that
    /// continues the round has no effect.
    pub open spec fn on_sign_message(self, message: SignMessage) -> (Slots<R>, Seq<Action<R>>) {
        match message {
            SignMessage::Malformed => (self, seq![]),
            SignMessage::Part1 { advanced, echo } => (
                self,
                advancement(Topic::Sign, advanced) + publication(Topic::Sign, echo),
            ),
            SignMessage::Part2(SignatureRound::Completed(signature)) => (
                Slots { dkg: self.dkg, sign: None },
                match self.sign {
                    Some(sender) => seq![
                        Action::DeliverSignature { sender, result: Ok(signature) },
                    ],
                    None => seq![],
                },
            ),
            SignMessage::Part2(SignatureRound::Continues) => (self, seq![]),
            SignMessage::Part2(SignatureRound::Failed(reason)) => (
                Slots { dkg: self.dkg, sign: None },
                match self.sign {
                    Some(sender) => seq![
                        Action::DeliverSignature { sender, result: Err(Failure::Protocol(reason)) },
                    ],
                    None => seq![],
                },
            ),
        }
    }

    /// The reaction to one event.
    pub open spec fn step(self, event: Event<R>) -> (Slots<R>, Seq<Action<R>>) {
        match event {
            Event::Command(command) => self.on_command(command),
            Event::DkgStarted(advance) => (self, advancement(Topic::Dkg, advance)),
            Event::SignStarted(advance) => (self, advancement(Topic::Sign, advance)),
            Event::Dkg(message) => self.on_dkg_message(message),
            Event::Sign(message) => self.on_sign_message(message),
        }
    }

    /// The reaction to a series of events, taken one at a time in the order
    /// of their arrival.
    pub open spec fn run(self, events: Seq<Event<R>>) -> (Slots<R>, Seq<Action<R>>)
        decreases events.len(),
    {
        if events.len() == 0 {
            (self, seq![])
        } else {
            let (next, first) = self.step(events[0]);
            let (last, rest) = next.run(events.drop_first());
            (last, first + rest)
        }
    }
}

/// Why a worker could not be set up.
#[derive(Debug)]
pub enum SetupError {
    /// No participant identifier can be derived from the validator's label.
    Identifier,
}

/// The coordinator of one validator's part in key generation and signing.
pub struct Worker<R> {
    participant: Vec<u8>,
    dkg_sender: Option<R>,
    sign_sender: Option<R>,
}

impl<R> View for Worker<R> {
    type V = Slots<R>;

    closed spec fn view(&self) -> Slots<R> {
        Slots { dkg: self.dkg_sender, sign: self.sign_sender }
    }
}

impl<R> Worker<R> {
    /// The identifier under which this worker's engine takes part.
    pub closed spec fn spec_participant(&self) -> Seq<u8> {
        self.participant@
    }

    /// Creates the worker of the validator that is displayed as `label`, with
    /// both slots empty. Fails where no participant identifier can be derived
    /// from the label.
    pub fn with_label(label: &[u8]) -> (worker: Result<Self, SetupError>)
        ensures
            match worker {
                Ok(w) => frost_identifier(label@) == Some(w.spec_participant()) && w@
                    == Slots::<R>::idle(),
                Err(_) => frost_identifier(label@) is None,
            },
    {
        match derive_identifier(label) {
            Some(participant) => Ok(Worker { participant, dkg_sender: None, sign_sender: None }),
            None => Err(SetupError::Identifier),
        }
    }

    /// Whether `worker` is what setting up the worker of the validator `key`
    /// gives where keys are displayed in the address format `format`: a
    /// worker with both slots empty that takes part under the identifier
    /// derived from the text of the key, or an error where none can be
    /// derived.
    pub open spec fn made_for(worker: Result<Self, SetupError>, key: Seq<u8>, format: u16) -> bool {
        match worker {
            Ok(w) => participant_of(key, format) == Some(w.spec_participant()) && w@
                == Slots::<R>::idle(),
            Err(_) => participant_of(key, format) is None,
        }
    }

    /// Creates the worker of `validator_id` where keys are displayed in the
    /// address format `format`, with both slots empty. Fails where no
    /// participant identifier can be derived from the text of the key.
    pub fn with_format(validator_id: ValidatorId, format: u16) -> (worker: Result<Self, SetupError>)
        ensures
            Self::made_for(worker, validator_id@, format),
    {
        let label = display_label(&validator_id, format);
        Self::with_label(label.as_slice())
    }

    /// Creates the worker of `validator_id`, with both slots empty. The
    /// participant identifier is derived from the text that displays the
    /// validator's key, in the address format that the process has selected.
    /// Fails where no identifier can be derived from that text.
    pub fn new(validator_id: ValidatorId) -> (worker: Result<Self, SetupError>)
        ensures
            exists|format: u16| #[trigger] Self::made_for(worker, validator_id@, format),
    {
        let format = display_format();
        let worker = Self::with_format(validator_id, format);
        assert(Self::made_for(worker, validator_id@, format));
        worker
    }

    /// The identifier under which this worker's engine takes part.
    pub fn participant(&self) -> (identifier: &Vec<u8>)
        ensures
            identifier@ == self.spec_participant(),
    {
        &self.participant
    }

    /// Whether a caller is waiting for a key.
    pub fn key_pending(&self) -> (pending: bool)
        ensures
            pending == (self@.dkg is Some),
    {
        self.dkg_sender.is_some()
    }

    /// Whether a caller is waiting for a signature.
    pub fn signature_pending(&self) -> (pending: bool)
        ensures
            pending == (self@.sign is Some),
    {
        self.sign_sender.is_some()
    }

    /// Publishes the wire form of an engine message on `topic`, if it has one.
    fn serialize_and_publish(topic: Topic, outgoing: Outgoing, actions: &mut Vec<Action<R>>)
        ensures
            final(actions)@ == old(actions)@ + publication::<R>(topic, outgoing),
    {
        match outgoing {
            Outgoing::Encoded(message) => {
                actions.push(Action::Publish { topic, message });
            },
            Outgoing::Unencodable(_) => {},
        }
        assert(actions@ =~= old(actions)@ + publication::<R>(topic, outgoing));
    }

    fn advance(topic: Topic, advance: Advance, actions: &mut Vec<Action<R>>)
        ensures
            final(actions)@ == old(actions)@ + advancement::<R>(topic, advance),
    {
        match advance {
            Advance::Produced(outgoing) => {
                Self::serialize_and_publish(topic, outgoing, actions);
            },
            Advance::Refused(_) => {},
        }
        assert(actions@ =~= old(actions)@ + advancement::<R>(topic, advance));
    }

    /// Reacts to the engine's answer to a request to start key generation.
    pub fn start_dkg(&self, started: Advance) -> (actions: Vec<Action<R>>)
        ensures
            actions@ == advancement::<R>(Topic::Dkg, started),
    {
        let mut actions = Vec::new();
        Self::advance(Topic::Dkg, started, &mut actions);
        assert(actions@ =~= advancement::<R>(Topic::Dkg, started));
        actions
    }

    /// Reacts to the engine's answer to a request to start signing.
    pub fn start_sign(&self, started: Advance) -> (actions: Vec<Action<R>>)
        ensures
            actions@ == advancement::<R>(Topic::Sign, started),
    {
        let mut actions = Vec::new();
        Self::advance(Topic::Sign, started, &mut actions);
        assert(actions@ =~= advancement::<R>(Topic::Sign, started));
        actions
    }

    /// Reacts to a caller's request.
    pub fn handle_command(&mut self, command: Command<R>) -> (actions: Vec<Action<R>>)
        ensures
            (final(self)@, actions@) == old(self)@.on_command(command),
            final(self).spec_participant() == old(self).spec_participant(),
    {
        let mut actions = Vec::new();
        match command {
            Command::RotateKey { sender } => {
                actions.push(Action::StartDkg);
                self.dkg_sender = Some(sender);
            },
            Command::Sign { message, sender } => {
                if self.sign_sender.is_some() {
                    actions.push(Action::DeliverSignature { sender, result: Err(Failure::Busy) });
                } else {
                    actions.push(Action::StartSign { message });
                    self.sign_sender = Some(sender);
                }
            },
            Command::Setup { nt, sender } => {
                actions.push(Action::Setup { nt, sender });
            },
            Command::RemoveValidators { validators, sender } => {
                actions.push(Action::RemoveValidators { validators, sender });
            },
            Command::AddValidators { validators, sender } => {
                actions.push(Action::AddValidators { validators, sender });
            },
        }
        assert(actions@ =~= old(self)@.on_command(command).1);
        actions
    }

    /// Reacts to a payload received on the key-generation topic.
    pub fn handle_dkg_message(&mut self, message: DkgMessage) -> (actions: Vec<Action<R>>)
        ensures
            (final(self)@, actions@) == old(self)@.on_dkg_message(message),
            final(self).spec_participant() == old(self).spec_participant(),
    {
        let mut actions = Vec::new();
        match message {
            DkgMessage::Malformed => {},
            DkgMessage::Part1(advance) => {
                Self::advance(Topic::Dkg, advance, &mut actions);
            },
            DkgMessage::Part2(KeyRound::Completed(key)) => {
                match self.dkg_sender.take() {
                    Some(sender) => {
                        actions.push(Action::DeliverKey { sender, result: Ok(key) });
                    },
                    None => {},
                }
            },
            DkgMessage::Part2(KeyRound::Continues(outgoing)) => {
                Self::serialize_and_publish(Topic::Dkg, outgoing, &mut actions);
            },
            DkgMessage::Part2(KeyRound::Failed(reason)) => {
                match self.dkg_sender.take() {
                    Some(sender) => {
                        actions.push(
                            Action::DeliverKey { sender, result: Err(Failure::Protocol(reason)) },
                        );
                    },
                    None => {},
                }
            },
        }
        assert(actions@ =~= old(self)@.on_dkg_message(message).1);
        actions
    }

    /// Reacts to a payload received on the signing topic.
    pub fn handle_sign_message(&mut self, message: SignMessage) -> (actions: Vec<Action<R>>)
        ensures
            (final(self)@, actions@) == old(self)@.on_sign_message(message),
            final(self).spec_participant() == old(self).spec_participant(),
    {
        let mut actions = Vec::new();
        match message {
            SignMessage::Malformed => {},
            SignMessage::Part1 { advanced, echo } => {
                Self::advance(Topic::Sign, advanced, &mut actions);
                Self::serialize_and_publish(Topic::Sign, echo, &mut actions);
            },
            SignMessage::Part2(SignatureRound::Completed(signature)) => {
                match self.sign_sender.take() {
                    Some(sender) => {
                        actions.push(Action::DeliverSignature { sender, result: Ok(signature) });
                    },
                    None => {},
                }
            },
            SignMessage::Part2(SignatureRound::Continues) => {},
            SignMessage::Part2(SignatureRound::Failed(reason)) => {
                match self.sign_sender.take() {
                    Some(sender) => {
                        actions.push(
                            Action::DeliverSignature {
                                sender,
                                result: Err(Failure::Protocol(reason)),
                            },
                        );
                    },
                    None => {},
                }
            },
        }
        assert(actions@ =~= old(self)@.on_sign_message(message).1);
        actions
    }

    /// Reacts to one event.
    pub fn step(&mut self, event: Event<R>) -> (actions: Vec<Action<R>>)
        ensures
            (final(self)@, actions@) == old(self)@.step(event),
            final(self).spec_participant() == old(self).spec_participant(),
    {
        match event {
            Event::Command(command) => self.handle_command(command),
            Event::DkgStarted(advance) => self.start_dkg(advance),
            Event::SignStarted(advance) => self.start_sign(advance),
            Event::Dkg(message) => self.handle_dkg_message(message),
            Event::Sign(message) => self.handle_sign_message(message),
        }
    }

    /// Reacts to a series of events, one at a time in the order of their
    /// arrival, and returns everything that is to be done, in order.
    pub fn run(&mut self, events: Vec<Event<R>>) -> (actions: Vec<Action<R>>)
        ensures
            (final(self)@, actions@) == old(self)@.run(events@),
            final(self).spec_participant() == old(self).spec_participant(),
    {
        let mut events = events;
        let ghost all = events@;
        let ghost start = self@;
        let mut actions: Vec<Action<R>> = Vec::new();
        assert(actions@ + start.run(all).1 =~= start.run(all).1);
        while events.len() > 0
            invariant
                self.spec_participant() == old(self).spec_participant(),
                start.run(all).0 == self@.run(events@).0,
                start.run(all).1 == actions@ + self@.run(events@).1,
            decreases events.len(),
        {
            let ghost before = self@;
            let ghost pending = events@;
            let ghost done = actions@;
            let event = events.remove(0);
            assert(events@ =~= pending.drop_first());
            let mut more = self.step(event);
            actions.append(&mut more);
            assert(actions@ + self@.run(events@).1 =~= done + before.run(pending).1);
        }
        assert(actions@ + self@.run(events@).1 =~= actions@);
        actions
    }
}

/// Running a series of events is reacting to the first and then running the
/// rest from where that left the slots.
pub proof fn lemma_run_unfolds<R>(slots: Slots<R>, first: Event<R>, rest: Seq<Event<R>>)
    ensures
        slots.run(seq![first] + rest) == (
            slots.step(first).0.run(rest).0,
            slots.step(first).1 + slots.step(first).0.run(rest).1,
        ),
{
    let events = seq![first] + rest;
    assert(events[0] == first);
    assert(events.drop_first() =~= rest);
}

/// A signing request that arrives while another is pending is answered as
/// busy at once and changes nothing else: the slots stay as they were, and
/// whatever happens afterwards happens as if the request had never arrived. In
/// particular the pending caller is answered when its round completes.
pub proof fn lemma_sign_while_busy<R>(
    slots: Slots<R>,
    message: Vec<u8>,
    second: R,
    later: Seq<Event<R>>,
    signature: Vec<u8>,
)
    requires
        slots.sign is Some,
    ensures
        slots.on_command(Command::Sign { message, sender: second }) == (
            slots,
            seq![Action::DeliverSignature { sender: second, result: Err(Failure::Busy) }],
        ),
        slots.run(seq![Event::Command(Command::Sign { message, sender: second })] + later) == (
            slots.run(later).0,
            seq![Action::DeliverSignature { sender: second, result: Err(Failure::Busy) }]
                + slots.run(later).1,
        ),
        slots.on_command(Command::Sign { message, sender: second }).0.on_sign_message(
            SignMessage::Part2(SignatureRound::Completed(signature)),
        ) == (
            Slots { dkg: slots.dkg, sign: None },
            seq![Action::DeliverSignature { sender: slots.sign->0, result: Ok(signature) }],
        ),
{
    lemma_run_unfolds(slots, Event::Command(Command::Sign { message, sender: second }), later);
}

/// A payload that cannot be decoded has no effect: no slot changes, nothing
/// is asked for, and the events after it are treated as if it had not come.
pub proof fn lemma_malformed_is_ignored<R>(slots: Slots<R>, later: Seq<Event<R>>)
    ensures
        slots.step(Event::Dkg(DkgMessage::Malformed)) == (slots, Seq::<Action<R>>::empty()),
        slots.step(Event::Sign(SignMessage::Malformed)) == (slots, Seq::<Action<R>>::empty()),
        slots.run(seq![Event::Dkg(DkgMessage::Malformed)] + later) == slots.run(later),
        slots.run(seq![Event::Sign(SignMessage::Malformed)] + later) == slots.run(later),
{
    lemma_run_unfolds(slots, Event::Dkg(DkgMessage::Malformed), later);
    lemma_run_unfolds(slots, Event::Sign(SignMessage::Malformed), later);
    assert(Seq::<Action<R>>::empty() + slots.run(later).1 =~= slots.run(later).1);
}

/// Whether `event` hands the worker `message` as something the engine
/// produced for `topic`: on starting a round, from a first-phase message, or,
/// in key generation, from a second-phase message that continues the round.
/// For the signing topic, the wire form of a received first-phase message
/// counts too.
pub open spec fn produces<R>(event: Event<R>, topic: Topic, message: Vec<u8>) -> bool {
    match event {
        Event::DkgStarted(Advance::Produced(Outgoing::Encoded(m))) => topic == Topic::Dkg && m
            == message,
        Event::SignStarted(Advance::Produced(Outgoing::Encoded(m))) => topic == Topic::Sign && m
            == message,
        Event::Dkg(DkgMessage::Part1(Advance::Produced(Outgoing::Encoded(m)))) => topic
            == Topic::Dkg && m == message,
        Event::Dkg(DkgMessage::Part2(KeyRound::Continues(Outgoing::Encoded(m)))) => topic
            == Topic::Dkg && m == message,
        Event::Sign(SignMessage::Part1 { advanced, echo }) => topic == Topic::Sign && ((advanced
            matches Advance::Produced(Outgoing::Encoded(m)) && m == message) || (echo
            matches Outgoing::Encoded(m) && m == message)),
        _ => false,
    }
}

/// A worker publishes nothing of its own. Every message it asks to have
/// published was produced by the engine in the event it reacts to, for the
/// topic it is published on. So a second-phase message goes out only in
/// reaction to a first-phase message that came in.
pub proof fn lemma_publish_has_a_cause<R>(slots: Slots<R>, event: Event<R>, at: int)
    requires
        0 <= at < slots.step(event).1.len(),
        slots.step(event).1[at] is Publish,
    ensures
        produces(event, slots.step(event).1[at]->topic, slots.step(event).1[at]->Publish_message),
{
}

/// Every request is accounted for. Its reply handle is either kept in the
/// slot of its round, to be answered when the round ends, or handed out in
/// the one action that the request leads to.
pub proof fn lemma_command_is_accounted_for<R>(slots: Slots<R>, command: Command<R>)
    ensures
        slots.on_command(command).1.len() == 1,
        match command {
            Command::RotateKey { sender } => slots.on_command(command).0.dkg == Some(sender),
            Command::Sign { message, sender } => if slots.sign is Some {
                slots.on_command(command).1[0] == (
                Action::DeliverSignature { sender, result: Err(Failure::Busy) })
            } else {
                slots.on_command(command).0.sign == Some(sender)
            },
            Command::Setup { nt, sender } => slots.on_command(command).1[0] == (
            Action::Setup { nt, sender }),
            Command::RemoveValidators { validators, sender } => slots.on_command(command).1[0] == (
            Action::RemoveValidators { validators, sender }),
            Command::AddValidators { validators, sender } => slots.on_command(command).1[0] == (
            Action::AddValidators { validators, sender }),
        },
{
}

/// The end of a round answers the caller that waits for it, once, and frees
/// the slot; with no caller waiting, the outcome is dropped.
pub proof fn lemma_round_end_answers_pending<R>(slots: Slots<R>, key: Vec<u8>, reason: String)
    ensures
        slots.on_dkg_message(DkgMessage::Part2(KeyRound::Completed(key))).0 == (Slots {
            dkg: None,
            sign: slots.sign,
        }),
        slots.on_dkg_message(DkgMessage::Part2(KeyRound::Failed(reason))).0 == (Slots {
            dkg: None,
            sign: slots.sign,
        }),
        slots.dkg matches Some(sender) ==> slots.on_dkg_message(
            DkgMessage::Part2(KeyRound::Completed(key)),
        ).1 == seq![Action::DeliverKey { sender, result: Ok(key) }] && slots.on_dkg_message(
            DkgMessage::Part2(KeyRound::Failed(reason)),
        ).1 == seq![Action::DeliverKey { sender, result: Err(Failure::Protocol(reason)) }],
        slots.dkg is None ==> slots.on_dkg_message(
            DkgMessage::Part2(KeyRound::Completed(key)),
        ).1 == Seq::<Action<R>>::empty(),
{
}

} // verus!
