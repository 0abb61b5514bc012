use frost_ed25519::keys::dkg::{part1, part2, part3, round1, round2};
use frost_ed25519::Identifier;
use rc_validator::validator::command::{
    Action, Advance, Command, DkgMessage, Event, KeyRound, Outgoing, Topic,
};
use rc_validator::validator::worker::Worker;
use std::collections::{BTreeMap, VecDeque};

/// A key-generation engine over FROST, with the interface the worker expects
/// of one: it is started, fed first-phase and second-phase messages, and
/// answers each with the next message, a key, or a refusal.
struct Engine {
    id: Identifier,
    threshold: u16,
    total: u16,
    secret1: Option<round1::SecretPackage>,
    secret2: Option<round2::SecretPackage>,
    round1: BTreeMap<Identifier, round1::Package>,
    round2: BTreeMap<Identifier, round2::Package>,
}

enum Decoded {
    Part1(Identifier, round1::Package),
    Part2(Identifier, Vec<(Identifier, round2::Package)>),
}

fn encode_part1(from: &Identifier, package: &round1::Package) -> Vec<u8> {
    let mut out = vec![1u8];
    out.extend(from.serialize());
    out.extend(package.serialize().expect("encodable"));
    out
}

fn encode_part2(from: &Identifier, packages: &BTreeMap<Identifier, round2::Package>) -> Vec<u8> {
    let mut out = vec![2u8];
    out.extend(from.serialize());
    for (to, package) in packages {
        let bytes = package.serialize().expect("encodable");
        out.extend(to.serialize());
        out.extend((bytes.len() as u32).to_le_bytes());
        out.extend(bytes);
    }
    out
}

fn decode(bytes: &[u8]) -> Option<Decoded> {
    if bytes.len() < 33 {
        return None;
    }
    let from = Identifier::deserialize(&bytes[1..33]).ok()?;
    let body = &bytes[33..];
    match bytes[0] {
        1 => Some(Decoded::Part1(from, round1::Package::deserialize(body).ok()?)),
        2 => {
            let mut entries = Vec::new();
            let mut rest = body;
            while !rest.is_empty() {
                if rest.len() < 36 {
                    return None;
                }
                let to = Identifier::deserialize(&rest[..32]).ok()?;
                let len = u32::from_le_bytes([rest[32], rest[33], rest[34], rest[35]]) as usize;
                if rest.len() < 36 + len {
                    return None;
                }
                entries.push((to, round2::Package::deserialize(&rest[36..36 + len]).ok()?));
                rest = &rest[36 + len..];
            }
            Some(Decoded::Part2(from, entries))
        },
        _ => None,
    }
}

impl Engine {
    fn new(participant: &[u8]) -> Engine {
        Engine {
            id: Identifier::deserialize(participant).expect("a serialized identifier"),
            threshold: 0,
            total: 0,
            secret1: None,
            secret2: None,
            round1: BTreeMap::new(),
            round2: BTreeMap::new(),
        }
    }

    fn set_nt(&mut self, threshold: u16, total: u16) {
        self.threshold = threshold;
        self.total = total;
    }

    fn start_dkg(&mut self) -> Advance {
        match part1(self.id, self.total, self.threshold, rand::thread_rng()) {
            Ok((secret, package)) => {
                self.secret1 = Some(secret);
                self.round1.clear();
                self.round2.clear();
                Advance::Produced(Outgoing::Encoded(encode_part1(&self.id, &package)))
            },
            Err(error) => Advance::Refused(format!("{:?}", error)),
        }
    }

    fn dkg_part1(&mut self, from: Identifier, package: round1::Package) -> Advance {
        self.round1.insert(from, package);
        if self.round1.len() + 1 < self.total as usize {
            return Advance::Refused("waiting for the other first-phase messages".to_string());
        }
        let secret = match self.secret1.take() {
            Some(secret) => secret,
            None => return Advance::Refused("key generation was not started".to_string()),
        };
        match part2(secret, &self.round1) {
            Ok((secret, packages)) => {
                self.secret2 = Some(secret);
                Advance::Produced(Outgoing::Encoded(encode_part2(&self.id, &packages)))
            },
            Err(error) => Advance::Refused(format!("{:?}", error)),
        }
    }

    fn dkg_part2(&mut self, from: Identifier, entries: Vec<(Identifier, round2::Package)>) -> KeyRound {
        for (to, package) in entries {
            if to == self.id {
                self.round2.insert(from, package);
            }
        }
        let secret = match &self.secret2 {
            Some(secret) if self.round2.len() + 1 == self.total as usize => secret,
            _ => return KeyRound::Continues(Outgoing::Encoded(b"null".to_vec())),
        };
        match part3(secret, &self.round1, &self.round2) {
            Ok((_, public)) => match public.verifying_key().serialize() {
                Ok(key) => KeyRound::Completed(key),
                Err(error) => KeyRound::Failed(format!("{:?}", error)),
            },
            Err(error) => KeyRound::Failed(format!("{:?}", error)),
        }
    }

    fn receive(&mut self, payload: &[u8]) -> DkgMessage {
        match decode(payload) {
            None => DkgMessage::Malformed,
            Some(Decoded::Part1(from, package)) => DkgMessage::Part1(self.dkg_part1(from, package)),
            Some(Decoded::Part2(from, entries)) => DkgMessage::Part2(self.dkg_part2(from, entries)),
        }
    }
}

struct Node {
    worker: Worker<usize>,
    engine: Engine,
    keys: Vec<(usize, Vec<u8>)>,
    published_second_phase_after_first: bool,
}

struct Net {
    nodes: Vec<Node>,
    queue: VecDeque<(usize, Vec<u8>)>,
    delivered: usize,
}

impl Net {
    fn new(labels: &[&[u8]]) -> Net {
        let nodes = labels
            .iter()
            .map(|label| {
                let worker: Worker<usize> = Worker::with_label(label).expect("an identifier");
                let engine = Engine::new(worker.participant());
                Node { worker, engine, keys: Vec::new(), published_second_phase_after_first: true }
            })
            .collect();
        Net { nodes, queue: VecDeque::new(), delivered: 0 }
    }

    fn perform(&mut self, at: usize, actions: Vec<Action<usize>>, cause_is_first_phase: bool) {
        let mut pending: VecDeque<Action<usize>> = actions.into();
        while let Some(action) = pending.pop_front() {
            match action {
                Action::StartDkg => {
                    let started = self.nodes[at].engine.start_dkg();
                    pending.extend(self.nodes[at].worker.step(Event::DkgStarted(started)));
                },
                Action::Setup { nt, .. } => self.nodes[at].engine.set_nt(nt.0, nt.1),
                Action::Publish { topic, message } => {
                    assert_eq!(topic, Topic::Dkg);
                    if message.first() == Some(&2u8) && !cause_is_first_phase {
                        self.nodes[at].published_second_phase_after_first = false;
                    }
                    self.queue.push_back((at, message));
                },
                Action::DeliverKey { sender, result } => {
                    self.nodes[at].keys.push((sender, result.expect("a key")));
                },
                other => panic!("unexpected action: {:?}", other),
            }
        }
    }

    fn command(&mut self, at: usize, command: Command<usize>) {
        let actions = self.nodes[at].worker.handle_command(command);
        self.perform(at, actions, false);
    }

    fn inject(&mut self, to: usize, payload: &[u8]) {
        let message = self.nodes[to].engine.receive(payload);
        let first_phase = matches!(message, DkgMessage::Part1(_));
        let actions = self.nodes[to].worker.handle_dkg_message(message);
        self.perform(to, actions, first_phase);
    }

    fn deliver_all(&mut self) {
        while let Some((from, payload)) = self.queue.pop_front() {
            self.delivered += 1;
            assert!(self.delivered < 1000, "the round does not terminate");
            for to in 0..self.nodes.len() {
                if to != from {
                    self.inject(to, &payload);
                }
            }
        }
    }
}

#[test]
fn three_workers_agree_on_one_verifying_key() {
    let mut net = Net::new(&[b"alice", b"bob", b"carol"]);
    for at in 0..3 {
        net.command(at, Command::Setup { nt: (2, 3), sender: 100 + at });
        net.command(at, Command::RotateKey { sender: at });
        assert!(net.nodes[at].worker.key_pending());
    }
    net.deliver_all();
    for at in 0..3 {
        assert_eq!(net.nodes[at].keys.len(), 1);
        assert_eq!(net.nodes[at].keys[0].0, at);
        assert_eq!(net.nodes[at].keys[0].1.len(), 32);
        assert_eq!(net.nodes[at].keys[0].1, net.nodes[0].keys[0].1);
        assert!(!net.nodes[at].worker.key_pending());
        assert!(net.nodes[at].published_second_phase_after_first);
    }
}

#[test]
fn malformed_payload_does_not_disturb_a_round() {
    let mut net = Net::new(&[b"alice", b"bob", b"carol"]);
    for at in 0..3 {
        net.command(at, Command::Setup { nt: (2, 3), sender: 100 + at });
        net.command(at, Command::RotateKey { sender: at });
    }
    for at in 0..3 {
        net.inject(at, b"\xff not a protocol message");
        net.inject(at, b"");
        assert!(net.nodes[at].worker.key_pending());
        assert!(net.nodes[at].keys.is_empty());
    }
    assert_eq!(net.queue.len(), 3);
    net.deliver_all();
    for at in 0..3 {
        assert_eq!(net.nodes[at].keys.len(), 1);
        assert_eq!(net.nodes[at].keys[0].1, net.nodes[0].keys[0].1);
        assert!(!net.nodes[at].worker.key_pending());
    }
}

#[test]
fn observer_without_a_request_completes_the_round_unanswered() {
    let mut net = Net::new(&[b"alice", b"bob", b"carol"]);
    for at in 0..3 {
        net.command(at, Command::Setup { nt: (2, 3), sender: 100 + at });
    }
    net.command(0, Command::RotateKey { sender: 0 });
    net.command(1, Command::RotateKey { sender: 1 });
    let started = net.nodes[2].engine.start_dkg();
    let actions = net.nodes[2].worker.start_dkg(started);
    net.perform(2, actions, false);
    net.deliver_all();
    assert_eq!(net.nodes[0].keys.len(), 1);
    assert_eq!(net.nodes[1].keys.len(), 1);
    assert_eq!(net.nodes[0].keys[0].1, net.nodes[1].keys[0].1);
    assert!(net.nodes[2].keys.is_empty());
    assert!(!net.nodes[2].worker.key_pending());
}
