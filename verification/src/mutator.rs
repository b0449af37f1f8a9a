//! The payload of a request and the hook that may change it between
//! connections.

use vstd::prelude::*;

verus! {

/// The bytes a run sends.
#[derive(Debug, Clone)]
pub struct Message {
    pub body: Vec<u8>,
}

impl Message {
    /// A message with the given bytes.
    pub fn new(body: Vec<u8>) -> (message: Message)
        ensures
            message.body == body,
    {
        Message { body }
    }
}

/// What a connection loop asks of the source of its payload. Each loop owns
/// one mutator; the bytes it offers change only when it is advanced.
pub trait PayloadMutator {
    /// The bytes the mutator offers now.
    spec fn payload(&self) -> Seq<u8>;

    /// How often the mutator has been advanced.
    spec fn generation(&self) -> nat;

    /// The bytes to send. They stay the same until the next `advance`.
    fn current_bytes(&self) -> (bytes: &[u8])
        ensures
            bytes@ == self.payload(),
    ;

    /// Moves on to the payload of the next connection.
    fn advance(&mut self)
        ensures
            final(self).generation() == old(self).generation() + 1,
    ;
}

/// The mutator of a run that does no fuzzing: it offers the payload it was made
/// with forever.
pub struct FixedPayload {
    body: Vec<u8>,
    advances: Ghost<nat>,
}

impl FixedPayload {
    /// A mutator that offers the bytes of `message` and has not been advanced.
    pub fn new(message: Message) -> (mutator: FixedPayload)
        ensures
            mutator.payload() == message.body@,
            mutator.generation() == 0,
    {
        FixedPayload { body: message.body, advances: Ghost(0) }
    }
}

impl PayloadMutator for FixedPayload {
    closed spec fn payload(&self) -> Seq<u8> {
        self.body@
    }

    closed spec fn generation(&self) -> nat {
        self.advances@
    }

    fn current_bytes(&self) -> (bytes: &[u8]) {
        self.body.as_slice()
    }

    fn advance(&mut self)
        ensures
            final(self).payload() == old(self).payload(),
    {
        self.advances = Ghost((self.advances@ + 1) as nat);
    }
}

impl Clone for FixedPayload {
    fn clone(&self) -> (copy: Self)
        ensures
            copy.payload() == self.payload(),
            copy.generation() == self.generation(),
    {
        FixedPayload { body: self.body.clone(), advances: self.advances }
    }
}

/// The payload `seed` after `steps` steps of its first byte, each one up
/// and from 255 round to 0. An empty payload stays empty.
pub open spec fn first_byte_stepped(seed: Seq<u8>, steps: nat) -> Seq<u8> {
    if seed.len() == 0 {
        seed
    } else {
        seed.update(0, ((seed[0] as nat + steps) % 256) as u8)
    }
}

/// One step changes the first byte of a payload and nothing else.
pub proof fn lemma_step_changes_first_byte_alone(payload: Seq<u8>)
    requires
        payload.len() > 0,
    ensures
        first_byte_stepped(payload, 1).len() == payload.len(),
        first_byte_stepped(payload, 1)[0] != payload[0],
        forall|i: int| 1 <= i < payload.len() ==> first_byte_stepped(payload, 1)[i] == payload[i],
{
}

/// Stepping a payload again is stepping its seed once more.
pub proof fn lemma_steps_add_up(seed: Seq<u8>, steps: nat)
    ensures
        first_byte_stepped(first_byte_stepped(seed, steps), 1) == first_byte_stepped(
            seed,
            steps + 1,
        ),
{
    if seed.len() > 0 {
        assert(first_byte_stepped(first_byte_stepped(seed, steps), 1) =~= first_byte_stepped(
            seed,
            steps + 1,
        ));
    }
}

/// Fewer than 256 steps apart, the payloads stepped from one seed differ.
pub proof fn lemma_steps_within_a_round_differ(seed: Seq<u8>, fewer: nat, more: nat)
    requires
        seed.len() > 0,
        fewer < more < fewer + 256,
    ensures
        first_byte_stepped(seed, fewer) != first_byte_stepped(seed, more),
{
    let a = first_byte_stepped(seed, fewer);
    let b = first_byte_stepped(seed, more);
    let first = seed[0] as nat;
    assert((first + fewer) % 256 != (first + more) % 256) by (nonlinear_arith)
        requires
            fewer < more < fewer + 256,
    ;
    assert(a[0] != b[0]);
}

/// A mutator that changes one byte: each advance steps the first byte of the
/// payload by one, so that 256 connections in a row send 256 payloads that
/// differ in that byte alone.
pub struct FirstByteStepper {
    current: Vec<u8>,
    seed: Ghost<Seq<u8>>,
    advances: Ghost<nat>,
}

impl FirstByteStepper {
    /// Whether the bytes held are the seed's, stepped once per advance.
    pub closed spec fn wf(&self) -> bool {
        self.current@ == first_byte_stepped(self.seed@, self.advances@)
    }

    /// The payload the mutator was made with.
    pub closed spec fn seed(&self) -> Seq<u8> {
        self.seed@
    }

    /// A mutator that starts from the bytes of `message`.
    pub fn new(message: Message) -> (mutator: FirstByteStepper)
        ensures
            mutator.wf(),
            mutator.seed() == message.body@,
            mutator.payload() == message.body@,
            mutator.generation() == 0,
    {
        let ghost seed = message.body@;
        assert(first_byte_stepped(seed, 0) =~= seed);
        FirstByteStepper { current: message.body, seed: Ghost(seed), advances: Ghost(0) }
    }

    /// What the mutator offers is a function of its seed payload and of
    /// how often it was advanced.
    pub proof fn lemma_payload(&self)
        requires
            self.wf(),
        ensures
            self.payload() == first_byte_stepped(self.seed(), self.generation()),
    {
    }
}

impl PayloadMutator for FirstByteStepper {
    closed spec fn payload(&self) -> Seq<u8> {
        self.current@
    }

    closed spec fn generation(&self) -> nat {
        self.advances@
    }

    fn current_bytes(&self) -> (bytes: &[u8]) {
        self.current.as_slice()
    }

    fn advance(&mut self)
        ensures
            old(self).wf() ==> final(self).wf(),
            final(self).seed() == old(self).seed(),
            final(self).payload() == first_byte_stepped(old(self).payload(), 1),
    {
        if self.current.len() > 0 {
            let first: u8 = self.current[0];
            let next: u8 = if first == 255 {
                0
            } else {
                first + 1
            };
            self.current.set(0, next);
        }
        self.advances = Ghost((self.advances@ + 1) as nat);
        assert(old(self).wf() ==> self.current@ =~= first_byte_stepped(
            self.seed@,
            self.advances@,
        ));
        assert(self.current@ =~= first_byte_stepped(old(self).current@, 1));
    }
}

impl Clone for FirstByteStepper {
    fn clone(&self) -> (copy: Self)
        ensures
            copy.payload() == self.payload(),
            copy.generation() == self.generation(),
            copy.seed() == self.seed(),
            self.wf() ==> copy.wf(),
    {
        FirstByteStepper {
            current: self.current.clone(),
            seed: self.seed,
            advances: self.advances,
        }
    }
}

} // verus!
