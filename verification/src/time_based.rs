use crate::clock::get_time_milli;
use crate::constants::MILLISECS_GREGORIAN_UNIX;
use crate::entropy::{next_u32, next_u64};
use crate::inspect::{details_of, fields_of, UuidDetails};
use crate::octets::{octets_value, pack16, stamped, variant_bits, version_nibble, Octets};
use crate::uuid::Uuid;
use vstd::prelude::*;

verus! {

/// How many identifiers one millisecond holds: the steps of 100 nanoseconds
/// in it.
pub const MAX_PER_MILLISECOND: u32 = 10000;

/// The forty-eight bits of a node id.
pub const NODE_ID_MASK: u64 = 0xffff_ffff_ffff;

/// The fourteen bits of a clock sequence.
pub const CLOCK_SEQ_MASK: u16 = 0x3fff;

/// Supplies the node id of time-based identifiers. A generator asks once
/// when it is made and again for every identifier, and uses the low
/// forty-eight bits of the answer.
pub trait NodeIdProvider {
    /// Whether `id` is among the answers that the provider may give. A
    /// provider that says nothing of its answers may give any.
    open spec fn may_answer(&self, id: u64) -> bool {
        true
    }

    fn get_node_id(&self) -> (id: u64)
        ensures
            self.may_answer(id),
    ;
}

/// The multicast bit of a node id: the lowest bit of the first of its six
/// octets. A node id that was drawn at random has it set, so that it cannot
/// be taken for the address of a network card.
pub const MULTICAST_BIT: u64 = 0x0100_0000_0000;

/// Draws a node id at random each time it is asked.
#[derive(Clone, Copy)]
pub struct RandomNodeIdProvider;

impl NodeIdProvider for RandomNodeIdProvider {
    open spec fn may_answer(&self, id: u64) -> bool {
        id <= NODE_ID_MASK && id & MULTICAST_BIT == MULTICAST_BIT
    }

    /// Forty-eight random bits with the multicast bit set.
    fn get_node_id(&self) -> (id: u64) {
        let mut rng = rand::thread_rng();
        let bits = next_u64(&mut rng);
        assert(((bits & 0xffff_ffff_ffff) | 0x0100_0000_0000) <= 0xffff_ffff_ffff && ((bits
            & 0xffff_ffff_ffff) | 0x0100_0000_0000) & 0x0100_0000_0000 == 0x0100_0000_0000)
            by (bit_vector);
        (bits & NODE_ID_MASK) | MULTICAST_BIT
    }
}

/// Always answers with the node id it was made with.
#[derive(Clone, Copy)]
pub struct StaticNodeIdProvider(u64);

impl View for StaticNodeIdProvider {
    type V = u64;

    closed spec fn view(&self) -> u64 {
        self.0
    }
}

impl StaticNodeIdProvider {
    pub fn new(node_id: u64) -> (provider: Self)
        ensures
            provider@ == node_id,
    {
        Self(node_id)
    }
}

impl NodeIdProvider for StaticNodeIdProvider {
    open spec fn may_answer(&self, id: u64) -> bool {
        id == self@
    }

    fn get_node_id(&self) -> (id: u64) {
        self.0
    }
}

/// Why no identifier was generated.
#[derive(Clone, Copy, Debug, PartialEq, Eq, Structural)]
pub enum Error {
    /// The millisecond is full: it has given out all the identifiers it
    /// holds. The next millisecond has room again.
    TooManyGenerated,
}

impl Error {
    /// The error in words.
    pub fn message(&self) -> (text: String)
        ensures
            text@ == "Too many UUIDs generated in a single time interval"@,
    {
        "Too many UUIDs generated in a single time interval".to_owned()
    }
}

/// What a time-based generator remembers between two identifiers.
pub struct TimeBasedState {
    node_id: u64,
    last_timestamp_ms: Option<u64>,
    clock_seq: u16,
    generated_count: u32,
}

/// The state of a time-based generator as plain values.
pub struct TimeBasedStateView {
    /// The node id of the last identifier, or the one the generator was
    /// made with: forty-eight bits.
    pub node_id: u64,
    /// The millisecond of the last identifier, counted from
    /// 1970-01-01T00:00:00Z; `None` before the first.
    pub last_timestamp_ms: Option<u64>,
    /// The clock sequence: fourteen bits.
    pub clock_seq: u16,
    /// How many identifiers that millisecond had given out before the last
    /// one: less than `MAX_PER_MILLISECOND`.
    pub generated_count: u32,
}

impl TimeBasedStateView {
    /// Every field is within its width.
    pub open spec fn well_formed(self) -> bool {
        &&& self.node_id <= NODE_ID_MASK
        &&& self.clock_seq <= CLOCK_SEQ_MASK
        &&& self.generated_count < MAX_PER_MILLISECOND
    }
}

impl View for TimeBasedState {
    type V = TimeBasedStateView;

    closed spec fn view(&self) -> TimeBasedStateView {
        TimeBasedStateView {
            node_id: self.node_id,
            last_timestamp_ms: self.last_timestamp_ms,
            clock_seq: self.clock_seq,
            generated_count: self.generated_count,
        }
    }
}

/// Whether the clock reads earlier than it did for the last identifier.
pub open spec fn clock_regressed(state: TimeBasedStateView, msec: u64) -> bool {
    state.last_timestamp_ms matches Some(last) && msec < last
}

/// The state after one more identifier, where there is room for one:
/// `node_id` is what the node id provider answered, `msec` what the clock
/// read, and `entropy` fresh random bits.
///
/// The clock sequence is drawn afresh from `entropy` where the node id has
/// changed, and then moves on by one, modulo 2^14, where the clock has gone
/// back. The count starts again at zero in a millisecond that is not the
/// last one, and goes up by one in the same millisecond. A count that
/// reaches `MAX_PER_MILLISECOND` leaves no next state.
pub open spec fn next_state(state: TimeBasedStateView, node_id: u64, msec: u64, entropy: u16)
    -> Option<TimeBasedStateView> {
    let node_id = node_id & NODE_ID_MASK;
    let drawn = if node_id != state.node_id {
        entropy & CLOCK_SEQ_MASK
    } else {
        state.clock_seq
    };
    let clock_seq = if clock_regressed(state, msec) {
        ((drawn + 1) % 0x4000) as u16
    } else {
        drawn
    };
    let generated_count = if state.last_timestamp_ms == Some(msec) {
        state.generated_count + 1
    } else {
        0
    };
    if generated_count >= MAX_PER_MILLISECOND {
        None
    } else {
        Some(
            TimeBasedStateView {
                node_id,
                last_timestamp_ms: Some(msec),
                clock_seq,
                generated_count: generated_count as u32,
            },
        )
    }
}

/// The time that is laid out for an identifier: the steps of 100
/// nanoseconds from 1582-10-15T00:00:00Z to the millisecond `msec` of Unix
/// time, plus `count`, as a number of 64 bits. Where the steps do not fit in
/// 64 bits, it is their low 64 bits.
pub open spec fn timestamp_field(msec: u64, count: u32) -> u64 {
    (((msec + MILLISECS_GREGORIAN_UNIX) * 10000 + count) % 0x1_0000_0000_0000_0000) as u64
}

/// The sixty bits of a time that an identifier holds: the version takes
/// the place of the four bits above them.
pub open spec fn time_bits(ts: u64) -> u64 {
    (ts % 0x1000_0000_0000_0000) as u64
}

/// The sixteen octets laid out for a time, a clock sequence and a node id,
/// before version and variant are stamped in: bits 0 to 31 of the time in
/// octets 0 to 3, bits 32 to 47 in octets 4 and 5, bits 48 to 63 in octets 6
/// and 7, the clock sequence in 8 and 9, and the node in 10 to 15, each most
/// significant octet first. Nothing of the time is cut here: stamping writes
/// the version over the high nibble of octet 6.
pub open spec fn laid_out(ts: u64, clock_seq: u16, node_id: u64) -> Seq<u8> {
    seq![
        ((ts >> 24) & 0xff) as u8,
        ((ts >> 16) & 0xff) as u8,
        ((ts >> 8) & 0xff) as u8,
        (ts & 0xff) as u8,
        ((ts >> 40) & 0xff) as u8,
        ((ts >> 32) & 0xff) as u8,
        ((ts >> 56) & 0xff) as u8,
        ((ts >> 48) & 0xff) as u8,
        ((clock_seq >> 8) & 0x3f) as u8,
        (clock_seq & 0xff) as u8,
        ((node_id >> 40) & 0xff) as u8,
        ((node_id >> 32) & 0xff) as u8,
        ((node_id >> 24) & 0xff) as u8,
        ((node_id >> 16) & 0xff) as u8,
        ((node_id >> 8) & 0xff) as u8,
        (node_id & 0xff) as u8,
    ]
}

/// The octets that stand for a state after its first identifier.
pub open spec fn state_octets(state: TimeBasedStateView) -> Seq<u8>
    recommends
        state.last_timestamp_ms is Some,
{
    laid_out(
        timestamp_field(state.last_timestamp_ms->0, state.generated_count),
        state.clock_seq,
        state.node_id,
    )
}

/// The identifier of the given version that stands for a state.
pub open spec fn state_identifier(state: TimeBasedStateView, version: u8) -> u128
    recommends
        state.last_timestamp_ms is Some,
{
    octets_value(stamped(state_octets(state), version))
}

/// The time for a millisecond and a count within it.
fn timestamp(msec: u64, count: u32) -> (ts: u64)
    ensures
        ts == timestamp_field(msec, count),
        (msec + MILLISECS_GREGORIAN_UNIX) * 10000 + count <= u64::MAX ==> ts == (msec
            + MILLISECS_GREGORIAN_UNIX) * 10000 + count,
{
    let wide: u128 = (msec as u128 + MILLISECS_GREGORIAN_UNIX as u128) * 10000 + count as u128;
    let low: u128 = wide & 0xffff_ffff_ffff_ffff;
    assert(low == wide % 0x1_0000_0000_0000_0000 && low <= 0xffff_ffff_ffff_ffff) by (bit_vector)
        requires
            low == wide & 0xffff_ffff_ffff_ffff,
    ;
    low as u64
}

impl TimeBasedState {
    #[verifier::type_invariant]
    spec fn within_widths(self) -> bool {
        &&& self.node_id <= NODE_ID_MASK
        &&& self.clock_seq <= CLOCK_SEQ_MASK
        &&& self.generated_count < MAX_PER_MILLISECOND
    }

    /// A state of the given values, if each is within its width: a node id
    /// of at most forty-eight bits, a clock sequence of at most fourteen, and
    /// a count below `MAX_PER_MILLISECOND`.
    pub fn new(
        node_id: u64,
        last_timestamp_ms: Option<u64>,
        clock_seq: u16,
        generated_count: u32,
    ) -> (state: Option<Self>)
        ensures
            state matches Some(s) ==> s@ == (TimeBasedStateView {
                node_id,
                last_timestamp_ms,
                clock_seq,
                generated_count,
            }),
            state is Some <==> (TimeBasedStateView {
                node_id,
                last_timestamp_ms,
                clock_seq,
                generated_count,
            }).well_formed(),
    {
        if node_id <= NODE_ID_MASK && clock_seq <= CLOCK_SEQ_MASK && generated_count
            < MAX_PER_MILLISECOND {
            Some(Self { node_id, last_timestamp_ms, clock_seq, generated_count })
        } else {
            None
        }
    }

    pub fn node_id(&self) -> (node_id: u64)
        ensures
            node_id == self@.node_id,
            node_id <= NODE_ID_MASK,
    {
        proof {
            use_type_invariant(self);
        }
        self.node_id
    }

    pub fn last_timestamp_ms(&self) -> (last: Option<u64>)
        ensures
            last == self@.last_timestamp_ms,
    {
        self.last_timestamp_ms
    }

    pub fn clock_seq(&self) -> (clock_seq: u16)
        ensures
            clock_seq == self@.clock_seq,
            clock_seq <= CLOCK_SEQ_MASK,
    {
        proof {
            use_type_invariant(self);
        }
        self.clock_seq
    }

    pub fn generated_count(&self) -> (count: u32)
        ensures
            count == self@.generated_count,
            count < MAX_PER_MILLISECOND,
    {
        proof {
            use_type_invariant(self);
        }
        self.generated_count
    }

    /// The state after one more identifier, or `TooManyGenerated` where the
    /// millisecond `msec` is full. `self` is left as it is either way.
    pub fn tick(&self, node_id: u64, msec: u64, entropy: u16) -> (outcome: Result<Self, Error>)
        ensures
            self@.well_formed(),
            match outcome {
                Ok(next) => next_state(self@, node_id, msec, entropy) == Some(next@)
                    && next@.well_formed(),
                Err(error) => next_state(self@, node_id, msec, entropy) is None && error
                    == Error::TooManyGenerated,
            },
            outcome matches Ok(next) ==> next@.last_timestamp_ms == Some(msec) && (node_id
                <= NODE_ID_MASK ==> next@.node_id == node_id),
    {
        proof {
            use_type_invariant(self);
        }
        assert(node_id & 0xffff_ffff_ffff <= 0xffff_ffff_ffff && entropy & 0x3fff <= 0x3fff && (
        node_id <= 0xffff_ffff_ffff ==> node_id & 0xffff_ffff_ffff == node_id)) by (bit_vector);
        let node_id = node_id & NODE_ID_MASK;
        let mut clock_seq = self.clock_seq;
        if self.node_id != node_id {
            clock_seq = entropy & CLOCK_SEQ_MASK;
        }
        let regressed = match self.last_timestamp_ms {
            Some(last) => msec < last,
            None => false,
        };
        if regressed {
            let bumped: u16 = clock_seq + 1;
            assert(bumped & 0x3fff == bumped % 0x4000 && bumped & 0x3fff <= 0x3fff)
                by (bit_vector);
            clock_seq = bumped & CLOCK_SEQ_MASK;
        }
        let same_millisecond = match self.last_timestamp_ms {
            Some(last) => msec == last,
            None => false,
        };
        let generated_count: u32 = if same_millisecond {
            self.generated_count + 1
        } else {
            0
        };
        if generated_count >= MAX_PER_MILLISECOND {
            return Err(Error::TooManyGenerated);
        }
        Ok(Self { node_id, last_timestamp_ms: Some(msec), clock_seq, generated_count })
    }

    /// The octets that the state's identifier is made of, before version and
    /// variant are stamped in.
    pub fn layout_octets(&self) -> (octets: Octets)
        requires
            self@.last_timestamp_ms is Some,
        ensures
            octets@ == state_octets(self@),
    {
        proof {
            use_type_invariant(self);
        }
        let msec = match self.last_timestamp_ms {
            Some(msec) => msec,
            None => 0,
        };
        let ts = timestamp(msec, self.generated_count);
        let clock_seq = self.clock_seq;
        let node_id = self.node_id;
        assert((ts >> 24) & 0xff <= 0xff && (ts >> 16) & 0xff <= 0xff && (ts >> 8) & 0xff <= 0xff
            && ts & 0xff <= 0xff && (ts >> 40) & 0xff <= 0xff && (ts >> 32) & 0xff <= 0xff && (ts
            >> 56) & 0xff <= 0xff && (ts >> 48) & 0xff <= 0xff && (clock_seq >> 8) & 0x3f <= 0xff
            && clock_seq & 0xff <= 0xff && (node_id >> 40) & 0xff <= 0xff && (node_id >> 32)
            & 0xff <= 0xff && (node_id >> 24) & 0xff <= 0xff && (node_id >> 16) & 0xff <= 0xff && (
        node_id >> 8) & 0xff <= 0xff && node_id & 0xff <= 0xff) by (bit_vector);
        let octets: Octets = [
            ((ts >> 24) & 0xff) as u8,
            ((ts >> 16) & 0xff) as u8,
            ((ts >> 8) & 0xff) as u8,
            (ts & 0xff) as u8,
            ((ts >> 40) & 0xff) as u8,
            ((ts >> 32) & 0xff) as u8,
            ((ts >> 56) & 0xff) as u8,
            ((ts >> 48) & 0xff) as u8,
            ((clock_seq >> 8) & 0x3f) as u8,
            (clock_seq & 0xff) as u8,
            ((node_id >> 40) & 0xff) as u8,
            ((node_id >> 32) & 0xff) as u8,
            ((node_id >> 24) & 0xff) as u8,
            ((node_id >> 16) & 0xff) as u8,
            ((node_id >> 8) & 0xff) as u8,
            (node_id & 0xff) as u8,
        ];
        assert(octets@ =~= state_octets(self@));
        octets
    }
}

/// The state of a generator that has given out no identifier yet: the low
/// forty-eight bits of `node_id`, the low fourteen bits of `entropy` as the
/// clock sequence, no timestamp, and a count of zero.
pub open spec fn initial_state(node_id: u64, entropy: u16) -> TimeBasedStateView {
    TimeBasedStateView {
        node_id: node_id & NODE_ID_MASK,
        last_timestamp_ms: None,
        clock_seq: entropy & CLOCK_SEQ_MASK,
        generated_count: 0,
    }
}

/// What one call of a generator of the given version does, when the node id
/// provider answers `node_id`, the clock reads `msec` and the random
/// generator gives `entropy`: where there is a next state, the generator
/// takes it and returns the identifier that stands for it; where there is
/// none, the generator keeps its state and returns `TooManyGenerated`.
pub open spec fn generated(
    before: TimeBasedStateView,
    node_id: u64,
    msec: u64,
    entropy: u16,
    version: u8,
    after: TimeBasedStateView,
    outcome: Result<Uuid, Error>,
) -> bool {
    match next_state(before, node_id, msec, entropy) {
        Some(next) => after == next && outcome == Ok::<Uuid, Error>(
            Uuid(state_identifier(next, version)),
        ),
        None => after == before && outcome == Err::<Uuid, Error>(Error::TooManyGenerated),
    }
}

impl TimeBasedState {
    /// The state of a generator that has given out no identifier yet.
    pub fn initial(node_id: u64, entropy: u16) -> (state: Self)
        ensures
            state@ == initial_state(node_id, entropy),
            state@.well_formed(),
    {
        assert(node_id & 0xffff_ffff_ffff <= 0xffff_ffff_ffff && entropy & 0x3fff <= 0x3fff)
            by (bit_vector);
        Self {
            node_id: node_id & NODE_ID_MASK,
            last_timestamp_ms: None,
            clock_seq: entropy & CLOCK_SEQ_MASK,
            generated_count: 0,
        }
    }
}

/// A generator of time-based identifiers of version `V`, which asks `P` for
/// the node id.
struct TimeBasedGenerator<const V: u8, P> {
    node_id_provider: P,
    state: TimeBasedState,
}

impl<const V: u8, P> TimeBasedGenerator<V, P> where P: NodeIdProvider {
    fn new(node_id_provider: P) -> (generator: Self)
        ensures
            generator.node_id_provider == node_id_provider,
            exists|node_id: u64, entropy: u16|
                node_id_provider.may_answer(node_id) && generator.state@
                    == #[trigger] initial_state(node_id, entropy),
    {
        let node_id = node_id_provider.get_node_id();
        let mut rng = rand::thread_rng();
        let entropy =
            #[verifier::truncate]
            (next_u32(&mut rng) as u16);
        let state = TimeBasedState::initial(node_id, entropy);
        Self { node_id_provider, state }
    }

    fn new_with_state(node_id_provider: P, state: TimeBasedState) -> (generator: Self)
        ensures
            generator.node_id_provider == node_id_provider,
            generator.state == state,
    {
        Self { node_id_provider, state }
    }

    fn generate_at(&mut self, node_id: u64, msec: u64, entropy: u16) -> (outcome: Result<
        Uuid,
        Error,
    >)
        ensures
            final(self).node_id_provider == old(self).node_id_provider,
            generated(old(self).state@, node_id, msec, entropy, V, final(self).state@, outcome),
            outcome matches Ok(uuid) ==> variant_bits(uuid@) == 2 && (V < 16 ==> version_nibble(
                uuid@,
            ) == V),
    {
        match self.state.tick(node_id, msec, entropy) {
            Ok(next) => {
                let octets = next.layout_octets();
                self.state = next;
                Ok(Uuid::from_octets(octets, V))
            },
            Err(error) => Err(error),
        }
    }

    fn generate(&mut self) -> (outcome: Result<Uuid, Error>)
        ensures
            final(self).node_id_provider == old(self).node_id_provider,
            exists|node_id: u64, msec: u64, entropy: u16|
                old(self).node_id_provider.may_answer(node_id) && #[trigger] generated(
                    old(self).state@,
                    node_id,
                    msec,
                    entropy,
                    V,
                    final(self).state@,
                    outcome,
                ),
            outcome matches Ok(uuid) ==> variant_bits(uuid@) == 2 && (V < 16 ==> version_nibble(
                uuid@,
            ) == V),
    {
        let msec = get_time_milli();
        let node_id = self.node_id_provider.get_node_id();
        let entropy: u16 = if node_id & NODE_ID_MASK != self.state.node_id() {
            let mut rng = rand::thread_rng();
            #[verifier::truncate]
            (next_u32(&mut rng) as u16)
        } else {
            0
        };
        let outcome = self.generate_at(node_id, msec, entropy);
        assert(generated(
            old(self).state@,
            node_id,
            msec,
            entropy,
            V,
            self.state@,
            outcome,
        ));
        outcome
    }
}

/// A generator of version 1 identifiers. It owns its state and is meant for
/// one caller at a time.
pub struct V1Generator<P>(TimeBasedGenerator<1, P>);

impl<P> View for V1Generator<P> {
    type V = TimeBasedStateView;

    closed spec fn view(&self) -> TimeBasedStateView {
        self.0.state@
    }
}

impl<P> V1Generator<P> {
    /// The node id provider that the generator asks.
    pub closed spec fn provider(&self) -> P {
        self.0.node_id_provider
    }
}

impl<P> V1Generator<P> where P: NodeIdProvider {
    /// A generator that has given out no identifier yet. It asks the
    /// provider for the node id and draws its clock sequence at random.
    pub fn new(node_id_provider: P) -> (generator: Self)
        ensures
            generator.provider() == node_id_provider,
            exists|node_id: u64, entropy: u16|
                node_id_provider.may_answer(node_id) && generator@ == #[trigger] initial_state(
                    node_id,
                    entropy,
                ),
            generator@.well_formed(),
    {
        let inner = TimeBasedGenerator::new(node_id_provider);
        proof {
            use_type_invariant(&inner.state);
            let (node_id, entropy) = choose|node_id: u64, entropy: u16|
                node_id_provider.may_answer(node_id) && inner.state@ == #[trigger] initial_state(
                    node_id,
                    entropy,
                );
            assert(inner.state@ == initial_state(node_id, entropy));
        }
        Self(inner)
    }

    /// A generator that goes on from `state`.
    pub fn new_with_state(node_id_provider: P, state: TimeBasedState) -> (generator: Self)
        ensures
            generator.provider() == node_id_provider,
            generator@ == state@,
    {
        Self(TimeBasedGenerator::new_with_state(node_id_provider, state))
    }

    /// What the generator remembers.
    pub fn state(&self) -> (state: &TimeBasedState)
        ensures
            state@ == self@,
            self@.well_formed(),
    {
        proof {
            use_type_invariant(&self.0.state);
        }
        &self.0.state
    }

    /// The next identifier for given answers of the node id provider, the
    /// clock and the random generator.
    pub fn generate_at(&mut self, node_id: u64, msec: u64, entropy: u16) -> (outcome: Result<
        Uuid,
        Error,
    >)
        ensures
            final(self).provider() == old(self).provider(),
            generated(old(self)@, node_id, msec, entropy, 1, final(self)@, outcome),
            outcome matches Ok(uuid) ==> version_nibble(uuid@) == 1 && variant_bits(uuid@) == 2,
            final(self)@.well_formed(),
    {
        let outcome = self.0.generate_at(node_id, msec, entropy);
        proof {
            use_type_invariant(&self.0.state);
        }
        outcome
    }

    /// The next identifier: asks the provider for the node id, reads the
    /// clock, draws fresh bits where the node id has changed, and goes on as
    /// `generate_at` does with these three. An error leaves the generator as
    /// it was, and a later call may succeed.
    pub fn generate(&mut self) -> (outcome: Result<Uuid, Error>)
        ensures
            final(self).provider() == old(self).provider(),
            exists|node_id: u64, msec: u64, entropy: u16|
                old(self).provider().may_answer(node_id) && #[trigger] generated(
                    old(self)@,
                    node_id,
                    msec,
                    entropy,
                    1,
                    final(self)@,
                    outcome,
                ),
            outcome matches Ok(uuid) ==> version_nibble(uuid@) == 1 && variant_bits(uuid@) == 2,
            outcome is Err ==> final(self)@ == old(self)@,
            final(self)@.well_formed(),
    {
        let outcome = self.0.generate();
        proof {
            use_type_invariant(&self.0.state);
            let (node_id, msec, entropy) = choose|node_id: u64, msec: u64, entropy: u16|
                old(self).0.node_id_provider.may_answer(node_id) && #[trigger] generated(
                    old(self).0.state@,
                    node_id,
                    msec,
                    entropy,
                    1,
                    self.0.state@,
                    outcome,
                );
            assert(generated(old(self)@, node_id, msec, entropy, 1, self@, outcome));
        }
        outcome
    }
}

/// The next version 1 identifier of a generator with random node ids.
pub fn v1(generator: &mut V1Generator<RandomNodeIdProvider>) -> (outcome: Result<Uuid, Error>)
    ensures
        final(generator).provider() == old(generator).provider(),
        exists|node_id: u64, msec: u64, entropy: u16|
            old(generator).provider().may_answer(node_id) && #[trigger] generated(
                old(generator)@,
                node_id,
                msec,
                entropy,
                1,
                final(generator)@,
                outcome,
            ),
        outcome matches Ok(uuid) ==> version_nibble(uuid@) == 1 && variant_bits(uuid@) == 2,
        outcome is Err ==> final(generator)@ == old(generator)@,
        final(generator)@.well_formed(),
{
    generator.generate()
}

/// A tick keeps every field within its width, takes over node id and
/// millisecond, and starts the count at zero exactly where the millisecond is
/// not that of the state before.
pub proof fn lemma_tick_keeps_well_formed(
    state: TimeBasedStateView,
    node_id: u64,
    msec: u64,
    entropy: u16,
)
    requires
        state.well_formed(),
    ensures
        next_state(state, node_id, msec, entropy) matches Some(next) ==> {
            &&& next.well_formed()
            &&& next.node_id == node_id & NODE_ID_MASK
            &&& node_id <= NODE_ID_MASK ==> next.node_id == node_id
            &&& next.last_timestamp_ms == Some(msec)
            &&& next.generated_count == 0 <==> state.last_timestamp_ms != Some(msec)
            &&& state.last_timestamp_ms == Some(msec) ==> next.generated_count
                == state.generated_count + 1
        },
{
    assert(node_id & 0xffff_ffff_ffff <= 0xffff_ffff_ffff && entropy & 0x3fff <= 0x3fff && (node_id
        <= 0xffff_ffff_ffff ==> node_id & 0xffff_ffff_ffff == node_id)) by (bit_vector);
}

/// Where the clock has gone back, the tick succeeds whatever the node id
/// is: the count starts again at zero, the state takes the millisecond read,
/// and it takes the node id given, which is the low forty-eight bits of
/// `node_id` and so `node_id` itself where that has no more.
pub proof fn lemma_clock_regression_resets_count(
    state: TimeBasedStateView,
    node_id: u64,
    msec: u64,
    entropy: u16,
)
    requires
        state.well_formed(),
        clock_regressed(state, msec),
    ensures
        next_state(state, node_id, msec, entropy) matches Some(next) && {
            &&& next.generated_count == 0
            &&& next.last_timestamp_ms == Some(msec)
            &&& next.node_id == node_id & NODE_ID_MASK
            &&& node_id <= NODE_ID_MASK ==> next.node_id == node_id
            &&& next.well_formed()
        },
{
    lemma_tick_keeps_well_formed(state, node_id, msec, entropy);
}

/// Where the clock has gone back and the node id is the one of the state,
/// the tick succeeds, the clock sequence moves on by exactly one modulo
/// 2^14, and the count starts again at zero.
pub proof fn lemma_clock_regression_bumps_clock_seq(
    state: TimeBasedStateView,
    node_id: u64,
    msec: u64,
    entropy: u16,
)
    requires
        state.well_formed(),
        clock_regressed(state, msec),
        node_id & NODE_ID_MASK == state.node_id,
    ensures
        next_state(state, node_id, msec, entropy) matches Some(next) && next.clock_seq == (
        state.clock_seq + 1) % 0x4000 && next.generated_count == 0,
{
}

/// Where the clock has gone back and the node id has changed as well, the
/// clock sequence is one more, modulo 2^14, than the fourteen bits drawn.
pub proof fn lemma_clock_regression_after_node_change(
    state: TimeBasedStateView,
    node_id: u64,
    msec: u64,
    entropy: u16,
)
    requires
        state.well_formed(),
        clock_regressed(state, msec),
        node_id & NODE_ID_MASK != state.node_id,
    ensures
        next_state(state, node_id, msec, entropy) matches Some(next) && next.clock_seq == ((entropy
            & CLOCK_SEQ_MASK) + 1) % 0x4000 && next.generated_count == 0,
{
}

/// A millisecond that has given out `MAX_PER_MILLISECOND` identifiers gives
/// out no more: the tick fails, whatever node id and random bits come with
/// it. In every other case the tick succeeds.
pub proof fn lemma_full_millisecond(
    state: TimeBasedStateView,
    node_id: u64,
    msec: u64,
    entropy: u16,
)
    requires
        state.well_formed(),
    ensures
        next_state(state, node_id, msec, entropy) is None <==> state.last_timestamp_ms == Some(
            msec,
        ) && state.generated_count == MAX_PER_MILLISECOND - 1,
{
}

proof fn lemma_layout_bits(ts: u64, clock_seq: u16, node_id: u64, version: u8)
    by (bit_vector)
    requires
        clock_seq <= 0x3fff,
        node_id <= 0xffff_ffff_ffff,
    ensures
        ({
            let v = pack16(
                ((ts >> 24) & 0xff) as u8,
                ((ts >> 16) & 0xff) as u8,
                ((ts >> 8) & 0xff) as u8,
                (ts & 0xff) as u8,
                ((ts >> 40) & 0xff) as u8,
                ((ts >> 32) & 0xff) as u8,
                ((((ts >> 56) & 0xff) as u8) & 0x0f) | ((version & 0x0f) << 4),
                ((ts >> 48) & 0xff) as u8,
                ((((clock_seq >> 8) & 0x3f) as u8) & 0x3f) | 0x80,
                (clock_seq & 0xff) as u8,
                ((node_id >> 40) & 0xff) as u8,
                ((node_id >> 32) & 0xff) as u8,
                ((node_id >> 24) & 0xff) as u8,
                ((node_id >> 16) & 0xff) as u8,
                ((node_id >> 8) & 0xff) as u8,
                (node_id & 0xff) as u8,
            );
            let time_low = ((v >> 96) & 0xffff_ffff) as u32;
            let time_mid = ((v >> 80) & 0xffff) as u16;
            let time_hi_and_version = ((v >> 64) & 0xffff) as u16;
            let clk_seq_hi_res = ((v >> 56) & 0xff) as u8;
            let clk_seq_low = ((v >> 48) & 0xff) as u8;
            &&& ((time_hi_and_version & 0x0fff) as u64) << 48 | (time_mid as u64) << 32 | (
            time_low as u64) == ts % 0x1000_0000_0000_0000
            &&& ((time_hi_and_version & 0xf000) >> 12) as u8 == version & 0x0f
            &&& 0x80 <= clk_seq_hi_res < 0xC0
            &&& clk_seq_hi_res & 0xC0 == 0x80
            &&& (((clk_seq_hi_res & !0xC0u8) as u16) << 8) | (clk_seq_low as u16) == clock_seq
            &&& (v & 0xffff_ffff_ffff) as u64 == node_id
        }),
{
}

/// Taking a time-based identifier apart gives back what it was made of: the
/// low sixty bits of the time, the version, the variant of RFC 4122, the
/// clock sequence and the node id of the state that it stands for. The time
/// comes back whole where it has no more than sixty bits.
pub proof fn lemma_details_of_state_identifier(state: TimeBasedStateView, version: u8)
    requires
        state.well_formed(),
        state.last_timestamp_ms is Some,
    ensures
        details_of(fields_of(state_identifier(state, version))) == (UuidDetails {
            time: time_bits(timestamp_field(state.last_timestamp_ms->0, state.generated_count)),
            version: version & 0x0f,
            variant: 0x80,
            clock_seq: state.clock_seq,
            node: state.node_id,
        }),
{
    let ts = timestamp_field(state.last_timestamp_ms->0, state.generated_count);
    lemma_layout_bits(ts, state.clock_seq, state.node_id, version);
}

/// The identifier of a time, a clock sequence, a node id and a version as
/// one number: from the top, bits 0 to 31 of the time, its bits 32 to 47,
/// four bits of version, bits 48 to 59 of the time, the two variant bits
/// `10`, the 14 bits of the clock sequence and the 48 bits of the node id.
/// Bits 60 to 63 of the time have no place in it.
pub open spec fn time_based_value(ts: u64, clock_seq: u16, node_id: u64, version: u8) -> int {
    (ts % 0x1_0000_0000) * 0x1_0000_0000_0000_0000_0000_0000 + ((ts / 0x1_0000_0000) % 0x1_0000)
        * 0x1_0000_0000_0000_0000_0000 + ((version % 16) * 0x1000 + (ts / 0x1_0000_0000_0000)
        % 0x1000) * 0x1_0000_0000_0000_0000 + (0x8000 + clock_seq) * 0x1_0000_0000_0000 + node_id
}

proof fn lemma_layout_value(ts: u64, clock_seq: u16, node_id: u64, version: u8)
    by (bit_vector)
    requires
        clock_seq <= 0x3fff,
        node_id <= 0xffff_ffff_ffff,
    ensures
        pack16(
            ((ts >> 24) & 0xff) as u8,
            ((ts >> 16) & 0xff) as u8,
            ((ts >> 8) & 0xff) as u8,
            (ts & 0xff) as u8,
            ((ts >> 40) & 0xff) as u8,
            ((ts >> 32) & 0xff) as u8,
            ((((ts >> 56) & 0xff) as u8) & 0x0f) | ((version & 0x0f) << 4),
            ((ts >> 48) & 0xff) as u8,
            ((((clock_seq >> 8) & 0x3f) as u8) & 0x3f) | 0x80,
            (clock_seq & 0xff) as u8,
            ((node_id >> 40) & 0xff) as u8,
            ((node_id >> 32) & 0xff) as u8,
            ((node_id >> 24) & 0xff) as u8,
            ((node_id >> 16) & 0xff) as u8,
            ((node_id >> 8) & 0xff) as u8,
            (node_id & 0xff) as u8,
        ) == (ts % 0x1_0000_0000) * 0x1_0000_0000_0000_0000_0000_0000 + ((ts / 0x1_0000_0000)
            % 0x1_0000) * 0x1_0000_0000_0000_0000_0000 + ((version % 16) * 0x1000 + (ts
            / 0x1_0000_0000_0000) % 0x1000) * 0x1_0000_0000_0000_0000 + (0x8000 + clock_seq)
            * 0x1_0000_0000_0000 + node_id,
{
}

proof fn lemma_time_octets(ts: u64)
    by (bit_vector)
    ensures
        (((ts >> 24) & 0xff) as u8) * 0x100_0000 + (((ts >> 16) & 0xff) as u8) * 0x1_0000 + (((ts
            >> 8) & 0xff) as u8) * 0x100 + ((ts & 0xff) as u8) == ts % 0x1_0000_0000,
        (((ts >> 40) & 0xff) as u8) * 0x100 + (((ts >> 32) & 0xff) as u8) == (ts / 0x1_0000_0000)
            % 0x1_0000,
        (((ts >> 56) & 0xff) as u8) * 0x100 + (((ts >> 48) & 0xff) as u8) == ts
            / 0x1_0000_0000_0000,
        ((ts >> 56) & 0xff) as u8 == ts / 0x100_0000_0000_0000,
{
}

/// The octets of a state's time, in arithmetic: all 64 bits of the time are
/// laid out. Octets 0 to 3 spell its low 32 bits, octets 4 and 5 the next 16,
/// and octets 6 and 7 its top 16, so that octet 6 is the time divided by
/// 2^56. Where the steps fit in 64 bits, the time is their number.
pub proof fn lemma_state_octets_hold_the_whole_time(state: TimeBasedStateView)
    requires
        state.last_timestamp_ms is Some,
    ensures
        ({
            let ts = timestamp_field(state.last_timestamp_ms->0, state.generated_count);
            let steps = (state.last_timestamp_ms->0 + MILLISECS_GREGORIAN_UNIX) * 10000
                + state.generated_count;
            let o = state_octets(state);
            &&& o.len() == 16
            &&& steps <= u64::MAX ==> ts == steps
            &&& o[0] * 0x100_0000 + o[1] * 0x1_0000 + o[2] * 0x100 + o[3] == ts % 0x1_0000_0000
            &&& o[4] * 0x100 + o[5] == (ts / 0x1_0000_0000) % 0x1_0000
            &&& o[6] * 0x100 + o[7] == ts / 0x1_0000_0000_0000
            &&& o[6] == ts / 0x100_0000_0000_0000
        }),
{
    let ts = timestamp_field(state.last_timestamp_ms->0, state.generated_count);
    let o = state_octets(state);
    lemma_time_octets(ts);
    assert(o[0] == ((ts >> 24) & 0xff) as u8);
    assert(o[1] == ((ts >> 16) & 0xff) as u8);
    assert(o[2] == ((ts >> 8) & 0xff) as u8);
    assert(o[3] == (ts & 0xff) as u8);
    assert(o[4] == ((ts >> 40) & 0xff) as u8);
    assert(o[5] == ((ts >> 32) & 0xff) as u8);
    assert(o[6] == ((ts >> 56) & 0xff) as u8);
    assert(o[7] == ((ts >> 48) & 0xff) as u8);
}

/// The identifier that stands for a state, written out as one number.
pub proof fn lemma_state_identifier_value(state: TimeBasedStateView, version: u8)
    requires
        state.well_formed(),
        state.last_timestamp_ms is Some,
    ensures
        state_identifier(state, version) == time_based_value(
            timestamp_field(state.last_timestamp_ms->0, state.generated_count),
            state.clock_seq,
            state.node_id,
            version,
        ),
{
    let ts = timestamp_field(state.last_timestamp_ms->0, state.generated_count);
    lemma_layout_value(ts, state.clock_seq, state.node_id, version);
}

} // verus!
