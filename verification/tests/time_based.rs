use uuidland::clock::reading_to_millis;
use uuidland::inspect::{UuidDetails, UuidFields};
use uuidland::time_based::{
    v1, Error, NodeIdProvider, RandomNodeIdProvider, StaticNodeIdProvider, TimeBasedState,
    V1Generator,
};
use uuidland::uuid::Uuid;

const NODE_ID: u64 = 0x32_50_96_B3_9F_47;

fn reference_state() -> TimeBasedState {
    TimeBasedState::new(NODE_ID, Some(1704288448382), 11338, 4850).unwrap()
}

fn fields(state: &TimeBasedState) -> (u64, Option<u64>, u16, u32) {
    (state.node_id(), state.last_timestamp_ms(), state.clock_seq(), state.generated_count())
}

#[test]
fn test_output() {
    // *Reference UUID to test with*
    //
    // Standard String Format  d71c7cd2-aa3b-11ee-ac4a-325096b39f47
    // Single Integer Value    285931935115184731626516849736750964551
    // Version                 1 (time and node based)
    // Variant                 DCE 1.1, ISO/IEC 11578:1996
    // Contents - Time         2024-01-03 13:27:28.382485.0 UTC
    // Contents - Clock        11338
    // Contents - Node         32:50:96:b3:9f:47 (local unicast)

    let node_id: u64 = 0x_32_50_96_B3_9F_47;
    let clock_seq: u16 = 11338;

    let time_msec = 1704288448382; // Time in milliseconds resolution
    let num_100_nanosecs = 4850;

    let node_id_provider = StaticNodeIdProvider::new(node_id);

    let state = TimeBasedState::new(node_id, Some(time_msec), clock_seq, num_100_nanosecs).unwrap();

    let mut generator = V1Generator::new_with_state(node_id_provider, state);

    // The identifier that the generator's state stands for.
    let value = Uuid::from_octets(generator.state().layout_octets(), 1);
    assert_eq!(
        value.to_string_hex(),
        "d71c7cd2-aa3b-11ee-ac4a-325096b39f47"
    );
    assert_eq!(value.value(), 285931935115184731626516849736750964551);

    // The next identifier is made after the tick, at the time that the
    // clock reads: it stands for the state that the generator then holds.
    let value = generator.generate().unwrap();
    let msec = generator.state().last_timestamp_ms().unwrap();
    assert_eq!(generator.state().node_id(), node_id);
    assert_eq!(
        generator.state().clock_seq(),
        if msec < time_msec { clock_seq + 1 } else { clock_seq }
    );
    assert_eq!(
        generator.state().generated_count(),
        if msec == time_msec { num_100_nanosecs + 1 } else { 0 }
    );
    assert_eq!(value, Uuid::from_octets(generator.state().layout_octets(), 1));
    assert_eq!(value.value() & 0xffff_ffff_ffff, node_id as u128);
    assert_eq!((value.value() >> 76) & 0xf, 1);
}

#[test]
fn generate_at_in_the_same_millisecond_counts_on() {
    let provider = StaticNodeIdProvider::new(NODE_ID);
    let mut generator = V1Generator::new_with_state(provider, reference_state());
    let value = generator.generate_at(NODE_ID, 1704288448382, 0).unwrap();
    assert_eq!(value.to_string_hex(), "d71c7cd3-aa3b-11ee-ac4a-325096b39f47");
    assert_eq!(fields(generator.state()), (NODE_ID, Some(1704288448382), 11338, 4851));
}

#[test]
fn generate_at_reaches_the_reference_identifier() {
    let provider = StaticNodeIdProvider::new(NODE_ID);
    let state = TimeBasedState::new(NODE_ID, Some(1704288448382), 11338, 4849).unwrap();
    let mut generator = V1Generator::new_with_state(provider, state);
    let value = generator.generate_at(NODE_ID, 1704288448382, 0).unwrap();
    assert_eq!(value.to_string_hex(), "d71c7cd2-aa3b-11ee-ac4a-325096b39f47");
    assert_eq!(fields(generator.state()), (NODE_ID, Some(1704288448382), 11338, 4850));
}

#[test]
fn generate_at_is_deterministic() {
    let mut first = V1Generator::new_with_state(StaticNodeIdProvider::new(NODE_ID), reference_state());
    let mut second = V1Generator::new_with_state(StaticNodeIdProvider::new(NODE_ID), reference_state());
    for msec in [1704288448382u64, 1704288448382, 1704288448390, 1704288448380, 1704288448380] {
        assert_eq!(
            first.generate_at(NODE_ID, msec, 0x1234).unwrap(),
            second.generate_at(NODE_ID, msec, 0x1234).unwrap()
        );
        assert_eq!(fields(first.state()), fields(second.state()));
    }
}

#[test]
fn tick_in_a_later_millisecond_starts_the_count_again() {
    let next = reference_state().tick(NODE_ID, 1704288448383, 0x2aaa).unwrap();
    assert_eq!(fields(&next), (NODE_ID, Some(1704288448383), 11338, 0));
    assert_eq!(
        Uuid::from_octets(next.layout_octets(), 1).to_string_hex(),
        "d71c90f0-aa3b-11ee-ac4a-325096b39f47"
    );
}

#[test]
fn tick_after_clock_regression_bumps_the_clock_sequence() {
    let next = reference_state().tick(NODE_ID, 1704288448381, 0x2aaa).unwrap();
    assert_eq!(fields(&next), (NODE_ID, Some(1704288448381), 11339, 0));
    assert_eq!(
        Uuid::from_octets(next.layout_octets(), 1).to_string_hex(),
        "d71c42d0-aa3b-11ee-ac4b-325096b39f47"
    );
}

#[test]
fn clock_sequence_wraps_at_fourteen_bits() {
    let state = TimeBasedState::new(NODE_ID, Some(1000), 0x3fff, 17).unwrap();
    let next = state.tick(NODE_ID, 999, 0).unwrap();
    assert_eq!(fields(&next), (NODE_ID, Some(999), 0, 0));
}

#[test]
fn tick_with_another_node_id_draws_the_clock_sequence_afresh() {
    let next = reference_state().tick(NODE_ID + 1, 1704288448382, 0xeaaa).unwrap();
    assert_eq!(fields(&next), (NODE_ID + 1, Some(1704288448382), 0x2aaa, 4851));
    // A changed node id and a clock that went back: drawn, then bumped.
    let next = reference_state().tick(NODE_ID + 1, 1704288448000, 0x3fff).unwrap();
    assert_eq!(fields(&next), (NODE_ID + 1, Some(1704288448000), 0, 0));
    // The same node id: the random bits are not used.
    let next = reference_state().tick(NODE_ID, 1704288448382, 0x2aaa).unwrap();
    assert_eq!(next.clock_seq(), 11338);
}

#[test]
fn tick_uses_the_low_bits_of_the_node_id() {
    let next = reference_state().tick(0xabcd_0000_0000_0000 | NODE_ID, 1704288448382, 0x2aaa).unwrap();
    assert_eq!(fields(&next), (NODE_ID, Some(1704288448382), 11338, 4851));
}

#[test]
fn tick_fails_in_a_full_millisecond() {
    let state = TimeBasedState::new(NODE_ID, Some(1704288448382), 11338, 9999).unwrap();
    assert!(matches!(state.tick(NODE_ID, 1704288448382, 0), Err(Error::TooManyGenerated)));
    assert_eq!(fields(&state), (NODE_ID, Some(1704288448382), 11338, 9999));
    let state = TimeBasedState::new(NODE_ID, Some(1704288448382), 11338, 9998).unwrap();
    let next = state.tick(NODE_ID, 1704288448382, 0).unwrap();
    assert_eq!(next.generated_count(), 9999);
}

#[test]
fn generator_keeps_its_state_when_the_millisecond_is_full() {
    let state = TimeBasedState::new(NODE_ID, Some(1704288448382), 11338, 9999).unwrap();
    let mut generator = V1Generator::new_with_state(StaticNodeIdProvider::new(NODE_ID), state);
    assert_eq!(
        generator.generate_at(NODE_ID, 1704288448382, 0),
        Err(Error::TooManyGenerated)
    );
    assert_eq!(fields(generator.state()), (NODE_ID, Some(1704288448382), 11338, 9999));
    // Also with another node id: nothing of the failed call stays.
    assert_eq!(
        generator.generate_at(NODE_ID + 1, 1704288448382, 0x1111),
        Err(Error::TooManyGenerated)
    );
    assert_eq!(fields(generator.state()), (NODE_ID, Some(1704288448382), 11338, 9999));
    // The next millisecond has room again.
    let value = generator.generate_at(NODE_ID, 1704288448383, 0).unwrap();
    assert_eq!(value.to_string_hex(), "d71c90f0-aa3b-11ee-ac4a-325096b39f47");
    assert_eq!(fields(generator.state()), (NODE_ID, Some(1704288448383), 11338, 0));
}

#[test]
fn a_millisecond_holds_ten_thousand_identifiers() {
    let state = TimeBasedState::initial(NODE_ID, 7);
    let mut generator = V1Generator::new_with_state(StaticNodeIdProvider::new(NODE_ID), state);
    let mut last = generator.generate_at(NODE_ID, 5, 0).unwrap();
    for count in 1..10000u32 {
        let uuid = generator.generate_at(NODE_ID, 5, 0).unwrap();
        assert_eq!(uuid.value(), last.value() + (1u128 << 96));
        assert_eq!(generator.state().generated_count(), count);
        last = uuid;
    }
    assert_eq!(generator.generate_at(NODE_ID, 5, 0), Err(Error::TooManyGenerated));
    assert_eq!(generator.state().generated_count(), 9999);
}

#[test]
fn first_tick_of_a_fresh_state() {
    let state = TimeBasedState::initial(0xffff_0000_0000_0001, 0xffff);
    assert_eq!(fields(&state), (1, None, 0x3fff, 0));
    let next = state.tick(1, 0, 0).unwrap();
    assert_eq!(fields(&next), (1, Some(0), 0x3fff, 0));
    let next = next.tick(1, 0, 0).unwrap();
    assert_eq!(fields(&next), (1, Some(0), 0x3fff, 1));
}

#[test]
fn layout_at_the_ends_of_the_clock() {
    let state = TimeBasedState::new(0, Some(0), 0, 0).unwrap();
    assert_eq!(
        Uuid::from_octets(state.layout_octets(), 1).to_string_hex(),
        "13814000-1dd2-11b2-8000-000000000000"
    );
    let state = TimeBasedState::new(0xffff_ffff_ffff, Some(u64::MAX), 0x3fff, 0).unwrap();
    assert_eq!(
        Uuid::from_octets(state.layout_octets(), 1).to_string_hex(),
        "138118f0-1dd2-11b2-bfff-ffffffffffff"
    );
}

#[test]
fn state_new_checks_the_widths() {
    assert!(TimeBasedState::new(0xffff_ffff_ffff, None, 0x3fff, 9999).is_some());
    assert!(TimeBasedState::new(0x1_0000_0000_0000, None, 0, 0).is_none());
    assert!(TimeBasedState::new(0, None, 0x4000, 0).is_none());
    assert!(TimeBasedState::new(0, None, 0, 10000).is_none());
    let state = TimeBasedState::new(5, Some(6), 7, 8).unwrap();
    assert_eq!(fields(&state), (5, Some(6), 7, 8));
}

#[test]
fn details_give_back_what_the_identifier_was_made_of() {
    let next = reference_state().tick(NODE_ID, 1704288448382, 0).unwrap();
    let uuid = Uuid::from_octets(next.layout_octets(), 1);
    let d = UuidDetails::construct(&UuidFields::of(&uuid));
    assert_eq!(d.time, (1704288448382 + 12219292800000) * 10000 + 4851);
    assert_eq!(d.version, 1);
    assert_eq!(d.variant, 0x80);
    assert_eq!(d.clock_seq, 11338);
    assert_eq!(d.node, NODE_ID);
}

#[test]
fn generate_reads_clock_and_provider() {
    let mut generator = V1Generator::new(StaticNodeIdProvider::new(0xabcd_0000_0000_0000 | NODE_ID));
    assert_eq!(generator.state().node_id(), NODE_ID);
    assert_eq!(generator.state().last_timestamp_ms(), None);
    assert_eq!(generator.state().generated_count(), 0);
    let clock_seq = generator.state().clock_seq();
    assert!(clock_seq <= 0x3fff);

    let uuid = generator.generate().unwrap();
    let d = UuidDetails::construct(&UuidFields::of(&uuid));
    assert_eq!(d.version, 1);
    assert_eq!(d.variant, 0x80);
    assert_eq!(d.node, NODE_ID);
    assert_eq!(d.clock_seq, clock_seq);
    let msec = generator.state().last_timestamp_ms().unwrap();
    assert_eq!(d.time, (msec + 12219292800000) * 10000 + generator.state().generated_count() as u64);
    // The clock reads a time after the reference identifier was made.
    assert!(msec > 1704288448382);
}

#[test]
fn generate_gives_distinct_identifiers() {
    let mut generator = V1Generator::new(StaticNodeIdProvider::new(NODE_ID));
    let mut seen = Vec::new();
    for _ in 0..200 {
        match generator.generate() {
            Ok(uuid) => {
                assert!(!seen.contains(&uuid));
                seen.push(uuid);
            }
            Err(Error::TooManyGenerated) => {}
        }
    }
    assert!(!seen.is_empty());
}

#[test]
fn v1_uses_the_generator_handed_in() {
    let mut generator = V1Generator::new(RandomNodeIdProvider);
    let uuid = v1(&mut generator).unwrap();
    assert_eq!((uuid.value() >> 76) & 0xf, 1);
    assert_eq!((uuid.value() >> 62) & 0x3, 0b10);
    assert_eq!(
        uuid.value() & 0xffff_ffff_ffff,
        generator.state().node_id() as u128
    );
    // A random node id has its multicast bit set.
    assert_eq!((uuid.value() >> 40) & 1, 1);
}

#[test]
fn providers_answer() {
    assert_eq!(StaticNodeIdProvider::new(NODE_ID).get_node_id(), NODE_ID);
    assert_eq!(StaticNodeIdProvider::new(u64::MAX).get_node_id(), u64::MAX);
    for _ in 0..64 {
        let id = RandomNodeIdProvider.get_node_id();
        assert!(id < (1 << 48));
        assert_eq!((id >> 40) & 1, 1);
    }
    assert_ne!(RandomNodeIdProvider.get_node_id(), RandomNodeIdProvider.get_node_id());
}

#[test]
fn error_in_words() {
    assert_eq!(
        Error::TooManyGenerated.message(),
        "Too many UUIDs generated in a single time interval"
    );
}

struct CountingProvider(std::cell::Cell<u64>);

impl NodeIdProvider for CountingProvider {
    fn get_node_id(&self) -> u64 {
        let id = self.0.get();
        self.0.set(id + 1);
        id
    }
}

#[test]
fn generate_follows_a_changing_node_id() {
    let mut generator = V1Generator::new(CountingProvider(std::cell::Cell::new(10)));
    assert_eq!(generator.state().node_id(), 10);
    let uuid = generator.generate().unwrap();
    assert_eq!(uuid.value() & 0xffff_ffff_ffff, 11);
    assert_eq!(generator.state().node_id(), 11);
    assert_eq!(
        (uuid.value() >> 48) & 0x3fff,
        generator.state().clock_seq() as u128
    );
}

#[test]
fn clock_readings_in_milliseconds() {
    assert_eq!(reading_to_millis(None), 0);
    assert_eq!(reading_to_millis(Some(0)), 0);
    assert_eq!(reading_to_millis(Some(1704288448382)), 1704288448382);
    assert_eq!(reading_to_millis(Some(u64::MAX as u128)), u64::MAX);
    assert_eq!(reading_to_millis(Some(u64::MAX as u128 + 1)), 0);
    assert_eq!(reading_to_millis(Some((1u128 << 64) + 7)), 7);
    assert_eq!(reading_to_millis(Some(u128::MAX)), u64::MAX);
}

#[test]
fn layout_holds_the_whole_time() {
    // A time of 2^60 + 0xbd0 steps: more than the sixty bits of the field.
    let state = TimeBasedState::new(0, Some(103072857660685), 0, 0).unwrap();
    let octets = state.layout_octets();
    assert_eq!(
        octets,
        [0x00, 0x00, 0x0b, 0xd0, 0x00, 0x00, 0x10, 0x00, 0, 0, 0, 0, 0, 0, 0, 0]
    );
    // Stamping writes the version over the high nibble of octet 6.
    let uuid = Uuid::from_octets(octets, 1);
    assert_eq!(uuid.to_string_hex(), "00000bd0-0000-1000-8000-000000000000");
    let d = UuidDetails::construct(&UuidFields::of(&uuid));
    assert_eq!(d.time, 0xbd0);
}

#[test]
fn layout_follows_the_fields() {
    let cases: [(u64, u64, u16, u32); 6] = [
        (NODE_ID, 1704288448382, 11338, 4850),
        (0, 0, 0, 0),
        (0xffff_ffff_ffff, 103072857660685, 0x3fff, 9999),
        (0x0123_4567_89ab, 1_000_000_000_000_000, 0x1234, 1),
        (1, 1832455114570955, 2, 1615),
        (0xa5a5_a5a5_a5a5, 1832455114570955, 0x2a5a, 0),
    ];
    for (node_id, msec, clock_seq, count) in cases {
        let state = TimeBasedState::new(node_id, Some(msec), clock_seq, count).unwrap();
        let octets = state.layout_octets();
        let ts: u64 = (msec + 12219292800000) * 10000 + count as u64;
        assert_eq!(octets[0..4], (ts as u32).to_be_bytes());
        assert_eq!(octets[4..6], ((ts >> 32) as u16).to_be_bytes());
        assert_eq!(octets[6..8], ((ts >> 48) as u16).to_be_bytes());
        assert_eq!(octets[8], ((clock_seq >> 8) & 0x3f) as u8);
        assert_eq!(octets[9], (clock_seq & 0xff) as u8);
        assert_eq!(octets[10..16], node_id.to_be_bytes()[2..8]);
        assert_eq!(
            (state.node_id(), state.last_timestamp_ms(), state.clock_seq(), state.generated_count()),
            (node_id, Some(msec), clock_seq, count)
        );
    }
}

#[test]
fn layout_keeps_the_low_bits_of_a_time_too_large() {
    // The steps of the last millisecond do not fit in 64 bits.
    let state = TimeBasedState::new(0, Some(u64::MAX), 0, 7).unwrap();
    let steps: u128 = (u64::MAX as u128 + 12219292800000) * 10000 + 7;
    let ts = steps as u64;
    let octets = state.layout_octets();
    assert_eq!(octets[0..4], (ts as u32).to_be_bytes());
    assert_eq!(octets[4..6], ((ts >> 32) as u16).to_be_bytes());
    assert_eq!(octets[6..8], ((ts >> 48) as u16).to_be_bytes());
}
