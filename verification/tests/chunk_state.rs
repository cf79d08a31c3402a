use om_snapper::chunk_state::{
    DONE_BYTE, FAILED_BYTE, INVALID_BYTE, IN_PROGRESS_BYTE, TODO_BYTE,
};
use om_snapper::ChunkState;

const ALL_STATES: [ChunkState; 5] = [
    ChunkState::Todo,
    ChunkState::InProgress,
    ChunkState::Failed,
    ChunkState::Invalid,
    ChunkState::Done,
];

#[test]
fn each_state_has_its_bit_pattern() {
    assert_eq!(u8::from(ChunkState::Todo), 0b0000_0000);
    assert_eq!(u8::from(ChunkState::InProgress), 0b0100_0000);
    assert_eq!(u8::from(ChunkState::Failed), 0b1000_0000);
    assert_eq!(u8::from(ChunkState::Invalid), 0b1010_1010);
    assert_eq!(u8::from(ChunkState::Done), 0b1111_1111);
}

#[test]
fn byte_constants_are_the_encodings() {
    assert_eq!(TODO_BYTE, u8::from(ChunkState::Todo));
    assert_eq!(IN_PROGRESS_BYTE, u8::from(ChunkState::InProgress));
    assert_eq!(FAILED_BYTE, u8::from(ChunkState::Failed));
    assert_eq!(INVALID_BYTE, u8::from(ChunkState::Invalid));
    assert_eq!(DONE_BYTE, u8::from(ChunkState::Done));
}

#[test]
fn encoding_then_decoding_gives_the_state_back() {
    for state in ALL_STATES {
        assert_eq!(ChunkState::from(u8::from(state)), state);
    }
}

#[test]
fn encodings_are_pairwise_distinct() {
    for (i, a) in ALL_STATES.iter().enumerate() {
        for (j, b) in ALL_STATES.iter().enumerate() {
            if i != j {
                assert_ne!(u8::from(*a), u8::from(*b));
            }
        }
    }
}

#[test]
fn every_unknown_byte_decodes_to_invalid() {
    let known = [0b0000_0000u8, 0b0100_0000, 0b1000_0000, 0b1010_1010, 0b1111_1111];
    let mut unknown = 0;
    for byte in 0..=255u8 {
        if !known.contains(&byte) {
            assert_eq!(ChunkState::from(byte), ChunkState::Invalid, "byte {byte:#010b}");
            unknown += 1;
        }
    }
    assert_eq!(unknown, 251);
}

#[test]
fn stray_low_bits_are_not_taken_for_a_state() {
    assert_eq!(ChunkState::from(0b0000_0100), ChunkState::Invalid);
    assert_eq!(ChunkState::from(0b0000_0001), ChunkState::Invalid);
    assert_eq!(ChunkState::from(0b0100_0001), ChunkState::Invalid);
    assert_eq!(ChunkState::from(0b1111_1110), ChunkState::Invalid);
}

#[test]
fn a_valid_state_never_reads_back_as_invalid() {
    for state in ALL_STATES {
        if state != ChunkState::Invalid {
            assert_ne!(ChunkState::from(u8::from(state)), ChunkState::Invalid);
        }
    }
}

#[test]
fn the_default_state_is_todo() {
    assert_eq!(ChunkState::default(), ChunkState::Todo);
    assert_eq!(u8::from(ChunkState::default()), 0);
}
