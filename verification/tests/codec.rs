use crowdfund::address::Address;
use crowdfund::error::CampaignError;
use crowdfund::state::{Crowdfund, CROWDFUND_ACCOUNT_SIZE};

fn sample_record() -> Crowdfund {
    Crowdfund {
        is_initialized: true,
        name: b"Save the turtles".to_vec(),
        initializer_pubkey: Address::new([7u8; 32]),
        goal_amount: 1_000_000,
        deadline: 1_700_000_000,
        bump: 254,
    }
}

#[test]
fn round_trip_recovers_every_field() {
    let record = sample_record();
    let bytes = record.encode().unwrap();
    assert_eq!(bytes.len(), CROWDFUND_ACCOUNT_SIZE);
    let back = Crowdfund::decode(&bytes).unwrap();
    assert_eq!(back, record);
}

#[test]
fn round_trip_with_negative_deadline_and_extreme_fields() {
    let record = Crowdfund {
        is_initialized: false,
        name: vec![0xffu8; 256],
        initializer_pubkey: Address::new([0u8; 32]),
        goal_amount: u64::MAX,
        deadline: -1,
        bump: 0,
    };
    let bytes = record.encode().unwrap();
    let back = Crowdfund::decode(&bytes).unwrap();
    assert_eq!(back, record);
}

#[test]
fn encode_writes_the_documented_layout() {
    let record = sample_record();
    let bytes = record.encode().unwrap();
    assert_eq!(bytes[0], 1);
    assert_eq!(&bytes[1..5], &[16, 0, 0, 0]);
    assert_eq!(&bytes[5..21], b"Save the turtles".as_slice());
    assert!(bytes[21..261].iter().all(|b| *b == 0));
    assert_eq!(&bytes[261..293], &[7u8; 32]);
    assert_eq!(&bytes[293..301], &1_000_000u64.to_le_bytes());
    assert_eq!(&bytes[301..309], &1_700_000_000i64.to_le_bytes());
    assert_eq!(bytes[309], 254);
}

#[test]
fn encode_rejects_over_long_name_without_truncating() {
    let mut record = sample_record();
    record.name = vec![b'x'; 257];
    assert_eq!(record.encode(), Err(CampaignError::NameTooLong));
    record.name = vec![b'x'; 300];
    assert_eq!(record.encode(), Err(CampaignError::NameTooLong));
    record.name = vec![b'x'; 256];
    assert_eq!(record.encode().unwrap().len(), 310);
}

#[test]
fn decode_rejects_bad_creation_guard() {
    for guard in [2u8, 3, 7, 255] {
        let mut bytes = vec![0u8; 310];
        bytes[0] = guard;
        assert_eq!(Crowdfund::decode(&bytes), Err(CampaignError::CorruptRecord));
    }
}

#[test]
fn decode_rejects_wrong_length() {
    assert_eq!(Crowdfund::decode(&[]), Err(CampaignError::CorruptRecord));
    assert_eq!(
        Crowdfund::decode(&vec![0u8; 309]),
        Err(CampaignError::CorruptRecord)
    );
    assert_eq!(
        Crowdfund::decode(&vec![0u8; 311]),
        Err(CampaignError::CorruptRecord)
    );
}

#[test]
fn decode_is_total_over_numeric_bit_patterns() {
    let mut bytes = vec![0xffu8; 310];
    bytes[0] = 1;
    // Name bytes need no UTF-8 validity: the codec stores raw bytes.
    let record = Crowdfund::decode(&bytes).unwrap();
    assert!(record.is_initialized);
    assert_eq!(record.name, vec![0xffu8; 256]);
    assert_eq!(record.goal_amount, u64::MAX);
    assert_eq!(record.deadline, -1);
    assert_eq!(record.bump, 0xff);
}

#[test]
fn decode_trims_trailing_zero_padding_only() {
    let mut bytes = vec![0u8; 310];
    bytes[0] = 0;
    bytes[5] = b'a';
    bytes[6] = 0;
    bytes[7] = b'b';
    let record = Crowdfund::decode(&bytes).unwrap();
    // The embedded zero survives; only the trailing run is padding.
    assert_eq!(record.name, vec![b'a', 0, b'b']);
    assert!(!record.is_initialized);
}
