use crowdfund::error::CampaignError;
use crowdfund::instruction::{CreateFundPayload, CrowdfundInstruction};

fn create_instruction_bytes(name: &[u8], goal_amount: u64, deadline: i64) -> Vec<u8> {
    let mut bytes = vec![0u8];
    bytes.extend_from_slice(&(name.len() as u32).to_le_bytes());
    bytes.extend_from_slice(name);
    bytes.extend_from_slice(&goal_amount.to_le_bytes());
    bytes.extend_from_slice(&deadline.to_le_bytes());
    bytes
}

#[test]
fn unpack_parses_a_create_request() {
    let bytes = create_instruction_bytes(b"Save the turtles", 1_000_000, 1_700_000_000);
    let instruction = CrowdfundInstruction::unpack(&bytes).unwrap();
    assert_eq!(
        instruction,
        CrowdfundInstruction::CreateFund {
            payload: CreateFundPayload {
                name: b"Save the turtles".to_vec(),
                goal_amount: 1_000_000,
                deadline: 1_700_000_000,
            }
        }
    );
}

#[test]
fn unpack_parses_an_empty_name_and_negative_deadline() {
    let bytes = create_instruction_bytes(b"", 0, -42);
    let instruction = CrowdfundInstruction::unpack(&bytes).unwrap();
    assert_eq!(
        instruction,
        CrowdfundInstruction::CreateFund {
            payload: CreateFundPayload { name: Vec::new(), goal_amount: 0, deadline: -42 }
        }
    );
}

#[test]
fn unpack_rejects_an_empty_buffer() {
    assert_eq!(
        CrowdfundInstruction::unpack(&[]),
        Err(CampaignError::MalformedInstruction)
    );
}

#[test]
fn unpack_rejects_unknown_opcodes() {
    assert_eq!(
        CrowdfundInstruction::unpack(&[7]),
        Err(CampaignError::UnsupportedOpcode)
    );
    assert_eq!(
        CrowdfundInstruction::unpack(&[1, 0, 0, 0, 0]),
        Err(CampaignError::UnsupportedOpcode)
    );
    assert_eq!(
        CrowdfundInstruction::unpack(&[255]),
        Err(CampaignError::UnsupportedOpcode)
    );
}

#[test]
fn unpack_rejects_insufficient_trailing_bytes() {
    // Length prefix present but the announced name and the integer
    // fields are cut short.
    let mut bytes = create_instruction_bytes(b"abc", 5, 9);
    bytes.truncate(bytes.len() - 1);
    assert_eq!(
        CrowdfundInstruction::unpack(&bytes),
        Err(CampaignError::MalformedInstruction)
    );
    // Prefix announces more name bytes than the buffer holds.
    let bytes = [0u8, 200, 0, 0, 0, b'a', b'b'];
    assert_eq!(
        CrowdfundInstruction::unpack(&bytes),
        Err(CampaignError::MalformedInstruction)
    );
    // Opcode alone, payload missing entirely.
    assert_eq!(
        CrowdfundInstruction::unpack(&[0]),
        Err(CampaignError::MalformedInstruction)
    );
}

#[test]
fn unpack_rejects_trailing_bytes() {
    let mut bytes = create_instruction_bytes(b"abc", 5, 9);
    bytes.push(0);
    assert_eq!(
        CrowdfundInstruction::unpack(&bytes),
        Err(CampaignError::MalformedInstruction)
    );
}

#[test]
fn unpack_rejects_a_name_that_is_not_utf8() {
    let bytes = create_instruction_bytes(&[0xff, 0xfe], 5, 9);
    assert_eq!(
        CrowdfundInstruction::unpack(&bytes),
        Err(CampaignError::MalformedInstruction)
    );
    // The same buffer with a valid name is accepted: the check reads
    // the actual bytes, not just their count.
    let bytes = create_instruction_bytes(&[0xc3, 0xa9], 5, 9);
    assert!(CrowdfundInstruction::unpack(&bytes).is_ok());
}
