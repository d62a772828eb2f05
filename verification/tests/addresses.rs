use prize::address::find_bounty_address;
use prize::address::find_config_address;
use prize::instructions::create_bounty::CreateBounty;
use prize::instructions::initialize::Initialize;
use prize::ledger::Ledger;
use prize::pubkey::Pubkey;
use prize::{create_bounty, initialize};

/// The identity under which the program is deployed.
fn program_id() -> Pubkey {
    Pubkey::new_from_array([
        5, 101, 153, 224, 180, 209, 154, 74, 42, 213, 22, 154, 237, 70, 137, 205, 131, 46, 223, 234, 94, 108,
        161, 232, 136, 179, 247, 216, 31, 188, 233, 85,
    ])
}

#[test]
fn the_registry_has_its_address() {
    let (address, bump) = find_config_address(&program_id()).unwrap();
    assert_eq!(bump, 253);
    assert_eq!(
        address.to_bytes(),
        [
            196, 114, 233, 83, 119, 17, 241, 75, 31, 61, 47, 242, 131, 54, 115, 90, 128, 109, 213, 157, 62,
            37, 242, 191, 78, 253, 255, 82, 71, 189, 66, 143,
        ]
    );
}

#[test]
fn a_bounty_has_its_address() {
    let (address, bump) = find_bounty_address(&program_id(), 1).unwrap();
    assert_eq!(bump, 255);
    assert_eq!(
        address.to_bytes(),
        [
            136, 191, 217, 31, 225, 120, 157, 63, 54, 203, 204, 184, 199, 64, 100, 189, 202, 105, 106, 26,
            65, 122, 245, 24, 99, 48, 227, 221, 131, 11, 72, 154,
        ]
    );
}

#[test]
fn the_id_enters_the_address_least_significant_byte_first() {
    let (address, bump) = find_bounty_address(&program_id(), 258).unwrap();
    assert_eq!(bump, 255);
    assert_eq!(
        address.to_bytes(),
        [
            37, 240, 19, 210, 103, 54, 136, 213, 239, 233, 165, 94, 169, 159, 192, 202, 241, 37, 59, 51, 233,
            60, 106, 128, 208, 187, 236, 200, 238, 179, 74, 30,
        ]
    );
}

#[test]
fn the_address_depends_on_the_program() {
    let other = Pubkey::new_from_array([7; 32]);
    let (address, bump) = find_bounty_address(&other, 1).unwrap();
    assert_eq!(bump, 254);
    assert_eq!(
        address.to_bytes(),
        [
            121, 169, 86, 69, 241, 46, 221, 193, 64, 248, 51, 95, 116, 217, 178, 107, 158, 89, 60, 247, 97,
            160, 107, 216, 201, 204, 100, 221, 24, 200, 9, 4,
        ]
    );
    let (address, bump) = find_config_address(&other).unwrap();
    assert_eq!(bump, 255);
    assert_eq!(
        address.to_bytes(),
        [
            43, 116, 166, 110, 194, 226, 152, 95, 196, 199, 77, 27, 125, 52, 242, 0, 169, 152, 201, 153, 63,
            107, 146, 111, 152, 241, 234, 242, 94, 159, 120, 239,
        ]
    );
}

#[test]
fn deriving_twice_gives_the_same_address() {
    assert_eq!(find_bounty_address(&program_id(), 9), find_bounty_address(&program_id(), 9));
    assert_ne!(find_bounty_address(&program_id(), 9), find_bounty_address(&program_id(), 10));
    assert_ne!(find_bounty_address(&program_id(), 0), find_config_address(&program_id()));
}

#[test]
fn the_participants_carry_the_derived_bump_seeds() {
    let authority = Pubkey::new_from_array([1; 32]);
    let ctx = Initialize::resolve(&program_id(), authority).unwrap();
    assert_eq!(ctx.authority, authority);
    assert_eq!(ctx.bump, 253);
    let ctx = CreateBounty::resolve(&program_id(), authority, 1).unwrap();
    assert_eq!(ctx.creator, authority);
    assert_eq!(ctx.bump, 255);
    let ctx = CreateBounty::resolve(&Pubkey::new_from_array([7; 32]), authority, 1).unwrap();
    assert_eq!(ctx.bump, 254);
}

#[test]
fn the_records_store_the_derived_bump_seeds() {
    let program = Pubkey::new_from_array([7; 32]);
    let creator = Pubkey::new_from_array([1; 32]);
    let mut ledger = Ledger::new(0);
    assert!(ledger.fund(creator, 10));
    let ctx = Initialize::resolve(&program, creator).unwrap();
    assert_eq!(initialize(&mut ledger, ctx), Ok(()));
    let ctx = CreateBounty::resolve(&program, creator, 1).unwrap();
    assert_eq!(create_bounty(&mut ledger, ctx, 1, 10, String::new(), String::new(), 0), Ok(()));
    assert_eq!(ledger.config().unwrap().bump, 255);
    assert_eq!(ledger.bounty(1).unwrap().data.bump, 254);
}
