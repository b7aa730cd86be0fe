use session_wallet::{Address, InitializeSession, SessionWallet};

const PROGRAM: Address = Address {
    bytes: [
        6, 138, 100, 150, 74, 108, 123, 53, 254, 48, 228, 29, 120, 238, 203, 24, 109, 65, 250, 102,
        181, 146, 49, 248, 222, 117, 251, 42, 254, 121, 127, 133,
    ],
};

const RECORD_OF_SESSION_1: [u8; 32] = [
    30, 118, 75, 252, 165, 176, 61, 109, 196, 197, 138, 196, 130, 166, 223, 33, 79, 122, 237, 90,
    229, 158, 35, 123, 43, 61, 7, 18, 37, 151, 125, 72,
];

const RECORD_OF_BETA: [u8; 32] = [
    27, 14, 134, 207, 79, 104, 250, 120, 147, 89, 193, 169, 239, 156, 123, 232, 166, 160, 72, 177,
    194, 95, 253, 75, 222, 199, 172, 209, 186, 218, 118, 74,
];

const RECORD_OF_S23: [u8; 32] = [
    68, 68, 129, 34, 22, 253, 133, 161, 88, 196, 108, 16, 207, 100, 120, 243, 61, 90, 182, 36, 93,
    59, 44, 10, 99, 224, 254, 32, 114, 205, 73, 46,
];

fn addr(tag: u8) -> Address {
    Address { bytes: [tag; 32] }
}

fn locate(session_id: &str) -> Option<InitializeSession> {
    InitializeSession::locate(&PROGRAM, session_id, addr(1), addr(2), addr(3))
}

fn wallet(session_id: &str, bump: u8) -> SessionWallet {
    SessionWallet {
        authority: addr(1),
        session_id: session_id.to_string(),
        created_at: 0,
        last_activity: 0,
        initial_balance: 0,
        current_balance: 0,
        is_active: true,
        bump,
    }
}

#[test]
fn locate_finds_the_record_of_a_session() {
    let ctx = locate("session-1").unwrap();
    assert_eq!(
        ctx,
        InitializeSession {
            session_wallet: Address { bytes: RECORD_OF_SESSION_1 },
            bump: 255,
            treasury_token_account: addr(2),
            session_token_account: addr(3),
            authority: addr(1),
        }
    );
}

#[test]
fn locate_steps_down_to_the_first_bump_that_derives() {
    let ctx = locate("beta").unwrap();
    assert_eq!(ctx.bump, 254);
    assert_eq!(ctx.session_wallet.bytes, RECORD_OF_BETA);
    let ctx = locate("s23").unwrap();
    assert_eq!(ctx.bump, 249);
    assert_eq!(ctx.session_wallet.bytes, RECORD_OF_S23);
}

#[test]
fn locate_depends_on_the_program() {
    let here = locate("session-1").unwrap();
    let there =
        InitializeSession::locate(&addr(0), "session-1", addr(1), addr(2), addr(3)).unwrap();
    assert_ne!(here.session_wallet, there.session_wallet);
}

#[test]
fn locate_tells_sessions_apart() {
    let one = locate("alpha").unwrap();
    let other = locate("alphb").unwrap();
    assert_ne!(one.session_wallet, other.session_wallet);
}

#[test]
fn locate_takes_identifiers_up_to_the_longest_seed() {
    assert!(locate("").is_some());
    assert!(locate(&"a".repeat(32)).is_some());
    assert_eq!(locate(&"a".repeat(33)), None);
    assert_eq!(locate(&"a".repeat(64)), None);
}

#[test]
fn record_is_at_the_address_that_was_located() {
    let ctx = locate("beta").unwrap();
    let record = wallet("beta", ctx.bump);
    assert!(record.is_at(&ctx.session_wallet, &PROGRAM));
    assert!(record.is_at(&Address { bytes: RECORD_OF_BETA }, &PROGRAM));
}

#[test]
fn record_is_at_no_other_address() {
    assert!(!wallet("beta", 254).is_at(&Address { bytes: RECORD_OF_SESSION_1 }, &PROGRAM));
    assert!(!wallet("beta", 254).is_at(&Address { bytes: RECORD_OF_BETA }, &addr(0)));
    assert!(!wallet("beta", 253).is_at(&Address { bytes: RECORD_OF_BETA }, &PROGRAM));
    assert!(!wallet("betb", 254).is_at(&Address { bytes: RECORD_OF_BETA }, &PROGRAM));
}

#[test]
fn record_with_a_bump_that_derives_nothing_is_nowhere() {
    let record = wallet("beta", 255);
    assert!(!record.is_at(&Address { bytes: RECORD_OF_BETA }, &PROGRAM));
    assert!(!record.is_at(&addr(0), &PROGRAM));
}

#[test]
fn record_with_too_long_an_identifier_is_nowhere() {
    let record = wallet(&"a".repeat(33), 255);
    assert!(!record.is_at(&addr(0), &PROGRAM));
}
