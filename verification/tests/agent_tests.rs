use sloppy::agent::FundraisingAttempt;
use sloppy::agent::Sloppy;
use sloppy::agent::SocialMediaPost;
use sloppy::auth::bearer_header_value;

#[test]
fn new_agent_starts_empty() {
    let agent = Sloppy::new();
    assert_eq!(agent.wallet.onchain_sats, 0);
    assert_eq!(agent.wallet.lightning_sats, 0);
    assert!(agent.fundraising_history.is_empty());
}

#[test]
fn refresh_wallet_records_reported_balance_in_sats() {
    let mut agent = Sloppy::new();
    agent.refresh_wallet(2500999);
    assert_eq!(agent.wallet.lightning_sats, 2500);
    assert_eq!(agent.wallet.onchain_sats, 0);
    agent.refresh_wallet(999);
    assert_eq!(agent.wallet.lightning_sats, 0);
}

#[test]
fn history_grows_by_one_attempt() {
    let mut agent = Sloppy::new();
    let attempt = FundraisingAttempt {
        timestamp: 1700000000,
        post_content: SocialMediaPost {
            content: String::from("please help"),
            platform: String::from("nostr"),
            timestamp: 1700000000,
        },
        donations_received_sats: 3000,
        donor_count: 2,
    };
    agent.update_fundraising_history(attempt);
    assert_eq!(agent.fundraising_history.len(), 1);
    assert_eq!(agent.fundraising_history[0].donor_count, 2);
    assert_eq!(agent.fundraising_history[0].post_content.content, "please help");
}

#[test]
fn bearer_header_prefixes_the_key() {
    assert_eq!(bearer_header_value("abc123"), "Bearer abc123");
    assert_eq!(bearer_header_value(""), "Bearer ");
}
