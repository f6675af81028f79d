use form_relay::apply_description;
use form_relay::apply_title;
use form_relay::check_arenanet_account;
use form_relay::check_discord_account;
use form_relay::check_email_address;
use form_relay::contact_title;
use form_relay::process_outcome;
use form_relay::yes_no;
use form_relay::Profession;

#[test]
fn test_arenanet_account_accepted() {
    assert_eq!(check_arenanet_account("Foo Bar.1234".to_string()), Ok("Foo Bar.1234".to_string()));
    assert_eq!(check_arenanet_account("abc.0000".to_string()), Ok("abc.0000".to_string()));
}

#[test]
fn test_arenanet_account_rejected() {
    assert_eq!(check_arenanet_account("ab.1234".to_string()), Err("wrong Arenanet account format"));
    assert_eq!(check_arenanet_account("Foo Bar.123".to_string()), Err("wrong Arenanet account format"));
    assert_eq!(check_arenanet_account("Foo Bar1234".to_string()), Err("wrong Arenanet account format"));
}

#[test]
fn test_discord_account() {
    assert_eq!(check_discord_account("user#1234".to_string()), Ok("user#1234".to_string()));
    assert_eq!(check_discord_account("#0000".to_string()), Ok("#0000".to_string()));
    assert_eq!(check_discord_account("user#123".to_string()), Err("wrong Discord account format"));
    assert_eq!(check_discord_account("user1234".to_string()), Err("wrong Discord account format"));
}

#[test]
fn test_email_address() {
    assert_eq!(check_email_address("a.b@example.com".to_string()), Ok("a.b@example.com".to_string()));
    assert_eq!(check_email_address("user@host".to_string()), Ok("user@host".to_string()));
    assert_eq!(check_email_address("not-an-email".to_string()), Err("wrong email address format"));
    assert_eq!(check_email_address("a b@example.com".to_string()), Err("wrong email address format"));
}

#[test]
fn test_yes_no() {
    assert_eq!(yes_no(true), "Yes");
    assert_eq!(yes_no(false), "No");
}

#[test]
fn test_profession_labels() {
    assert_eq!(Profession::Warrior.label(), "Warrior / Berserker / Spellbreaker");
    assert_eq!(Profession::Guardian.label(), "Guardian / Dragonhunter / Firebrand");
    assert_eq!(Profession::Revenant.label(), "Revenant / Herald / Renegade");
    assert_eq!(Profession::Ranger.label(), "Ranger / Druid / Soulbeast");
    assert_eq!(Profession::Thief.label(), "Thief / Daredevil / Deadeye");
    assert_eq!(Profession::Engineer.label(), "Engineer / Scrapper / Holosmith");
    assert_eq!(Profession::Elementalist.label(), "Elementalist / Tempest / Weaver");
    assert_eq!(Profession::Necromancer.label(), "Necromancer / Reaper / Scourge");
    assert_eq!(Profession::Mesmer.label(), "Mesmer / Chronomancer / Mirage");
}

#[test]
fn test_apply_title() {
    assert_eq!(
        apply_title("#AP2600000000", "Foo Bar.1234", "user#1234"),
        "Application #AP2600000000 from \"Foo Bar.1234\" (user#1234)"
    );
}

#[test]
fn test_contact_title() {
    assert_eq!(
        contact_title("#CM2600000000", "Jo", "a.b@example.com"),
        "Message #CM2600000000 from \"Jo\" (a.b@example.com)"
    );
}

#[test]
fn test_apply_description() {
    let description = apply_description(
        true,
        false,
        true,
        true,
        false,
        Profession::Mesmer,
        Profession::Thief,
        "hello there",
    );
    let expected = "
Is age 18 or older: Yes
Does understand visions and goals: No
Does run with us in weekend: Yes
Does have a working microphone: Yes
Does have a willing to command: No
Professions: Mesmer / Chronomancer / Mirage & Thief / Daredevil / Deadeye
**Messages**
```hello there```
";
    assert_eq!(description, expected);
}

#[test]
fn test_process_outcome() {
    assert!(process_outcome(true, true).is_ok());
    let parse_error = process_outcome(false, true).unwrap_err();
    assert_eq!(parse_error.message(), "Error while parsing request");
    let parse_error_first = process_outcome(false, false).unwrap_err();
    assert_eq!(parse_error_first.message(), "Error while parsing request");
    let send_error = process_outcome(true, false).unwrap_err();
    assert_eq!(send_error.message(), "Error while sending webhook");
}
