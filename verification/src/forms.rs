//! Field validation and notification text for the two supported forms:
//! guild applications and contact messages.
//!
//! An application carries an ArenaNet account, a Discord account, five
//! yes/no answers, two professions and a free-text message; a contact
//! message carries a name, an email address and a free-text message.
//! Accounts and addresses are accepted by fixed anchored patterns; the
//! accepted submission is rendered into the title and description of the
//! outbound notification.

use vstd::prelude::*;

verus! {

/// Whether a string matches the ArenaNet account pattern
/// `^[\w\s]{3,27}\.\d{4}$`: 3 to 27 word or whitespace characters, a dot,
/// and four decimal digits.
pub uninterp spec fn is_arenanet_account(s: Seq<char>) -> bool;

/// Whether a string matches the Discord account pattern `^.*#[0-9]{4}$`:
/// anything followed by `#` and four decimal digits.
pub uninterp spec fn is_discord_account(s: Seq<char>) -> bool;

/// Whether a string matches the email address pattern
/// `^[a-zA-Z0-9.!#$%&’*+/=?^_`{|}~-]+@[a-zA-Z0-9-]+(?:\.[a-zA-Z0-9-]+)*$`.
pub uninterp spec fn is_email_address(s: Seq<char>) -> bool;

/// Relies on regex::Regex::is_match with the anchored pattern
/// `^[\w\s]{3,27}\.\d{4}$`, built by regex::Regex::new: whether a string
/// matches the pattern is a function of the string alone.
#[verifier::external_body]
fn arenanet_matches(text: &str) -> (r: bool)
    ensures
        r == is_arenanet_account(text@),
{
    regex::Regex::new(r"^[\w\s]{3,27}\.\d{4}$").unwrap().is_match(text)
}

/// Relies on regex::Regex::is_match with the anchored pattern
/// `^.*#[0-9]{4}$`, built by regex::Regex::new: whether a string matches
/// the pattern is a function of the string alone.
#[verifier::external_body]
fn discord_matches(text: &str) -> (r: bool)
    ensures
        r == is_discord_account(text@),
{
    regex::Regex::new(r"^.*#[0-9]{4}$").unwrap().is_match(text)
}

/// Relies on regex::Regex::is_match with the anchored pattern
/// `^[a-zA-Z0-9.!#$%&’*+/=?^_`{|}~-]+@[a-zA-Z0-9-]+(?:\.[a-zA-Z0-9-]+)*$`,
/// built by regex::Regex::new: whether a string matches the pattern is a
/// function of the string alone.
#[verifier::external_body]
fn email_matches(text: &str) -> (r: bool)
    ensures
        r == is_email_address(text@),
{
    regex::Regex::new(r"^[a-zA-Z0-9.!#$%&’*+/=?^_`{|}~-]+@[a-zA-Z0-9-]+(?:\.[a-zA-Z0-9-]+)*$")
        .unwrap()
        .is_match(text)
}

/// Accepts an ArenaNet account field: the value passes through unchanged
/// exactly when it matches the account pattern.
pub fn check_arenanet_account(account: String) -> (r: Result<String, &'static str>)
    ensures
        r is Ok <==> is_arenanet_account(account@),
        r is Ok ==> r->Ok_0@ == account@,
        r is Err ==> r->Err_0@ == "wrong Arenanet account format"@,
{
    if arenanet_matches(account.as_str()) {
        Ok(account)
    } else {
        Err("wrong Arenanet account format")
    }
}

/// Accepts a Discord account field: the value passes through unchanged
/// exactly when it matches the account pattern.
pub fn check_discord_account(account: String) -> (r: Result<String, &'static str>)
    ensures
        r is Ok <==> is_discord_account(account@),
        r is Ok ==> r->Ok_0@ == account@,
        r is Err ==> r->Err_0@ == "wrong Discord account format"@,
{
    if discord_matches(account.as_str()) {
        Ok(account)
    } else {
        Err("wrong Discord account format")
    }
}

/// Accepts an email address field: the value passes through unchanged
/// exactly when it matches the address pattern.
pub fn check_email_address(address: String) -> (r: Result<String, &'static str>)
    ensures
        r is Ok <==> is_email_address(address@),
        r is Ok ==> r->Ok_0@ == address@,
        r is Err ==> r->Err_0@ == "wrong email address format"@,
{
    if email_matches(address.as_str()) {
        Ok(address)
    } else {
        Err("wrong email address format")
    }
}

/// The answer to a yes/no question, as rendered in the notification text.
pub open spec fn yes_no_chars(value: bool) -> Seq<char> {
    if value {
        "Yes"@
    } else {
        "No"@
    }
}

/// Renders a yes/no answer.
pub fn yes_no(value: bool) -> (r: &'static str)
    ensures
        r@ == yes_no_chars(value),
{
    if value {
        "Yes"
    } else {
        "No"
    }
}

/// A playable profession named on an application, with its elite
/// specialisations spelled out in the notification text.
#[derive(Clone, Copy, Debug)]
pub enum Profession {
    Warrior,
    Guardian,
    Revenant,
    Ranger,
    Thief,
    Engineer,
    Elementalist,
    Necromancer,
    Mesmer,
}

/// The display label of a profession.
pub open spec fn profession_chars(p: Profession) -> Seq<char> {
    match p {
        Profession::Warrior => "Warrior / Berserker / Spellbreaker"@,
        Profession::Guardian => "Guardian / Dragonhunter / Firebrand"@,
        Profession::Revenant => "Revenant / Herald / Renegade"@,
        Profession::Ranger => "Ranger / Druid / Soulbeast"@,
        Profession::Thief => "Thief / Daredevil / Deadeye"@,
        Profession::Engineer => "Engineer / Scrapper / Holosmith"@,
        Profession::Elementalist => "Elementalist / Tempest / Weaver"@,
        Profession::Necromancer => "Necromancer / Reaper / Scourge"@,
        Profession::Mesmer => "Mesmer / Chronomancer / Mirage"@,
    }
}

impl Profession {
    /// The display label of the profession.
    pub fn label(&self) -> (r: &'static str)
        ensures
            r@ == profession_chars(*self),
    {
        match self {
            Profession::Warrior => "Warrior / Berserker / Spellbreaker",
            Profession::Guardian => "Guardian / Dragonhunter / Firebrand",
            Profession::Revenant => "Revenant / Herald / Renegade",
            Profession::Ranger => "Ranger / Druid / Soulbeast",
            Profession::Thief => "Thief / Daredevil / Deadeye",
            Profession::Engineer => "Engineer / Scrapper / Holosmith",
            Profession::Elementalist => "Elementalist / Tempest / Weaver",
            Profession::Necromancer => "Necromancer / Reaper / Scourge",
            Profession::Mesmer => "Mesmer / Chronomancer / Mirage",
        }
    }
}

/// The notification title of an application.
pub open spec fn apply_title_chars(id: Seq<char>, account: Seq<char>, discord: Seq<char>)
    -> Seq<char> {
    "Application "@ + id + " from \""@ + account + "\" ("@ + discord + ")"@
}

/// Renders the notification title of an application, naming its reference
/// code, ArenaNet account and Discord account.
pub fn apply_title(id: &str, account: &str, discord: &str) -> (r: String)
    ensures
        r@ == apply_title_chars(id@, account@, discord@),
{
    let mut out = String::from_str("Application ");
    out.append(id);
    out.append(" from \"");
    out.append(account);
    out.append("\" (");
    out.append(discord);
    out.append(")");
    proof {
        assert(out@ =~= apply_title_chars(id@, account@, discord@));
    }
    out
}

/// The notification title of a contact message.
pub open spec fn contact_title_chars(id: Seq<char>, name: Seq<char>, email: Seq<char>)
    -> Seq<char> {
    "Message "@ + id + " from \""@ + name + "\" ("@ + email + ")"@
}

/// Renders the notification title of a contact message, naming its
/// reference code, sender name and email address.
pub fn contact_title(id: &str, name: &str, email: &str) -> (r: String)
    ensures
        r@ == contact_title_chars(id@, name@, email@),
{
    let mut out = String::from_str("Message ");
    out.append(id);
    out.append(" from \"");
    out.append(name);
    out.append("\" (");
    out.append(email);
    out.append(")");
    proof {
        assert(out@ =~= contact_title_chars(id@, name@, email@));
    }
    out
}

/// The notification description of an application: the five yes/no
/// answers, the two professions, and the applicant's message in a fenced
/// block.
pub open spec fn apply_description_chars(
    age: bool,
    goals: bool,
    times: bool,
    microphone: bool,
    commands: bool,
    main: Profession,
    alt: Profession,
    message: Seq<char>,
) -> Seq<char> {
    "\nIs age 18 or older: "@ + yes_no_chars(age)
        + "\nDoes understand visions and goals: "@ + yes_no_chars(goals)
        + "\nDoes run with us in weekend: "@ + yes_no_chars(times)
        + "\nDoes have a working microphone: "@ + yes_no_chars(microphone)
        + "\nDoes have a willing to command: "@ + yes_no_chars(commands)
        + "\nProfessions: "@ + profession_chars(main) + " & "@ + profession_chars(alt)
        + "\n**Messages**\n```"@ + message + "```\n"@
}

/// Renders the notification description of an application.
pub fn apply_description(
    age: bool,
    goals: bool,
    times: bool,
    microphone: bool,
    commands: bool,
    main: Profession,
    alt: Profession,
    message: &str,
) -> (r: String)
    ensures
        r@ == apply_description_chars(age, goals, times, microphone, commands, main, alt,
            message@),
{
    let mut out = String::from_str("\nIs age 18 or older: ");
    out.append(yes_no(age));
    out.append("\nDoes understand visions and goals: ");
    out.append(yes_no(goals));
    out.append("\nDoes run with us in weekend: ");
    out.append(yes_no(times));
    out.append("\nDoes have a working microphone: ");
    out.append(yes_no(microphone));
    out.append("\nDoes have a willing to command: ");
    out.append(yes_no(commands));
    out.append("\nProfessions: ");
    out.append(main.label());
    out.append(" & ");
    out.append(alt.label());
    out.append("\n**Messages**\n```");
    out.append(message);
    out.append("```\n");
    proof {
        assert(out@ =~= apply_description_chars(age, goals, times, microphone, commands, main,
            alt, message@));
    }
    out
}

} // verus!
