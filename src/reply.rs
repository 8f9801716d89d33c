//! The replies the bot sends: plain texts and embeds.
use vstd::prelude::*;
use vstd::string::*;
use crate::command::CommandError;
use crate::status::{LiveStatus, StatusError, outcome_view};
use crate::text::{decimal, hundredths_text, push_decimal, push_hundredths, push_seconds, seconds_text};

verus! {

/// One titled field of an embed.
pub struct EmbedField {
    pub name: String,
    pub value: String,
}

/// A structured message: a title, fields in order, and an optional footer.
pub struct Embed {
    pub title: String,
    pub fields: Vec<EmbedField>,
    pub footer: Option<String>,
}

/// A message to send.
pub enum Reply {
    Text(String),
    Embed(Embed),
}

/// The mathematical form of an [`Embed`].
pub ghost struct EmbedModel {
    pub title: Seq<char>,
    pub fields: Seq<(Seq<char>, Seq<char>)>,
    pub footer: Option<Seq<char>>,
}

/// The mathematical form of a [`Reply`].
pub ghost enum ReplyModel {
    Text(Seq<char>),
    Embed(EmbedModel),
}

impl View for Embed {
    type V = EmbedModel;

    open spec fn view(&self) -> EmbedModel {
        EmbedModel {
            title: self.title@,
            fields: self.fields@.map_values(|f: EmbedField| (f.name@, f.value@)),
            footer: match self.footer {
                Some(s) => Some(s@),
                None => None,
            },
        }
    }
}

impl View for Reply {
    type V = ReplyModel;

    open spec fn view(&self) -> ReplyModel {
        match self {
            Reply::Text(s) => ReplyModel::Text(s@),
            Reply::Embed(e) => ReplyModel::Embed(e@),
        }
    }
}

/// The name shown for an author: the guild nickname if there is one, else
/// the account name.
pub open spec fn shown_name(nick: Option<Seq<char>>, account: Seq<char>) -> Seq<char> {
    match nick {
        Some(n) => n,
        None => account,
    }
}

pub open spec fn ping_text(name: Seq<char>, nanos: nat) -> Seq<char> {
    "I received a ping! \n Their name in this guild is "@ + name + " \n This message took "@
        + seconds_text(nanos) + " seconds to generate."@
}

pub open spec fn command_error_text(e: CommandError) -> Seq<char> {
    match e {
        CommandError::NotInGuild => "This command only works in a server."@,
        CommandError::UsageError => "Usage: !islive <username>"@,
    }
}

pub open spec fn live_word(is_live: bool) -> Seq<char> {
    if is_live { "live"@ } else { "not live"@ }
}

pub open spec fn status_line(username: Seq<char>, is_live: bool) -> Seq<char> {
    username + " is currently "@ + live_word(is_live) + "."@
}

pub open spec fn status_embed(username: Seq<char>, is_live: bool, nanos: nat) -> EmbedModel {
    EmbedModel {
        title: "Is "@ + username + " live on Twitch?"@,
        fields: seq![(username + "'s status"@, status_line(username, is_live))],
        footer: Some("Message Generated in "@ + seconds_text(nanos) + " seconds."@),
    }
}

pub open spec fn status_error_text(username: Seq<char>, e: StatusError) -> Seq<char> {
    match e {
        StatusError::NotFound => "Channel "@ + username + " not found."@,
        _ => "The status check for "@ + username + " failed."@,
    }
}

/// The reply owed to a status check of `username` with this outcome, which
/// took `nanos` nanoseconds.
pub open spec fn status_reply_for(
    username: Seq<char>,
    outcome: Result<(Seq<char>, bool), StatusError>,
    nanos: nat,
) -> ReplyModel {
    match outcome {
        Ok((u, live)) => ReplyModel::Embed(status_embed(u, live, nanos)),
        Err(e) => ReplyModel::Text(status_error_text(username, e)),
    }
}

pub open spec fn load_embed(load_hundredths: nat, used_kb: nat) -> EmbedModel {
    EmbedModel {
        title: "System Resource Load"@,
        fields: seq![
            ("CPU Load Average"@, hundredths_text(load_hundredths) + "%"@),
            ("Used Memory"@, decimal(used_kb / 1000) + " MB"@),
        ],
        footer: None,
    }
}

/// The name to show for an author with guild nickname `nick` and account
/// name `account`.
pub fn display_name(nick: Option<String>, account: String) -> (r: String)
    ensures
        r@ == shown_name(
            match nick {
                Some(n) => Some(n@),
                None => None,
            },
            account@,
        ),
{
    match nick {
        Some(n) => n,
        None => account,
    }
}

/// The reply to `!ping` from an author shown as `name`, after `nanos`
/// nanoseconds.
pub fn ping_reply(name: &str, nanos: u64) -> (r: String)
    ensures
        r@ == ping_text(name@, nanos as nat),
{
    let mut s = String::from_str("I received a ping! \n Their name in this guild is ");
    s.append(name);
    s.append(" \n This message took ");
    push_seconds(&mut s, nanos);
    s.append(" seconds to generate.");
    s
}

/// The reply that reports a command error.
pub fn command_error_reply(e: CommandError) -> (r: String)
    ensures
        r@ == command_error_text(e),
{
    match e {
        CommandError::NotInGuild => String::from_str("This command only works in a server."),
        CommandError::UsageError => String::from_str("Usage: !islive <username>"),
    }
}

/// The reply to `!islive username` with this outcome, after `nanos`
/// nanoseconds.
pub fn status_reply(username: &str, outcome: &Result<LiveStatus, StatusError>, nanos: u64) -> (r:
    Reply)
    ensures
        r@ == status_reply_for(username@, outcome_view(outcome), nanos as nat),
{
    match outcome {
        Ok(status) => {
            let u = status.username.as_str();
            let mut title = String::from_str("Is ");
            title.append(u);
            title.append(" live on Twitch?");
            let mut name = String::from_str(u);
            name.append("'s status");
            let mut value = String::from_str(u);
            value.append(" is currently ");
            if status.is_live {
                value.append("live");
            } else {
                value.append("not live");
            }
            value.append(".");
            let mut footer = String::from_str("Message Generated in ");
            push_seconds(&mut footer, nanos);
            footer.append(" seconds.");
            let mut fields: Vec<EmbedField> = Vec::new();
            fields.push(EmbedField { name, value });
            let e = Embed { title, fields, footer: Some(footer) };
            assert(e@.fields =~= status_embed(status.username@, status.is_live, nanos as nat).fields);
            Reply::Embed(e)
        },
        Err(err) => {
            let mut s;
            match err {
                StatusError::NotFound => {
                    s = String::from_str("Channel ");
                    s.append(username);
                    s.append(" not found.");
                },
                _ => {
                    s = String::from_str("The status check for ");
                    s.append(username);
                    s.append(" failed.");
                },
            }
            Reply::Text(s)
        },
    }
}

/// The periodic report of a host whose one-minute load average is
/// `load_hundredths` hundredths and whose used memory is `used_kb` kilobytes.
pub fn load_report(load_hundredths: u64, used_kb: u64) -> (r: Embed)
    ensures
        r@ == load_embed(load_hundredths as nat, used_kb as nat),
{
    let title = String::from_str("System Resource Load");
    let mut load = String::new();
    push_hundredths(&mut load, load_hundredths);
    load.append("%");
    let mut memory = String::new();
    push_decimal(&mut memory, used_kb / 1000);
    memory.append(" MB");
    let mut fields: Vec<EmbedField> = Vec::new();
    fields.push(EmbedField { name: String::from_str("CPU Load Average"), value: load });
    fields.push(EmbedField { name: String::from_str("Used Memory"), value: memory });
    let e = Embed { title, fields, footer: None };
    assert(e@.fields =~= load_embed(load_hundredths as nat, used_kb as nat).fields);
    e
}

} // verus!
