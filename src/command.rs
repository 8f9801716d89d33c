//! Splitting a message into tokens and routing it to a command.
use vstd::prelude::*;
use vstd::string::*;

verus! {

/// The tokens of `s`, split at every single space; empty tokens are kept,
/// so the empty text has one empty token.
pub open spec fn split_spaces(s: Seq<char>) -> Seq<Seq<char>>
    decreases s.len(),
{
    if s.len() == 0 {
        seq![Seq::empty()]
    } else {
        let init = split_spaces(s.drop_last());
        if s.last() == ' ' {
            init.push(Seq::empty())
        } else {
            init.update(init.len() - 1, init.last().push(s.last()))
        }
    }
}

/// Every text has at least one token.
pub proof fn lemma_split_nonempty(s: Seq<char>)
    ensures
        split_spaces(s).len() >= 1,
    decreases s.len(),
{
    if s.len() > 0 {
        lemma_split_nonempty(s.drop_last());
    }
}

pub open spec fn ping_word() -> Seq<char> {
    "!ping"@
}

pub open spec fn islive_word() -> Seq<char> {
    "!islive"@
}

/// Why a recognized command could not be carried out as asked.
#[derive(PartialEq, Eq, Structural, Clone, Copy, Debug)]
pub enum CommandError {
    /// `!ping` came from outside a guild, where no guild nickname exists.
    NotInGuild,
    /// `!islive` was not given exactly one username.
    UsageError,
}

/// What the bot does with one incoming message.
#[derive(PartialEq, Eq, Debug)]
pub enum Action {
    /// Not a command: nothing is sent.
    Ignore,
    /// Look up the author's guild nickname, then send the ping reply.
    Ping,
    /// Check whether the named channel is live, then send the status reply.
    CheckLive { username: String },
    /// Send the reply that reports this error.
    Report(CommandError),
}

/// The mathematical form of an [`Action`].
pub ghost enum ActionModel {
    Ignore,
    Ping,
    CheckLive(Seq<char>),
    Report(CommandError),
}

impl View for Action {
    type V = ActionModel;

    open spec fn view(&self) -> ActionModel {
        match self {
            Action::Ignore => ActionModel::Ignore,
            Action::Ping => ActionModel::Ping,
            Action::CheckLive { username } => ActionModel::CheckLive(username@),
            Action::Report(e) => ActionModel::Report(*e),
        }
    }
}

/// The action owed to a message with these tokens, sent from a guild or not.
pub open spec fn action_for(tokens: Seq<Seq<char>>, in_guild: bool) -> ActionModel {
    if tokens.len() == 0 {
        ActionModel::Ignore
    } else if tokens[0] == ping_word() {
        if in_guild {
            ActionModel::Ping
        } else {
            ActionModel::Report(CommandError::NotInGuild)
        }
    } else if tokens[0] == islive_word() {
        if tokens.len() == 2 {
            ActionModel::CheckLive(tokens[1])
        } else {
            ActionModel::Report(CommandError::UsageError)
        }
    } else {
        ActionModel::Ignore
    }
}

/// Whether two texts hold the same characters.
pub fn same_text(a: &str, b: &str) -> (r: bool)
    ensures
        r == (a@ == b@),
{
    let n: usize = a.unicode_len();
    if n != b.unicode_len() {
        return false;
    }
    let mut i: usize = 0;
    while i < n
        invariant
            n == a@.len(),
            n == b@.len(),
            i <= n,
            a@.subrange(0, i as int) == b@.subrange(0, i as int),
        decreases n - i,
    {
        if a.get_char(i) != b.get_char(i) {
            return false;
        }
        assert(a@.subrange(0, i + 1) =~= a@.subrange(0, i as int).push(a@[i as int]));
        assert(b@.subrange(0, i + 1) =~= b@.subrange(0, i as int).push(b@[i as int]));
        i = i + 1;
    }
    assert(a@ =~= a@.subrange(0, n as int));
    assert(b@ =~= b@.subrange(0, n as int));
    true
}

/// Splits `text` at every single space, keeping empty tokens.
pub fn tokenize(text: &str) -> (r: Vec<String>)
    ensures
        r.deep_view() == split_spaces(text@),
{
    let n: usize = text.unicode_len();
    let mut tokens: Vec<String> = Vec::new();
    let mut start: usize = 0;
    let mut i: usize = 0;
    assert(text@.subrange(0, 0) =~= Seq::<char>::empty());
    while i < n
        invariant
            n == text@.len(),
            start <= i <= n,
            split_spaces(text@.subrange(0, i as int)) =~= tokens.deep_view().push(
                text@.subrange(start as int, i as int),
            ),
        decreases n - i,
    {
        let c = text.get_char(i);
        let ghost pre = text@.subrange(0, i as int);
        let ghost old_tokens = tokens.deep_view();
        assert(text@.subrange(0, i + 1).drop_last() =~= pre);
        assert(text@.subrange(0, i + 1).last() == c);
        if c == ' ' {
            let t = String::from_str(text.substring_char(start, i));
            tokens.push(t);
            assert(tokens.deep_view() =~= old_tokens.push(text@.subrange(start as int, i as int)));
            start = i + 1;
            assert(text@.subrange(start as int, i + 1) =~= Seq::<char>::empty());
        } else {
            assert(text@.subrange(start as int, i + 1) =~= text@.subrange(start as int, i as int).push(c));
        }
        i = i + 1;
    }
    let last = String::from_str(text.substring_char(start, n));
    let ghost before = tokens.deep_view();
    tokens.push(last);
    assert(tokens.deep_view() =~= before.push(text@.subrange(start as int, n as int)));
    assert(text@.subrange(0, n as int) =~= text@);
    assert(tokens.deep_view() =~= split_spaces(text@));
    tokens
}

/// Decides what to do with a message of text `text`, sent from a guild when
/// `in_guild` holds.
pub fn dispatch(text: &str, in_guild: bool) -> (r: Action)
    ensures
        r@ == action_for(split_spaces(text@), in_guild),
{
    let tokens = tokenize(text);
    proof {
        lemma_split_nonempty(text@);
    }
    let ghost t = tokens.deep_view();
    assert(tokens@[0]@ == t[0]);
    if same_text(tokens[0].as_str(), "!ping") {
        if in_guild {
            Action::Ping
        } else {
            Action::Report(CommandError::NotInGuild)
        }
    } else if same_text(tokens[0].as_str(), "!islive") {
        if tokens.len() == 2 {
            assert(tokens@[1]@ == t[1]);
            Action::CheckLive { username: tokens[1].clone() }
        } else {
            Action::Report(CommandError::UsageError)
        }
    } else {
        Action::Ignore
    }
}

} // verus!
