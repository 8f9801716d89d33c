//! Properties that relate the functions of this crate to one another.
use vstd::prelude::*;
use crate::command::{ActionModel, CommandError, action_for, islive_word, ping_word};
use crate::reply::ping_text;
use crate::reporter::start_step;
use crate::text::{decimal, digit_char, is_numeral_char, padded, seconds_text};

verus! {

/// A message whose first token names no command leads to no action, so
/// nothing is sent for it.
pub proof fn lemma_unrecognized_is_ignored(tokens: Seq<Seq<char>>, in_guild: bool)
    requires
        tokens.len() > 0,
        tokens[0] != ping_word(),
        tokens[0] != islive_word(),
    ensures
        action_for(tokens, in_guild) == ActionModel::Ignore,
{
}

proof fn lemma_digit_is_numeral(d: nat)
    ensures
        is_numeral_char(digit_char(d)),
{
}

proof fn lemma_decimal_is_numeral(n: nat)
    ensures
        forall|i: int| 0 <= i < decimal(n).len() ==> is_numeral_char(#[trigger] decimal(n)[i]),
    decreases n,
{
    lemma_digit_is_numeral(n % 10);
    lemma_digit_is_numeral(n);
    if n >= 10 {
        lemma_decimal_is_numeral(n / 10);
        let init = decimal(n / 10);
        assert forall|i: int| 0 <= i < decimal(n).len() implies is_numeral_char(
            #[trigger] decimal(n)[i],
        ) by {
            if i < init.len() {
                assert(decimal(n)[i] == init[i]);
            }
        }
    }
}

proof fn lemma_padded_is_numeral(n: nat, width: nat)
    ensures
        forall|i: int|
            0 <= i < padded(n, width).len() ==> is_numeral_char(#[trigger] padded(n, width)[i]),
    decreases width,
{
    if width > 0 {
        lemma_digit_is_numeral(n % 10);
        lemma_padded_is_numeral(n / 10, (width - 1) as nat);
        let init = padded(n / 10, (width - 1) as nat);
        assert forall|i: int| 0 <= i < padded(n, width).len() implies is_numeral_char(
            #[trigger] padded(n, width)[i],
        ) by {
            if i < init.len() {
                assert(padded(n, width)[i] == init[i]);
            }
        }
    }
}

/// A seconds figure is written with digits and a point only: it carries no
/// sign, so it is never negative.
pub proof fn lemma_seconds_text_unsigned(nanos: nat)
    ensures
        seconds_text(nanos).len() > 0,
        forall|i: int|
            0 <= i < seconds_text(nanos).len() ==> is_numeral_char(#[trigger] seconds_text(nanos)[i]),
{
    lemma_decimal_is_numeral(nanos / 1_000_000_000);
    lemma_padded_is_numeral(nanos % 1_000_000_000, 9);
    let a = decimal(nanos / 1_000_000_000).push('.');
    let b = padded(nanos % 1_000_000_000, 9);
    assert forall|i: int|
        0 <= i < seconds_text(nanos).len() implies is_numeral_char(#[trigger] seconds_text(nanos)[i]) by {
        if i < a.len() {
            if i < a.len() - 1 {
                assert(a[i] == decimal(nanos / 1_000_000_000)[i]);
            }
        } else {
            assert(seconds_text(nanos)[i] == b[i - a.len()]);
        }
    }
}

/// `!ping` without arguments from a guild leads to the ping reply, a single
/// text that holds the elapsed time as an unsigned number of seconds.
pub proof fn lemma_ping_reports_elapsed(tokens: Seq<Seq<char>>, name: Seq<char>, nanos: nat)
    requires
        tokens == seq![ping_word()],
    ensures
        action_for(tokens, true) == ActionModel::Ping,
        exists|k: int|
            0 <= k && k + seconds_text(nanos).len() <= ping_text(name, nanos).len()
                && #[trigger] ping_text(name, nanos).subrange(k, k + seconds_text(nanos).len())
                == seconds_text(nanos),
        forall|i: int|
            0 <= i < seconds_text(nanos).len() ==> is_numeral_char(#[trigger] seconds_text(nanos)[i]),
{
    lemma_seconds_text_unsigned(nanos);
    let head = "I received a ping! \n Their name in this guild is "@ + name
        + " \n This message took "@;
    let secs = seconds_text(nanos);
    let k = head.len() as int;
    assert(ping_text(name, nanos) == head + secs + " seconds to generate."@);
    assert(ping_text(name, nanos).subrange(k, k + secs.len()) =~= secs);
}

/// `!ping` from outside a guild is reported as `NotInGuild`.
pub proof fn lemma_ping_outside_guild(tokens: Seq<Seq<char>>)
    requires
        tokens.len() > 0,
        tokens[0] == ping_word(),
    ensures
        action_for(tokens, false) == ActionModel::Report(CommandError::NotInGuild),
{
}

/// `!islive` without a username is reported as a usage error, and no
/// status check (hence no network call) follows.
pub proof fn lemma_islive_without_username(tokens: Seq<Seq<char>>, in_guild: bool)
    requires
        tokens == seq![islive_word()],
    ensures
        action_for(tokens, in_guild) == ActionModel::Report(CommandError::UsageError),
{
    assert(ping_word() != islive_word()) by {
        reveal_strlit("!ping");
        reveal_strlit("!islive");
        assert(ping_word().len() != islive_word().len());
    }
}

/// Two start requests on a fresh guard, as when the ready event comes
/// twice, start the report exactly once; on a running guard, none does.
pub proof fn lemma_report_starts_once(running: bool)
    ensures
        ({
            let (first, after) = start_step(running);
            let (second, _) = start_step(after);
            &&& !(first && second)
            &&& !running ==> (first || second)
            &&& running ==> !first && !second
        }),
{
}

} // verus!
