//! Reading the configuration: one bot name or caller token per line of text.

use vstd::prelude::*;
use crate::text::{ends_with, ends_with_bot, lowercase_of, starts_with_at, texts, trimmed};

verus! {

/// The lines of `text`, as `str::lines` yields them: split at line feeds,
/// without the line ending.
pub uninterp spec fn lines_of(text: Seq<char>) -> Seq<Seq<char>>;

/// `str::lines`, collected: the lines of the text in order. The result is
/// named [`lines_of`]; it depends on the text alone.
#[verifier::external_body]
pub(crate) fn lines(text: &str) -> (lines: Vec<String>)
    ensures
        texts(lines@) == lines_of(text@),
{
    text.lines().map(String::from).collect()
}

/// The entries of a configuration text: its lines, each without surrounding
/// white space, in order. Empty lines are entries too.
pub fn clean_lines(text: &str) -> (entries: Vec<String>)
    ensures
        texts(entries@) == lines_of(text@).map_values(|line: Seq<char>| trimmed(line)),
{
    let raw = lines(text);
    let mut entries: Vec<String> = Vec::new();
    let mut i: usize = 0;
    while i < raw.len()
        invariant
            i <= raw@.len(),
            entries@.len() == i,
            forall|j: int| 0 <= j < i ==> entries@[j]@ == trimmed(raw@[j]@),
        decreases raw@.len() - i,
    {
        entries.push(raw[i].as_str().trim().to_owned());
        i += 1;
    }
    assert(texts(entries@) =~= texts(raw@).map_values(|line: Seq<char>| trimmed(line)));
    entries
}

/// Why a configured bot name is not accepted.
#[derive(Clone, Copy, Debug, PartialEq, Eq, Structural)]
pub enum UsernameError {
    /// The name does not start with `@`.
    MissingAt,
    /// The name, in lower case, does not end with `bot`.
    MissingBotSuffix,
}

/// What is wrong with the bot name `name`, if anything: it must start with
/// `@`, and in lower case it must end with `bot`. Where both fail, the
/// missing `@` is reported.
pub open spec fn username_fault(name: Seq<char>) -> Option<UsernameError> {
    if !(name.len() > 0 && name[0] == '@') {
        Some(UsernameError::MissingAt)
    } else if !ends_with(lowercase_of(name), seq!['b', 'o', 't']) {
        Some(UsernameError::MissingBotSuffix)
    } else {
        None
    }
}

impl UsernameError {
    /// The rule that the name breaks, in words.
    pub fn reason(&self) -> (text: &'static str)
        ensures
            text@ == match *self {
                UsernameError::MissingAt => "must starts with `@`"@,
                UsernameError::MissingBotSuffix => "must end with `bot`"@,
            },
    {
        match self {
            UsernameError::MissingAt => "must starts with `@`",
            UsernameError::MissingBotSuffix => "must end with `bot`",
        }
    }
}

/// Checks one configured bot name.
pub fn check_username(name: &str) -> (checked: Result<(), UsernameError>)
    ensures
        checked == match username_fault(name@) {
            Some(fault) => Err::<(), UsernameError>(fault),
            None => Ok(()),
        },
{
    if !starts_with_at(name) {
        Err(UsernameError::MissingAt)
    } else if !ends_with_bot(name.to_lowercase().as_str()) {
        Err(UsernameError::MissingBotSuffix)
    } else {
        Ok(())
    }
}

/// Checks every configured bot name: the result has, at each position, what
/// is wrong with the name at that position, or `None`.
pub fn username_faults(bots: &Vec<String>) -> (faults: Vec<Option<UsernameError>>)
    ensures
        faults@ == texts(bots@).map_values(|name: Seq<char>| username_fault(name)),
{
    let mut faults: Vec<Option<UsernameError>> = Vec::new();
    let mut i: usize = 0;
    while i < bots.len()
        invariant
            i <= bots@.len(),
            faults@.len() == i,
            forall|j: int| 0 <= j < i ==> faults@[j] == username_fault(bots@[j]@),
        decreases bots@.len() - i,
    {
        let fault = match check_username(bots[i].as_str()) {
            Ok(_) => None,
            Err(fault) => Some(fault),
        };
        faults.push(fault);
        i += 1;
    }
    assert(faults@ =~= texts(bots@).map_values(|name: Seq<char>| username_fault(name)));
    faults
}

/// Whether every configured bot name is accepted.
pub fn all_usernames_valid(bots: &Vec<String>) -> (valid: bool)
    ensures
        valid == forall|i: int| 0 <= i < bots@.len() ==> username_fault(#[trigger] bots@[i]@).is_none(),
{
    let mut i: usize = 0;
    while i < bots.len()
        invariant
            i <= bots@.len(),
            forall|j: int| 0 <= j < i ==> username_fault(#[trigger] bots@[j]@).is_none(),
        decreases bots@.len() - i,
    {
        if check_username(bots[i].as_str()).is_err() {
            return false;
        }
        i += 1;
    }
    true
}

} // verus!
