//! Recovering documents that were autosaved before the application quit: which action
//! each found document gets, and what is done for it.

use time::format_description::well_known::Rfc2822;
use time::OffsetDateTime;
use vstd::prelude::*;
use crate::paths::{extension_of_name, file_name_of, path_extension};
use crate::text::str_eq;

verus! {

/// What is done with a recovered document.
#[derive(Clone, Debug)]
pub enum RecoveryAction {
    Discard,
    SaveAs(String),
    ShowLater,
    Open,
}

/// The answer of the recovery dialog.
#[derive(Clone, Copy, Debug, PartialEq, Eq, Structural)]
pub enum RecoveryChoice {
    DiscardAll,
    ShowLater,
    Apply,
}

/// One step of carrying out the recovery, for the document at `index`.
#[derive(Clone, Debug)]
pub enum RecoveryStep {
    /// delete the recovery files
    Discard { index: usize },
    /// move the recovered document to the path
    SaveAs { index: usize, target: String },
    /// open the recovered document in a new tab
    Open { index: usize },
}

/// The dialog response ids and the choices they stand for.
pub open spec fn choice_of_response(response: Seq<char>) -> Option<RecoveryChoice> {
    if response == "discard_all"@ {
        Some(RecoveryChoice::DiscardAll)
    } else if response == "show_later"@ {
        Some(RecoveryChoice::ShowLater)
    } else if response == "apply"@ {
        Some(RecoveryChoice::Apply)
    } else {
        None
    }
}

/// The choice a dialog response stands for, `None` for a response the dialog does not
/// have: the test a caller makes before taking the response as a choice.
pub fn parse_recovery_choice(response: &str) -> (c: Option<RecoveryChoice>)
    ensures
        c == choice_of_response(response@),
{
    if str_eq(response, "discard_all") {
        Some(RecoveryChoice::DiscardAll)
    } else if str_eq(response, "show_later") {
        Some(RecoveryChoice::ShowLater)
    } else if str_eq(response, "apply") {
        Some(RecoveryChoice::Apply)
    } else {
        None
    }
}

/// The choice the recovery dialog closed with. The response must be one the dialog
/// has (the dialog fails on any other).
pub fn recovery_choice(response: &str) -> (c: RecoveryChoice)
    requires
        choice_of_response(response@) is Some,
    ensures
        choice_of_response(response@) == Some(c),
{
    match parse_recovery_choice(response) {
        Some(c) => c,
        None => RecoveryChoice::ShowLater,
    }
}

/// The actions offered before the user chose anything: open every document.
pub fn initial_recovery_actions(n: usize) -> (actions: Vec<RecoveryAction>)
    ensures
        actions.len() == n,
        forall|i: int| 0 <= i < n ==> #[trigger] actions[i] is Open,
{
    let mut actions: Vec<RecoveryAction> = Vec::new();
    let mut i: usize = 0;
    while i < n
        invariant
            i <= n,
            actions.len() == i,
            forall|j: int| 0 <= j < i ==> #[trigger] actions[j] is Open,
        decreases n - i,
    {
        actions.push(RecoveryAction::Open);
        i = i + 1;
    }
    actions
}

/// The action of each document after the dialog closed with `choice`: every one
/// discarded, every one shown again later, or the actions as chosen per document.
pub open spec fn resolved_action(actions: Seq<RecoveryAction>, choice: RecoveryChoice, i: int) -> RecoveryAction {
    match choice {
        RecoveryChoice::DiscardAll => RecoveryAction::Discard,
        RecoveryChoice::ShowLater => RecoveryAction::ShowLater,
        RecoveryChoice::Apply => actions[i],
    }
}

/// Applies the dialog's choice to the per-document actions.
pub fn resolve_recovery_actions(actions: Vec<RecoveryAction>, choice: RecoveryChoice) -> (res: Vec<RecoveryAction>)
    ensures
        res.len() == actions.len(),
        forall|i: int| 0 <= i < actions.len() ==> #[trigger] res[i] == resolved_action(actions@, choice, i),
{
    match choice {
        RecoveryChoice::Apply => actions,
        _ => {
            let mut res: Vec<RecoveryAction> = Vec::new();
            let mut i: usize = 0;
            while i < actions.len()
                invariant
                    i <= actions.len(),
                    res.len() == i,
                    choice != RecoveryChoice::Apply,
                    forall|j: int| 0 <= j < i ==> #[trigger] res[j] == resolved_action(actions@, choice, j),
                decreases actions.len() - i,
            {
                if choice == RecoveryChoice::DiscardAll {
                    res.push(RecoveryAction::Discard);
                } else {
                    res.push(RecoveryAction::ShowLater);
                }
                i = i + 1;
            }
            res
        },
    }
}

/// The steps for one document: discarding deletes it, showing later does nothing,
/// opening opens it, and saving moves it to the target and then discards it.
pub open spec fn steps_for(index: usize, action: RecoveryAction) -> Seq<RecoveryStep> {
    match action {
        RecoveryAction::Discard => seq![RecoveryStep::Discard { index }],
        RecoveryAction::ShowLater => Seq::empty(),
        RecoveryAction::Open => seq![RecoveryStep::Open { index }],
        RecoveryAction::SaveAs(target) => seq![RecoveryStep::SaveAs { index, target }, RecoveryStep::Discard { index }],
    }
}

/// The steps for the first `n` documents, in order.
pub open spec fn steps_upto(actions: Seq<RecoveryAction>, n: nat) -> Seq<RecoveryStep>
    decreases n,
{
    if n == 0 {
        Seq::empty()
    } else {
        steps_upto(actions, (n - 1) as nat) + steps_for((n - 1) as usize, actions[n - 1])
    }
}

/// The steps that carry out the actions, document by document.
pub fn recovery_plan(actions: &Vec<RecoveryAction>) -> (steps: Vec<RecoveryStep>)
    ensures
        steps@ == steps_upto(actions@, actions.len() as nat),
{
    let mut steps: Vec<RecoveryStep> = Vec::new();
    let mut i: usize = 0;
    while i < actions.len()
        invariant
            i <= actions.len(),
            steps@ == steps_upto(actions@, i as nat),
        decreases actions.len() - i,
    {
        let ghost prev = steps@;
        match &actions[i] {
            RecoveryAction::Discard => {
                steps.push(RecoveryStep::Discard { index: i });
            },
            RecoveryAction::ShowLater => {},
            RecoveryAction::Open => {
                steps.push(RecoveryStep::Open { index: i });
            },
            RecoveryAction::SaveAs(target) => {
                steps.push(RecoveryStep::SaveAs { index: i, target: target.clone() });
                steps.push(RecoveryStep::Discard { index: i });
            },
        }
        assert(steps@ =~= prev + steps_for(i, actions@[i as int]));
        i = i + 1;
    }
    steps
}

/// The first unix timestamp `OffsetDateTime::from_unix_timestamp` accepts: the
/// start of the year -9999.
pub open spec fn min_unix_timestamp() -> int {
    -377705116800
}

/// The last unix timestamp it accepts: the last second of the year 9999.
pub open spec fn max_unix_timestamp() -> int {
    253402300799
}

/// The first unix timestamp whose date the RFC 2822 format can show: the start of the
/// year 1900.
pub open spec fn min_rfc2822_timestamp() -> int {
    -2208988800
}

/// The text `OffsetDateTime::format` with the RFC 2822 description gives for the UTC
/// date-time of a unix timestamp in the accepted range.
pub uninterp spec fn rfc2822_text(unix: i64) -> Seq<char>;

/// Why a timestamp could not be shown as a date.
#[derive(Clone, Copy, Debug, PartialEq, Eq, Structural)]
pub enum TimestampError {
    /// `from_unix_timestamp` refused the timestamp
    OutOfRange,
    /// `format` refused the date-time
    Format,
}

/// `OffsetDateTime::from_unix_timestamp`, then `format` with the RFC 2822 description,
/// each error mapped to its variant. `from_unix_timestamp` accepts the timestamps from
/// the start of the year -9999 to the end of 9999 and gives a date-time in UTC; the RFC
/// 2822 format refuses the years before 1900 (and offsets with seconds, which UTC has
/// none of).
#[verifier::external_body]
fn format_unix_rfc2822(unix: i64) -> (res: Result<String, TimestampError>)
    ensures
        (res matches Err(e) && e == TimestampError::OutOfRange) <==> !(min_unix_timestamp() <= unix <= max_unix_timestamp()),
        (res matches Err(e) && e == TimestampError::Format) <==> min_unix_timestamp() <= unix < min_rfc2822_timestamp(),
        res matches Ok(t) ==> t@ == rfc2822_text(unix),
{
    match OffsetDateTime::from_unix_timestamp(unix) {
        Err(_) => Err(TimestampError::OutOfRange),
        Ok(dt) => dt.format(&Rfc2822).map_err(|_| TimestampError::Format),
    }
}

/// The text shown when the time could not be read from the timestamp.
pub open spec fn time_error_text() -> Seq<char> {
    "Error getting time"@
}

/// The text shown when the time could not be formatted.
pub open spec fn format_error_text() -> Seq<char> {
    "Error formatting time"@
}

/// The text shown for the outcome of formatting a timestamp: the date, or which step
/// failed.
pub fn timestamp_text(formatted: Result<String, TimestampError>) -> (text: String)
    ensures
        text@ == match formatted {
            Ok(t) => t@,
            Err(TimestampError::OutOfRange) => time_error_text(),
            Err(TimestampError::Format) => format_error_text(),
        },
{
    match formatted {
        Ok(t) => t,
        Err(TimestampError::OutOfRange) => String::from_str("Error getting time"),
        Err(TimestampError::Format) => String::from_str("Error formatting time"),
    }
}

/// The time a recovered document was last changed, as an RFC 2822 date, or the reason
/// it cannot be shown.
pub fn format_unix_timestamp(unix: i64) -> (text: String)
    ensures
        text@ == if !(min_unix_timestamp() <= unix <= max_unix_timestamp()) {
            time_error_text()
        } else if unix < min_rfc2822_timestamp() {
            format_error_text()
        } else {
            rfc2822_text(unix)
        },
{
    timestamp_text(format_unix_rfc2822(unix))
}

/// Whether a path has the extension of recovery metadata files, `json`.
pub open spec fn is_metadata_path(path: Seq<char>) -> bool {
    file_name_of(path) matches Some(n) && extension_of_name(n) == Some("json"@)
}

/// The paths that are kept from `paths`, in order, by the filter `is_metadata_path`.
pub open spec fn metadata_paths(paths: Seq<String>) -> Seq<Seq<char>> {
    paths.map_values(|p: String| p@).filter(|p: Seq<char>| is_metadata_path(p))
}

/// The recovery metadata files among the entries of the recovery directory: those
/// with the extension `json`, in the order the directory listed them.
pub fn find_metadata(entries: &Vec<String>) -> (found: Vec<String>)
    ensures
        found@.map_values(|p: String| p@) == metadata_paths(entries@),
{
    let ghost all = entries@.map_values(|p: String| p@);
    let mut found: Vec<String> = Vec::new();
    let mut i: usize = 0;
    let json = "json";
    proof {
        reveal_strlit("json");
    }
    while i < entries.len()
        invariant
            i <= entries.len(),
            all == entries@.map_values(|p: String| p@),
            json@ == "json"@,
            found@.map_values(|p: String| p@) == all.subrange(0, i as int).filter(|p: Seq<char>| is_metadata_path(p)),
        decreases entries.len() - i,
    {
        let keep = match path_extension(entries[i].as_str()) {
            Some(e) => str_eq(e.as_str(), json),
            None => false,
        };
        let ghost prev = found@;
        proof {
            assert(all.subrange(0, i + 1).drop_last() == all.subrange(0, i as int));
            assert(all.subrange(0, i + 1).last() == entries@[i as int]@);
            assert(keep == is_metadata_path(entries@[i as int]@));
        }
        if keep {
            found.push(entries[i].clone());
            assert(found@.map_values(|p: String| p@) == prev.map_values(|p: String| p@).push(entries@[i as int]@));
        }
        proof {
            reveal(Seq::filter);
            assert(found@.map_values(|p: String| p@) == all.subrange(0, i + 1).filter(|p: Seq<char>| is_metadata_path(p)));
        }
        i = i + 1;
    }
    proof {
        assert(all.subrange(0, entries.len() as int) == all);
    }
    found
}

/// Discarding all recovered documents deletes each of them once, in order, and does
/// nothing else; showing them later does nothing with any of them.
pub proof fn lemma_discard_all_and_show_later(actions: Seq<RecoveryAction>, resolved: Seq<RecoveryAction>, choice: RecoveryChoice, n: nat)
    requires
        choice != RecoveryChoice::Apply,
        n <= resolved.len(),
        resolved.len() == actions.len(),
        forall|i: int| 0 <= i < actions.len() ==> #[trigger] resolved[i] == resolved_action(actions, choice, i),
        n <= usize::MAX + 1,
    ensures
        choice == RecoveryChoice::DiscardAll ==> steps_upto(resolved, n) == Seq::new(n, |i: int| RecoveryStep::Discard { index: i as usize }),
        choice == RecoveryChoice::ShowLater ==> steps_upto(resolved, n) == Seq::<RecoveryStep>::empty(),
    decreases n,
{
    if n > 0 {
        lemma_discard_all_and_show_later(actions, resolved, choice, (n - 1) as nat);
        assert(resolved[n - 1] == resolved_action(actions, choice, n - 1));
        if choice == RecoveryChoice::DiscardAll {
            assert(steps_upto(resolved, n) =~= Seq::new(n, |i: int| RecoveryStep::Discard { index: i as usize }));
        } else {
            assert(steps_upto(resolved, n) =~= Seq::<RecoveryStep>::empty());
        }
    }
}

/// The dialog's responses `discard_all`, `show_later` and `apply` stand for their
/// choices. Applying keeps the action chosen for each document; and the steps for one
/// more document are those for the documents before it followed by its own: a discard
/// deletes it, showing later does nothing, opening opens it, and saving moves it to the
/// target and then deletes what is left.
pub proof fn lemma_recovery_steps(actions: Seq<RecoveryAction>, n: nat, target: String)
    requires
        n < actions.len(),
        n <= usize::MAX,
    ensures
        choice_of_response("discard_all"@) == Some(RecoveryChoice::DiscardAll),
        choice_of_response("show_later"@) == Some(RecoveryChoice::ShowLater),
        choice_of_response("apply"@) == Some(RecoveryChoice::Apply),
        resolved_action(actions, RecoveryChoice::Apply, n as int) == actions[n as int],
        actions[n as int] is Discard ==> steps_upto(actions, n + 1) == steps_upto(actions, n).push(RecoveryStep::Discard { index: n as usize }),
        actions[n as int] is ShowLater ==> steps_upto(actions, n + 1) == steps_upto(actions, n),
        actions[n as int] is Open ==> steps_upto(actions, n + 1) == steps_upto(actions, n).push(RecoveryStep::Open { index: n as usize }),
        actions[n as int] == RecoveryAction::SaveAs(target) ==> steps_upto(actions, n + 1) == steps_upto(actions, n)
            .push(RecoveryStep::SaveAs { index: n as usize, target: target })
            .push(RecoveryStep::Discard { index: n as usize }),
{
    reveal_strlit("discard_all");
    reveal_strlit("show_later");
    reveal_strlit("apply");
    assert("show_later"@.len() != "discard_all"@.len());
    assert("apply"@.len() != "discard_all"@.len() && "apply"@.len() != "show_later"@.len());
    let prev = steps_upto(actions, n);
    assert(steps_upto(actions, n + 1) == prev + steps_for(n as usize, actions[n as int]));
    match actions[n as int] {
        RecoveryAction::Discard => { assert(prev + seq![RecoveryStep::Discard { index: n as usize }] =~= prev.push(RecoveryStep::Discard { index: n as usize })); },
        RecoveryAction::ShowLater => { assert(prev + Seq::<RecoveryStep>::empty() =~= prev); },
        RecoveryAction::Open => { assert(prev + seq![RecoveryStep::Open { index: n as usize }] =~= prev.push(RecoveryStep::Open { index: n as usize })); },
        RecoveryAction::SaveAs(t) => {
            assert(prev + seq![RecoveryStep::SaveAs { index: n as usize, target: t }, RecoveryStep::Discard { index: n as usize }]
                =~= prev.push(RecoveryStep::SaveAs { index: n as usize, target: t }).push(RecoveryStep::Discard { index: n as usize }));
        },
    }
}

} // verus!
