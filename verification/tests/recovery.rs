use rnote::recovery::{
    format_unix_timestamp, initial_recovery_actions, parse_recovery_choice, recovery_plan, resolve_recovery_actions,
    RecoveryAction, RecoveryChoice, RecoveryStep,
};
use rnote::recovery::{timestamp_text, TimestampError};

#[test]
fn dialog_responses_map_to_choices() {
    assert_eq!(parse_recovery_choice("discard_all"), Some(RecoveryChoice::DiscardAll));
    assert_eq!(parse_recovery_choice("show_later"), Some(RecoveryChoice::ShowLater));
    assert_eq!(parse_recovery_choice("apply"), Some(RecoveryChoice::Apply));
    assert_eq!(parse_recovery_choice("close"), None);
    assert_eq!(parse_recovery_choice(""), None);
}

#[test]
fn every_document_is_opened_at_first() {
    let a = initial_recovery_actions(3);
    assert_eq!(a.len(), 3);
    assert!(a.iter().all(|x| matches!(x, RecoveryAction::Open)));
    assert!(initial_recovery_actions(0).is_empty());
}

#[test]
fn choices_resolve_the_actions() {
    let actions = vec![RecoveryAction::Open, RecoveryAction::SaveAs("/tmp/a.rnote".to_string()), RecoveryAction::Discard];
    let all_discarded = resolve_recovery_actions(actions.clone(), RecoveryChoice::DiscardAll);
    assert!(all_discarded.iter().all(|x| matches!(x, RecoveryAction::Discard)));
    assert_eq!(all_discarded.len(), 3);
    let later = resolve_recovery_actions(actions.clone(), RecoveryChoice::ShowLater);
    assert!(later.iter().all(|x| matches!(x, RecoveryAction::ShowLater)));
    let applied = resolve_recovery_actions(actions, RecoveryChoice::Apply);
    assert!(matches!(applied[0], RecoveryAction::Open));
    assert!(matches!(&applied[1], RecoveryAction::SaveAs(p) if p == "/tmp/a.rnote"));
    assert!(matches!(applied[2], RecoveryAction::Discard));
}

#[test]
fn plan_has_steps_in_document_order() {
    let actions = vec![
        RecoveryAction::Discard,
        RecoveryAction::ShowLater,
        RecoveryAction::SaveAs("/tmp/b.rnote".to_string()),
        RecoveryAction::Open,
    ];
    let steps = recovery_plan(&actions);
    assert_eq!(steps.len(), 4);
    assert!(matches!(steps[0], RecoveryStep::Discard { index: 0 }));
    assert!(matches!(&steps[1], RecoveryStep::SaveAs { index: 2, target } if target == "/tmp/b.rnote"));
    assert!(matches!(steps[2], RecoveryStep::Discard { index: 2 }));
    assert!(matches!(steps[3], RecoveryStep::Open { index: 3 }));
}

#[test]
fn showing_later_needs_no_steps() {
    let steps = recovery_plan(&vec![RecoveryAction::ShowLater, RecoveryAction::ShowLater]);
    assert!(steps.is_empty());
}

#[test]
fn unix_timestamps_format_as_rfc2822() {
    assert_eq!(format_unix_timestamp(0), "Thu, 01 Jan 1970 00:00:00 +0000");
    assert_eq!(format_unix_timestamp(1_000_000_000), "Sun, 09 Sep 2001 01:46:40 +0000");
}

#[test]
fn timestamps_out_of_range_give_an_error_text() {
    assert_eq!(format_unix_timestamp(i64::MAX), "Error getting time");
    assert_eq!(format_unix_timestamp(-400_000_000_000), "Error getting time");
}

#[test]
fn dates_before_1900_cannot_be_formatted() {
    assert_eq!(format_unix_timestamp(-3_000_000_000), "Error formatting time");
}

#[test]
fn timestamp_texts_by_outcome() {
    assert_eq!(timestamp_text(Ok("Mon, 01 Jan 1900 00:00:00 +0000".to_string())), "Mon, 01 Jan 1900 00:00:00 +0000");
    assert_eq!(timestamp_text(Err(TimestampError::OutOfRange)), "Error getting time");
    assert_eq!(timestamp_text(Err(TimestampError::Format)), "Error formatting time");
    assert_eq!(format_unix_timestamp(-2_208_988_800), "Mon, 01 Jan 1900 00:00:00 +0000");
    assert_eq!(format_unix_timestamp(-2_208_988_801), "Error formatting time");
}

#[test]
fn discarding_all_deletes_every_document_once() {
    let actions = vec![RecoveryAction::Open, RecoveryAction::SaveAs("/tmp/x.rnote".to_string()), RecoveryAction::ShowLater];
    let steps = recovery_plan(&resolve_recovery_actions(actions.clone(), RecoveryChoice::DiscardAll));
    assert_eq!(steps.len(), 3);
    for (i, s) in steps.iter().enumerate() {
        assert!(matches!(s, RecoveryStep::Discard { index } if *index == i));
    }
    assert!(recovery_plan(&resolve_recovery_actions(actions, RecoveryChoice::ShowLater)).is_empty());
}

#[test]
fn recovery_choices_of_dialog_responses() {
    assert_eq!(rnote::recovery::recovery_choice("discard_all"), RecoveryChoice::DiscardAll);
    assert_eq!(rnote::recovery::recovery_choice("show_later"), RecoveryChoice::ShowLater);
    assert_eq!(rnote::recovery::recovery_choice("apply"), RecoveryChoice::Apply);
}
