use rsfdisk::errors::{PartitionError, PromptError, VersionError};
use rsfdisk::partition::defaults::DefaultRule;
use rsfdisk::iter::{walk_event, Direction, WalkCursors, WalkEvent};
use rsfdisk::partition_table::input_type::parser_flags;
use rsfdisk::partition_table::{InputType, Range, Shortcut};
use rsfdisk::prompt::answers::{relative_notation_outcome, yes_no_outcome};
use rsfdisk::prompt::MenuItem;
use rsfdisk::utils::version::features_count;

#[test]
fn walk_events_follow_status_codes() {
    assert_eq!(walk_event(0, 0x1000), WalkEvent::Found(0x1000));
    assert_eq!(walk_event(1, 0x1000), WalkEvent::End);
    assert_eq!(walk_event(-22, 0x1000), WalkEvent::Failed(-22));
}

#[test]
fn walks_from_both_ends_meet_in_the_middle() {
    // A list of three partitions at addresses 10, 20, 30.
    let mut c = WalkCursors::new();
    assert_eq!(c.advance(Direction::Forward, WalkEvent::Found(10)), Some(10));
    assert_eq!(c.advance(Direction::Backward, WalkEvent::Found(30)), Some(30));
    assert_eq!(c.advance(Direction::Forward, WalkEvent::Found(20)), Some(20));
    // The backward walk now reaches what the forward walk handed out.
    assert_eq!(c.advance(Direction::Backward, WalkEvent::Found(20)), None);
    assert!(c.met);
    // Once met, nothing more is handed out from either end.
    assert_eq!(c.advance(Direction::Forward, WalkEvent::Found(30)), None);
    assert_eq!(c.advance(Direction::Backward, WalkEvent::Found(10)), None);
    assert_eq!((c.front, c.back), (20, 30));
}

#[test]
fn a_single_partition_is_handed_out_once() {
    let mut c = WalkCursors::new();
    assert_eq!(c.advance(Direction::Forward, WalkEvent::Found(7)), Some(7));
    assert_eq!(c.advance(Direction::Backward, WalkEvent::Found(7)), None);
    assert!(c.met);
}

#[test]
fn end_and_failure_leave_the_cursors() {
    let mut c = WalkCursors::new();
    assert_eq!(c.advance(Direction::Forward, WalkEvent::Found(5)), Some(5));
    assert_eq!(c.advance(Direction::Forward, WalkEvent::End), None);
    assert_eq!(c.advance(Direction::Backward, WalkEvent::Failed(-1)), None);
    assert_eq!(c, WalkCursors { front: 5, back: 0, met: false });
}

#[test]
fn parser_flags_combine_input_types() {
    assert_eq!(parser_flags(&[]), 0);
    assert_eq!(parser_flags(&[InputType::Alias, InputType::Shortcut]), 24);
    assert_eq!(parser_flags(&[InputType::Default, InputType::Alias]), 410);
    assert_eq!(parser_flags(&[InputType::HexOrUuid, InputType::HexOrUuid]), 2);
    assert_eq!(
        parser_flags(&[InputType::IgnoreUnknown, InputType::Deprecated, InputType::Name]),
        352
    );
}

#[test]
fn lookups_keep_what_was_found() {
    let r = Range::from_lookup(0, 1, 255).unwrap();
    assert_eq!((r.lower_bound(), r.upper_bound()), (1, 255));
    assert!(Range::from_lookup(-22, 1, 255).is_none());

    let s = Shortcut::from_lookup(2, "linux".to_owned(), "L".to_owned(), "83".to_owned()).unwrap();
    assert_eq!((s.alias(), s.shortcut(), s.type_string()), ("linux", "L", "83"));
    assert!(s.has_alias_deprecated());
    let s = Shortcut::from_lookup(0, "swap".to_owned(), "S".to_owned(), "82".to_owned()).unwrap();
    assert!(!s.has_alias_deprecated());
    assert!(Shortcut::from_lookup(1, String::new(), String::new(), String::new()).is_none());

    let m = MenuItem::from_lookup(0, "n".to_owned(), "new".to_owned(), 110).unwrap();
    assert_eq!((m.name(), m.description(), m.key_code()), ("n", "new", 110));
    assert!(MenuItem::from_lookup(1, String::new(), String::new(), 0).is_none());
}

#[test]
fn prompt_answers_report_failures() {
    assert_eq!(relative_notation_outcome(true, 0), Ok(()));
    assert_eq!(
        relative_notation_outcome(false, -1),
        Err(PromptError::Config("failed to disable relative number notation".to_owned()))
    );
    assert_eq!(yes_no_outcome(false, 0), Ok(()));
    assert_eq!(
        yes_no_outcome(true, -5),
        Err(PromptError::Config("failed to set answer to yes/no question to: \"yes\"".to_owned()))
    );
}

#[test]
fn feature_counts() {
    assert_eq!(features_count(3), Ok(3));
    assert_eq!(features_count(0), Ok(0));
    assert_eq!(
        features_count(-1),
        Err(VersionError::FeaturesAccess("failed to get library features".to_owned()))
    );
}

#[test]
fn default_rules_report_failures() {
    assert_eq!(DefaultRule::FirstFreeNumber.outcome(true, 0), Ok(()));
    assert_eq!(
        DefaultRule::FirstFreeNumber.outcome(false, -1),
        Err(PartitionError::Config(
            "failed to disable partition to use first free partition number".to_owned()
        ))
    );
    assert_eq!(
        DefaultRule::FirstFreeStartingSector.outcome(true, 3),
        Err(PartitionError::Config(
            "failed to enable partition to use first available free sector as starting sector"
                .to_owned()
        ))
    );
    assert_eq!(
        DefaultRule::LastFreeEndingSector.outcome(false, -12),
        Err(PartitionError::Config(
            "failed to disable partition to use all free space for partition".to_owned()
        ))
    );
}

#[test]
fn setter_statuses() {
    assert_eq!(PartitionError::config_outcome(0, "unused".to_owned()), Ok(()));
    assert_eq!(
        PartitionError::config_outcome(-22, "failed to set partition type".to_owned()),
        Err(PartitionError::Config("failed to set partition type".to_owned()))
    );
    assert_eq!(PromptError::config_outcome(0, String::new()), Ok(()));
    assert_eq!(
        PromptError::config_outcome(1, "failed to answer prompt with value: 5".to_owned()),
        Err(PromptError::Config("failed to answer prompt with value: 5".to_owned()))
    );
}
