use gestor_tareas::data::{Priority, TaskError, UNCATEGORIZED};
use gestor_tareas::tags::{parse_priority, resolve_tag};
use gestor_tareas::text::blank;

#[test]
fn blank_tag_choice_is_uncategorized() {
    let mut tags = vec!["Work".to_string()];
    assert_eq!(resolve_tag("", &mut tags), Ok(UNCATEGORIZED.to_string()));
    assert_eq!(resolve_tag("  ", &mut tags), Ok("Sin Categoría".to_string()));
    assert_eq!(tags, vec!["Work".to_string()]);
}

#[test]
fn numeric_tag_choice_picks_existing() {
    let mut tags = vec!["Work".to_string(), "Home".to_string()];
    assert_eq!(resolve_tag("2", &mut tags), Ok("Home".to_string()));
    assert_eq!(resolve_tag("+1", &mut tags), Ok("Work".to_string()));
    assert_eq!(tags.len(), 2);
}

#[test]
fn numeric_tag_choice_out_of_range() {
    let mut tags = vec!["Work".to_string()];
    assert_eq!(resolve_tag("0", &mut tags), Err(TaskError::InvalidTagSelection));
    assert_eq!(resolve_tag("2", &mut tags), Err(TaskError::InvalidTagSelection));
    assert_eq!(tags, vec!["Work".to_string()]);
}

#[test]
fn new_tag_text_is_appended_even_if_repeated() {
    let mut tags = vec!["Work".to_string()];
    assert_eq!(resolve_tag("Home", &mut tags), Ok("Home".to_string()));
    assert_eq!(resolve_tag("Home", &mut tags), Ok("Home".to_string()));
    assert_eq!(resolve_tag("-1", &mut tags), Ok("-1".to_string()));
    assert_eq!(tags, vec!["Work".to_string(), "Home".to_string(), "Home".to_string(), "-1".to_string()]);
}

#[test]
fn priority_selectors() {
    assert_eq!(parse_priority("1"), Ok(Priority::Alta));
    assert_eq!(parse_priority("2"), Ok(Priority::Media));
    assert_eq!(parse_priority("3"), Ok(Priority::Baja));
    assert_eq!(parse_priority("+3"), Ok(Priority::Baja));
    assert_eq!(parse_priority("0"), Err(TaskError::InvalidPriority));
    assert_eq!(parse_priority("4"), Err(TaskError::InvalidPriority));
    assert_eq!(parse_priority("alta"), Err(TaskError::InvalidPriority));
    assert_eq!(parse_priority(""), Err(TaskError::InvalidPriority));
    assert_eq!(parse_priority("257"), Err(TaskError::InvalidPriority));
}

#[test]
fn blank_detection() {
    assert!(blank(""));
    assert!(blank(" \t\n"));
    assert!(!blank(" a "));
    assert!(!blank("7"));
}
