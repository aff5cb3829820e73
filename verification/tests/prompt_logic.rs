use crossterm::tty::IsTty;
use dialog::confirm::confirm_outcome;
use dialog::dialog::{Dialog, Spinner};
use dialog::render::PromptError;
use dialog::select::{labels_of, make_choices, take_selected};
use dialog::terminal::can_prompt_from;
use dialog::theme::{theme_choice, Rgb, ThemeChoice};

#[test]
fn choices_pair_each_label_with_its_position() {
    let labels = vec!["a".to_string(), "b".to_string(), "c".to_string()];
    let choices = make_choices(&labels);
    assert_eq!(choices.len(), 3);
    for (i, choice) in choices.iter().enumerate() {
        assert_eq!(choice.index, i);
        assert_eq!(choice.label, labels[i]);
    }
}

#[test]
fn no_choices_from_no_labels() {
    let choices = make_choices(&Vec::new());
    assert_eq!(choices.len(), 0);
}

#[test]
fn selected_value_is_the_one_at_the_picked_position() {
    let mut options = vec!["a".to_string(), "b".to_string(), "c".to_string()];
    let value = take_selected(&mut options, 1);
    assert_eq!(value, "b");
    assert_eq!(options, vec!["a".to_string(), "c".to_string()]);
}

#[test]
fn selected_value_leaves_exactly_once() {
    let mut options = vec![10u32, 20, 30, 40];
    let value = take_selected(&mut options, 0);
    assert_eq!(value, 10);
    assert_eq!(options, vec![20, 30, 40]);
    let value = take_selected(&mut options, 2);
    assert_eq!(value, 40);
    assert_eq!(options, vec![20, 30]);
}

#[test]
fn labels_render_one_per_option() {
    let options = vec![10u32, 20, 30];
    let labels = labels_of(&options);
    assert_eq!(labels, vec!["10".to_string(), "20".to_string(), "30".to_string()]);
}

#[test]
fn empty_submission_resolves_to_the_default() {
    assert_eq!(confirm_outcome(Some(true), None), Some(true));
    assert_eq!(confirm_outcome(Some(false), None), Some(false));
    assert_eq!(confirm_outcome(None, None), None);
}

#[test]
fn explicit_answer_wins_over_the_default() {
    assert_eq!(confirm_outcome(Some(true), Some(false)), Some(false));
    assert_eq!(confirm_outcome(None, Some(true)), Some(true));
}

#[test]
fn prompting_needs_both_streams_on_a_terminal() {
    assert!(can_prompt_from(true, true));
    assert!(!can_prompt_from(false, true));
    assert!(!can_prompt_from(true, false));
    assert!(!can_prompt_from(false, false));
}

#[test]
fn capability_check_agrees_with_the_streams() {
    let expected = std::io::stderr().is_tty() && std::io::stdin().is_tty();
    assert_eq!(Dialog::can_prompt(), expected);
}

#[test]
fn theme_is_colored_only_with_both_colors() {
    let peach = Rgb { red: 255, green: 175, blue: 135 };
    let blue = Rgb { red: 175, green: 215, blue: 255 };
    assert_eq!(
        theme_choice(Some(peach), Some(blue)),
        ThemeChoice::Colored(peach, blue)
    );
    assert_eq!(theme_choice(None, Some(blue)), ThemeChoice::Plain);
    assert_eq!(theme_choice(Some(peach), None), ThemeChoice::Plain);
    assert_eq!(theme_choice(None, None), ThemeChoice::Plain);
}

#[test]
fn spinner_payload_keeps_its_task() {
    let spinner = Spinner::new(|| 42u32);
    assert_eq!((spinner.0)(), 42);
}

#[test]
fn prompt_errors_can_be_told_apart() {
    let errors = [
        PromptError::NotTty,
        PromptError::InvalidConfiguration("empty".to_string()),
        PromptError::Io("broken pipe".to_string()),
        PromptError::Canceled,
        PromptError::Interrupted,
        PromptError::Other("boom".to_string()),
    ];
    for (i, a) in errors.iter().enumerate() {
        for (j, b) in errors.iter().enumerate() {
            assert_eq!(a == b, i == j);
        }
    }
}
