use flowy_grid::checklist_select::{ChecklistSelectTypeOption, ChecklistSelectTypeOptionBuilder};
use flowy_grid::dispatch::{select_option_operation, SelectTypeOption};
use flowy_grid::errors::SelectError;
use flowy_grid::field_type::FieldType;
use flowy_grid::multi_select::MultiSelectTypeOptionBuilder;
use flowy_grid::operation::SelectOptionOperation;
use flowy_grid::select_option::{
    select_option_color_from_index, SelectOption, SelectOptionColor,
};
use flowy_grid::single_select::SingleSelectTypeOptionBuilder;

#[test]
fn new_option_has_generated_id_and_default_color() {
    let option = SelectOption::new("Google");
    assert_eq!(option.name, "Google");
    assert_eq!(option.color, SelectOptionColor::Purple);
    assert_eq!(option.id.chars().count(), 4);
    assert!(!option.id.contains(','));
}

#[test]
fn with_color_keeps_the_chosen_color() {
    let option = SelectOption::with_color("Google", SelectOptionColor::Aqua);
    assert_eq!(option.name, "Google");
    assert_eq!(option.color, SelectOptionColor::Aqua);
}

#[test]
fn insert_new_option_goes_to_front() {
    let a = SelectOption::new("Google");
    let b = SelectOption::new("Facebook");
    let c = SelectOption::new("Twitter");
    let mut type_option = MultiSelectTypeOptionBuilder::default()
        .option(a.clone())
        .option(b.clone())
        .build();
    type_option.insert_option(c.clone());
    assert_eq!(type_option.options, vec![c, a, b]);
}

#[test]
fn insert_replaces_matching_id_in_place() {
    let a = SelectOption::new("Google");
    let b = SelectOption::new("Facebook");
    let mut type_option = MultiSelectTypeOptionBuilder::default()
        .option(a.clone())
        .option(b.clone())
        .build();
    let mut renamed = b.clone();
    renamed.name = "Meta".to_string();
    type_option.insert_option(renamed.clone());
    assert_eq!(type_option.options, vec![a, renamed]);
}

#[test]
fn insert_replaces_matching_name_in_place() {
    let a = SelectOption::new("Google");
    let b = SelectOption::new("Facebook");
    let mut type_option = MultiSelectTypeOptionBuilder::default()
        .option(a.clone())
        .option(b.clone())
        .build();
    // A wholly different id, but a colliding name: replaces b where it stood.
    let replacement = SelectOption::new("Facebook");
    assert_ne!(replacement.id, b.id);
    type_option.insert_option(replacement.clone());
    assert_eq!(type_option.options, vec![a, replacement]);
}

#[test]
fn delete_removes_first_id_match_only() {
    let a = SelectOption::new("Google");
    let b = SelectOption::new("Facebook");
    let mut type_option = MultiSelectTypeOptionBuilder::default()
        .option(a.clone())
        .option(b.clone())
        .build();
    type_option.delete_option(a.clone());
    assert_eq!(type_option.options, vec![b.clone()]);
    // Deleting an absent option is a no-op, not an error.
    type_option.delete_option(a);
    assert_eq!(type_option.options, vec![b]);
}

#[test]
fn create_option_color_is_deterministic() {
    let type_option = ChecklistSelectTypeOptionBuilder::default()
        .option(SelectOption::new("Google"))
        .option(SelectOption::new("Facebook"))
        .option(SelectOption::new("Twitter"))
        .build();
    // Three existing options: the fourth palette color, deterministically.
    let created = type_option.create_option("X");
    assert_eq!(created.color, SelectOptionColor::Orange);
    assert_eq!(created.name, "X");
    // The same call without mutating the registry yields the same color.
    let again = type_option.create_option("X");
    assert_eq!(again.color, SelectOptionColor::Orange);
}

#[test]
fn palette_cycles_modulo_eight() {
    assert_eq!(select_option_color_from_index(0), SelectOptionColor::Purple);
    assert_eq!(select_option_color_from_index(1), SelectOptionColor::Pink);
    assert_eq!(select_option_color_from_index(2), SelectOptionColor::LightPink);
    assert_eq!(select_option_color_from_index(3), SelectOptionColor::Orange);
    assert_eq!(select_option_color_from_index(4), SelectOptionColor::Yellow);
    assert_eq!(select_option_color_from_index(5), SelectOptionColor::Lime);
    assert_eq!(select_option_color_from_index(6), SelectOptionColor::Green);
    assert_eq!(select_option_color_from_index(7), SelectOptionColor::Aqua);
    // The cycle is modulo 8: Blue stays reserved on this path.
    assert_eq!(select_option_color_from_index(8), SelectOptionColor::Purple);
    assert_eq!(select_option_color_from_index(11), SelectOptionColor::Orange);
}

#[test]
fn select_option_cell_data_resolves_previous_value() {
    let a = SelectOption::new("Google");
    let b = SelectOption::new("Facebook");
    let type_option = SingleSelectTypeOptionBuilder::default()
        .option(a.clone())
        .option(b.clone())
        .build();
    let data = type_option.select_option_cell_data(&None);
    assert_eq!(data.options, vec![a.clone(), b.clone()]);
    assert!(data.select_options.is_empty());

    let data = type_option.select_option_cell_data(&Some(format!("{},{}", b.id, a.id)));
    assert_eq!(data.select_options, vec![b, a]);
}

#[test]
fn dispatch_builds_the_matching_variant() {
    let options = vec![SelectOption::new("Google")];
    match select_option_operation(&FieldType::SingleSelect, options.clone(), false).unwrap() {
        SelectTypeOption::Single(t) => assert_eq!(t.options, options),
        _ => panic!("expected the single-select variant"),
    }
    match select_option_operation(&FieldType::MultiSelect, options.clone(), true).unwrap() {
        SelectTypeOption::Multi(t) => {
            assert_eq!(t.options, options);
            assert!(t.disable_color);
        },
        _ => panic!("expected the multi-select variant"),
    }
    match select_option_operation(&FieldType::ChecklistSelect, options.clone(), false).unwrap() {
        SelectTypeOption::Checklist(t) => assert_eq!(t.options, options),
        _ => panic!("expected the checklist-select variant"),
    }
}

#[test]
fn dispatch_rejects_non_select_field_types() {
    for ty in [
        FieldType::RichText,
        FieldType::Number,
        FieldType::DateTime,
        FieldType::Checkbox,
        FieldType::URL,
    ] {
        assert_eq!(
            select_option_operation(&ty, vec![], false),
            Err(SelectError::UnsupportedFieldTypeForOperation)
        );
    }
}

#[test]
fn checklist_decode_answers_its_own_tag() {
    let a = SelectOption::new("Google");
    let type_option: ChecklistSelectTypeOption = ChecklistSelectTypeOptionBuilder::default()
        .option(a.clone())
        .build();
    let decoded = type_option.decode_cell_data(a.id.clone(), &FieldType::ChecklistSelect);
    assert_eq!(decoded.select_options, vec![a.clone()]);
    // The classic select tags are foreign to the checklist decoder.
    let decoded = type_option.decode_cell_data(a.id.clone(), &FieldType::MultiSelect);
    assert!(decoded.select_options.is_empty());
}

#[test]
fn builder_field_types() {
    assert_eq!(
        SingleSelectTypeOptionBuilder::default().field_type(),
        FieldType::SingleSelect
    );
    assert_eq!(
        MultiSelectTypeOptionBuilder::default().field_type(),
        FieldType::MultiSelect
    );
    assert_eq!(
        ChecklistSelectTypeOptionBuilder::default().field_type(),
        FieldType::ChecklistSelect
    );
}

#[test]
fn field_type_predicates() {
    assert!(FieldType::Number.is_number());
    assert!(FieldType::RichText.is_text());
    assert!(FieldType::Checkbox.is_checkbox());
    assert!(FieldType::DateTime.is_date());
    assert!(FieldType::SingleSelect.is_single_select());
    assert!(FieldType::MultiSelect.is_multi_select());
    assert!(FieldType::URL.is_url());
    assert!(FieldType::SingleSelect.is_select_option());
    assert!(FieldType::MultiSelect.is_select_option());
    assert!(!FieldType::ChecklistSelect.is_select_option());
    assert!(FieldType::ChecklistSelect.is_checklist_select());
    assert_eq!(FieldType::default(), FieldType::RichText);
}

#[test]
fn field_type_ids_and_widths() {
    assert_eq!(FieldType::RichText.type_id(), "0");
    assert_eq!(FieldType::SingleSelect.type_id(), "3");
    assert_eq!(FieldType::MultiSelect.type_id(), "4");
    assert_eq!(FieldType::ChecklistSelect.type_id(), "5");
    assert_eq!(FieldType::URL.type_id(), "7");
    assert_eq!(FieldType::DateTime.default_cell_width(), 180);
    assert_eq!(FieldType::Checkbox.default_cell_width(), 150);
}
