use flowy_grid::changeset::SelectOptionCellContentChangeset;
use flowy_grid::field_type::FieldType;
use flowy_grid::multi_select::{MultiSelectTypeOption, MultiSelectTypeOptionBuilder};
use flowy_grid::select_option::SelectOption;
use flowy_grid::single_select::{SingleSelectTypeOption, SingleSelectTypeOptionBuilder};

#[test]
fn single_select_test() {
    let google_option = SelectOption::new("Google");
    let facebook_option = SelectOption::new("Facebook");
    let twitter_option = SelectOption::new("Twitter");
    let single_select = SingleSelectTypeOptionBuilder::default()
        .option(google_option.clone())
        .option(facebook_option.clone())
        .option(twitter_option);

    let type_option = single_select.build();
    let field_type = FieldType::SingleSelect;

    let option_ids = vec![google_option.id.clone(), facebook_option.id].join(",");
    let data = SelectOptionCellContentChangeset::from_insert(&option_ids).to_str();
    let cell_data = type_option.apply_changeset(data, None).unwrap();
    assert_single_select_options(cell_data, &type_option, &field_type, vec![google_option.clone()]);

    let data = SelectOptionCellContentChangeset::from_insert(&google_option.id).to_str();
    let cell_data = type_option.apply_changeset(data, None).unwrap();
    assert_single_select_options(cell_data, &type_option, &field_type, vec![google_option]);

    // Invalid option id
    let cell_data = type_option
        .apply_changeset(SelectOptionCellContentChangeset::from_insert("").to_str(), None)
        .unwrap();
    assert_single_select_options(cell_data, &type_option, &field_type, vec![]);

    // Invalid option id
    let cell_data = type_option
        .apply_changeset(SelectOptionCellContentChangeset::from_insert("123").to_str(), None)
        .unwrap();
    assert_single_select_options(cell_data, &type_option, &field_type, vec![]);

    // Invalid changeset
    assert!(type_option.apply_changeset("123".to_string(), None).is_err());
}

#[test]
fn multi_select_test() {
    let google_option = SelectOption::new("Google");
    let facebook_option = SelectOption::new("Facebook");
    let twitter_option = SelectOption::new("Twitter");
    let multi_select = MultiSelectTypeOptionBuilder::default()
        .option(google_option.clone())
        .option(facebook_option.clone())
        .option(twitter_option);

    let type_option = multi_select.build();
    let field_type = FieldType::MultiSelect;

    let option_ids = vec![google_option.id.clone(), facebook_option.id.clone()].join(",");
    let data = SelectOptionCellContentChangeset::from_insert(&option_ids).to_str();
    let cell_data = type_option.apply_changeset(data, None).unwrap();
    assert_multi_select_options(
        cell_data,
        &type_option,
        &field_type,
        vec![google_option.clone(), facebook_option],
    );

    let data = SelectOptionCellContentChangeset::from_insert(&google_option.id).to_str();
    let cell_data = type_option.apply_changeset(data, None).unwrap();
    assert_multi_select_options(cell_data, &type_option, &field_type, vec![google_option]);

    // Invalid option id
    let cell_data = type_option
        .apply_changeset(SelectOptionCellContentChangeset::from_insert("").to_str(), None)
        .unwrap();
    assert_multi_select_options(cell_data, &type_option, &field_type, vec![]);

    // Invalid option id
    let cell_data = type_option
        .apply_changeset(SelectOptionCellContentChangeset::from_insert("123,456").to_str(), None)
        .unwrap();
    assert_multi_select_options(cell_data, &type_option, &field_type, vec![]);

    // Invalid changeset
    assert!(type_option.apply_changeset("123".to_string(), None).is_err());
}

fn assert_multi_select_options(
    cell_data: String,
    type_option: &MultiSelectTypeOption,
    field_type: &FieldType,
    expected: Vec<SelectOption>,
) {
    assert_eq!(
        expected,
        type_option.decode_cell_data(cell_data, field_type).select_options,
    );
}

fn assert_single_select_options(
    cell_data: String,
    type_option: &SingleSelectTypeOption,
    field_type: &FieldType,
    expected: Vec<SelectOption>,
) {
    assert_eq!(
        expected,
        type_option.decode_cell_data(cell_data, field_type).select_options,
    );
}
