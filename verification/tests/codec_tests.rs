use flowy_grid::changeset::SelectOptionCellContentChangeset;
use flowy_grid::errors::SelectError;
use flowy_grid::field_type::FieldType;
use flowy_grid::ids::{join_select_option_ids, select_option_ids};
use flowy_grid::multi_select::MultiSelectTypeOptionBuilder;
use flowy_grid::select_option::SelectOption;
use flowy_grid::single_select::SingleSelectTypeOptionBuilder;

fn three_options() -> (SelectOption, SelectOption, SelectOption) {
    (
        SelectOption::new("Google"),
        SelectOption::new("Facebook"),
        SelectOption::new("Twitter"),
    )
}

#[test]
fn split_ids_splits_on_commas() {
    assert_eq!(
        select_option_ids("a,b".to_string()),
        vec!["a".to_string(), "b".to_string()]
    );
    assert_eq!(select_option_ids("".to_string()), vec!["".to_string()]);
    assert_eq!(
        select_option_ids(",x".to_string()),
        vec!["".to_string(), "x".to_string()]
    );
    assert_eq!(
        select_option_ids("a,,b".to_string()),
        vec!["a".to_string(), "".to_string(), "b".to_string()]
    );
}

#[test]
fn join_ids_joins_with_commas() {
    let ids = vec!["a".to_string(), "b".to_string()];
    assert_eq!(join_select_option_ids(&ids), "a,b");
    let empty: Vec<String> = vec![];
    assert_eq!(join_select_option_ids(&empty), "");
}

#[test]
fn decode_empty_string_selects_nothing() {
    let (g, f, t) = three_options();
    let multi = MultiSelectTypeOptionBuilder::default()
        .option(g.clone())
        .option(f)
        .option(t)
        .build();
    let decoded = multi.decode_cell_data("".to_string(), &FieldType::MultiSelect);
    assert!(decoded.select_options.is_empty());
    assert_eq!(decoded.options.len(), 3);

    let single = SingleSelectTypeOptionBuilder::default().option(g).build();
    let decoded = single.decode_cell_data("".to_string(), &FieldType::SingleSelect);
    assert!(decoded.select_options.is_empty());
}

#[test]
fn decode_never_fails_on_malformed_strings() {
    let (g, f, t) = three_options();
    let multi = MultiSelectTypeOptionBuilder::default()
        .option(g)
        .option(f)
        .option(t)
        .build();
    for junk in [",,,", "%%@@", " , ", "\u{1F600}", ","] {
        let decoded = multi.decode_cell_data(junk.to_string(), &FieldType::MultiSelect);
        assert!(decoded.select_options.is_empty());
    }
}

#[test]
fn decode_drops_dangling_ids() {
    let (g, f, t) = three_options();
    let multi = MultiSelectTypeOptionBuilder::default()
        .option(g.clone())
        .option(f)
        .option(t)
        .build();
    let persisted = format!("{},zzzz", g.id);
    let decoded = multi.decode_cell_data(persisted, &FieldType::MultiSelect);
    assert_eq!(decoded.select_options, vec![g]);
}

#[test]
fn decode_preserves_persisted_order() {
    let (g, f, t) = three_options();
    let multi = MultiSelectTypeOptionBuilder::default()
        .option(g.clone())
        .option(f.clone())
        .option(t.clone())
        .build();
    let persisted = format!("{},{}", t.id, g.id);
    let decoded = multi.decode_cell_data(persisted, &FieldType::MultiSelect);
    assert_eq!(decoded.select_options, vec![t, g]);
}

#[test]
fn decode_keeps_duplicate_ids() {
    let (g, f, t) = three_options();
    let multi = MultiSelectTypeOptionBuilder::default()
        .option(g.clone())
        .option(f)
        .option(t)
        .build();
    let persisted = format!("{},{}", g.id, g.id);
    let decoded = multi.decode_cell_data(persisted, &FieldType::MultiSelect);
    assert_eq!(decoded.select_options, vec![g.clone(), g]);
}

#[test]
fn decode_foreign_field_type_gives_default_view() {
    let (g, f, t) = three_options();
    let multi = MultiSelectTypeOptionBuilder::default()
        .option(g.clone())
        .option(f)
        .option(t)
        .build();
    let decoded = multi.decode_cell_data(g.id.clone(), &FieldType::RichText);
    assert!(decoded.options.is_empty());
    assert!(decoded.select_options.is_empty());
    let decoded = multi.decode_cell_data(g.id.clone(), &FieldType::ChecklistSelect);
    assert!(decoded.options.is_empty());
    assert!(decoded.select_options.is_empty());
}

#[test]
fn single_select_insert_overwrites() {
    let (g, f, t) = three_options();
    let single = SingleSelectTypeOptionBuilder::default()
        .option(g.clone())
        .option(f.clone())
        .option(t)
        .build();
    let first = single
        .apply_changeset(
            SelectOptionCellContentChangeset::from_insert(&g.id).to_str(),
            None,
        )
        .unwrap();
    assert_eq!(first, g.id);
    let second = single
        .apply_changeset(
            SelectOptionCellContentChangeset::from_insert(&f.id).to_str(),
            Some(first),
        )
        .unwrap();
    assert_eq!(second, f.id);
}

#[test]
fn single_select_empty_insert_clears() {
    let (g, f, t) = three_options();
    let single = SingleSelectTypeOptionBuilder::default()
        .option(g.clone())
        .option(f)
        .option(t)
        .build();
    let cleared = single
        .apply_changeset(
            SelectOptionCellContentChangeset::from_delete(&g.id).to_str(),
            Some(g.id.clone()),
        )
        .unwrap();
    assert_eq!(cleared, "");
}

#[test]
fn multi_select_toggle_cycle() {
    let (g, f, t) = three_options();
    let multi = MultiSelectTypeOptionBuilder::default()
        .option(g.clone())
        .option(f)
        .option(t)
        .build();
    let changeset = SelectOptionCellContentChangeset::from_insert(&g.id);

    let first = multi.apply_changeset(changeset.to_str(), None).unwrap();
    assert_eq!(first, g.id);

    let second = multi.apply_changeset(changeset.to_str(), Some(first)).unwrap();
    assert_eq!(second, "");

    let third = multi.apply_changeset(changeset.to_str(), Some(second)).unwrap();
    assert_eq!(third, g.id);
}

#[test]
fn multi_select_delete_is_unconditional() {
    let (g, f, t) = three_options();
    let multi = MultiSelectTypeOptionBuilder::default()
        .option(g.clone())
        .option(f.clone())
        .option(t)
        .build();
    let previous = format!("{},{},{}", g.id, f.id, g.id);
    let next = multi
        .apply_changeset(
            SelectOptionCellContentChangeset::from_delete(&g.id).to_str(),
            Some(previous),
        )
        .unwrap();
    assert_eq!(next, f.id);
}

#[test]
fn multi_select_delete_absent_id_is_noop() {
    let (g, f, t) = three_options();
    let multi = MultiSelectTypeOptionBuilder::default()
        .option(g.clone())
        .option(f.clone())
        .option(t)
        .build();
    let next = multi
        .apply_changeset(
            SelectOptionCellContentChangeset::from_delete(&f.id).to_str(),
            Some(g.id.clone()),
        )
        .unwrap();
    assert_eq!(next, g.id);
}

#[test]
fn round_trip_preserves_id_list() {
    let (g, f, t) = three_options();
    let multi = MultiSelectTypeOptionBuilder::default()
        .option(g.clone())
        .option(f.clone())
        .option(t.clone())
        .build();
    let ids = vec![f.id.clone(), t.id.clone(), g.id.clone()];
    let persisted = join_select_option_ids(&ids);
    let decoded = multi.decode_cell_data(persisted, &FieldType::MultiSelect);
    let decoded_ids: Vec<String> = decoded.select_options.iter().map(|o| o.id.clone()).collect();
    assert_eq!(decoded_ids, ids);
}

#[test]
fn malformed_changeset_rejected() {
    let (g, f, t) = three_options();
    let multi = MultiSelectTypeOptionBuilder::default()
        .option(g.clone())
        .option(f)
        .option(t)
        .build();
    let single = SingleSelectTypeOptionBuilder::default().option(g.clone()).build();
    for bad in ["123", "", "not json", "[1,2]", "{\"insert_option_id\": 7}"] {
        assert_eq!(
            multi.apply_changeset(bad.to_string(), Some(g.id.clone())),
            Err(SelectError::InvalidChangesetPayload)
        );
        assert_eq!(
            single.apply_changeset(bad.to_string(), None),
            Err(SelectError::InvalidChangesetPayload)
        );
    }
}

#[test]
fn changeset_transport_round_trips() {
    let (g, f, t) = three_options();
    let multi = MultiSelectTypeOptionBuilder::default()
        .option(g.clone())
        .option(f)
        .option(t)
        .build();
    // The encoded instruction must actually carry the id through the
    // transport string: applying it on an empty cell selects exactly it.
    let encoded = SelectOptionCellContentChangeset::from_insert(&g.id).to_str();
    assert_ne!(encoded, g.id);
    let next = multi.apply_changeset(encoded, None).unwrap();
    assert_eq!(next, g.id);

    let encoded = SelectOptionCellContentChangeset::from_delete(&g.id).to_str();
    let next = multi.apply_changeset(encoded, Some(g.id.clone())).unwrap();
    assert_eq!(next, "");
}
