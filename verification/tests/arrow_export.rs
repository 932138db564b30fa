use state_bridge::arrow_export::{column_values, create_arrow_array};

#[test]
fn demonstration_column_holds_one_to_five() {
    let column = create_arrow_array();
    assert_eq!(column_values(&column), vec![1, 2, 3, 4, 5]);
}

#[test]
fn read_back_is_stable() {
    let column = create_arrow_array();
    assert_eq!(column_values(&column), column_values(&column));
}
