use snowscape::extract::ParamSet;
use snowscape::value::number_input;
use snowscape::{boolean, number, select, text, DynamicParam, ExtractParams, Param, Value};

#[derive(Debug, Clone, PartialEq)]
enum Size {
    Small,
    Medium,
    Large,
}

impl std::fmt::Display for Size {
    fn fmt(&self, f: &mut std::fmt::Formatter<'_>) -> std::fmt::Result {
        f.write_str(match self {
            Size::Small => "Small",
            Size::Medium => "Medium",
            Size::Large => "Large",
        })
    }
}

#[test]
fn text_param_basic() {
    let param = text("my_text", "hello");
    assert_eq!(param.name(), "my_text");
    assert_eq!(param.value(), "hello");
}

#[test]
fn text_param_update() {
    let mut param = text("my_text", "hello");
    param.update(Value::Text("world".to_string()));
    assert_eq!(param.value(), "world");
}

#[test]
fn number_param_basic() {
    let param = number("my_number", 42);
    assert_eq!(param.name(), "my_number");
    assert_eq!(param.value(), 42);
}

#[test]
fn number_param_update() {
    let mut param = number("my_number", 42);
    param.update(Value::I32(100));
    assert_eq!(param.value(), 100);
}

#[test]
fn bool_param_basic() {
    let param = boolean("my_bool", true);
    assert_eq!(param.name(), "my_bool");
    assert_eq!(param.value(), true);
}

#[test]
fn bool_param_update() {
    let mut param = boolean("my_bool", true);
    param.update(Value::Bool(false));
    assert_eq!(param.value(), false);
}

#[test]
fn select_param_basic() {
    let param = select(
        "Size",
        &[Size::Small, Size::Medium, Size::Large],
        Size::Medium,
    );
    assert_eq!(param.name(), "Size");
    assert_eq!(param.value(), Size::Medium);
}

#[test]
fn select_param_update() {
    let mut param = select(
        "Size",
        &[Size::Small, Size::Medium, Size::Large],
        Size::Small,
    );
    param.update(Value::Select(2, vec![]));
    assert_eq!(param.value(), Size::Large);
}

#[test]
fn select_lists_option_labels() {
    let param = select("Size", &[Size::Small, Size::Medium, Size::Large], Size::Large);
    assert_eq!(
        param.to_param(),
        Param::new(
            "Size",
            Value::Select(2, vec!["Small".to_string(), "Medium".to_string(), "Large".to_string()])
        )
    );
}

#[test]
fn select_scenario_ignores_out_of_range_index() {
    let mut param = select("Mode", &["A", "B", "C"], "B");
    assert_eq!(param.value(), "B");
    param.update_index(0, Value::Select(2, vec![]));
    assert_eq!(param.value(), "C");
    param.update_index(0, Value::Select(9, vec![]));
    assert_eq!(param.value(), "C");
}

#[test]
fn number_scenario_ignores_other_kinds() {
    let mut param = number("Count", 5);
    param.update_index(0, Value::Text("x".to_string()));
    assert_eq!(param.value(), 5);
    param.update_index(0, Value::I32(9));
    assert_eq!(param.value(), 9);
}

#[test]
fn mismatched_kinds_are_ignored() {
    let mut t = text("t", "keep");
    t.update(Value::I32(1));
    t.update(Value::Bool(true));
    t.update(Value::Select(0, vec![]));
    assert_eq!(t.value(), "keep");
    let mut b = boolean("b", true);
    b.update(Value::Text("false".to_string()));
    assert_eq!(b.value(), true);
}

#[test]
fn single_param_extract() {
    let param = text("name", "value");
    let params = param.to_params();
    assert_eq!(params.len(), 1);
    assert_eq!(param.extract(), "value");
}

#[test]
fn single_param_update() {
    let mut param = number("count", 10);
    param.update_index(0, Value::I32(20));
    assert_eq!(param.extract(), 20);
}

#[test]
fn single_param_ignores_other_indices() {
    let mut param = number("count", 10);
    param.update_index(1, Value::I32(20));
    assert_eq!(param.extract(), 10);
}

#[test]
fn tuple_2_extract() {
    let params = (text("name", "Alice"), number("age", 30));
    let extracted = params.extract();
    assert_eq!(extracted.0, "Alice");
    assert_eq!(extracted.1, 30);
}

#[test]
fn tuple_2_to_params() {
    let params = (text("name", "Alice"), number("age", 30));
    let params = params.to_params();
    assert_eq!(
        params,
        vec![
            Param::new("name", Value::Text("Alice".to_string())),
            Param::new("age", Value::I32(30))
        ]
    );
}

#[test]
fn tuple_2_update_first() {
    let mut params = (text("name", "Alice"), number("age", 30));
    params.update_index(0, Value::Text("Bob".to_string()));
    let extracted = params.extract();
    assert_eq!(extracted.0, "Bob");
    assert_eq!(extracted.1, 30);
}

#[test]
fn tuple_2_update_second() {
    let mut params = (text("name", "Alice"), number("age", 30));
    params.update_index(1, Value::I32(40));
    let extracted = params.extract();
    assert_eq!(extracted.0, "Alice");
    assert_eq!(extracted.1, 40);
}

#[test]
fn tuple_3_update_middle() {
    let mut params = (
        text("name", "Alice"),
        number("age", 30),
        boolean("active", true),
    );
    params.update_index(1, Value::I32(35));
    let extracted = params.extract();
    assert_eq!(extracted.0, "Alice");
    assert_eq!(extracted.1, 35);
    assert_eq!(extracted.2, true);
}

#[test]
fn tuple_4_extract() {
    let params = (
        text("name", "Alice"),
        number("age", 30),
        boolean("active", true),
        text("city", "NYC"),
    );
    let extracted = params.extract();
    assert_eq!(
        extracted,
        (String::from("Alice"), 30, true, String::from("NYC"))
    );
}

#[test]
fn tuple_8_lists_all_and_updates_one() {
    let mut params = (
        number("a", 0),
        number("b", 1),
        number("c", 2),
        number("d", 3),
        number("e", 4),
        number("f", 5),
        number("g", 6),
        number("h", 7),
    );
    assert_eq!(params.to_params().len(), 8);
    let before = params.to_params();
    params.update_index(6, Value::I32(60));
    let after = params.to_params();
    for i in 0..8 {
        if i == 6 {
            assert_eq!(after[i], Param::new("g", Value::I32(60)));
        } else {
            assert_eq!(after[i], before[i]);
        }
    }
    params.update_index(8, Value::I32(99));
    assert_eq!(params.to_params(), after);
}

#[test]
fn param_set_keeps_cache_in_step() {
    let mut set = ParamSet::new((text("name", "Alice"), number("age", 30)));
    assert_eq!(set.params()[1], Param::new("age", Value::I32(30)));
    set.change(1, Value::I32(31));
    assert_eq!(set.params()[1], Param::new("age", Value::I32(31)));
    assert_eq!(set.values().1, 31);
    set.change(0, Value::Bool(false));
    assert_eq!(set.values().0, "Alice");
}

#[test]
fn value_conversions() {
    assert_eq!(Value::from(String::from("s")), Value::Text("s".to_string()));
    assert_eq!(Value::from(true), Value::Bool(true));
    assert_eq!(Value::from(-3), Value::I32(-3));
}

#[test]
fn number_input_reads_decimal_text() {
    assert_eq!(number_input("42"), Some(Value::I32(42)));
    assert_eq!(number_input("-7"), Some(Value::I32(-7)));
    assert_eq!(number_input("+3"), Some(Value::I32(3)));
    assert_eq!(number_input("-2147483648"), Some(Value::I32(i32::MIN)));
    assert_eq!(number_input("2147483648"), None);
    assert_eq!(number_input(""), None);
    assert_eq!(number_input("-"), None);
    assert_eq!(number_input(" 5"), None);
    assert_eq!(number_input("x"), None);
}
