use arango_load::arangodb::{Document, FieldValue};
use arango_load::synthesizer::{
    attribute_name_string, document_key_string, filler_length, generate_document, FIXED_OVERHEAD,
};

fn filler_texts(document: &Document) -> Vec<String> {
    let mut texts = Vec::new();
    for field in document.fields.iter().skip(3) {
        match &field.value {
            FieldValue::Text(text) => texts.push(text.clone()),
            other => panic!("a filler attribute holds a text, not {:?}", other),
        }
    }
    texts
}

#[test]
fn fixed_overhead_is_fifty() {
    assert_eq!(FIXED_OVERHEAD, 50);
}

#[test]
fn filler_length_shares_out_what_the_overhead_leaves() {
    assert_eq!(filler_length(1000, 5), 190);
    assert_eq!(filler_length(100, 5), 10);
    assert_eq!(filler_length(1000, 3), 316);
    assert_eq!(filler_length(51, 1), 1);
    assert_eq!(filler_length(54, 5), 0);
    assert_eq!(filler_length(u32::MAX, 1), u32::MAX - 50);
}

#[test]
fn filler_length_is_zero_below_the_overhead() {
    assert_eq!(filler_length(50, 5), 0);
    assert_eq!(filler_length(49, 5), 0);
    assert_eq!(filler_length(0, 5), 0);
    assert_eq!(filler_length(0, 1), 0);
}

#[test]
fn filler_length_without_attributes_is_zero() {
    assert_eq!(filler_length(1000, 0), 0);
    assert_eq!(filler_length(0, 0), 0);
    assert_eq!(filler_length(u32::MAX, 0), 0);
}

#[test]
fn key_and_attribute_names() {
    assert_eq!(document_key_string(1), "K1");
    assert_eq!(document_key_string(0), "K0");
    assert_eq!(document_key_string(2500), "K2500");
    assert_eq!(document_key_string(u32::MAX), "K4294967295");
    assert_eq!(attribute_name_string(1), "a1");
    assert_eq!(attribute_name_string(12), "a12");
}

#[test]
fn document_sizing() {
    let document = generate_document(1, 1000, 5);
    assert_eq!(document.fields.len(), 8);
    assert_eq!(document.fields[0].name, "_key");
    assert_eq!(document.fields[0].value, FieldValue::Text("K1".to_string()));
    assert_eq!(document.fields[1].name, "number");
    assert!(matches!(document.fields[1].value, FieldValue::Integer(_)));
    assert_eq!(document.fields[2].name, "bool");
    assert!(matches!(document.fields[2].value, FieldValue::Flag(_)));
    let texts = filler_texts(&document);
    assert_eq!(texts.len(), 5);
    for (i, text) in texts.iter().enumerate() {
        assert_eq!(document.fields[3 + i].name, format!("a{}", i + 1));
        assert_eq!(text.chars().count(), 190);
        assert!(text.chars().all(|c| c.is_ascii_alphanumeric()));
    }
}

#[test]
fn document_without_attributes_has_the_fixed_fields_only() {
    let document = generate_document(42, 1000, 0);
    assert_eq!(document.fields.len(), 3);
    assert_eq!(document.fields[0].value, FieldValue::Text("K42".to_string()));
    assert_eq!(document.fields[1].name, "number");
    assert_eq!(document.fields[2].name, "bool");
}

#[test]
fn document_below_the_overhead_has_empty_fillers() {
    let document = generate_document(3, 10, 4);
    assert_eq!(document.fields.len(), 7);
    for text in filler_texts(&document) {
        assert_eq!(text, "");
    }
}

#[test]
fn document_number_fits_thirty_two_bits() {
    for index in 0..50 {
        let document = generate_document(index, 60, 1);
        match document.fields[1].value {
            FieldValue::Integer(number) => {
                assert!(i64::from(i32::MIN) <= number && number <= i64::from(i32::MAX));
            }
            _ => panic!("the number is an integer"),
        }
    }
}

#[test]
fn document_field_names_are_distinct() {
    let document = generate_document(9, 200, 25);
    let mut names: Vec<&str> = document.fields.iter().map(|f| f.name.as_str()).collect();
    names.sort();
    names.dedup();
    assert_eq!(names.len(), 28);
}

#[test]
fn documents_for_one_index_share_the_key_only() {
    let first = generate_document(5, 2000, 2);
    let second = generate_document(5, 2000, 2);
    assert_eq!(first.fields[0], second.fields[0]);
    assert_ne!(filler_texts(&first), filler_texts(&second));
}

#[test]
fn keys_are_unique_over_a_run() {
    let mut keys: Vec<String> = (1..=300).map(document_key_string).collect();
    keys.sort();
    keys.dedup();
    assert_eq!(keys.len(), 300);
}
