//! The document synthesizer: one synthetic document for a sequence index and
//! a target size.
//!
//! Only the key is a function of the index. The number, the flag and the
//! filler texts are drawn at random, so two documents for one index differ.

use crate::arangodb::{flag_field, integer_field, text_field, Document, Field, FieldValueView, FieldView};
use crate::text::{decimal, decimal_string, lemma_numbered_names_distinct};
use rand::distr::{Alphanumeric, SampleString};
use rand::Rng;
use vstd::prelude::*;

verus! {

/// What the key, the number and the flag are taken to weigh in a serialized
/// document. An estimate: the true size of a document differs from its
/// target.
pub const FIXED_OVERHEAD: u32 = 50;

/// The length of each filler text of a document with this target size and
/// this many filler attributes: what the target leaves after the fixed
/// overhead, shared out evenly and rounded down. Without attributes there
/// is nothing to share, and the length is zero.
pub open spec fn attribute_length(target_size: u32, num_attributes: u32) -> nat {
    if num_attributes == 0 {
        0
    } else if target_size <= FIXED_OVERHEAD {
        0
    } else {
        ((target_size - FIXED_OVERHEAD) / (num_attributes as int)) as nat
    }
}

/// The key of the document with this sequence index.
pub open spec fn document_key(index: u32) -> Seq<char> {
    "K"@ + decimal(index as nat)
}

/// The name of the filler attribute with this number, counted from one.
pub open spec fn attribute_name(number: nat) -> Seq<char> {
    "a"@ + decimal(number)
}

/// An ASCII letter or digit.
pub open spec fn is_alphanumeric(c: char) -> bool {
    ||| 'A' <= c <= 'Z'
    ||| 'a' <= c <= 'z'
    ||| '0' <= c <= '9'
}

/// A text of exactly `length` ASCII letters and digits.
pub open spec fn is_filler(text: Seq<char>, length: nat) -> bool {
    &&& text.len() == length
    &&& forall|i: int| 0 <= i < text.len() ==> is_alphanumeric(#[trigger] text[i])
}

/// The shape of a synthetic document: the key, a number, a flag, and then
/// the filler attributes in the order of their numbers.
pub open spec fn is_synthetic_document(
    fields: Seq<FieldView>,
    index: u32,
    target_size: u32,
    num_attributes: u32,
) -> bool {
    &&& fields.len() == 3 + num_attributes
    &&& fields[0] == (FieldView {
        name: "_key"@,
        value: FieldValueView::Text(document_key(index)),
    })
    &&& fields[1].name == "number"@
    &&& fields[1].value matches FieldValueView::Integer(number) && i32::MIN <= number <= i32::MAX
    &&& fields[2].name == "bool"@
    &&& fields[2].value is Flag
    &&& forall|k: int|
        1 <= k <= num_attributes ==> is_filler_attribute(
            #[trigger] fields[2 + k],
            k as nat,
            attribute_length(target_size, num_attributes),
        )
}

/// The filler attribute with this number and a text of this length.
pub open spec fn is_filler_attribute(field: FieldView, number: nat, length: nat) -> bool {
    &&& field.name == attribute_name(number)
    &&& field.value matches FieldValueView::Text(text) && is_filler(text, length)
}

/// Calls `Alphanumeric.sample_string` of `rand` on the thread's generator.
/// The text has exactly `length` characters, each drawn from the ASCII
/// letters and digits; which ones is left open.
#[verifier::external_body]
fn generate_random_ascii(length: usize) -> (text: String)
    ensures
        is_filler(text@, length as nat),
{
    Alphanumeric.sample_string(&mut rand::rng(), length)
}

/// Calls `Rng::random::<i32>` of `rand` on the thread's generator. Any
/// number may come back.
#[verifier::external_body]
fn random_number() -> i32 {
    rand::rng().random::<i32>()
}

/// Calls `Rng::random::<bool>` of `rand` on the thread's generator. Either
/// value may come back.
#[verifier::external_body]
fn random_flag() -> bool {
    rand::rng().random::<bool>()
}

/// The key of the document with this sequence index.
pub fn document_key_string(index: u32) -> (key: String)
    ensures
        key@ == document_key(index),
{
    let digits = decimal_string(index);
    "K".to_owned().concat(digits.as_str())
}

/// The name of the filler attribute with this number.
pub fn attribute_name_string(number: u32) -> (name: String)
    ensures
        name@ == attribute_name(number as nat),
{
    let digits = decimal_string(number);
    "a".to_owned().concat(digits.as_str())
}

/// The length of each filler text; see [`attribute_length`].
pub fn filler_length(target_size: u32, num_attributes: u32) -> (length: u32)
    ensures
        length == attribute_length(target_size, num_attributes),
{
    if num_attributes == 0 || target_size <= FIXED_OVERHEAD {
        0
    } else {
        (target_size - FIXED_OVERHEAD) / num_attributes
    }
}

/// Synthesizes the document with sequence index `key`: about `target_size`
/// bytes, spread over `num_attributes` filler attributes after the key, the
/// number and the flag.
pub fn generate_document(key: u32, target_size: u32, num_attributes: u32) -> (document: Document)
    ensures
        is_synthetic_document(document@, key, target_size, num_attributes),
{
    let key_text = document_key_string(key);
    let mut fields: Vec<Field> = Vec::new();
    fields.push(text_field("_key", key_text.as_str()));
    fields.push(integer_field("number", random_number() as i64));
    fields.push(flag_field("bool", random_flag()));
    let length: u32 = filler_length(target_size, num_attributes);
    let mut number: u32 = 0;
    while number < num_attributes
        invariant
            number <= num_attributes,
            length == attribute_length(target_size, num_attributes),
            fields@.len() == 3 + number,
            fields@[0]@ == (FieldView {
                name: "_key"@,
                value: FieldValueView::Text(document_key(key)),
            }),
            fields@[1]@.name == "number"@,
            fields@[1]@.value matches FieldValueView::Integer(n) && i32::MIN <= n <= i32::MAX,
            fields@[2]@.name == "bool"@,
            fields@[2]@.value is Flag,
            forall|k: int|
                1 <= k <= number ==> is_filler_attribute(
                    #[trigger] fields@[2 + k]@,
                    k as nat,
                    length as nat,
                ),
        decreases num_attributes - number,
    {
        number += 1;
        let name = attribute_name_string(number);
        let text = generate_random_ascii(length as usize);
        fields.push(text_field(name.as_str(), text.as_str()));
    }
    let document = Document { fields };
    assert forall|k: int| 1 <= k <= num_attributes implies is_filler_attribute(
        #[trigger] document@[2 + k],
        k as nat,
        attribute_length(target_size, num_attributes),
    ) by {
        assert(document@[2 + k] == document.fields@[2 + k]@);
    }
    document
}

/// Documents with different sequence indices have different keys.
pub proof fn lemma_document_keys_distinct(a: u32, b: u32)
    requires
        a != b,
    ensures
        document_key(a) != document_key(b),
{
    lemma_numbered_names_distinct("K"@, a as nat, b as nat);
}

/// Filler attributes with different numbers have different names.
pub proof fn lemma_attribute_names_distinct(a: nat, b: nat)
    requires
        a != b,
    ensures
        attribute_name(a) != attribute_name(b),
{
    lemma_numbered_names_distinct("a"@, a, b);
}

/// A synthetic document is a mapping: no two of its fields have the same
/// name.
pub proof fn lemma_field_names_distinct(
    fields: Seq<FieldView>,
    index: u32,
    target_size: u32,
    num_attributes: u32,
    i: int,
    j: int,
)
    requires
        is_synthetic_document(fields, index, target_size, num_attributes),
        0 <= i < j < fields.len(),
    ensures
        fields[i].name != fields[j].name,
{
    reveal_strlit("_key");
    reveal_strlit("number");
    reveal_strlit("bool");
    reveal_strlit("a");
    assert("_key"@[0] == '_');
    assert("number"@[0] == 'n');
    assert("bool"@[0] == 'b');
    if j >= 3 {
        let number = (j - 2) as nat;
        assert(is_filler_attribute(
            fields[2 + (j - 2)],
            number,
            attribute_length(target_size, num_attributes),
        ));
        assert(attribute_name(number)[0] == 'a');
        if i >= 3 {
            assert(is_filler_attribute(
                fields[2 + (i - 2)],
                (i - 2) as nat,
                attribute_length(target_size, num_attributes),
            ));
            lemma_attribute_names_distinct((i - 2) as nat, number);
        }
    }
}

} // verus!
