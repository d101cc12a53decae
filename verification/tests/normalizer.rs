use surrealengine_accelerator::normalize::narrow;
use surrealengine_accelerator::normalize::normalize;
use surrealengine_accelerator::normalize::normalize_each;
use surrealengine_accelerator::normalize::record_id;
use surrealengine_accelerator::normalize::RECORD_ID_TAG;
use surrealengine_accelerator::value::DecodedValue;
use surrealengine_accelerator::value::NormalizedValue;

fn text(s: &str) -> DecodedValue {
    DecodedValue::Text(s.to_string())
}

fn tagged(tag: u64, inner: DecodedValue) -> DecodedValue {
    DecodedValue::Tag(tag, Box::new(inner))
}

fn normal_text(s: &str) -> NormalizedValue {
    NormalizedValue::Text(s.to_string())
}

#[test]
fn null_and_bool_stay() {
    assert_eq!(normalize(&DecodedValue::Null), NormalizedValue::Null);
    assert_eq!(normalize(&DecodedValue::Bool(true)), NormalizedValue::Bool(true));
    assert_eq!(normalize(&DecodedValue::Bool(false)), NormalizedValue::Bool(false));
}

#[test]
fn float_bytes_and_text_stay() {
    let bits = 1.5f64.to_bits();
    assert_eq!(normalize(&DecodedValue::Float(bits)), NormalizedValue::Float(bits));
    assert_eq!(
        normalize(&DecodedValue::Bytes(vec![0, 1, 255])),
        NormalizedValue::Bytes(vec![0, 1, 255])
    );
    assert_eq!(normalize(&DecodedValue::Bytes(vec![])), NormalizedValue::Bytes(vec![]));
    assert_eq!(normalize(&text("héllo")), normal_text("héllo"));
    assert_eq!(normalize(&text("")), normal_text(""));
}

#[test]
fn unrecognized_variant_becomes_null() {
    assert_eq!(normalize(&DecodedValue::Other), NormalizedValue::Null);
    assert_eq!(
        normalize(&DecodedValue::Array(vec![DecodedValue::Other, DecodedValue::Integer(1)])),
        NormalizedValue::Sequence(vec![NormalizedValue::Null, NormalizedValue::Int64(1)])
    );
}

#[test]
fn small_integers_are_signed_64() {
    assert_eq!(normalize(&DecodedValue::Integer(0)), NormalizedValue::Int64(0));
    assert_eq!(normalize(&DecodedValue::Integer(-1)), NormalizedValue::Int64(-1));
    assert_eq!(
        normalize(&DecodedValue::Integer(i64::MAX as i128)),
        NormalizedValue::Int64(i64::MAX)
    );
    assert_eq!(
        normalize(&DecodedValue::Integer(i64::MIN as i128)),
        NormalizedValue::Int64(i64::MIN)
    );
}

#[test]
fn integer_just_above_i64_max_is_unsigned_64() {
    let v = i64::MAX as i128 + 1;
    assert_eq!(normalize(&DecodedValue::Integer(v)), NormalizedValue::UInt64(9223372036854775808));
    assert_eq!(
        normalize(&DecodedValue::Integer(u64::MAX as i128)),
        NormalizedValue::UInt64(u64::MAX)
    );
}

#[test]
fn integer_below_i64_min_is_128_bit() {
    let v = i64::MIN as i128 - 1;
    assert_eq!(normalize(&DecodedValue::Integer(v)), NormalizedValue::Int128(v));
    assert_eq!(normalize(&DecodedValue::Integer(i128::MIN)), NormalizedValue::Int128(i128::MIN));
}

#[test]
fn integer_above_u64_max_is_128_bit() {
    let v = u64::MAX as i128 + 1;
    assert_eq!(normalize(&DecodedValue::Integer(v)), NormalizedValue::Int128(v));
    assert_eq!(normalize(&DecodedValue::Integer(i128::MAX)), NormalizedValue::Int128(i128::MAX));
}

#[test]
fn narrow_picks_each_width() {
    assert_eq!(narrow(7), NormalizedValue::Int64(7));
    assert_eq!(narrow(1 << 63), NormalizedValue::UInt64(1 << 63));
    assert_eq!(narrow(1 << 64), NormalizedValue::Int128(1 << 64));
    assert_eq!(narrow(-(1 << 63) - 1), NormalizedValue::Int128(-(1 << 63) - 1));
}

#[test]
fn record_id_with_text_id() {
    let v = tagged(8, DecodedValue::Array(vec![text("person"), text("17")]));
    assert_eq!(normalize(&v), normal_text("person:17"));
}

#[test]
fn record_id_with_integer_id() {
    let v = tagged(8, DecodedValue::Array(vec![text("person"), DecodedValue::Integer(17)]));
    assert_eq!(normalize(&v), normal_text("person:17"));
}

#[test]
fn record_id_with_negative_and_wide_integer_ids() {
    let v = tagged(8, DecodedValue::Array(vec![text("t"), DecodedValue::Integer(-5)]));
    assert_eq!(normalize(&v), normal_text("t:-5"));
    let v = tagged(8, DecodedValue::Array(vec![text("t"), DecodedValue::Integer(0)]));
    assert_eq!(normalize(&v), normal_text("t:0"));
    let v = tagged(8, DecodedValue::Array(vec![text("t"), DecodedValue::Integer(i128::MIN)]));
    assert_eq!(normalize(&v), normal_text("t:-170141183460469231731687303715884105728"));
    let v = tagged(8, DecodedValue::Array(vec![text("t"), DecodedValue::Integer(i128::MAX)]));
    assert_eq!(normalize(&v), normal_text("t:170141183460469231731687303715884105727"));
    let v = tagged(8, DecodedValue::Array(vec![text("t"), DecodedValue::Integer(1234567890)]));
    assert_eq!(normalize(&v), normal_text("t:1234567890"));
}

#[test]
fn record_id_with_other_shapes_uses_empty_text() {
    let v = tagged(8, DecodedValue::Array(vec![DecodedValue::Integer(3), text("x")]));
    assert_eq!(normalize(&v), normal_text(":x"));
    let v = tagged(8, DecodedValue::Array(vec![text("person"), DecodedValue::Bool(true)]));
    assert_eq!(normalize(&v), normal_text("person:"));
    let v = tagged(8, DecodedValue::Array(vec![DecodedValue::Null, DecodedValue::Null]));
    assert_eq!(normalize(&v), normal_text(":"));
    let id = DecodedValue::Array(vec![DecodedValue::Integer(1)]);
    let v = tagged(8, DecodedValue::Array(vec![text("person"), id]));
    assert_eq!(normalize(&v), normal_text("person:"));
}

#[test]
fn record_id_tag_on_single_element_array_drops_the_tag() {
    let v = tagged(8, DecodedValue::Array(vec![text("person")]));
    assert_eq!(normalize(&v), NormalizedValue::Sequence(vec![normal_text("person")]));
}

#[test]
fn record_id_tag_on_other_shapes_drops_the_tag() {
    let three = DecodedValue::Array(vec![text("a"), text("b"), text("c")]);
    assert_eq!(
        normalize(&tagged(8, three)),
        NormalizedValue::Sequence(vec![normal_text("a"), normal_text("b"), normal_text("c")])
    );
    assert_eq!(normalize(&tagged(8, DecodedValue::Array(vec![]))), NormalizedValue::Sequence(vec![]));
    assert_eq!(normalize(&tagged(8, text("person:17"))), normal_text("person:17"));
    assert_eq!(normalize(&tagged(8, DecodedValue::Integer(4))), NormalizedValue::Int64(4));
}

#[test]
fn other_tags_are_dropped() {
    let pair = DecodedValue::Array(vec![text("person"), text("17")]);
    assert_eq!(
        normalize(&tagged(7, pair)),
        NormalizedValue::Sequence(vec![normal_text("person"), normal_text("17")])
    );
    assert_eq!(normalize(&tagged(0, text("2024-01-01"))), normal_text("2024-01-01"));
    assert_eq!(
        normalize(&tagged(1, tagged(2, DecodedValue::Integer(1 << 63)))),
        NormalizedValue::UInt64(1 << 63)
    );
}

#[test]
fn record_id_under_another_tag_is_still_formatted() {
    let id = tagged(8, DecodedValue::Array(vec![text("a"), DecodedValue::Integer(1)]));
    assert_eq!(normalize(&tagged(99, id)), normal_text("a:1"));
}

#[test]
fn record_id_helper_reports_shape() {
    assert_eq!(RECORD_ID_TAG, 8);
    let pair = DecodedValue::Array(vec![text("person"), DecodedValue::Integer(17)]);
    assert_eq!(record_id(&pair), Some("person:17".to_string()));
    assert_eq!(record_id(&DecodedValue::Array(vec![text("person")])), None);
    assert_eq!(record_id(&text("person")), None);
}

#[test]
fn arrays_keep_order() {
    let v = DecodedValue::Array(vec![
        DecodedValue::Integer(3),
        text("b"),
        DecodedValue::Null,
        DecodedValue::Array(vec![DecodedValue::Bool(false)]),
    ]);
    assert_eq!(
        normalize(&v),
        NormalizedValue::Sequence(vec![
            NormalizedValue::Int64(3),
            normal_text("b"),
            NormalizedValue::Null,
            NormalizedValue::Sequence(vec![NormalizedValue::Bool(false)]),
        ])
    );
}

#[test]
fn map_text_keys_are_kept_verbatim() {
    let v = DecodedValue::Mapping(vec![
        (text("b"), DecodedValue::Integer(2)),
        (text("a"), DecodedValue::Integer(1)),
    ]);
    assert_eq!(
        normalize(&v),
        NormalizedValue::Mapping(vec![
            ("b".to_string(), NormalizedValue::Int64(2)),
            ("a".to_string(), NormalizedValue::Int64(1)),
        ])
    );
}

#[test]
fn map_duplicate_keys_are_kept() {
    let v = DecodedValue::Mapping(vec![
        (text("a"), DecodedValue::Integer(1)),
        (text("a"), DecodedValue::Integer(2)),
    ]);
    assert_eq!(
        normalize(&v),
        NormalizedValue::Mapping(vec![
            ("a".to_string(), NormalizedValue::Int64(1)),
            ("a".to_string(), NormalizedValue::Int64(2)),
        ])
    );
}

#[test]
fn map_non_text_keys_are_rendered() {
    let v = DecodedValue::Mapping(vec![
        (DecodedValue::Integer(1), text("one")),
        (DecodedValue::Bool(true), text("yes")),
        (DecodedValue::Null, text("nothing")),
    ]);
    assert_eq!(
        normalize(&v),
        NormalizedValue::Mapping(vec![
            ("Integer(1)".to_string(), normal_text("one")),
            ("Bool(true)".to_string(), normal_text("yes")),
            ("Null".to_string(), normal_text("nothing")),
        ])
    );
}

#[test]
fn map_values_are_normalized_recursively() {
    let id = tagged(8, DecodedValue::Array(vec![text("person"), DecodedValue::Integer(17)]));
    let v = DecodedValue::Mapping(vec![
        (text("id"), id),
        (text("big"), DecodedValue::Integer(u64::MAX as i128)),
    ]);
    assert_eq!(
        normalize(&v),
        NormalizedValue::Mapping(vec![
            ("id".to_string(), normal_text("person:17")),
            ("big".to_string(), NormalizedValue::UInt64(u64::MAX)),
        ])
    );
}

#[test]
fn normalizing_normal_shaped_input_changes_nothing() {
    let input = DecodedValue::Mapping(vec![
        (text("n"), DecodedValue::Integer(5)),
        (text("u"), DecodedValue::Integer(1 << 63)),
        (text("w"), DecodedValue::Integer(1 << 70)),
        (text("s"), DecodedValue::Array(vec![DecodedValue::Null, text("x")])),
    ]);
    let once = normalize(&input);
    let expected = NormalizedValue::Mapping(vec![
        ("n".to_string(), NormalizedValue::Int64(5)),
        ("u".to_string(), NormalizedValue::UInt64(1 << 63)),
        ("w".to_string(), NormalizedValue::Int128(1 << 70)),
        (
            "s".to_string(),
            NormalizedValue::Sequence(vec![NormalizedValue::Null, normal_text("x")]),
        ),
    ]);
    assert_eq!(once, expected);
    let again = normalize(&input);
    assert_eq!(again, once);
}

#[test]
fn normalizing_what_normalizing_gave_changes_nothing() {
    let id = tagged(8, DecodedValue::Array(vec![text("person"), DecodedValue::Integer(17)]));
    let first = normalize(&DecodedValue::Array(vec![id, DecodedValue::Integer(1 << 63)]));
    assert_eq!(
        first,
        NormalizedValue::Sequence(vec![normal_text("person:17"), NormalizedValue::UInt64(1 << 63)])
    );
    let read_back = DecodedValue::Array(vec![text("person:17"), DecodedValue::Integer(1 << 63)]);
    assert_eq!(normalize(&read_back), first);
}

#[test]
fn rows_are_normalized_in_order() {
    let rows = vec![
        DecodedValue::Mapping(vec![(text("a"), DecodedValue::Integer(1))]),
        DecodedValue::Mapping(vec![(text("a"), DecodedValue::Integer(2))]),
    ];
    assert_eq!(
        normalize_each(&rows),
        vec![
            NormalizedValue::Mapping(vec![("a".to_string(), NormalizedValue::Int64(1))]),
            NormalizedValue::Mapping(vec![("a".to_string(), NormalizedValue::Int64(2))]),
        ]
    );
    assert_eq!(normalize_each(&vec![]), vec![]);
}

#[test]
fn input_is_left_as_it_was() {
    let v = DecodedValue::Array(vec![tagged(8, DecodedValue::Array(vec![text("a"), text("b")]))]);
    let same = DecodedValue::Array(vec![tagged(8, DecodedValue::Array(vec![text("a"), text("b")]))]);
    let _ = normalize(&v);
    assert_eq!(v, same);
}
