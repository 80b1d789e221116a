//! Tests for the typed elicitation schema builder.

use rmcp::elicitation::{
    BooleanPropertySchema, DecimalNumber, ElicitationSchema, ElicitationSchemaBuilder,
    EnumPropertySchema, NumberPropertySchema, NumberType, PropertySchema, StringFormat,
    StringPropertySchema,
};

fn s(text: &str) -> String {
    String::from(text)
}

#[test]
fn test_string_schema_defaults_and_setters() {
    let schema = StringPropertySchema::new();
    assert!(schema.title.is_none());
    assert!(schema.description.is_none());
    assert!(schema.min_length.is_none());
    assert!(schema.max_length.is_none());
    assert!(schema.format.is_none());

    let schema = StringPropertySchema::new()
        .with_title(s("Name"))
        .with_description(s("User's name"))
        .with_min_length(1);
    assert_eq!(schema.title, Some(s("Name")));
    assert_eq!(schema.description, Some(s("User's name")));
    assert_eq!(schema.min_length, Some(1));
    assert!(schema.max_length.is_none());
}

#[test]
fn test_string_schema_length_range() {
    let schema = StringPropertySchema::new().with_length_range(1, 100);
    assert_eq!(schema.min_length, Some(1));
    assert_eq!(schema.max_length, Some(100));

    let schema = StringPropertySchema::new().with_min_length(3).with_max_length(50);
    assert_eq!(schema.min_length, Some(3));
    assert_eq!(schema.max_length, Some(50));
}

#[test]
fn test_string_schema_formats() {
    let formats = vec![
        StringFormat::Email,
        StringFormat::Uri,
        StringFormat::Date,
        StringFormat::DateTime,
    ];
    for format in formats {
        let schema = StringPropertySchema::new().with_format(format);
        assert_eq!(schema.format, Some(format));
    }
    assert!(StringPropertySchema::default().format.is_none());
}

#[test]
fn test_number_schema_integer_and_number() {
    let schema = NumberPropertySchema::integer()
        .with_description(s("Your age"))
        .with_range(DecimalNumber::from_int(18), DecimalNumber::from_int(120));
    assert_eq!(schema.schema_type, NumberType::Integer);
    assert_eq!(schema.description, Some(s("Your age")));
    assert_eq!(schema.minimum, Some(DecimalNumber { mantissa: 18, scale: 0 }));
    assert_eq!(schema.maximum, Some(DecimalNumber { mantissa: 120, scale: 0 }));

    // -273.15 as a scaled decimal: -27315 / 10^2.
    let schema = NumberPropertySchema::number()
        .with_minimum(DecimalNumber { mantissa: -27315, scale: 2 });
    assert_eq!(schema.schema_type, NumberType::Number);
    assert_eq!(schema.minimum, Some(DecimalNumber { mantissa: -27315, scale: 2 }));
    assert!(schema.maximum.is_none());
}

#[test]
fn test_number_schema_only_one_bound() {
    let schema = NumberPropertySchema::integer().with_minimum(DecimalNumber::from_int(0));
    assert!(schema.minimum.is_some());
    assert!(schema.maximum.is_none());

    let schema = NumberPropertySchema::number().with_maximum(DecimalNumber::from_int(100));
    assert!(schema.maximum.is_some());
    assert!(schema.minimum.is_none());
}

#[test]
fn test_boolean_schema_basic_and_default_value() {
    let schema = BooleanPropertySchema::new().with_description(s("Accept terms"));
    assert_eq!(schema.description, Some(s("Accept terms")));
    assert!(schema.default.is_none());

    let schema = BooleanPropertySchema::new()
        .with_description(s("Subscribe to newsletter"))
        .with_default(false);
    assert_eq!(schema.default, Some(false));
    assert!(BooleanPropertySchema::default().default.is_none());
}

#[test]
fn test_enum_schema_values_and_names() {
    let schema = EnumPropertySchema::new(vec![s("red"), s("green"), s("blue")])
        .with_description(s("Favorite color"));
    assert_eq!(schema.values, vec![s("red"), s("green"), s("blue")]);
    assert_eq!(schema.description, Some(s("Favorite color")));
    assert!(schema.enum_names.is_none());

    let schema = EnumPropertySchema::new(vec![s("low"), s("medium"), s("high")])
        .with_names(vec![s("Low Priority"), s("Medium Priority"), s("High Priority")]);
    assert_eq!(
        schema.enum_names,
        Some(vec![s("Low Priority"), s("Medium Priority"), s("High Priority")])
    );
}

#[test]
fn test_builder_method_chaining() {
    let schema = ElicitationSchema::builder()
        .string(s("field1"), StringPropertySchema::new())
        .number(s("field2"), NumberPropertySchema::integer())
        .boolean(s("field3"), BooleanPropertySchema::new())
        .required(s("field1"))
        .required(s("field2"))
        .build();

    assert_eq!(schema.properties.len(), 3);
    assert_eq!(schema.required.as_ref().unwrap().len(), 2);
}

#[test]
fn test_builder_can_be_reused() {
    let base_builder = ElicitationSchema::builder()
        .string(s("name"), StringPropertySchema::new());

    let schema1 = base_builder.clone()
        .required(s("name"))
        .build();

    let schema2 = base_builder
        .number(s("age"), NumberPropertySchema::integer())
        .build();

    assert_eq!(schema1.properties.len(), 1);
    assert!(schema1.required.is_some());

    assert_eq!(schema2.properties.len(), 2);
    assert!(schema2.required.is_none());
}

#[test]
fn test_builder_keeps_one_entry_per_name() {
    // Adding a name again replaces its schema in place.
    let schema = ElicitationSchema::builder()
        .string(s("age"), StringPropertySchema::new())
        .boolean(s("flag"), BooleanPropertySchema::new())
        .number(s("age"), NumberPropertySchema::integer())
        .build();

    assert_eq!(schema.properties.len(), 2);
    assert_eq!(schema.properties[0].0, s("age"));
    assert!(matches!(schema.properties[0].1, PropertySchema::Number(_)));
    assert_eq!(schema.properties[1].0, s("flag"));
    assert!(matches!(schema.properties[1].1, PropertySchema::Boolean(_)));
}

#[test]
fn test_schema_no_required_fields() {
    // The required list is absent, not empty, when nothing was required.
    let schema = ElicitationSchema::builder()
        .string(s("name"), StringPropertySchema::new())
        .build();
    assert!(schema.required.is_none());
}

#[test]
fn test_schema_complex() {
    let schema = ElicitationSchema::builder()
        .string(
            s("email"),
            StringPropertySchema::new()
                .with_format(StringFormat::Email)
                .with_description(s("Your email address")),
        )
        .number(
            s("age"),
            NumberPropertySchema::integer()
                .with_range(DecimalNumber::from_int(18), DecimalNumber::from_int(120))
                .with_description(s("Your age")),
        )
        .boolean(
            s("newsletter"),
            BooleanPropertySchema::new()
                .with_description(s("Subscribe to newsletter"))
                .with_default(true),
        )
        .enumeration(
            s("country"),
            EnumPropertySchema::new(vec![s("us"), s("uk"), s("ca")])
                .with_names(vec![s("United States"), s("United Kingdom"), s("Canada")]),
        )
        .required(s("email"))
        .required(s("age"))
        .build();

    assert_eq!(schema.properties.len(), 4);
    assert_eq!(schema.required, Some(vec![s("email"), s("age")]));

    match &schema.properties[0].1 {
        PropertySchema::String(p) => {
            assert_eq!(p.format, Some(StringFormat::Email));
            assert_eq!(p.description, Some(s("Your email address")));
        }
        _ => panic!("email should be a string property"),
    }
    match &schema.properties[1].1 {
        PropertySchema::Number(p) => {
            assert_eq!(p.schema_type, NumberType::Integer);
            assert_eq!(p.minimum, Some(DecimalNumber::from_int(18)));
        }
        _ => panic!("age should be a number property"),
    }
    match &schema.properties[2].1 {
        PropertySchema::Boolean(p) => assert_eq!(p.default, Some(true)),
        _ => panic!("newsletter should be a boolean property"),
    }
    match &schema.properties[3].1 {
        PropertySchema::Enum(p) => assert_eq!(p.values, vec![s("us"), s("uk"), s("ca")]),
        _ => panic!("country should be an enumeration property"),
    }
}

#[test]
fn test_builder_new_is_empty() {
    let b = ElicitationSchemaBuilder::new();
    assert!(b.properties.is_empty());
    assert!(b.required.is_empty());
    let b = ElicitationSchemaBuilder::default();
    assert!(b.properties.is_empty());
    assert!(b.required.is_empty());
}
