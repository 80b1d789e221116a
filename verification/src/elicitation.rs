//! Typed schemas for user-elicitation request forms.
//!
//! An elicitation schema is a flat object whose properties carry primitive
//! types only: strings (with optional length and format constraints),
//! numbers, booleans, and string enumerations.  The builder keeps one
//! entry per property name — adding a name a second time replaces its
//! schema — and records which properties are required.
//!
//! Numeric bounds are decimal values, kept exactly as a scaled integer
//! mantissa; rendering them as JSON numbers is the serializer's concern.

use vstd::prelude::*;

verus! {

/// Format constraints for string property validation.
#[derive(Debug, Clone, Copy, PartialEq, Eq, Hash, Structural)]
pub enum StringFormat {
    /// Email address format.
    Email,
    /// URI format.
    Uri,
    /// Calendar date format.
    Date,
    /// Date and time format.
    DateTime,
}

/// Number type variants for numeric properties.
#[derive(Debug, Clone, Copy, PartialEq, Eq, Hash, Structural)]
pub enum NumberType {
    /// Any decimal number.
    Number,
    /// A whole number.
    Integer,
}

/// A decimal number, held exactly: the value is
/// `mantissa / 10^scale`.
#[derive(Debug, Clone, Copy, PartialEq, Eq, Structural)]
pub struct DecimalNumber {
    pub mantissa: i64,
    pub scale: u32,
}

impl DecimalNumber {
    /// The whole number `n`.
    pub fn from_int(n: i64) -> (r: DecimalNumber)
        ensures
            r == (DecimalNumber { mantissa: n, scale: 0u32 }),
    {
        DecimalNumber { mantissa: n, scale: 0 }
    }
}

/// Schema for a string property: free text with optional length bounds and
/// an optional format constraint.
#[derive(Debug, Clone)]
pub struct StringPropertySchema {
    pub title: Option<String>,
    pub description: Option<String>,
    pub min_length: Option<u32>,
    pub max_length: Option<u32>,
    pub format: Option<StringFormat>,
}

/// Schema for a numeric property, integer or decimal, with optional range
/// bounds.
#[derive(Debug, Clone)]
pub struct NumberPropertySchema {
    pub schema_type: NumberType,
    pub title: Option<String>,
    pub description: Option<String>,
    pub minimum: Option<DecimalNumber>,
    pub maximum: Option<DecimalNumber>,
}

/// Schema for a boolean property with an optional default value.
#[derive(Debug, Clone)]
pub struct BooleanPropertySchema {
    pub title: Option<String>,
    pub description: Option<String>,
    pub default: Option<bool>,
}

/// Schema for an enumeration property: a selection among fixed string
/// values, with optional display names.
#[derive(Debug, Clone)]
pub struct EnumPropertySchema {
    pub title: Option<String>,
    pub description: Option<String>,
    pub values: Vec<String>,
    pub enum_names: Option<Vec<String>>,
}

/// Union of the primitive property schema types.
#[derive(Debug, Clone)]
pub enum PropertySchema {
    String(StringPropertySchema),
    Number(NumberPropertySchema),
    Boolean(BooleanPropertySchema),
    Enum(EnumPropertySchema),
}

impl StringPropertySchema {
    /// A bare string property: no constraints.
    pub fn new() -> (r: Self)
        ensures
            r == (StringPropertySchema {
                title: None,
                description: None,
                min_length: None,
                max_length: None,
                format: None,
            }),
    {
        StringPropertySchema { title: None, description: None, min_length: None, max_length: None, format: None }
    }

    /// Set the title for this property.
    pub fn with_title(self, title: String) -> (r: Self)
        ensures
            r == (StringPropertySchema { title: Some(title), ..self }),
    {
        StringPropertySchema { title: Some(title), ..self }
    }

    /// Set the description for this property.
    pub fn with_description(self, description: String) -> (r: Self)
        ensures
            r == (StringPropertySchema { description: Some(description), ..self }),
    {
        StringPropertySchema { description: Some(description), ..self }
    }

    /// Set the minimum length constraint.
    pub fn with_min_length(self, min: u32) -> (r: Self)
        ensures
            r == (StringPropertySchema { min_length: Some(min), ..self }),
    {
        StringPropertySchema { min_length: Some(min), ..self }
    }

    /// Set the maximum length constraint.
    pub fn with_max_length(self, max: u32) -> (r: Self)
        ensures
            r == (StringPropertySchema { max_length: Some(max), ..self }),
    {
        StringPropertySchema { max_length: Some(max), ..self }
    }

    /// Set both length constraints.
    pub fn with_length_range(self, min: u32, max: u32) -> (r: Self)
        ensures
            r == (StringPropertySchema { min_length: Some(min), max_length: Some(max), ..self }),
    {
        StringPropertySchema { min_length: Some(min), max_length: Some(max), ..self }
    }

    /// Set the format constraint.
    pub fn with_format(self, format: StringFormat) -> (r: Self)
        ensures
            r == (StringPropertySchema { format: Some(format), ..self }),
    {
        StringPropertySchema { format: Some(format), ..self }
    }
}

impl Default for StringPropertySchema {
    fn default() -> (r: Self)
        ensures
            r == (StringPropertySchema {
                title: None,
                description: None,
                min_length: None,
                max_length: None,
                format: None,
            }),
    {
        StringPropertySchema::new()
    }
}

impl NumberPropertySchema {
    /// A bare numeric property of the given kind.
    pub fn new(schema_type: NumberType) -> (r: Self)
        ensures
            r == (NumberPropertySchema {
                schema_type,
                title: None,
                description: None,
                minimum: None,
                maximum: None,
            }),
    {
        NumberPropertySchema { schema_type, title: None, description: None, minimum: None, maximum: None }
    }

    /// An integer property.
    pub fn integer() -> (r: Self)
        ensures
            r == (NumberPropertySchema {
                schema_type: NumberType::Integer,
                title: None,
                description: None,
                minimum: None,
                maximum: None,
            }),
    {
        NumberPropertySchema::new(NumberType::Integer)
    }

    /// A decimal number property.
    pub fn number() -> (r: Self)
        ensures
            r == (NumberPropertySchema {
                schema_type: NumberType::Number,
                title: None,
                description: None,
                minimum: None,
                maximum: None,
            }),
    {
        NumberPropertySchema::new(NumberType::Number)
    }

    /// Set the title for this property.
    pub fn with_title(self, title: String) -> (r: Self)
        ensures
            r == (NumberPropertySchema { title: Some(title), ..self }),
    {
        NumberPropertySchema { title: Some(title), ..self }
    }

    /// Set the description for this property.
    pub fn with_description(self, description: String) -> (r: Self)
        ensures
            r == (NumberPropertySchema { description: Some(description), ..self }),
    {
        NumberPropertySchema { description: Some(description), ..self }
    }

    /// Set the minimum value constraint.
    pub fn with_minimum(self, min: DecimalNumber) -> (r: Self)
        ensures
            r == (NumberPropertySchema { minimum: Some(min), ..self }),
    {
        NumberPropertySchema { minimum: Some(min), ..self }
    }

    /// Set the maximum value constraint.
    pub fn with_maximum(self, max: DecimalNumber) -> (r: Self)
        ensures
            r == (NumberPropertySchema { maximum: Some(max), ..self }),
    {
        NumberPropertySchema { maximum: Some(max), ..self }
    }

    /// Set both range constraints.
    pub fn with_range(self, min: DecimalNumber, max: DecimalNumber) -> (r: Self)
        ensures
            r == (NumberPropertySchema { minimum: Some(min), maximum: Some(max), ..self }),
    {
        NumberPropertySchema { minimum: Some(min), maximum: Some(max), ..self }
    }
}

impl BooleanPropertySchema {
    /// A bare boolean property.
    pub fn new() -> (r: Self)
        ensures
            r == (BooleanPropertySchema { title: None, description: None, default: None }),
    {
        BooleanPropertySchema { title: None, description: None, default: None }
    }

    /// Set the title for this property.
    pub fn with_title(self, title: String) -> (r: Self)
        ensures
            r == (BooleanPropertySchema { title: Some(title), ..self }),
    {
        BooleanPropertySchema { title: Some(title), ..self }
    }

    /// Set the description for this property.
    pub fn with_description(self, description: String) -> (r: Self)
        ensures
            r == (BooleanPropertySchema { description: Some(description), ..self }),
    {
        BooleanPropertySchema { description: Some(description), ..self }
    }

    /// Set the default value.
    pub fn with_default(self, default: bool) -> (r: Self)
        ensures
            r == (BooleanPropertySchema { default: Some(default), ..self }),
    {
        BooleanPropertySchema { default: Some(default), ..self }
    }
}

impl Default for BooleanPropertySchema {
    fn default() -> (r: Self)
        ensures
            r == (BooleanPropertySchema { title: None, description: None, default: None }),
    {
        BooleanPropertySchema::new()
    }
}

impl EnumPropertySchema {
    /// An enumeration over the given string values.
    pub fn new(values: Vec<String>) -> (r: Self)
        ensures
            r == (EnumPropertySchema { title: None, description: None, values, enum_names: None }),
    {
        EnumPropertySchema { title: None, description: None, values, enum_names: None }
    }

    /// Set the title for this property.
    pub fn with_title(self, title: String) -> (r: Self)
        ensures
            r == (EnumPropertySchema { title: Some(title), ..self }),
    {
        EnumPropertySchema { title: Some(title), ..self }
    }

    /// Set the description for this property.
    pub fn with_description(self, description: String) -> (r: Self)
        ensures
            r == (EnumPropertySchema { description: Some(description), ..self }),
    {
        EnumPropertySchema { description: Some(description), ..self }
    }

    /// Set display names for the enumeration's values.
    pub fn with_names(self, names: Vec<String>) -> (r: Self)
        ensures
            r == (EnumPropertySchema { enum_names: Some(names), ..self }),
    {
        EnumPropertySchema { enum_names: Some(names), ..self }
    }
}

/// No two entries share a property name.
pub open spec fn keys_unique(props: Seq<(String, PropertySchema)>) -> bool {
    forall|i: int, j: int|
        0 <= i < j < props.len() ==> (#[trigger] props[i]).0@ != (#[trigger] props[j]).0@
}

/// Whether some entry carries the given property name.
pub open spec fn has_key(props: Seq<(String, PropertySchema)>, name: Seq<char>) -> bool {
    exists|i: int| 0 <= i < props.len() && (#[trigger] props[i]).0@ == name
}

/// The index of the entry carrying the given property name.
pub open spec fn index_of_key(props: Seq<(String, PropertySchema)>, name: Seq<char>) -> int {
    choose|i: int| 0 <= i < props.len() && (#[trigger] props[i]).0@ == name
}

/// The property list after one insertion: a known name has its schema
/// replaced in place, a new name is appended.
pub open spec fn props_with(
    props: Seq<(String, PropertySchema)>,
    name: String,
    schema: PropertySchema,
) -> Seq<(String, PropertySchema)> {
    if has_key(props, name@) {
        props.update(index_of_key(props, name@), (props[index_of_key(props, name@)].0, schema))
    } else {
        props.push((name, schema))
    }
}

/// Complete elicitation request schema: a flat object with primitive-typed
/// properties and an optional list of required property names.
#[derive(Debug, Clone)]
pub struct ElicitationSchema {
    pub properties: Vec<(String, PropertySchema)>,
    pub required: Option<Vec<String>>,
}

impl ElicitationSchema {
    /// The schema invariant: property names are unique.
    pub open spec fn wf(&self) -> bool {
        keys_unique(self.properties@)
    }

    /// Create a new schema builder.
    pub fn builder() -> (r: ElicitationSchemaBuilder)
        ensures
            r.properties@ =~= Seq::<(String, PropertySchema)>::empty(),
            r.required@ =~= Seq::<String>::empty(),
    {
        ElicitationSchemaBuilder::new()
    }
}

/// Builder for [`ElicitationSchema`] values: adds properties one at a
/// time, replacing the schema of a name that is added again.
#[derive(Debug, Clone)]
pub struct ElicitationSchemaBuilder {
    pub properties: Vec<(String, PropertySchema)>,
    pub required: Vec<String>,
}

impl ElicitationSchemaBuilder {
    /// An empty builder.
    pub fn new() -> (r: Self)
        ensures
            r.properties@ =~= Seq::<(String, PropertySchema)>::empty(),
            r.required@ =~= Seq::<String>::empty(),
    {
        ElicitationSchemaBuilder { properties: Vec::new(), required: Vec::new() }
    }

    /// Add or replace one property.
    fn insert_property(self, name: String, schema: PropertySchema) -> (r: Self)
        requires
            keys_unique(self.properties@),
        ensures
            keys_unique(r.properties@),
            r.properties@ == props_with(self.properties@, name, schema),
            r.required == self.required,
    {
        let mut s = self;
        let ghost props0 = s.properties@;
        let mut i: usize = 0;
        while i < s.properties.len()
            invariant
                s.properties@ == props0,
                props0 == self.properties@,
                s.required == self.required,
                keys_unique(props0),
                i <= props0.len(),
                forall|k: int| 0 <= k < i ==> (#[trigger] props0[k]).0@ != name@,
            decreases props0.len() - i,
        {
            if s.properties[i].0 == name {
                proof {
                    assert(props0[i as int].0@ == name@);
                    assert(has_key(props0, name@));
                    let ci = index_of_key(props0, name@);
                    assert(0 <= ci < props0.len() && props0[ci].0@ == name@);
                    assert(ci == i as int) by {
                        if ci < i as int {
                            assert(props0[ci].0@ != props0[i as int].0@);
                        } else if ci > i as int {
                            assert(props0[i as int].0@ != props0[ci].0@);
                        }
                    };
                }
                s.properties[i].1 = schema;
                proof {
                    assert(s.properties@ =~= props_with(props0, name, schema));
                    assert forall|a: int, b: int|
                        0 <= a < b < s.properties@.len() implies (#[trigger] s.properties@[a]).0@
                        != (#[trigger] s.properties@[b]).0@ by {
                        assert(s.properties@[a].0 == props0[a].0);
                        assert(s.properties@[b].0 == props0[b].0);
                    };
                }
                return s;
            }
            i += 1;
        }
        proof {
            assert(!has_key(props0, name@));
        }
        s.properties.push((name, schema));
        proof {
            assert forall|a: int, b: int|
                0 <= a < b < s.properties@.len() implies (#[trigger] s.properties@[a]).0@
                != (#[trigger] s.properties@[b]).0@ by {
                if b < props0.len() {
                    assert(props0[a].0@ != props0[b].0@);
                } else {
                    assert(s.properties@[b] == (name, schema));
                    assert(props0[a].0@ != name@);
                }
            };
        }
        s
    }

    /// Add a string property; a property already under this name is
    /// replaced.
    pub fn string(self, name: String, schema: StringPropertySchema) -> (r: Self)
        requires
            keys_unique(self.properties@),
        ensures
            keys_unique(r.properties@),
            r.properties@ == props_with(self.properties@, name, PropertySchema::String(schema)),
            r.required == self.required,
    {
        self.insert_property(name, PropertySchema::String(schema))
    }

    /// Add a numeric property; a property already under this name is
    /// replaced.
    pub fn number(self, name: String, schema: NumberPropertySchema) -> (r: Self)
        requires
            keys_unique(self.properties@),
        ensures
            keys_unique(r.properties@),
            r.properties@ == props_with(self.properties@, name, PropertySchema::Number(schema)),
            r.required == self.required,
    {
        self.insert_property(name, PropertySchema::Number(schema))
    }

    /// Add a boolean property; a property already under this name is
    /// replaced.
    pub fn boolean(self, name: String, schema: BooleanPropertySchema) -> (r: Self)
        requires
            keys_unique(self.properties@),
        ensures
            keys_unique(r.properties@),
            r.properties@ == props_with(self.properties@, name, PropertySchema::Boolean(schema)),
            r.required == self.required,
    {
        self.insert_property(name, PropertySchema::Boolean(schema))
    }

    /// Add an enumeration property; a property already under this name is
    /// replaced.
    pub fn enumeration(self, name: String, schema: EnumPropertySchema) -> (r: Self)
        requires
            keys_unique(self.properties@),
        ensures
            keys_unique(r.properties@),
            r.properties@ == props_with(self.properties@, name, PropertySchema::Enum(schema)),
            r.required == self.required,
    {
        self.insert_property(name, PropertySchema::Enum(schema))
    }

    /// Mark a property name as required.
    pub fn required(self, field: String) -> (r: Self)
        ensures
            r.properties == self.properties,
            r.required@ == self.required@.push(field),
    {
        let mut s = self;
        s.required.push(field);
        s
    }

    /// Build the final schema.  An empty required list becomes `None`, so
    /// a schema without required properties carries no required field.
    pub fn build(self) -> (r: ElicitationSchema)
        requires
            keys_unique(self.properties@),
        ensures
            r.wf(),
            r.properties == self.properties,
            self.required@.len() == 0 ==> r.required is None,
            self.required@.len() > 0 ==> r.required == Some(self.required),
    {
        let required = if self.required.is_empty() {
            None
        } else {
            Some(self.required)
        };
        ElicitationSchema { properties: self.properties, required }
    }
}

impl Default for ElicitationSchemaBuilder {
    fn default() -> (r: Self)
        ensures
            r.properties@ =~= Seq::<(String, PropertySchema)>::empty(),
            r.required@ =~= Seq::<String>::empty(),
    {
        ElicitationSchemaBuilder::new()
    }
}

} // verus!
