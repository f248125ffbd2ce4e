use vstd::prelude::*;

verus! {

/// The JSON type of a parameter.
#[derive(Debug, Clone, Copy, PartialEq, Eq, Structural)]
pub enum SchemaFieldType {
    String,
    Integer,
    Number,
    Boolean,
    Array,
    Object,
}

/// The type and description of the items of an array parameter.
#[derive(Debug, Clone)]
pub struct SchemaItems {
    pub field_type: SchemaFieldType,
    pub description: String,
}

/// One parameter: its type, description, allowed values (if restricted)
/// and, for arrays, the description of the items.
#[derive(Debug, Clone)]
pub struct SchemaField {
    pub field_type: SchemaFieldType,
    pub description: String,
    pub enum_values: Option<Vec<String>>,
    pub items: Option<SchemaItems>,
}

/// A named parameter and whether it must be given.
#[derive(Debug, Clone)]
pub struct Property {
    pub name: String,
    pub required: bool,
    pub field: SchemaField,
}

/// The parameters that a tool or skill accepts, in the order they were added.
#[derive(Debug, Clone)]
pub struct Schema {
    pub name: String,
    pub description: String,
    pub properties: Vec<Property>,
}

/// `f` is a field of type `ty` described by `description`, with no
/// restriction of values and no items.
pub open spec fn plain_field(f: SchemaField, ty: SchemaFieldType, description: Seq<char>) -> bool {
    &&& f.field_type == ty
    &&& f.description@ == description
    &&& f.enum_values is None
    &&& f.items is None
}

/// `f` is a string field restricted to `values`.
pub open spec fn enum_field(f: SchemaField, description: Seq<char>, values: Seq<Seq<char>>) -> bool {
    &&& f.field_type == SchemaFieldType::String
    &&& f.description@ == description
    &&& f.enum_values matches Some(v) && v@.map_values(|x: String| x@) == values
    &&& f.items is None
}

/// `p` is the property `name`, required or not as given.
pub open spec fn property_named(p: Property, name: Seq<char>, required: bool) -> bool {
    p.name@ == name && p.required == required
}

impl SchemaField {
    pub fn new(field_type: SchemaFieldType, description: &str, enum_values: Option<Vec<String>>) -> (f: SchemaField)
        ensures
            f.field_type == field_type,
            f.description@ == description@,
            f.enum_values == enum_values,
            f.items is None,
    {
        SchemaField { field_type, description: description.to_owned(), enum_values, items: None }
    }

    /// Describes the items of an array field by the type and description
    /// of `items`.
    pub fn set_items(&mut self, items: SchemaField)
        ensures
            final(self).field_type == old(self).field_type,
            final(self).description == old(self).description,
            final(self).enum_values == old(self).enum_values,
            final(self).items matches Some(it) && it.field_type == items.field_type && it.description == items.description,
    {
        self.items = Some(SchemaItems { field_type: items.field_type, description: items.description });
    }
}

impl Schema {
    pub fn new(name: &str, description: &str) -> (s: Schema)
        ensures
            s.name@ == name@,
            s.description@ == description@,
            s.properties@.len() == 0,
    {
        Schema { name: name.to_owned(), description: description.to_owned(), properties: Vec::new() }
    }

    /// Adds a parameter after the ones already there.
    pub fn add_property(&mut self, name: &str, required: bool, field: SchemaField)
        ensures
            final(self).name == old(self).name,
            final(self).description == old(self).description,
            final(self).properties@.len() == old(self).properties@.len() + 1,
            forall|i: int| 0 <= i < old(self).properties@.len() ==> final(self).properties@[i] == old(self).properties@[i],
            property_named(final(self).properties@.last(), name@, required),
            final(self).properties@.last().field == field,
    {
        self.properties.push(Property { name: name.to_owned(), required, field });
    }
}

/// Three strings as a vector.
pub fn strings3(a: &str, b: &str, c: &str) -> (v: Vec<String>)
    ensures
        v@.map_values(|x: String| x@) == seq![a@, b@, c@],
{
    let mut v = Vec::new();
    v.push(a.to_owned());
    v.push(b.to_owned());
    v.push(c.to_owned());
    assert(v@.map_values(|x: String| x@) =~= seq![a@, b@, c@]);
    v
}

/// Two strings as a vector.
pub fn strings2(a: &str, b: &str) -> (v: Vec<String>)
    ensures
        v@.map_values(|x: String| x@) == seq![a@, b@],
{
    let mut v = Vec::new();
    v.push(a.to_owned());
    v.push(b.to_owned());
    assert(v@.map_values(|x: String| x@) =~= seq![a@, b@]);
    v
}


/// A list of strings by their contents.
pub open spec fn strings_view(v: Seq<String>) -> Seq<Seq<char>> {
    v.map_values(|x: String| x@)
}

/// The contents of an array's item description.
pub open spec fn items_view(i: SchemaItems) -> (SchemaFieldType, Seq<char>) {
    (i.field_type, i.description@)
}

/// The contents of a field: type, description, allowed values, items.
pub open spec fn field_view(f: SchemaField) -> (SchemaFieldType, Seq<char>, Option<Seq<Seq<char>>>, Option<(SchemaFieldType, Seq<char>)>) {
    (
        f.field_type,
        f.description@,
        match f.enum_values {
            Some(v) => Some(strings_view(v@)),
            None => None,
        },
        match f.items {
            Some(i) => Some(items_view(i)),
            None => None,
        },
    )
}

/// The contents of a property: name, whether required, field.
pub open spec fn property_view(p: Property) -> (Seq<char>, bool, (SchemaFieldType, Seq<char>, Option<Seq<Seq<char>>>, Option<(SchemaFieldType, Seq<char>)>)) {
    (p.name@, p.required, field_view(p.field))
}

impl View for Schema {
    type V = (Seq<char>, Seq<char>, Seq<(Seq<char>, bool, (SchemaFieldType, Seq<char>, Option<Seq<Seq<char>>>, Option<(SchemaFieldType, Seq<char>)>))>);

    /// A schema by its contents.
    open spec fn view(&self) -> Self::V {
        (self.name@, self.description@, self.properties@.map_values(|p: Property| property_view(p)))
    }
}

/// A copy of a list of strings.
pub fn copy_strings(v: &Vec<String>) -> (r: Vec<String>)
    ensures
        strings_view(r@) == strings_view(v@),
{
    let mut r: Vec<String> = Vec::new();
    let mut i: usize = 0;
    while i < v.len()
        invariant
            i <= v@.len(),
            r@.len() == i,
            forall|k: int| 0 <= k < i ==> #[trigger] r@[k]@ == v@[k]@,
        decreases v.len() - i,
    {
        r.push(v[i].as_str().to_owned());
        i = i + 1;
    }
    assert(strings_view(r@) =~= strings_view(v@));
    r
}

impl SchemaField {
    /// A copy of this field.
    pub fn duplicate(&self) -> (r: SchemaField)
        ensures
            field_view(r) == field_view(*self),
    {
        let enum_values = match &self.enum_values {
            Some(v) => Some(copy_strings(v)),
            None => None,
        };
        let items = match &self.items {
            Some(i) => Some(SchemaItems { field_type: i.field_type, description: i.description.as_str().to_owned() }),
            None => None,
        };
        SchemaField { field_type: self.field_type, description: self.description.as_str().to_owned(), enum_values, items }
    }
}

impl Schema {
    /// A copy of this schema.
    pub fn duplicate(&self) -> (r: Schema)
        ensures
            r@ == self@,
    {
        let mut properties: Vec<Property> = Vec::new();
        let mut i: usize = 0;
        while i < self.properties.len()
            invariant
                i <= self.properties@.len(),
                properties@.len() == i,
                forall|k: int| 0 <= k < i ==> property_view(#[trigger] properties@[k]) == property_view(self.properties@[k]),
            decreases self.properties.len() - i,
        {
            let p = &self.properties[i];
            properties.push(Property { name: p.name.as_str().to_owned(), required: p.required, field: p.field.duplicate() });
            i = i + 1;
        }
        let r = Schema { name: self.name.as_str().to_owned(), description: self.description.as_str().to_owned(), properties };
        assert(r.properties@.map_values(|p: Property| property_view(p)) =~= self.properties@.map_values(|p: Property| property_view(p)));
        r
    }
}

} // verus!
