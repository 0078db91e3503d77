//! A builder for the JSON Schema of a tool's input: an action to perform, and the parameters
//! that go with it.

use vstd::prelude::*;
use crate::json::document;
use crate::json::list;
use crate::json::list_of_texts;
use crate::json::members;
use crate::json::no_members;
use crate::json::object;
use crate::json::put_member;
use crate::json::text;
use crate::json::texts_of;
use crate::json::Json;
use crate::model::views;

verus! {

/// Builds the schema of a tool's input, parameter by parameter.
pub struct SchemaBuilder {
    actions: Vec<String>,
    properties: Vec<(String, serde_json::Value)>,
    required: Vec<String>,
}

/// What a builder has been told so far.
pub struct SchemaBuilderView {
    /// The names of the actions that the tool performs.
    pub actions: Seq<Seq<char>>,
    /// The parameters, each with its name and its own schema, in the order in which they were
    /// added.
    pub properties: Seq<(Seq<char>, Json)>,
    /// The names of the parameters that a caller must give, in the order in which they were
    /// added.
    pub required: Seq<Seq<char>>,
}

/// The name and the document of each parameter of a list, in order.
pub open spec fn parameters(entries: Seq<(String, serde_json::Value)>) -> Seq<(Seq<char>, Json)> {
    Seq::new(entries.len(), |i: int| (entries[i].0@, document(entries[i].1)))
}

impl View for SchemaBuilder {
    type V = SchemaBuilderView;

    closed spec fn view(&self) -> SchemaBuilderView {
        SchemaBuilderView {
            actions: views(self.actions@),
            properties: parameters(self.properties@),
            required: views(self.required@),
        }
    }
}

/// The texts of a list, written one after another with a separator between each two.
pub open spec fn joined(items: Seq<Seq<char>>, separator: Seq<char>) -> Seq<char>
    decreases items.len(),
{
    if items.len() == 0 {
        Seq::empty()
    } else if items.len() == 1 {
        items[0]
    } else {
        joined(items.drop_last(), separator) + separator + items.last()
    }
}

/// The schema of a parameter of a plain type.
pub open spec fn plain_field(kind: Seq<char>, description: Seq<char>) -> Json {
    Json::Object(
        Map::empty().insert("type"@, Json::Text(kind)).insert(
            "description"@,
            Json::Text(description),
        ),
    )
}

/// The schema of a parameter that is one of a list of texts.
pub open spec fn choice_field(values: Seq<Seq<char>>, description: Seq<char>) -> Json {
    Json::Object(
        Map::empty().insert("type"@, Json::Text("string"@)).insert(
            "enum"@,
            Json::List(texts_of(values)),
        ).insert("description"@, Json::Text(description)),
    )
}

/// The schema of the action parameter: one of the actions, described by their names.
pub open spec fn action_field(actions: Seq<Seq<char>>) -> Json {
    choice_field(actions, "Action to perform: "@ + joined(actions, ", "@))
}

/// The members of an object after each parameter of a list was put into it, in order: a later
/// parameter replaces an earlier one of the same name.
pub open spec fn laid_out(base: Map<Seq<char>, Json>, properties: Seq<(Seq<char>, Json)>) -> Map<
    Seq<char>,
    Json,
>
    decreases properties.len(),
{
    if properties.len() == 0 {
        base
    } else {
        laid_out(base, properties.drop_last()).insert(properties.last().0, properties.last().1)
    }
}

impl SchemaBuilderView {
    /// The builder after a parameter was added.
    pub open spec fn with_field(self, name: Seq<char>, schema: Json, required: bool)
        -> SchemaBuilderView {
        SchemaBuilderView {
            actions: self.actions,
            properties: self.properties.push((name, schema)),
            required: if required {
                self.required.push(name)
            } else {
                self.required
            },
        }
    }

    /// The properties of the schema: the action, then each parameter under its name.
    pub open spec fn properties_object(self) -> Map<Seq<char>, Json> {
        laid_out(Map::empty().insert("action"@, action_field(self.actions)), self.properties)
    }

    /// The names that the schema requires: the action, then each required parameter.
    pub open spec fn required_list(self) -> Seq<Json> {
        texts_of(seq!["action"@] + self.required)
    }

    /// The schema that the builder stands for: an object with the properties and the names of
    /// those that are required.
    pub open spec fn schema(self) -> Json {
        Json::Object(
            Map::empty().insert("type"@, Json::Text("object"@)).insert(
                "properties"@,
                Json::Object(self.properties_object()),
            ).insert("required"@, Json::List(self.required_list())),
        )
    }
}

/// Writes the texts of a list one after another, with a separator between each two.
pub fn join(items: &Vec<String>, separator: &str) -> (out: String)
    ensures
        out@ == joined(views(items@), separator@),
{
    let mut out = String::new();
    let mut i: usize = 0;
    while i < items.len()
        invariant
            i <= items.len(),
            out@ == joined(views(items@).take(i as int), separator@),
        decreases items.len() - i,
    {
        proof {
            let before = views(items@).take(i as int);
            let after = views(items@).take(i + 1);
            assert(after.drop_last() =~= before);
            assert(after.last() == items@[i as int]@);
            if i == 1 {
                assert(before.drop_last() =~= Seq::<Seq<char>>::empty());
            }
        }
        if i > 0 {
            out.append(separator);
        }
        out.append(items[i].as_str());
        i += 1;
        proof {
            let after = views(items@).take(i as int);
            if i == 1 {
                assert(out@ =~= after[0]);
            }
        }
    }
    assert(views(items@).take(items.len() as int) =~= views(items@));
    out
}

/// Owned copies of a list of borrowed texts.
fn owned(texts: &[&str]) -> (out: Vec<String>)
    ensures
        views(out@) == views(texts@),
{
    let mut out: Vec<String> = Vec::new();
    let mut i: usize = 0;
    while i < texts.len()
        invariant
            i <= texts.len(),
            out.len() == i,
            forall|k: int| 0 <= k < i ==> out@[k]@ == texts@[k]@,
        decreases texts.len() - i,
    {
        out.push(String::from_str(texts[i]));
        i += 1;
    }
    assert(views(out@) =~= views(texts@));
    out
}

/// The schema of a parameter of a plain type, as a value.
fn plain(kind: &str, description: &str) -> (value: serde_json::Value)
    ensures
        document(value) == plain_field(kind@, description@),
{
    let mut parts = no_members();
    put_member(&mut parts, String::from_str("type"), text(String::from_str(kind)));
    put_member(&mut parts, String::from_str("description"), text(String::from_str(description)));
    object(parts)
}

/// The schema of a parameter that is one of a list of texts, as a value.
fn choice(values: &Vec<String>, description: String) -> (value: serde_json::Value)
    ensures
        document(value) == choice_field(views(values@), description@),
{
    let mut parts = no_members();
    put_member(&mut parts, String::from_str("type"), text(String::from_str("string")));
    put_member(&mut parts, String::from_str("enum"), list_of_texts(values));
    put_member(&mut parts, String::from_str("description"), text(description));
    object(parts)
}

impl SchemaBuilder {
    /// A builder for a tool that performs the given actions and takes no parameters yet.
    pub fn new(actions: &[&str]) -> (builder: Self)
        ensures
            builder@ == (SchemaBuilderView {
                actions: views(actions@),
                properties: Seq::empty(),
                required: Seq::empty(),
            }),
    {
        let builder = SchemaBuilder {
            actions: owned(actions),
            properties: Vec::new(),
            required: Vec::new(),
        };
        assert(builder@.properties =~= Seq::empty());
        assert(builder@.required =~= Seq::empty());
        builder
    }

    /// Adds a parameter with the given schema.
    fn field(self, name: &str, schema: serde_json::Value, required: bool) -> (builder: Self)
        ensures
            builder@ == self@.with_field(name@, document(schema), required),
    {
        let mut builder = self;
        builder.properties.push((String::from_str(name), schema));
        if required {
            builder.required.push(String::from_str(name));
        }
        assert(builder@.properties =~= self@.properties.push((name@, document(schema))));
        assert(builder@.required =~= if required {
            self@.required.push(name@)
        } else {
            self@.required
        });
        builder
    }

    /// Adds a parameter that is a text.
    pub fn string(self, name: &str, description: &str, required: bool) -> (builder: Self)
        ensures
            builder@ == self@.with_field(name@, plain_field("string"@, description@), required),
    {
        self.field(name, plain("string", description), required)
    }

    /// Adds a parameter that is a number.
    pub fn number(self, name: &str, description: &str, required: bool) -> (builder: Self)
        ensures
            builder@ == self@.with_field(name@, plain_field("number"@, description@), required),
    {
        self.field(name, plain("number", description), required)
    }

    /// Adds a parameter that is true or false.
    pub fn boolean(self, name: &str, description: &str, required: bool) -> (builder: Self)
        ensures
            builder@ == self@.with_field(name@, plain_field("boolean"@, description@), required),
    {
        self.field(name, plain("boolean", description), required)
    }

    /// Adds a parameter that is one of the given texts.
    pub fn enum_field(self, name: &str, description: &str, required: bool, values: &[&str]) -> (builder:
        Self)
        ensures
            builder@ == self@.with_field(
                name@,
                choice_field(views(values@), description@),
                required,
            ),
    {
        let values = owned(values);
        self.field(name, choice(&values, String::from_str(description)), required)
    }

    /// Builds the schema: an object whose properties are the action and every parameter, and
    /// which requires the action and every parameter that was added as required.
    pub fn build(self) -> (schema: serde_json::Value)
        ensures
            document(schema) == self@.schema(),
    {
        let description = String::from_str("Action to perform: ").concat(
            join(&self.actions, ", ").as_str(),
        );
        let mut properties = no_members();
        put_member(&mut properties, String::from_str("action"), choice(&self.actions, description));
        let ghost base = members(properties);
        let ghost all = parameters(self.properties@);

        for entry in it: self.properties
            invariant
                it.seq() == self.properties@,
                all == parameters(self.properties@),
                members(properties) == laid_out(base, all.take(it.index())),
        {
            proof {
                let before = all.take(it.index());
                let after = all.take(it.index() + 1);
                assert(after.drop_last() =~= before);
                assert(after.last() == (entry.0@, document(entry.1)));
            }
            let (name, schema) = entry;
            put_member(&mut properties, name, schema);
        }
        assert(all.take(all.len() as int) =~= all);

        let mut required: Vec<String> = Vec::new();
        required.push(String::from_str("action"));
        let mut i: usize = 0;
        while i < self.required.len()
            invariant
                i <= self.required.len(),
                required.len() == i + 1,
                required@[0]@ == "action"@,
                forall|k: int| 0 <= k < i ==> required@[k + 1]@ == self.required@[k]@,
            decreases self.required.len() - i,
        {
            required.push(self.required[i].clone());
            i += 1;
        }
        assert(views(required@) =~= seq!["action"@] + views(self.required@));

        let mut parts = no_members();
        put_member(&mut parts, String::from_str("type"), text(String::from_str("object")));
        put_member(&mut parts, String::from_str("properties"), object(properties));
        put_member(&mut parts, String::from_str("required"), list_of_texts(&required));
        object(parts)
    }
}

} // verus!
