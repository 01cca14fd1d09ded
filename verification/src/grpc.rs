//! Messages of the log ingestion service: what a client sends and what it is answered.
use vstd::prelude::*;

verus! {

/// A point in time: whole seconds since the Unix epoch and the nanoseconds within them.
#[derive(Clone, Copy, Debug, PartialEq, Eq, Structural)]
pub struct Timestamp {
    pub seconds: i64,
    pub nanos: i32,
}

/// The kind of a metadata value.
///
/// A number is carried as its decimal rendering; the members of a nested
/// structure or list are not carried, as nothing here reads them.
#[derive(Clone, Debug, PartialEq)]
pub enum Kind {
    NullValue,
    NumberValue(String),
    StringValue(String),
    BoolValue(bool),
    StructValue,
    ListValue,
}

/// A metadata value; a value without a kind is unset.
#[derive(Clone, Debug, PartialEq)]
pub struct Value {
    pub kind: Option<Kind>,
}

/// Structured metadata: named values, read in order, a later field overriding an
/// earlier one of the same name.
#[derive(Clone, Debug, PartialEq)]
pub struct Struct {
    pub fields: Vec<(String, Value)>,
}

/// One log entry as a client sends it.
#[derive(Clone, Debug, PartialEq)]
pub struct LogEntryRequest {
    pub timestamp: Option<Timestamp>,
    pub level: i32,
    pub service_name: String,
    pub message: String,
    pub metadata: Option<Struct>,
}

/// The answer to a client.
#[derive(Clone, Debug, PartialEq)]
pub struct LogResponse {
    pub success: bool,
    pub error_message: String,
}

/// The map that a sequence of named entries denotes: each entry sets its name,
/// a later entry overriding an earlier one.
pub open spec fn entries_map<V>(entries: Seq<(Seq<char>, V)>) -> Map<Seq<char>, V>
    decreases entries.len(),
{
    if entries.len() == 0 {
        Map::empty()
    } else {
        entries_map(entries.drop_last()).insert(entries.last().0, entries.last().1)
    }
}

/// The text of a metadata value of the given kind.
pub open spec fn kind_text(kind: Kind) -> Seq<char> {
    match kind {
        Kind::NullValue => "null"@,
        Kind::NumberValue(rendered) => rendered@,
        Kind::StringValue(text) => text@,
        Kind::BoolValue(b) => if b { "true"@ } else { "false"@ },
        Kind::StructValue => "complex_object"@,
        Kind::ListValue => "complex_object"@,
    }
}

/// The entries of a sequence of fields as text: a field without a kind gives none.
pub open spec fn fields_text_entries(fields: Seq<(String, Value)>) -> Seq<(Seq<char>, Seq<char>)>
    decreases fields.len(),
{
    if fields.len() == 0 {
        Seq::empty()
    } else {
        let rest = fields_text_entries(fields.drop_last());
        match fields.last().1.kind {
            Some(kind) => rest.push((fields.last().0@, kind_text(kind))),
            None => rest,
        }
    }
}

/// The view of a sequence of text pairs as pairs of character sequences.
pub open spec fn text_pairs(pairs: Seq<(String, String)>) -> Seq<(Seq<char>, Seq<char>)> {
    pairs.map_values(|p: (String, String)| (p.0@, p.1@))
}

impl Struct {
    /// The metadata as a map from names to texts.
    pub open spec fn text_map(self) -> Map<Seq<char>, Seq<char>> {
        entries_map(fields_text_entries(self.fields@))
    }
}

impl Kind {
    /// The text of this value: strings as they are, numbers as rendered, booleans as
    /// `true` or `false`, null as `null`, and nested structures or lists as
    /// `complex_object`.
    pub fn text(&self) -> (r: String)
        ensures
            r@ == kind_text(*self),
    {
        match self {
            Kind::NullValue => String::from_str("null"),
            Kind::NumberValue(rendered) => rendered.clone(),
            Kind::StringValue(text) => text.clone(),
            Kind::BoolValue(b) => if *b {
                String::from_str("true")
            } else {
                String::from_str("false")
            },
            Kind::StructValue => String::from_str("complex_object"),
            Kind::ListValue => String::from_str("complex_object"),
        }
    }
}

impl Struct {
    /// The fields of this metadata as name and text, in order, leaving out the
    /// fields whose value has no kind.
    pub fn text_entries(&self) -> (r: Vec<(String, String)>)
        ensures
            text_pairs(r@) == fields_text_entries(self.fields@),
            entries_map(text_pairs(r@)) == self.text_map(),
    {
        let mut r: Vec<(String, String)> = Vec::new();
        let n = self.fields.len();
        let mut i: usize = 0;
        while i < n
            invariant
                n == self.fields@.len(),
                i <= n,
                text_pairs(r@) == fields_text_entries(self.fields@.take(i as int)),
            decreases n - i,
        {
            let (name, value) = &self.fields[i];
            assert(self.fields@.take(i + 1).drop_last() =~= self.fields@.take(i as int));
            match &value.kind {
                Some(kind) => {
                    let text = kind.text();
                    r.push((name.clone(), text));
                    assert(text_pairs(r@) =~= fields_text_entries(self.fields@.take(i + 1)));
                },
                None => {},
            }
            i = i + 1;
        }
        assert(self.fields@.take(n as int) =~= self.fields@);
        r
    }
}

impl LogResponse {
    /// The answer to an entry that was taken: success, with no error message.
    pub fn accepted() -> (r: LogResponse)
        ensures
            r.success,
            r.error_message@.len() == 0,
    {
        LogResponse { success: true, error_message: String::new() }
    }
}

/// The message of the refusal of an entry when the server's buffer cannot take
/// it: `Buffer full: ` and the reason.
pub fn buffer_full_message(reason: &str) -> (r: String)
    ensures
        r@ == "Buffer full: "@ + reason@,
{
    let mut r = String::from_str("Buffer full: ");
    r.append(reason);
    r
}

/// The text of a metadata value says what the value is: a string is itself, a
/// number is its rendering whatever its length, a boolean is `true` or `false`,
/// null is `null`, and a nested structure or list is `complex_object`.
pub proof fn lemma_kind_text_is_the_value(text: String, b: bool)
    ensures
        kind_text(Kind::StringValue(text)) == text@,
        kind_text(Kind::NumberValue(text)) == text@,
        kind_text(Kind::NumberValue(text)).len() == text@.len(),
        kind_text(Kind::BoolValue(b)) == (if b { "true"@ } else { "false"@ }),
        kind_text(Kind::NullValue) == "null"@,
        kind_text(Kind::StructValue) == "complex_object"@,
        kind_text(Kind::ListValue) == "complex_object"@,
{
}

/// Every field that has a value gives one entry, in order: when all fields of
/// some metadata have a value, its text entries are exactly its fields' names,
/// each with the text of its value, however many fields there are.
pub proof fn lemma_fields_text_entries_keep_every_field(fields: Seq<(String, Value)>)
    requires
        forall|i: int| 0 <= i < fields.len() ==> (#[trigger] fields[i]).1.kind is Some,
    ensures
        fields_text_entries(fields).len() == fields.len(),
        forall|i: int|
            0 <= i < fields.len() ==> #[trigger] fields_text_entries(fields)[i] == (
                fields[i].0@,
                kind_text(fields[i].1.kind.unwrap()),
            ),
    decreases fields.len(),
{
    if fields.len() > 0 {
        let init = fields.drop_last();
        assert forall|i: int| 0 <= i < init.len() implies (#[trigger] init[i]).1.kind is Some by {
            assert(init[i] == fields[i]);
        }
        lemma_fields_text_entries_keep_every_field(init);
        let last = fields.len() - 1;
        assert(fields[last] == fields.last());
        assert(fields[last].1.kind is Some);
        let e = fields_text_entries(fields);
        assert forall|i: int|
            0 <= i < fields.len() implies #[trigger] fields_text_entries(fields)[i] == (
            fields[i].0@,
            kind_text(fields[i].1.kind.unwrap()),
        ) by {
            if i < last {
                assert(init[i] == fields[i]);
            }
        }
    }
}

} // verus!
