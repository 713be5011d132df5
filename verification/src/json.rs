//! Trees of values, as JSON has them.
use vstd::prelude::*;

verus! {

/// A value. The fields of an object have different names and no order that matters.
#[derive(Debug, PartialEq, Eq)]
pub enum Json {
    Null,
    Bool(bool),
    Number(u64),
    /// A number with a fraction, by its IEEE 754 bits.
    Real(u64),
    Text(String),
    List(Vec<Json>),
    Object(Vec<(String, Json)>),
}

/// A value, by what it says.
pub ghost enum JsonView {
    Null,
    Bool(bool),
    Number(nat),
    Real(u64),
    Text(Seq<char>),
    List(Seq<JsonView>),
    Object(Seq<(Seq<char>, JsonView)>),
}

impl Json {
    pub open spec fn view(&self) -> JsonView
        decreases self,
    {
        match self {
            Json::Null => JsonView::Null,
            Json::Bool(b) => JsonView::Bool(*b),
            Json::Number(n) => JsonView::Number(*n as nat),
            Json::Real(bits) => JsonView::Real(*bits),
            Json::Text(s) => JsonView::Text(s@),
            Json::List(items) => JsonView::List(items_view(items@)),
            Json::Object(fields) => JsonView::Object(fields_view(fields@)),
        }
    }

    /// A text.
    pub fn text(s: &str) -> (r: Self)
        ensures
            r@ == JsonView::Text(s@),
    {
        Json::Text(String::from_str(s))
    }

    /// A text, or nothing.
    pub fn maybe_text(s: Option<&str>) -> (r: Self)
        ensures
            r@ == maybe_text_view(s),
    {
        match s {
            Some(t) => Json::text(t),
            None => Json::Null,
        }
    }

    /// A number.
    pub fn number(n: usize) -> (r: Self)
        ensures
            r@ == JsonView::Number(n as nat),
    {
        Json::Number(n as u64)
    }

    /// A number with a fraction, or nothing.
    pub fn maybe_real(bits: Option<u64>) -> (r: Self)
        ensures
            r@ == maybe_real_view(bits),
    {
        match bits {
            Some(b) => Json::Real(b),
            None => Json::Null,
        }
    }

    /// A list of texts.
    pub fn texts(items: &Vec<String>) -> (r: Self)
        ensures
            r@ == JsonView::List(items@.map_values(|s: String| JsonView::Text(s@))),
    {
        let n: usize = items.len();
        let mut list = Items::new();
        let mut i: usize = 0;
        while i < n
            invariant
                i <= n == items@.len(),
                list@ == items@.take(i as int).map_values(|s: String| JsonView::Text(s@)),
            decreases n - i,
        {
            list.push(Json::text(items[i].as_str()));
            i = i + 1;
            assert(list@ =~= items@.take(i as int).map_values(|s: String| JsonView::Text(s@)));
        }
        assert(items@.take(n as int) =~= items@);
        list.done()
    }
}

/// The fields of an object without any.
pub open spec fn no_fields() -> Seq<(Seq<char>, JsonView)> {
    Seq::empty()
}

/// An object with the given fields.
pub open spec fn object(fields: Seq<(Seq<char>, JsonView)>) -> JsonView {
    JsonView::Object(fields)
}

/// A text, or nothing.
pub open spec fn maybe_text_view(s: Option<&str>) -> JsonView {
    match s {
        Some(t) => JsonView::Text(t@),
        None => JsonView::Null,
    }
}

/// A number with a fraction, or nothing.
pub open spec fn maybe_real_view(bits: Option<u64>) -> JsonView {
    match bits {
        Some(b) => JsonView::Real(b),
        None => JsonView::Null,
    }
}

/// What some values say.
pub open spec fn items_view(items: Seq<Json>) -> Seq<JsonView>
    decreases items,
{
    if items.len() == 0 {
        Seq::empty()
    } else {
        items_view(items.drop_last()).push(items.last()@)
    }
}

/// What some fields say.
pub open spec fn fields_view(fields: Seq<(String, Json)>) -> Seq<(Seq<char>, JsonView)>
    decreases fields,
{
    if fields.len() == 0 {
        Seq::empty()
    } else {
        fields_view(fields.drop_last()).push((fields.last().0@, fields.last().1@))
    }
}

/// A list, underway.
#[derive(Debug)]
pub struct Items {
    items: Vec<Json>,
}

impl Items {
    pub closed spec fn view(&self) -> Seq<JsonView> {
        items_view(self.items@)
    }

    /// An empty list.
    pub fn new() -> (r: Self)
        ensures
            r@ == Seq::<JsonView>::empty(),
    {
        Items { items: Vec::new() }
    }

    /// Adds a value.
    pub fn push(&mut self, value: Json)
        ensures
            final(self)@ == old(self)@.push(value@),
    {
        self.items.push(value);
        assert(self.items@.drop_last() =~= old(self).items@);
    }

    /// The list.
    pub fn done(self) -> (r: Json)
        ensures
            r@ == JsonView::List(self@),
    {
        Json::List(self.items)
    }
}

/// An object, underway.
#[derive(Debug)]
pub struct Fields {
    fields: Vec<(String, Json)>,
}

impl Fields {
    pub closed spec fn view(&self) -> Seq<(Seq<char>, JsonView)> {
        fields_view(self.fields@)
    }

    /// An empty object.
    pub fn new() -> (r: Self)
        ensures
            r@ == no_fields(),
    {
        Fields { fields: Vec::new() }
    }

    /// The object with a field more.
    pub fn with(self, name: &str, value: Json) -> (r: Self)
        ensures
            r@ == self@.push((name@, value@)),
    {
        let mut fields = self.fields;
        fields.push((String::from_str(name), value));
        assert(fields@.drop_last() =~= self.fields@);
        Fields { fields }
    }

    /// The object.
    pub fn done(self) -> (r: Json)
        ensures
            r@ == object(self@),
    {
        Json::Object(self.fields)
    }
}

/// Whether a document is an object with a field `name` that has the value `value`.
pub open spec fn has_field(document: JsonView, name: Seq<char>, value: JsonView) -> bool {
    &&& document is Object
    &&& exists|i: int|
        0 <= i < document->Object_0.len() && #[trigger] document->Object_0[i] == (name, value)
}

pub(crate) proof fn lemma_has_field(document: JsonView, i: int, name: Seq<char>, value: JsonView)
    requires
        document is Object,
        0 <= i < document->Object_0.len(),
        document->Object_0[i] == (name, value),
    ensures
        has_field(document, name, value),
{
}

/// A value says what it was made of: a list has each of its values in its place, and an object each of
/// its fields.
pub proof fn law_values_say_what_they_hold(
    b: bool,
    n: u64,
    s: String,
    items: Vec<Json>,
    fields: Vec<(String, Json)>,
)
    ensures
        Json::Null@ == JsonView::Null,
        Json::Bool(b)@ == JsonView::Bool(b),
        Json::Number(n)@ == JsonView::Number(n as nat),
        Json::Real(n)@ == JsonView::Real(n),
        Json::Text(s)@ == JsonView::Text(s@),
        Json::List(items)@ is List,
        Json::List(items)@->List_0.len() == items@.len(),
        forall|i: int|
            0 <= i < items@.len() ==> #[trigger] Json::List(items)@->List_0[i] == items@[i]@,
        Json::Object(fields)@ is Object,
        Json::Object(fields)@->Object_0.len() == fields@.len(),
        forall|i: int|
            0 <= i < fields@.len() ==> #[trigger] Json::Object(fields)@->Object_0[i] == (
                fields@[i].0@,
                fields@[i].1@,
            ),
{
    lemma_items_view(items@);
    lemma_fields_view(fields@);
}

proof fn lemma_items_view(items: Seq<Json>)
    ensures
        items_view(items).len() == items.len(),
        forall|i: int| 0 <= i < items.len() ==> #[trigger] items_view(items)[i] == items[i]@,
    decreases items.len(),
{
    if items.len() > 0 {
        lemma_items_view(items.drop_last());
    }
}

proof fn lemma_fields_view(fields: Seq<(String, Json)>)
    ensures
        fields_view(fields).len() == fields.len(),
        forall|i: int|
            0 <= i < fields.len() ==> #[trigger] fields_view(fields)[i] == (
                fields[i].0@,
                fields[i].1@,
            ),
    decreases fields.len(),
{
    if fields.len() > 0 {
        lemma_fields_view(fields.drop_last());
    }
}

/// A text or a number that is there is said as it is, and one that is not is said as nothing.
pub proof fn law_nothing_is_null(s: &str, bits: u64)
    ensures
        maybe_text_view(Some(s)) == JsonView::Text(s@),
        maybe_text_view(None) == JsonView::Null,
        maybe_real_view(Some(bits)) == JsonView::Real(bits),
        maybe_real_view(None) == JsonView::Null,
{
}

} // verus!
