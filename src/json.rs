use vstd::prelude::*;

verus! {

/// A JSON document as this library reads it. Non-negative integers are held
/// as `Uint`; every other number keeps its decimal text.
pub enum Json {
    Null,
    Bool(bool),
    Uint(u64),
    Number(String),
    Str(String),
    Array(Vec<Json>),
    Object(Vec<(String, Json)>),
}

/// The mathematical value of a `Json`.
pub enum JsonView {
    Null,
    Bool(bool),
    Uint(u64),
    Number(Seq<char>),
    Str(Seq<char>),
    Array(Seq<JsonView>),
    Object(Seq<(Seq<char>, JsonView)>),
}

/// The value of `j`.
pub open spec fn json_view(j: Json) -> JsonView
    decreases j,
{
    match j {
        Json::Null => JsonView::Null,
        Json::Bool(b) => JsonView::Bool(b),
        Json::Uint(n) => JsonView::Uint(n),
        Json::Number(t) => JsonView::Number(t@),
        Json::Str(s) => JsonView::Str(s@),
        Json::Array(items) => JsonView::Array(
            Seq::new(
                items.len() as nat,
                |i: int| if 0 <= i < items.len() { json_view(items[i]) } else { JsonView::Null },
            ),
        ),
        Json::Object(entries) => JsonView::Object(
            Seq::new(
                entries.len() as nat,
                |i: int|
                    if 0 <= i < entries.len() {
                        (entries[i].0@, json_view(entries[i].1))
                    } else {
                        (Seq::empty(), JsonView::Null)
                    },
            ),
        ),
    }
}

impl DeepView for Json {
    type V = JsonView;

    open spec fn deep_view(&self) -> JsonView {
        json_view(*self)
    }
}

impl Clone for Json {
    fn clone(&self) -> (r: Self)
        ensures
            r.deep_view() == self.deep_view(),
    {
        copy_json(self)
    }
}

/// A copy of `j`, with the same value.
pub fn copy_json(j: &Json) -> (r: Json)
    ensures
        r.deep_view() == j.deep_view(),
    decreases j.deep_view(),
{
    match j {
        Json::Null => Json::Null,
        Json::Bool(b) => Json::Bool(*b),
        Json::Uint(n) => Json::Uint(*n),
        Json::Number(t) => Json::Number(t.clone()),
        Json::Str(s) => Json::Str(s.clone()),
        Json::Array(items) => {
            let mut out: Vec<Json> = Vec::new();
            let mut i: usize = 0;
            while i < items.len()
                invariant
                    i <= items.len(),
                    out.len() == i,
                    *j == Json::Array(*items),
                    forall|k: int| 0 <= k < i ==> #[trigger] json_view(out[k]) == json_view(items[k]),
                decreases items.len() - i,
            {
                proof {
                    assert(j.deep_view()->Array_0[i as int] == items[i as int].deep_view());
                }
                out.push(copy_json(&items[i]));
                i = i + 1;
            }
            let r = Json::Array(out);
            assert forall|k: int| 0 <= k < out.len() implies r.deep_view()->Array_0[k]
                == j.deep_view()->Array_0[k] by {
                assert(json_view(out[k]) == json_view(items[k]));
            }
            assert(r.deep_view()->Array_0 =~= j.deep_view()->Array_0);
            r
        },
        Json::Object(entries) => {
            let mut out: Vec<(String, Json)> = Vec::new();
            let mut i: usize = 0;
            while i < entries.len()
                invariant
                    i <= entries.len(),
                    out.len() == i,
                    *j == Json::Object(*entries),
                    forall|k: int| 0 <= k < i ==> #[trigger] out[k].0@ == entries[k].0@
                        && out[k].1.deep_view() == entries[k].1.deep_view(),
                decreases entries.len() - i,
            {
                proof {
                    assert(j.deep_view()->Object_0[i as int].1 == entries[i as int].1.deep_view());
                }
                out.push((entries[i].0.clone(), copy_json(&entries[i].1)));
                i = i + 1;
            }
            let r = Json::Object(out);
            assert(r.deep_view()->Object_0 =~= j.deep_view()->Object_0);
            r
        },
    }
}

/// The value stored under key `k` in an object's entries: the first entry
/// that carries the key.
pub open spec fn field_of(entries: Seq<(Seq<char>, JsonView)>, k: Seq<char>) -> Option<JsonView>
    decreases entries.len(),
{
    if entries.len() == 0 {
        None
    } else if entries[0].0 == k {
        Some(entries[0].1)
    } else {
        field_of(entries.drop_first(), k)
    }
}

/// Looks up key `k` among an object's entries.
pub fn field<'a>(entries: &'a Vec<(String, Json)>, k: &str) -> (r: Option<&'a Json>)
    ensures
        match r {
            Some(v) => field_of(entries.deep_view(), k@) == Some(v.deep_view()),
            None => field_of(entries.deep_view(), k@) is None,
        },
{
    let key = k.to_owned();
    let ghost es = entries.deep_view();
    let mut i: usize = 0;
    assert(es.subrange(0, es.len() as int) =~= es);
    while i < entries.len()
        invariant
            i <= entries.len(),
            es == entries.deep_view(),
            key@ == k@,
            field_of(es, k@) == field_of(es.subrange(i as int, es.len() as int), k@),
        decreases entries.len() - i,
    {
        assert(es.subrange(i as int, es.len() as int).drop_first()
            =~= es.subrange(i + 1, es.len() as int));
        if entries[i].0 == key {
            return Some(&entries[i].1);
        }
        i = i + 1;
    }
    None
}

/// What serde_json makes of a text as a JSON document: `None` where the
/// text is not one.
pub uninterp spec fn json_text_value(s: Seq<char>) -> Option<JsonView>;

/// Relies on `serde_json::from_str::<serde_json::Value>`: parses `s` as one
/// JSON document, and fails on anything else; the value is a function of
/// the text alone.
#[verifier::external_body]
pub(crate) fn parse_json(s: &str) -> (r: Option<Json>)
    ensures
        match r {
            Some(j) => json_text_value(s@) == Some(j.deep_view()),
            None => json_text_value(s@) is None,
        },
{
    serde_json::from_str::<serde_json::Value>(s).ok().map(json_of_value)
}

/// Moves a parsed `serde_json::Value` into a `Json`, variant for variant; a
/// number goes to `Uint` where `serde_json::Number::as_u64` gives it, and
/// keeps its decimal text otherwise. It states nothing: only `parse_json`
/// calls it, and what `parse_json` promises covers both.
#[verifier::external_body]
fn json_of_value(v: serde_json::Value) -> Json {
    match v {
        serde_json::Value::Null => Json::Null,
        serde_json::Value::Bool(b) => Json::Bool(b),
        serde_json::Value::Number(n) => match n.as_u64() {
            Some(u) => Json::Uint(u),
            None => Json::Number(n.to_string()),
        },
        serde_json::Value::String(s) => Json::Str(s),
        serde_json::Value::Array(a) => Json::Array(a.into_iter().map(json_of_value).collect()),
        serde_json::Value::Object(m) => Json::Object(
            m.into_iter().map(|(k, x)| (k, json_of_value(x))).collect(),
        ),
    }
}

#[verifier::external_type_specification]
#[verifier::external_body]
pub struct ExValue(serde_json::Value);

/// The entries of `j` where it is an object.
pub fn as_object(j: &Json) -> (r: Option<&Vec<(String, Json)>>)
    ensures
        match r {
            Some(es) => j.deep_view() == JsonView::Object(es.deep_view()),
            None => !(j.deep_view() is Object),
        },
{
    match j {
        Json::Object(es) => {
            assert(j.deep_view()->Object_0 =~= es.deep_view());
            Some(es)
        },
        _ => None,
    }
}

/// The items of `j` where it is an array.
pub fn as_array(j: &Json) -> (r: Option<&Vec<Json>>)
    ensures
        match r {
            Some(items) => j.deep_view() == JsonView::Array(items.deep_view()),
            None => !(j.deep_view() is Array),
        },
{
    match j {
        Json::Array(items) => {
            assert(j.deep_view()->Array_0 =~= items.deep_view());
            Some(items)
        },
        _ => None,
    }
}

} // verus!
