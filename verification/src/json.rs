//! JSON values as the bindings hand them around.
//!
//! The JavaScript side gives and takes arbitrary JSON; the bindings only look at
//! the outer shape of a value (is it an object, are its members objects) and
//! otherwise carry it through unchanged.  `JsonValue` holds such a value as plain
//! data and `JsonTree` is its mathematical form, which every contract speaks of.
use vstd::prelude::*;
use vstd::string::StrSliceExecFns;

verus! {

broadcast use vstd::std_specs::vec::group_vec_axioms;

/// Mathematical form of a JSON value.
///
/// An object is the sequence of its members, in the order in which they are held.
pub enum JsonTree {
    Null,
    Bool(bool),
    Number(Seq<char>),
    Str(Seq<char>),
    Array(Seq<JsonTree>),
    Object(Seq<(Seq<char>, JsonTree)>),
}

/// The members of a JSON object, in mathematical form.
pub type ObjectTree = Seq<(Seq<char>, JsonTree)>;

/// A JSON value.
///
/// A number is held as its decimal text, as JSON writes it.
#[derive(Debug, PartialEq)]
pub enum JsonValue {
    Null,
    Bool(bool),
    Number(String),
    String(String),
    Array(Vec<JsonValue>),
    Object(Vec<(String, JsonValue)>),
}

/// The members of a JSON object: each name with its value.
pub type JsonObject = Vec<(String, JsonValue)>;

impl JsonValue {
    /// The mathematical form of this value.
    pub open spec fn tree(self) -> JsonTree
        decreases self,
    {
        match self {
            JsonValue::Null => JsonTree::Null,
            JsonValue::Bool(b) => JsonTree::Bool(b),
            JsonValue::Number(n) => JsonTree::Number(n@),
            JsonValue::String(s) => JsonTree::Str(s@),
            JsonValue::Array(items) => JsonTree::Array(
                Seq::new(
                    items@.len(),
                    |i: int|
                        if 0 <= i < items@.len() {
                            items@[i].tree()
                        } else {
                            JsonTree::Null
                        },
                ),
            ),
            JsonValue::Object(entries) => JsonTree::Object(
                Seq::new(
                    entries@.len(),
                    |i: int|
                        if 0 <= i < entries@.len() {
                            (entries@[i].0@, entries@[i].1.tree())
                        } else {
                            (Seq::empty(), JsonTree::Null)
                        },
                ),
            ),
        }
    }
}

impl View for JsonValue {
    type V = JsonTree;

    open spec fn view(&self) -> JsonTree {
        self.tree()
    }
}

/// The mathematical form of the members of an object.
pub open spec fn object_view(o: JsonObject) -> ObjectTree {
    JsonValue::Object(o)@->Object_0
}

/// Whether one name sorts before another: character by character, by code
/// point, a proper prefix first.  This is the order of `String`, so of the names
/// in serde_json's map and in a `BTreeMap`.
pub open spec fn key_less(a: Seq<char>, b: Seq<char>) -> bool
    decreases a.len(),
{
    if a.len() == 0 {
        b.len() > 0
    } else if b.len() == 0 {
        false
    } else if (a[0] as u32) < (b[0] as u32) {
        true
    } else if a[0] == b[0] {
        key_less(a.drop_first(), b.drop_first())
    } else {
        false
    }
}

/// Whether the names of a list of members are strictly increasing, so that no
/// name occurs twice.
pub open spec fn keys_sorted<V>(entries: Seq<(Seq<char>, V)>) -> bool {
    forall|i: int, j: int| 0 <= i < j < entries.len() ==> key_less(entries[i].0, entries[j].0)
}

/// Past a common prefix, the order of two names is that of what follows it.
pub proof fn lemma_key_less_skip(a: Seq<char>, b: Seq<char>, i: int)
    requires
        0 <= i <= a.len(),
        i <= b.len(),
        forall|j: int| 0 <= j < i ==> a[j] == b[j],
    ensures
        key_less(a, b) == key_less(a.skip(i), b.skip(i)),
    decreases i,
{
    if i == 0 {
        assert(a.skip(0) =~= a);
        assert(b.skip(0) =~= b);
    } else {
        lemma_key_less_skip(a.drop_first(), b.drop_first(), i - 1);
        assert(a.drop_first().skip(i - 1) =~= a.skip(i));
        assert(b.drop_first().skip(i - 1) =~= b.skip(i));
    }
}

/// Whether one name sorts before another (see `key_less`).
pub fn key_precedes(a: &str, b: &str) -> (r: bool)
    ensures
        r == key_less(a@, b@),
{
    let n: usize = a.unicode_len();
    let m: usize = b.unicode_len();
    let mut i: usize = 0;
    while i < n && i < m
        invariant
            n == a@.len(),
            m == b@.len(),
            i <= n,
            i <= m,
            forall|j: int| 0 <= j < i ==> a@[j] == b@[j],
        decreases n - i,
    {
        let ca = a.get_char(i);
        let cb = b.get_char(i);
        if ca != cb {
            proof {
                lemma_key_less_skip(a@, b@, i as int);
                assert(a@.skip(i as int)[0] == ca && b@.skip(i as int)[0] == cb);
            }
            return (ca as u32) < (cb as u32);
        }
        i = i + 1;
    }
    proof {
        lemma_key_less_skip(a@, b@, i as int);
    }
    i == n && i < m
}

/// Whether the names of a list of members are strictly increasing.
pub open spec fn names_sorted<V>(v: Seq<(String, V)>) -> bool {
    forall|i: int, j: int| 0 <= i < j < v.len() ==> key_less(v[i].0@, v[j].0@)
}

/// Checks that the names of a list of members are strictly increasing.
pub fn check_names_sorted<V>(v: &Vec<(String, V)>) -> (r: bool)
    ensures
        r == names_sorted(v@),
{
    let n: usize = v.len();
    let mut i: usize = 0;
    while i < n
        invariant
            n == v@.len(),
            i <= n,
            forall|p: int, q: int| 0 <= p < i && p < q < n ==> key_less(v@[p].0@, v@[q].0@),
        decreases n - i,
    {
        let mut j: usize = i + 1;
        while j < n
            invariant
                n == v@.len(),
                i < n,
                i + 1 <= j <= n,
                forall|p: int, q: int| 0 <= p < i && p < q < n ==> key_less(v@[p].0@, v@[q].0@),
                forall|q: int| i < q < j ==> key_less(v@[i as int].0@, v@[q].0@),
            decreases n - j,
        {
            if !key_precedes(v[i].0.as_str(), v[j].0.as_str()) {
                return false;
            }
            j = j + 1;
        }
        i = i + 1;
    }
    true
}

/// The invariant of JSON objects, as serde_json's map keeps it: the members are
/// sorted by name, each name once.  It is stated of the outer level of a value,
/// the level that the bindings take apart and build; values nested deeper are
/// carried through unchanged.
pub open spec fn members_sorted(t: JsonTree) -> bool {
    t matches JsonTree::Object(entries) ==> keys_sorted(entries)
}

impl JsonValue {
    /// The invariant of JSON objects (see `members_sorted`).
    pub open spec fn wf(self) -> bool {
        members_sorted(self@)
    }
}

/// Whether a JSON value is an object.
pub open spec fn is_object(t: JsonTree) -> bool {
    t is Object
}

impl JsonValue {
    /// A copy of this value, member for member.
    pub fn deep_clone(&self) -> (r: JsonValue)
        ensures
            r@ == self@,
        decreases self,
    {
        match self {
            JsonValue::Null => JsonValue::Null,
            JsonValue::Bool(b) => JsonValue::Bool(*b),
            JsonValue::Number(n) => JsonValue::Number(n.clone()),
            JsonValue::String(s) => JsonValue::String(s.clone()),
            JsonValue::Array(items) => {
                let mut out: Vec<JsonValue> = Vec::new();
                let mut i: usize = 0;
                while i < items.len()
                    invariant
                        i <= items@.len(),
                        *self == JsonValue::Array(*items),
                        out@.len() == i,
                        forall|j: int| 0 <= j < i ==> (#[trigger] out@[j])@ == items@[j]@,
                    decreases items@.len() - i,
                {
                    proof {
                        assert(decreases_to!(*self => (*self)->Array_0));
                        assert(decreases_to!((*self)->Array_0 => (*self)->Array_0@));
                        assert(decreases_to!((*self)->Array_0@ => (*self)->Array_0@[i as int]));
                    }
                    out.push(items[i].deep_clone());
                    i = i + 1;
                }
                let r = JsonValue::Array(out);
                assert forall|j: int| 0 <= j < items@.len() implies #[trigger] r@->Array_0[j]
                    == self@->Array_0[j] by {
                    assert(out@[j]@ == items@[j]@);
                }
                assert(r@->Array_0 =~= self@->Array_0);
                r
            },
            JsonValue::Object(entries) => {
                proof {
                    assert(decreases_to!(*self => (*self)->Object_0));
                }
                let copy = clone_object(entries);
                let r = JsonValue::Object(copy);
                assert(r@->Object_0 =~= self@->Object_0);
                r
            },
        }
    }

    /// Whether this value is an object.
    pub fn is_object(&self) -> (r: bool)
        ensures
            r == is_object(self@),
    {
        match self {
            JsonValue::Object(_) => true,
            _ => false,
        }
    }

    /// The members of this value if it is an object, and `None` otherwise.
    pub fn into_object(self) -> (r: Option<JsonObject>)
        ensures
            r is Some <==> is_object(self@),
            r matches Some(o) ==> object_view(o) == self@->Object_0,
    {
        match self {
            JsonValue::Object(entries) => Some(entries),
            _ => None,
        }
    }
}

/// A copy of the members of an object.
pub fn clone_object(o: &JsonObject) -> (r: JsonObject)
    ensures
        object_view(r) == object_view(*o),
    decreases o,
{
    let mut out: JsonObject = Vec::new();
    let mut i: usize = 0;
    while i < o.len()
        invariant
            i <= o@.len(),
            out@.len() == i,
            forall|j: int|
                0 <= j < i ==> (#[trigger] out@[j]).1@ == o@[j].1@ && out@[j].0@ == o@[j].0@,
        decreases o@.len() - i,
    {
        proof {
            assert(decreases_to!(*o => o@));
            assert(decreases_to!(o@ => o@[i as int]));
            assert(decreases_to!(o@[i as int] => o@[i as int].1));
        }
        let name = o[i].0.clone();
        let value = o[i].1.deep_clone();
        out.push((name, value));
        i = i + 1;
    }
    assert forall|j: int| 0 <= j < o@.len() implies #[trigger] object_view(out)[j] == object_view(
        *o,
    )[j] by {
        assert(out@[j].1@ == o@[j].1@ && out@[j].0@ == o@[j].0@);
    }
    assert(object_view(out) =~= object_view(*o));
    out
}

/// What parsing a JSON text as one string gives: the string, or the parser's
/// error message.
pub uninterp spec fn json_string_parse(text: Seq<char>) -> Result<Seq<char>, Seq<char>>;

/// The texts held in a result of strings.
pub open spec fn text_result(r: Result<String, String>) -> Result<Seq<char>, Seq<char>> {
    match r {
        Ok(s) => Ok(s@),
        Err(m) => Err(m@),
    }
}

/// Whether a text can stand between two quotes as a JSON string that needs no
/// escapes: it holds no quote, no backslash and no control character.
pub open spec fn is_plain_string_body(s: Seq<char>) -> bool {
    forall|i: int|
        0 <= i < s.len() ==> s[i] != '"' && s[i] != '\\' && (s[i] as u32) >= 0x20u32
}

/// Whether a text holds no backslash.
pub open spec fn has_no_backslash(s: Seq<char>) -> bool {
    forall|i: int| 0 <= i < s.len() ==> s[i] != '\\'
}

/// A text without its first and last character.
pub open spec fn string_body(t: Seq<char>) -> Seq<char> {
    t.subrange(1, t.len() - 1)
}

/// Whether a text is a quote, a body without backslashes, and a quote.
pub open spec fn is_backslash_free_string(t: Seq<char>) -> bool {
    &&& t.len() >= 2
    &&& t[0] == '"'
    &&& t[t.len() - 1] == '"'
    &&& has_no_backslash(string_body(t))
}

/// Parses a JSON text that should be one string, with `serde_json::from_str`
/// into a `String`; an error becomes its message (its `Display` text).
///
/// Trusted: the result is named `json_string_parse` of the text.  Beside that it
/// claims what serde_json's string reader shows for a text that is a quote, a
/// body without backslashes, and a quote: the reader stops at the first quote,
/// backslash or control character of the body, so the text is that body when
/// the body holds no quote and no control character, and is refused otherwise
/// (a control character is refused, and a quote inside the body leaves the last
/// quote as trailing characters).
#[verifier::external_body]
pub(crate) fn parse_json_string(text: &str) -> (r: Result<String, String>)
    ensures
        text_result(r) == json_string_parse(text@),
        is_backslash_free_string(text@) ==> (r is Ok <==> is_plain_string_body(string_body(text@))),
        r matches Ok(s) ==> (is_backslash_free_string(text@) ==> s@ == string_body(text@)),
{
    match serde_json::from_str::<String>(text) {
        Ok(s) => Ok(s),
        Err(e) => Err(e.to_string()),
    }
}

} // verus!
