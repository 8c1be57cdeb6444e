use vstd::prelude::*;

verus! {

/// The string value that the members give to `key`, if a string member has it.
pub open spec fn text_member(text_members: Seq<(Seq<char>, Seq<char>)>, key: Seq<char>) -> Option<
    Seq<char>,
> {
    if exists|i: int| 0 <= i < text_members.len() && text_members[i].0 == key {
        Some(
            text_members[choose|i: int| 0 <= i < text_members.len() && text_members[i].0 == key].1,
        )
    } else {
        None
    }
}

/// Whether parsing `text` and reading the strings at any keys gives, at each
/// key, the string member of that key, if any.
pub open spec fn reads_back(text: Seq<char>, text_members: Seq<(Seq<char>, Seq<char>)>) -> bool {
    forall|keys: Seq<Seq<char>>|
        #[trigger] json_string_members(text, keys) == Ok::<Seq<Option<Seq<char>>>, Seq<char>>(
            keys.map_values(|k: Seq<char>| text_member(text_members, k)),
        )
}

/// Whether no key stands twice among the members.
pub open spec fn members_distinct(
    text_members: Seq<(Seq<char>, Seq<char>)>,
    list_members: Seq<(Seq<char>, Seq<Seq<char>>)>,
) -> bool {
    &&& forall|i: int, j: int|
        0 <= i < j < text_members.len() ==> text_members[i].0 != text_members[j].0
    &&& forall|i: int, j: int|
        0 <= i < j < list_members.len() ==> list_members[i].0 != list_members[j].0
    &&& forall|i: int, j: int|
        0 <= i < text_members.len() && 0 <= j < list_members.len() ==> text_members[i].0
            != list_members[j].0
}

/// The compact JSON text that `serde_json` writes for the object whose members
/// are `text_members` (each a string) and `list_members` (each a list of strings).
pub uninterp spec fn json_object_text(
    text_members: Seq<(Seq<char>, Seq<char>)>,
    list_members: Seq<(Seq<char>, Seq<Seq<char>>)>,
) -> Seq<char>;

/// What `serde_json` gives when `text` is parsed as a JSON value and the string at
/// each of `keys` is read from it (`None` where the value there is no string):
/// the strings, or the parse error's message.
pub uninterp spec fn json_string_members(text: Seq<char>, keys: Seq<Seq<char>>) -> Result<
    Seq<Option<Seq<char>>>,
    Seq<char>,
>;

/// The JSON text that `serde_json::to_string` writes for a list of strings, or its
/// error's message.
pub uninterp spec fn json_string_list_text(items: Seq<Seq<char>>) -> Result<Seq<char>, Seq<char>>;

/// Builds a `serde_json::Value` object from the members and writes it with
/// `serde_json::Value`'s `Display` (`to_string`, compact JSON). The contract names the text, and says two
/// things of it that `serde_json` shows: an object is written between `{` and
/// `}`, and parsing the text back (as `string_members` does) gives each string
/// member its value and every other key no string, when no key stands twice.
#[verifier::external_body]
pub(crate) fn object_json(
    text_members: &Vec<(String, String)>,
    list_members: &Vec<(String, Vec<String>)>,
) -> (r: String)
    ensures
        r@ == json_object_text(text_members.deep_view(), list_members.deep_view()),
        r@.len() >= 2 && r@[0] == '{' && r@.last() == '}',
        members_distinct(text_members.deep_view(), list_members.deep_view()) ==> reads_back(
            r@,
            text_members.deep_view(),
        ),
{
    let mut members = serde_json::Map::new();
    for (k, v) in text_members.iter() {
        members.insert(k.clone(), serde_json::Value::String(v.clone()));
    }
    for (k, vs) in list_members.iter() {
        let items = vs.iter().map(|v| serde_json::Value::String(v.clone())).collect();
        members.insert(k.clone(), serde_json::Value::Array(items));
    }
    serde_json::Value::Object(members).to_string()
}

/// Parses `text` with `serde_json::from_str::<serde_json::Value>` and reads
/// `value[key].as_str()` (`serde_json::Value`'s `Index` and `as_str`) for each key;
/// a parse error comes back as its `Display` text. The contract names the outcome and says
/// that one entry comes back per key.
#[verifier::external_body]
pub(crate) fn string_members(text: &str, keys: &Vec<String>) -> (r: Result<
    Vec<Option<String>>,
    String,
>)
    ensures
        match r {
            Ok(vals) => json_string_members(text@, keys.deep_view()) == Ok::<
                Seq<Option<Seq<char>>>,
                Seq<char>,
            >(vals.deep_view()) && vals@.len() == keys@.len(),
            Err(e) => json_string_members(text@, keys.deep_view()) == Err::<
                Seq<Option<Seq<char>>>,
                Seq<char>,
            >(e@),
        },
{
    match serde_json::from_str::<serde_json::Value>(text) {
        Ok(v) => Ok(keys.iter().map(|k| v[k.as_str()].as_str().map(|s| s.to_string())).collect()),
        Err(e) => Err(e.to_string()),
    }
}

/// The string arguments at `keys` of a call whose arguments are the JSON text
/// `arguments`, one entry per key (`None` where that argument is no string), or
/// the message of the error that parsing the text gave.
pub fn call_arguments(arguments: &str, keys: &Vec<String>) -> (r: Result<Vec<Option<String>>, String>)
    ensures
        match r {
            Ok(vals) => json_string_members(arguments@, keys.deep_view()) == Ok::<
                Seq<Option<Seq<char>>>,
                Seq<char>,
            >(vals.deep_view()) && vals@.len() == keys@.len(),
            Err(e) => json_string_members(arguments@, keys.deep_view()) == Err::<
                Seq<Option<Seq<char>>>,
                Seq<char>,
            >(e@),
        },
{
    string_members(arguments, keys)
}

/// Writes a list of strings as JSON with `serde_json::to_string`; an error comes
/// back as its `Display` text. The contract names the outcome.
#[verifier::external_body]
pub(crate) fn string_list_json(items: &Vec<String>) -> (r: Result<String, String>)
    ensures
        match r {
            Ok(t) => json_string_list_text(items.deep_view()) == Ok::<Seq<char>, Seq<char>>(t@),
            Err(e) => json_string_list_text(items.deep_view()) == Err::<Seq<char>, Seq<char>>(e@),
        },
{
    serde_json::to_string(items).map_err(|e| e.to_string())
}

} // verus!
