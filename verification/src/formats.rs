//! Reading JSON (`serde_json`) and TOML (`toml`) documents into plain values.
//!
//! Each reader names what the outside parser yields for a given text; the
//! logic that interprets those values lives with its callers.
use vstd::prelude::*;

verus! {

/// What a JSON value offers its readers: its string content if it is a string,
/// its truth value if it is a boolean, and its compact JSON rendering.
pub struct JsonScalar {
    /// `Value::as_str`.
    pub text: Option<String>,
    /// `Value::as_bool`.
    pub flag: Option<bool>,
    /// `Value::to_string` (compact JSON).
    pub rendered: String,
}

/// The model of a [`JsonScalar`].
pub struct JsonScalarView {
    pub text: Option<Seq<char>>,
    pub flag: Option<bool>,
    pub rendered: Seq<char>,
}

impl View for JsonScalar {
    type V = JsonScalarView;

    open spec fn view(&self) -> JsonScalarView {
        JsonScalarView {
            text: match self.text {
                Some(s) => Some(s@),
                None => None,
            },
            flag: self.flag,
            rendered: self.rendered@,
        }
    }
}

/// The view of an optional scalar.
pub open spec fn opt_scalar_view(o: Option<JsonScalar>) -> Option<JsonScalarView> {
    match o {
        Some(s) => Some(s@),
        None => None,
    }
}

/// The views of a list of optional scalars.
pub open spec fn scalars_view(v: Seq<Option<JsonScalar>>) -> Seq<Option<JsonScalarView>> {
    v.map_values(|o: Option<JsonScalar>| opt_scalar_view(o))
}

/// `serde_json::from_str` of `text` when it is an object: for each member, in the
/// order `serde_json::Map` iterates, its key and the scalars at `keys` inside it.
pub uninterp spec fn json_object_fields_of(
    text: Seq<char>,
    keys: Seq<Seq<char>>,
) -> Option<Seq<(Seq<char>, Seq<Option<JsonScalarView>>)>>;

/// `serde_json::from_str` of `text`, then the array under `array_key`: for each
/// element, the scalars at `keys` inside it.
pub uninterp spec fn json_array_fields_of(
    text: Seq<char>,
    array_key: Seq<char>,
    keys: Seq<Seq<char>>,
) -> Option<Seq<Seq<Option<JsonScalarView>>>>;

/// `serde_json::from_str` of `text`: for each of `keys`, the members of the
/// object under that key (key and scalar), or `None` when it is not an object.
pub uninterp spec fn json_members_of(
    text: Seq<char>,
    keys: Seq<Seq<char>>,
) -> Option<Seq<Option<Seq<(Seq<char>, JsonScalarView)>>>>;

/// `toml::from_str::<toml::Table>` of `text`, then the array at the key path
/// `path`: the string content (`as_str`) of each element.
pub uninterp spec fn toml_array_at(text: Seq<char>, path: Seq<Seq<char>>) -> Option<Seq<Option<Seq<char>>>>;

/// `toml::from_str::<toml::Table>` of `text`, then the table at the key path
/// `path`: for each entry, its key and, when its value is an array, the string
/// content of each element.
pub uninterp spec fn toml_table_at(
    text: Seq<char>,
    path: Seq<Seq<char>>,
) -> Option<Seq<(Seq<char>, Option<Seq<Option<Seq<char>>>>)>>;

/// The model of a list of (key, scalars) members.
pub open spec fn fields_view(v: Seq<(String, Vec<Option<JsonScalar>>)>) -> Seq<(Seq<char>, Seq<Option<JsonScalarView>>)> {
    v.map_values(|e: (String, Vec<Option<JsonScalar>>)| (e.0@, scalars_view(e.1@)))
}

/// The model of a list of scalar lists.
pub open spec fn entries_view(v: Seq<Vec<Option<JsonScalar>>>) -> Seq<Seq<Option<JsonScalarView>>> {
    v.map_values(|e: Vec<Option<JsonScalar>>| scalars_view(e@))
}

/// The model of a list of optional member lists.
pub open spec fn member_tables_view(v: Seq<Option<Vec<(String, JsonScalar)>>>) -> Seq<Option<Seq<(Seq<char>, JsonScalarView)>>> {
    v.map_values(|o: Option<Vec<(String, JsonScalar)>>| match o {
        Some(m) => Some(members_view(m@)),
        None => None,
    })
}

/// The model of a list of TOML table entries, each a key and an optional array
/// of optional strings.
pub open spec fn table_entries_view(v: Seq<(String, Option<Vec<Option<String>>>)>) -> Seq<(Seq<char>, Option<Seq<Option<Seq<char>>>>)> {
    v.map_values(|e: (String, Option<Vec<Option<String>>>)| (e.0@, match e.1 {
        Some(a) => Some(opt_strs_view(a@)),
        None => None,
    }))
}

/// The model of a list of (key, scalar) members.
pub open spec fn members_view(v: Seq<(String, JsonScalar)>) -> Seq<(Seq<char>, JsonScalarView)> {
    v.map_values(|e: (String, JsonScalar)| (e.0@, e.1@))
}

/// The model of an optional list of optional strings.
pub open spec fn opt_strs_view(v: Seq<Option<String>>) -> Seq<Option<Seq<char>>> {
    v.map_values(|o: Option<String>| match o {
        Some(s) => Some(s@),
        None => None,
    })
}

/// Members of the JSON object `text` with the scalars at `keys` inside each
/// (`serde_json::from_str`, `Value::as_object`, `Value::get`). The contract names
/// the parser's result; it claims nothing else.
#[verifier::external_body]
pub fn json_object_fields(text: &str, keys: &Vec<String>) -> (r: Option<Vec<(String, Vec<Option<JsonScalar>>)>>)
    ensures
        match r {
            Some(v) => json_object_fields_of(text@, crate::text::views(keys@)) == Some(fields_view(v@))
                && forall|i: int| 0 <= i < v@.len() ==> (#[trigger] v@[i]).1@.len() == keys@.len(),
            None => json_object_fields_of(text@, crate::text::views(keys@)) is None,
        },
{
    let doc: serde_json::Value = serde_json::from_str(text).ok()?;
    let scalar = |x: &serde_json::Value| JsonScalar { text: x.as_str().map(String::from), flag: x.as_bool(), rendered: x.to_string() };
    Some(doc.as_object()?.iter().map(|(k, e)| (k.clone(), keys.iter().map(|key| e.get(key.as_str()).map(scalar)).collect())).collect())
}

/// For each element of the JSON array under `array_key` in `text`, the scalars
/// at `keys` (`serde_json::from_str`, `Value::get`, `Value::as_array`). The
/// contract names the parser's result; it claims nothing else.
#[verifier::external_body]
pub fn json_array_fields(text: &str, array_key: &str, keys: &Vec<String>) -> (r: Option<Vec<Vec<Option<JsonScalar>>>>)
    ensures
        match r {
            Some(v) => json_array_fields_of(text@, array_key@, crate::text::views(keys@)) == Some(
                v@.map_values(|e: Vec<Option<JsonScalar>>| scalars_view(e@)),
            ) && forall|i: int| 0 <= i < v@.len() ==> (#[trigger] v@[i])@.len() == keys@.len(),
            None => json_array_fields_of(text@, array_key@, crate::text::views(keys@)) is None,
        },
{
    let doc: serde_json::Value = serde_json::from_str(text).ok()?;
    let scalar = |x: &serde_json::Value| JsonScalar { text: x.as_str().map(String::from), flag: x.as_bool(), rendered: x.to_string() };
    Some(doc.get(array_key)?.as_array()?.iter().map(|e| keys.iter().map(|key| e.get(key.as_str()).map(scalar)).collect()).collect())
}

/// For each of `keys`, the members of the JSON object under that key in `text`
/// (`serde_json::from_str`, `Value::get`, `Value::as_object`). The contract names
/// the parser's result; it claims nothing else.
#[verifier::external_body]
pub fn json_members(text: &str, keys: &Vec<String>) -> (r: Option<Vec<Option<Vec<(String, JsonScalar)>>>>)
    ensures
        match r {
            Some(v) => json_members_of(text@, crate::text::views(keys@)) == Some(
                v@.map_values(|o: Option<Vec<(String, JsonScalar)>>| match o {
                    Some(m) => Some(members_view(m@)),
                    None => None,
                }),
            ),
            None => json_members_of(text@, crate::text::views(keys@)) is None,
        },
{
    let doc: serde_json::Value = serde_json::from_str(text).ok()?;
    let scalar = |x: &serde_json::Value| JsonScalar { text: x.as_str().map(String::from), flag: x.as_bool(), rendered: x.to_string() };
    Some(keys.iter().map(|key| doc.get(key.as_str()).and_then(|v| v.as_object()).map(|m| m.iter().map(|(k, x)| (k.clone(), scalar(x))).collect())).collect())
}

/// The string content of each element of the TOML array at the key path `path`
/// in `text` (`toml::from_str::<toml::Table>`, `Value::get`, `Value::as_array`,
/// `Value::as_str`). The contract names the parser's result; it claims nothing else.
#[verifier::external_body]
pub fn toml_array(text: &str, path: &Vec<String>) -> (r: Option<Vec<Option<String>>>)
    requires
        path@.len() > 0,
    ensures
        match r {
            Some(v) => toml_array_at(text@, crate::text::views(path@)) == Some(opt_strs_view(v@)),
            None => toml_array_at(text@, crate::text::views(path@)) is None,
        },
{
    let doc: toml::Table = toml::from_str(text).ok()?;
    let mut cur = doc.get(path[0].as_str())?;
    for key in &path[1..] { cur = cur.get(key.as_str())?; }
    Some(cur.as_array()?.iter().map(|x| x.as_str().map(String::from)).collect())
}

/// The entries of the TOML table at the key path `path` in `text`, each with the
/// string content of its elements when its value is an array
/// (`toml::from_str::<toml::Table>`, `Value::get`, `Value::as_table`,
/// `Value::as_array`). The contract names the parser's result; it claims nothing else.
#[verifier::external_body]
pub fn toml_table(text: &str, path: &Vec<String>) -> (r: Option<Vec<(String, Option<Vec<Option<String>>>)>>)
    requires
        path@.len() > 0,
    ensures
        match r {
            Some(v) => toml_table_at(text@, crate::text::views(path@)) == Some(
                v@.map_values(|e: (String, Option<Vec<Option<String>>>)| (e.0@, match e.1 {
                    Some(a) => Some(opt_strs_view(a@)),
                    None => None,
                })),
            ),
            None => toml_table_at(text@, crate::text::views(path@)) is None,
        },
{
    let doc: toml::Table = toml::from_str(text).ok()?;
    let mut cur = doc.get(path[0].as_str())?;
    for key in &path[1..] { cur = cur.get(key.as_str())?; }
    Some(cur.as_table()?.iter().map(|(k, v)| (k.clone(), v.as_array().map(|a| a.iter().map(|x| x.as_str().map(String::from)).collect()))).collect())
}

/// The list of strings `items`.
pub fn strings(items: &[&str]) -> (r: Vec<String>)
    ensures
        crate::text::views(r@) == items@.map_values(|s: &str| s@),
{
    let mut r: Vec<String> = Vec::new();
    let mut i: usize = 0;
    while i < items.len()
        invariant
            i <= items@.len(),
            crate::text::views(r@) == items@.take(i as int).map_values(|s: &str| s@),
        decreases items@.len() - i,
    {
        let ghost old_r = r@;
        r.push(crate::text::string_from(items[i]));
        proof {
            assert(crate::text::views(r@) =~= crate::text::views(old_r).push(items@[i as int]@));
            assert(items@.take(i + 1).map_values(|s: &str| s@) =~= items@.take(i as int).map_values(|s: &str| s@).push(items@[i as int]@));
        }
        i = i + 1;
    }
    proof {
        assert(items@.take(items@.len() as int) =~= items@);
    }
    r
}

} // verus!
