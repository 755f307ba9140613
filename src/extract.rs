use vstd::prelude::*;

verus! {

/// A parsed JSON document.
pub enum Json {
    Null,
    Bool(bool),
    /// A number, as the text it was written with.
    Number(String),
    Str(String),
    Array(Vec<Json>),
    /// The members of an object, in document order.
    Object(Vec<(String, Json)>),
}

/// What the extractor pulls out of an upstream reply.
pub struct Translation {
    /// The primary translation.
    pub data: String,
    /// The alternative translations, in the order the reply lists them.
    pub alternatives: Vec<String>,
}

/// The value of the first member named `key`, looking from member `i` on.
pub open spec fn member_from(entries: Seq<(String, Json)>, key: Seq<char>, i: int) -> Option<Json>
    decreases entries.len() - i,
{
    if i < 0 || i >= entries.len() {
        None
    } else if entries[i].0@ == key {
        Some(entries[i].1)
    } else {
        member_from(entries, key, i + 1)
    }
}

/// The member `key` of `v`, when `v` is an object that has one.
pub open spec fn member(v: Json, key: Seq<char>) -> Option<Json> {
    match v {
        Json::Object(entries) => member_from(entries@, key, 0),
        _ => None,
    }
}

/// `result.texts[0]` of an upstream reply.
pub open spec fn first_text(v: Json) -> Option<Json> {
    match member(v, "result"@) {
        Some(result) => match member(result, "texts"@) {
            Some(Json::Array(items)) => if items@.len() > 0 {
                Some(items@[0])
            } else {
                None
            },
            _ => None,
        },
        None => None,
    }
}

/// The string held in member `text` of `v`, if there is one.
pub open spec fn text_member(v: Json) -> Option<Seq<char>> {
    match member(v, "text"@) {
        Some(Json::Str(s)) => Some(s@),
        _ => None,
    }
}

/// The `text` strings of `items`, in order, skipping items without one.
pub open spec fn texts_of(items: Seq<Json>) -> Seq<Seq<char>>
    decreases items.len(),
{
    if items.len() == 0 {
        seq![]
    } else {
        let rest = texts_of(items.drop_last());
        match text_member(items.last()) {
            Some(s) => rest.push(s),
            None => rest,
        }
    }
}

/// The primary translation of an upstream reply; empty where any step is absent.
pub open spec fn data_of(v: Json) -> Seq<char> {
    match first_text(v) {
        Some(t) => match text_member(t) {
            Some(s) => s,
            None => seq![],
        },
        None => seq![],
    }
}

/// The alternatives of an upstream reply, read from `result.texts[0].alternatives`.
pub open spec fn alternatives_of(v: Json) -> Seq<Seq<char>> {
    match first_text(v) {
        Some(t) => match member(t, "alternatives"@) {
            Some(Json::Array(items)) => texts_of(items@),
            _ => seq![],
        },
        None => seq![],
    }
}

/// Whether `a` and `b` hold the same characters.
pub fn same_text(a: &str, b: &str) -> (r: bool)
    ensures
        r == (a@ == b@),
{
    let la = a.unicode_len();
    let lb = b.unicode_len();
    if la != lb {
        return false;
    }
    let mut k: usize = 0;
    while k < la
        invariant
            la == a@.len(),
            lb == b@.len(),
            la == lb,
            k <= la,
            forall|j: int| 0 <= j < k ==> a@[j] == b@[j],
        decreases la - k,
    {
        if a.get_char(k) != b.get_char(k) {
            return false;
        }
        k = k + 1;
    }
    assert(a@ =~= b@);
    true
}

/// The member `key` of `v`, when `v` is an object that has one.
pub fn get_member<'a>(v: &'a Json, key: &str) -> (r: Option<&'a Json>)
    ensures
        match r {
            Some(x) => member(*v, key@) == Some(*x),
            None => member(*v, key@) is None,
        },
{
    match v {
        Json::Object(entries) => {
            let mut i: usize = 0;
            while i < entries.len()
                invariant
                    i <= entries@.len(),
                    member(*v, key@) == member_from(entries@, key@, i as int),
                decreases entries@.len() - i,
            {
                if same_text(entries[i].0.as_str(), key) {
                    assert(member_from(entries@, key@, i as int) == Some(entries@[i as int].1));
                    return Some(&entries[i].1);
                }
                i = i + 1;
            }
            None
        },
        _ => None,
    }
}

/// The string in member `text` of `v`, if there is one.
fn get_text_member<'a>(v: &'a Json) -> (r: Option<&'a String>)
    ensures
        match r {
            Some(s) => text_member(*v) == Some(s@),
            None => text_member(*v) is None,
        },
{
    match get_member(v, "text") {
        Some(Json::Str(s)) => Some(s),
        _ => None,
    }
}

/// `result.texts[0]` of an upstream reply, if every step is there.
fn get_first_text<'a>(v: &'a Json) -> (r: Option<&'a Json>)
    ensures
        match r {
            Some(x) => first_text(*v) == Some(*x),
            None => first_text(*v) is None,
        },
{
    match get_member(v, "result") {
        Some(result) => match get_member(result, "texts") {
            Some(Json::Array(items)) => {
                if items.len() > 0 {
                    Some(&items[0])
                } else {
                    None
                }
            },
            _ => None,
        },
        None => None,
    }
}

/// Pulls the primary translation and its alternatives out of an upstream
/// reply; a missing or malformed branch yields empty values, never an error.
pub fn extract_translation(body: &Json) -> (r: Translation)
    ensures
        r.data@ == data_of(*body),
        r.alternatives@.map_values(|s: String| s@) == alternatives_of(*body),
{
    let mut alternatives: Vec<String> = Vec::new();
    let mut data = String::new();
    match get_first_text(body) {
        Some(first) => {
            match get_text_member(first) {
                Some(s) => {
                    data = s.clone();
                },
                None => {},
            }
            match get_member(first, "alternatives") {
                Some(Json::Array(items)) => {
                    let mut k: usize = 0;
                    while k < items.len()
                        invariant
                            k <= items@.len(),
                            alternatives@.map_values(|s: String| s@) == texts_of(
                                items@.take(k as int),
                            ),
                        decreases items@.len() - k,
                    {
                        proof {
                            assert(items@.take(k + 1).drop_last() =~= items@.take(k as int));
                        }
                        match get_text_member(&items[k]) {
                            Some(s) => {
                                alternatives.push(s.clone());
                                assert(alternatives@.map_values(|s: String| s@) =~= texts_of(
                                    items@.take(k + 1),
                                ));
                            },
                            None => {},
                        }
                        k = k + 1;
                    }
                    assert(items@.take(items@.len() as int) =~= items@);
                },
                _ => {},
            }
        },
        None => {},
    }
    assert(alternatives@.map_values(|s: String| s@) =~= alternatives_of(*body));
    Translation { data, alternatives }
}

} // verus!
