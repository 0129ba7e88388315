use crate::text::str_eq;
use vstd::prelude::*;

verus! {

#[verifier::external_type_specification]
#[verifier::external_body]
pub struct ExPropertiesError(java_properties::PropertiesError);

#[verifier::external_type_specification]
#[verifier::external_body]
pub struct ExIoError(std::io::Error);

/// The keys and values that a Java properties text holds, or `None` where the text
/// is not in the properties format.
pub uninterp spec fn properties_of(text: Seq<u8>) -> Option<Map<Seq<char>, Seq<char>>>;

/// Whether a list of key/value pairs holds exactly the entries of `m`, each key once.
pub open spec fn pairs_hold(pairs: Seq<(String, String)>, m: Map<Seq<char>, Seq<char>>) -> bool {
    &&& forall|i: int, j: int|
        0 <= i < pairs.len() && 0 <= j < pairs.len() && i != j ==> (#[trigger] pairs[i]).0@
            != (#[trigger] pairs[j]).0@
    &&& forall|i: int| 0 <= i < pairs.len() ==> m.contains_key((#[trigger] pairs[i]).0@)
        && m[pairs[i].0@] == pairs[i].1@
    &&& forall|k: Seq<char>|
        m.contains_key(k) ==> exists|i: int| 0 <= i < pairs.len() && (#[trigger] pairs[i]).0@ == k
}

/// Relies on java_properties::read: it parses the whole text into a map from keys
/// to values, or fails with a `PropertiesError`. The map's entries are handed out
/// as pairs, in the map's own order.
#[verifier::external_body]
fn read_properties(text: &[u8]) -> (r: Result<Vec<(String, String)>, java_properties::PropertiesError>)
    ensures
        r is Err <==> properties_of(text@) is None,
        r matches Ok(pairs) ==> pairs_hold(pairs@, properties_of(text@).unwrap()),
{
    java_properties::read(text).map(|m| m.into_iter().collect())
}

/// The value of `key` among `pairs`.
pub fn find_value(pairs: &Vec<(String, String)>, key: &str) -> (r: Option<String>)
    ensures
        r is None <==> forall|i: int| 0 <= i < pairs@.len() ==> (#[trigger] pairs@[i]).0@ != key@,
        r matches Some(v) ==> exists|i: int|
            0 <= i < pairs@.len() && (#[trigger] pairs@[i]).0@ == key@ && pairs@[i].1@ == v@,
{
    let mut i: usize = 0;
    while i < pairs.len()
        invariant
            i <= pairs@.len(),
            forall|j: int| 0 <= j < i ==> (#[trigger] pairs@[j]).0@ != key@,
        decreases pairs@.len() - i,
    {
        if str_eq(pairs[i].0.as_str(), key) {
            return Some(pairs[i].1.clone());
        }
        i = i + 1;
    }
    None
}

/// What reading a properties text for one key found.
pub enum Lookup {
    /// The text is not in the properties format.
    Malformed(java_properties::PropertiesError),
    /// The text holds no such key.
    Absent,
    /// The key's value.
    Found(String),
}

/// Reads the properties text `text` and looks up `key` in it.
pub fn lookup(text: &[u8], key: &str) -> (r: Lookup)
    ensures
        properties_of(text@) is None <==> r is Malformed,
        properties_of(text@) matches Some(m) ==> (if m.contains_key(key@) {
            r matches Lookup::Found(v) && v@ == m[key@]
        } else {
            r is Absent
        }),
{
    match read_properties(text) {
        Err(e) => Lookup::Malformed(e),
        Ok(pairs) => {
            let ghost m = properties_of(text@).unwrap();
            match find_value(&pairs, key) {
                None => {
                    assert(!m.contains_key(key@));
                    Lookup::Absent
                },
                Some(v) => Lookup::Found(v),
            }
        },
    }
}

} // verus!
