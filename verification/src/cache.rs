use vstd::prelude::*;

verus! {

#[verifier::external_type_specification]
#[verifier::external_body]
#[verifier::reject_recursive_types(K)]
#[verifier::reject_recursive_types(V)]
#[verifier::reject_recursive_types(S)]
pub struct ExDashMap<K, V, S>(dashmap::DashMap<K, V, S>);

/// What a text map holds: its keys and values, read as character
/// sequences.
pub uninterp spec fn text_map_contents(
    m: dashmap::DashMap<String, String>,
) -> Map<Seq<char>, Seq<char>>;

/// What a binary map holds: its keys read as character sequences, its
/// values as byte sequences.
pub uninterp spec fn binary_map_contents(
    m: dashmap::DashMap<String, Vec<u8>>,
) -> Map<Seq<char>, Seq<u8>>;

/// Relies on `dashmap::DashMap::new`: the new map holds nothing.
#[verifier::external_body]
fn new_text_map() -> (r: dashmap::DashMap<String, String>)
    ensures
        text_map_contents(r) =~= Map::empty(),
{
    dashmap::DashMap::new()
}

/// Relies on `dashmap::DashMap::new`: the new map holds nothing.
#[verifier::external_body]
fn new_binary_map() -> (r: dashmap::DashMap<String, Vec<u8>>)
    ensures
        binary_map_contents(r) =~= Map::empty(),
{
    dashmap::DashMap::new()
}

/// Relies on `dashmap::DashMap::get` (`String` keys compare by their
/// characters): returns a copy of the value stored under the key, if any.
#[verifier::external_body]
fn text_map_get(m: &dashmap::DashMap<String, String>, key: &str) -> (r: Option<String>)
    ensures
        match r {
            Some(v) => text_map_contents(*m).contains_key(key@) && v@ == text_map_contents(
                *m,
            )[key@],
            None => !text_map_contents(*m).contains_key(key@),
        },
{
    m.get(key).map(|v| v.value().clone())
}

/// Relies on `dashmap::DashMap::get`: returns a copy of the value stored
/// under the key, if any.
#[verifier::external_body]
fn binary_map_get(m: &dashmap::DashMap<String, Vec<u8>>, key: &str) -> (r: Option<Vec<u8>>)
    ensures
        match r {
            Some(v) => binary_map_contents(*m).contains_key(key@) && v@ == binary_map_contents(
                *m,
            )[key@],
            None => !binary_map_contents(*m).contains_key(key@),
        },
{
    m.get(key).map(|v| v.value().clone())
}

/// Relies on `dashmap::DashMap::insert`: the value is stored under the
/// key, replacing whatever was there.
#[verifier::external_body]
fn text_map_insert(m: &mut dashmap::DashMap<String, String>, key: String, value: String)
    ensures
        text_map_contents(*final(m)) == text_map_contents(*old(m)).insert(key@, value@),
{
    m.insert(key, value);
}

/// Relies on `dashmap::DashMap::insert`: the value is stored under the
/// key, replacing whatever was there.
#[verifier::external_body]
fn binary_map_insert(m: &mut dashmap::DashMap<String, Vec<u8>>, key: String, value: Vec<u8>)
    ensures
        binary_map_contents(*final(m)) == binary_map_contents(*old(m)).insert(key@, value@),
{
    m.insert(key, value);
}

/// The content cache: two independent namespaces keyed by resolved file
/// paths, one for converted text pages and one for raw binary assets.
///
/// Entries are never evicted and never invalidated: a file changed on
/// disk after being cached is not reflected until the process restarts.
/// That staleness is an accepted trade-off of the design, not a defect.
/// The underlying maps take concurrent readers and writers; the methods
/// here take `&mut self` so that each mutation has an exact contract, and
/// a caller that shares one cache across tasks serializes calls to it.
pub struct Cache {
    text: dashmap::DashMap<String, String>,
    binary: dashmap::DashMap<String, Vec<u8>>,
}

impl Cache {
    /// The text namespace, as a map from key characters to value
    /// characters.
    pub closed spec fn text_view(&self) -> Map<Seq<char>, Seq<char>> {
        text_map_contents(self.text)
    }

    /// The binary namespace, as a map from key characters to value bytes.
    pub closed spec fn binary_view(&self) -> Map<Seq<char>, Seq<u8>> {
        binary_map_contents(self.binary)
    }

    /// Creates an empty cache.
    pub fn new() -> (r: Cache)
        ensures
            r.text_view() == Map::<Seq<char>, Seq<char>>::empty(),
            r.binary_view() == Map::<Seq<char>, Seq<u8>>::empty(),
    {
        Cache { text: new_text_map(), binary: new_binary_map() }
    }

    /// Looks a key up in the text namespace.
    pub fn get_text(&self, key: &str) -> (r: Option<String>)
        ensures
            match r {
                Some(v) => self.text_view().contains_key(key@) && v@ == self.text_view()[key@],
                None => !self.text_view().contains_key(key@),
            },
    {
        text_map_get(&self.text, key)
    }

    /// Stores a value in the text namespace; the binary namespace is
    /// untouched.
    pub fn set_text(&mut self, key: String, value: String)
        ensures
            final(self).text_view() == old(self).text_view().insert(key@, value@),
            final(self).binary_view() == old(self).binary_view(),
    {
        text_map_insert(&mut self.text, key, value);
    }

    /// Looks a key up in the binary namespace.
    pub fn get_binary(&self, key: &str) -> (r: Option<Vec<u8>>)
        ensures
            match r {
                Some(v) => self.binary_view().contains_key(key@) && v@ == self.binary_view()[key@],
                None => !self.binary_view().contains_key(key@),
            },
    {
        binary_map_get(&self.binary, key)
    }

    /// Stores a value in the binary namespace; the text namespace is
    /// untouched.
    pub fn set_binary(&mut self, key: String, value: Vec<u8>)
        ensures
            final(self).binary_view() == old(self).binary_view().insert(key@, value@),
            final(self).text_view() == old(self).text_view(),
    {
        binary_map_insert(&mut self.binary, key, value);
    }
}

/// Law: storing a text value makes it the one returned for its key, leaves
/// every other text key as it was, and never touches the binary namespace
/// — the two namespaces cannot collide, even under the same key string.
pub proof fn lemma_text_store_round_trip(c0: Cache, c1: Cache, k: Seq<char>, v: Seq<char>)
    requires
        c1.text_view() == c0.text_view().insert(k, v),
        c1.binary_view() == c0.binary_view(),
    ensures
        c1.text_view().contains_key(k) && c1.text_view()[k] == v,
        forall|k2: Seq<char>|
            k2 != k ==> #[trigger] c1.text_view().contains_key(k2) == c0.text_view().contains_key(
                k2,
            ),
        forall|k2: Seq<char>|
            k2 != k && c0.text_view().contains_key(k2) ==> #[trigger] c1.text_view()[k2]
                == c0.text_view()[k2],
        c1.binary_view().contains_key(k) == c0.binary_view().contains_key(k),
{
}

/// Law: storing a binary value is likewise local to its namespace and key.
pub proof fn lemma_binary_store_round_trip(c0: Cache, c1: Cache, k: Seq<char>, v: Seq<u8>)
    requires
        c1.binary_view() == c0.binary_view().insert(k, v),
        c1.text_view() == c0.text_view(),
    ensures
        c1.binary_view().contains_key(k) && c1.binary_view()[k] == v,
        forall|k2: Seq<char>|
            k2 != k ==> #[trigger] c1.binary_view().contains_key(k2)
                == c0.binary_view().contains_key(k2),
        c1.text_view().contains_key(k) == c0.text_view().contains_key(k),
{
}

} // verus!
