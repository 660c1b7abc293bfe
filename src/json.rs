//! A tagged-variant JSON document, and lookups that treat every shape
//! mismatch as absence.
use vstd::prelude::*;

verus! {

/// A JSON value. Numbers keep their decimal text; an object keeps its
/// members in iteration order.
#[derive(Debug)]
pub enum Json {
    Null,
    Bool(bool),
    Number(String),
    Str(String),
    Array(Vec<Json>),
    Object(Vec<(String, Json)>),
}

/// Whether `j` is an object without members.
pub open spec fn is_empty_object(j: Json) -> bool {
    j matches Json::Object(m) && m@.len() == 0
}

/// The first member of `entries` whose key is `key`.
pub open spec fn lookup(entries: Seq<(String, Json)>, key: Seq<char>) -> Option<Json>
    decreases entries.len(),
{
    if entries.len() == 0 {
        None
    } else if entries[0].0@ == key {
        Some(entries[0].1)
    } else {
        lookup(entries.drop_first(), key)
    }
}

/// The member `key` of `j`, absent when `j` is not an object.
pub open spec fn member(j: Json, key: Seq<char>) -> Option<Json> {
    match j {
        Json::Object(m) => lookup(m@, key),
        _ => None,
    }
}

/// Whether two strings hold the same characters.
pub fn same_text(a: &str, b: &str) -> (r: bool)
    ensures
        r == (a@ == b@),
{
    let n = a.unicode_len();
    if n != b.unicode_len() {
        return false;
    }
    let mut i: usize = 0;
    while i < n
        invariant
            n == a@.len(),
            n == b@.len(),
            i <= n,
            a@.subrange(0, i as int) == b@.subrange(0, i as int),
        decreases n - i,
    {
        if a.get_char(i) != b.get_char(i) {
            assert(a@[i as int] != b@[i as int]);
            return false;
        }
        assert(a@.subrange(0, i + 1) =~= a@.subrange(0, i as int).push(a@[i as int]));
        assert(b@.subrange(0, i + 1) =~= b@.subrange(0, i as int).push(b@[i as int]));
        i = i + 1;
    }
    assert(a@ =~= a@.subrange(0, n as int));
    assert(b@ =~= b@.subrange(0, n as int));
    true
}

impl Json {
    /// An object with no members.
    pub fn empty_object() -> (r: Json)
        ensures
            r matches Json::Object(m) && m@.len() == 0,
    {
        Json::Object(Vec::new())
    }

    /// The member `key` of this value, or `None` when this value is not an
    /// object or has no such member.
    pub fn get(&self, key: &str) -> (r: Option<&Json>)
        ensures
            r matches Some(v) ==> member(*self, key@) == Some(*v),
            r is None ==> member(*self, key@) is None,
    {
        match self {
            Json::Object(m) => {
                let mut i: usize = 0;
                assert(m@.subrange(0, m@.len() as int) =~= m@);
                while i < m.len()
                    invariant
                        i <= m@.len(),
                        member(*self, key@) == lookup(m@, key@),
                        lookup(m@, key@) == lookup(m@.subrange(i as int, m@.len() as int), key@),
                    decreases m@.len() - i,
                {
                    assert(m@.subrange(i as int, m@.len() as int).drop_first() =~= m@.subrange(
                        i + 1,
                        m@.len() as int,
                    ));
                    if same_text(m[i].0.as_str(), key) {
                        assert(m@.subrange(i as int, m@.len() as int)[0] == m@[i as int]);
                        return Some(&m[i].1);
                    }
                    i = i + 1;
                }
                None
            },
            _ => None,
        }
    }
}

/// Key of the section that describes the device itself.
pub const DEVICE_INFO_KEY: &'static str = "device-info";

/// Key, inside the device section, of the map of probed networks.
pub const PROBE_MAP_KEY: &'static str = "probed-ssid-map";

/// Key, inside one probe entry, of the network name.
pub const SSID_KEY: &'static str = "ssid";

/// The members of the probe map, when the path `device-info` then
/// `probed-ssid-map` leads to an object.
pub open spec fn probe_entries(doc: Json) -> Option<Seq<(String, Json)>> {
    match member(doc, DEVICE_INFO_KEY@) {
        Some(info) => match member(info, PROBE_MAP_KEY@) {
            Some(Json::Object(m)) => Some(m@),
            _ => None,
        },
        None => None,
    }
}

/// The network name of one probe entry, when it is a non-empty string.
pub open spec fn entry_ssid(entry: Json) -> Option<Seq<char>> {
    match member(entry, SSID_KEY@) {
        Some(Json::Str(s)) => if s@.len() > 0 {
            Some(s@)
        } else {
            None
        },
        _ => None,
    }
}

/// The network names of `entries`, in order, skipping entries without one.
pub open spec fn ssids_of(entries: Seq<(String, Json)>) -> Seq<Seq<char>>
    decreases entries.len(),
{
    if entries.len() == 0 {
        seq![]
    } else {
        let rest = ssids_of(entries.drop_last());
        match entry_ssid(entries.last().1) {
            Some(s) => rest.push(s),
            None => rest,
        }
    }
}

/// Every network name that a metadata document records as probed for.
pub open spec fn probed_ssids_of(doc: Json) -> Seq<Seq<char>> {
    match probe_entries(doc) {
        Some(m) => ssids_of(m),
        None => seq![],
    }
}

/// The views of a sequence of strings.
pub open spec fn texts(v: Seq<String>) -> Seq<Seq<char>> {
    v.map_values(|s: String| s@)
}

/// The network name of one probe entry, when it is a non-empty string.
pub fn entry_ssid_text(entry: &Json) -> (r: Option<String>)
    ensures
        r matches Some(s) ==> entry_ssid(*entry) == Some(s@),
        r is None ==> entry_ssid(*entry) is None,
{
    match entry.get(SSID_KEY) {
        Some(Json::Str(s)) => {
            if s.unicode_len() > 0 {
                Some(s.clone())
            } else {
                None
            }
        },
        _ => None,
    }
}

/// Every network name that `doc` records under `device-info` then
/// `probed-ssid-map`, in the map's order; empty when the path does not lead
/// to an object.
pub fn probed_ssids_in(doc: &Json) -> (r: Vec<String>)
    ensures
        texts(r@) == probed_ssids_of(*doc),
{
    let mut out: Vec<String> = Vec::new();
    let info = match doc.get(DEVICE_INFO_KEY) {
        Some(info) => info,
        None => return out,
    };
    let m = match info.get(PROBE_MAP_KEY) {
        Some(Json::Object(m)) => m,
        _ => {
            assert(texts(out@) =~= seq![]);
            return out;
        },
    };
    let mut i: usize = 0;
    while i < m.len()
        invariant
            i <= m@.len(),
            probe_entries(*doc) == Some(m@),
            texts(out@) == ssids_of(m@.subrange(0, i as int)),
        decreases m@.len() - i,
    {
        let ghost before = out@;
        assert(m@.subrange(0, i + 1).drop_last() =~= m@.subrange(0, i as int));
        match entry_ssid_text(&m[i].1) {
            Some(s) => {
                out.push(s);
                assert(texts(out@) =~= texts(before).push(out@.last()@));
            },
            None => {},
        }
        i = i + 1;
    }
    assert(m@.subrange(0, m@.len() as int) =~= m@);
    out
}

/// A document that is an empty object records no probed networks.
pub proof fn lemma_empty_document_has_no_probes(doc: Json)
    requires
        is_empty_object(doc),
    ensures
        probed_ssids_of(doc) == Seq::<Seq<char>>::empty(),
{
}

/// A document whose `device-info` member is not an object records no probed
/// networks.
pub proof fn lemma_device_info_not_object(doc: Json)
    requires
        member(doc, DEVICE_INFO_KEY@) matches Some(info) && !(info is Object),
    ensures
        probed_ssids_of(doc) == Seq::<Seq<char>>::empty(),
{
}

/// A document that is not an object records no probed networks.
pub proof fn lemma_non_object_document(doc: Json)
    requires
        !(doc is Object),
    ensures
        probed_ssids_of(doc) == Seq::<Seq<char>>::empty(),
{
}

} // verus!
