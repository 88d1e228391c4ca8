use vstd::prelude::*;
use vstd::string::*;
use crate::version::{parse_version_text, parsed_as, version_parse, PluginError, Version};

verus! {

/// One release of the published catalog, newest first: the raw version text
/// (with its leading `v`) and the long-term-support channel, if any.
#[derive(Clone, Debug)]
pub struct CatalogEntry {
    pub version: String,
    pub lts: Option<String>,
}

/// The catalog once loaded: every version in catalog order, the newest one,
/// and the alias table, whose keys are unique.
#[derive(Debug)]
pub struct LoadVersionsOutput {
    pub latest: Version,
    pub versions: Vec<Version>,
    pub aliases: Vec<(String, Version)>,
}

/// The lower-case form of a text, as `str::to_lowercase` gives it.
pub uninterp spec fn lower_of(s: Seq<char>) -> Seq<char>;

/// Relies on `str::to_lowercase` of std: the result depends on the text alone.
#[verifier::external_body]
fn lowercase(s: &str) -> (r: String)
    ensures
        r@ == lower_of(s@),
{
    s.to_lowercase()
}

pub open spec fn is_digit(c: char) -> bool {
    '0' <= c && c <= '9'
}

/// The text of a raw catalog version without its single leading marker.
pub open spec fn stripped(s: Seq<char>) -> Seq<char> {
    if s.len() > 0 && !is_digit(s[0]) {
        s.drop_first()
    } else {
        s
    }
}

fn strip_marker(s: &str) -> (r: &str)
    ensures
        r@ == stripped(s@),
{
    let n = s.unicode_len();
    if n > 0 && !('0' <= s.get_char(0) && s.get_char(0) <= '9') {
        let r = s.substring_char(1, n);
        assert(r@ =~= s@.drop_first());
        r
    } else {
        s
    }
}

/// Whether an entry carries a non-empty channel marker.
pub open spec fn has_channel(e: CatalogEntry) -> bool {
    e.lts is Some && e.lts->0@.len() > 0
}

/// Whether an entry fills alias `k` when the scan reaches it: any channelled
/// entry fills `stable`, and one fills the lower-cased name of its channel.
pub open spec fn fills(e: CatalogEntry, k: Seq<char>) -> bool {
    has_channel(e) && (k == "stable"@ || lower_of(e.lts->0@) == k)
}

/// The index of the first entry that fills alias `k`.
pub open spec fn first_filling(es: Seq<CatalogEntry>, k: Seq<char>) -> Option<int>
    decreases es.len(),
{
    if es.len() == 0 {
        None
    } else {
        match first_filling(es.drop_last(), k) {
            Some(i) => Some(i),
            None => if fills(es.last(), k) {
                Some(es.len() - 1)
            } else {
                None
            },
        }
    }
}

/// An alias table seen as pairs of plain values.
pub open spec fn table_view(t: Seq<(String, Version)>) -> Seq<(Seq<char>, (u32, u32, u32, Seq<char>))> {
    t.map_values(|p: (String, Version)| (p.0@, p.1@))
}

/// The version of the first pair of `t` whose key is `k`.
pub open spec fn lookup(t: Seq<(Seq<char>, (u32, u32, u32, Seq<char>))>, k: Seq<char>) -> Option<(u32, u32, u32, Seq<char>)>
    decreases t.len(),
{
    if t.len() == 0 {
        None
    } else {
        match lookup(t.drop_last(), k) {
            Some(v) => Some(v),
            None => if t.last().0 == k {
                Some(t.last().1)
            } else {
                None
            },
        }
    }
}

impl LoadVersionsOutput {
    /// The version that alias `k` names.
    pub open spec fn alias(&self, k: Seq<char>) -> Option<(u32, u32, u32, Seq<char>)> {
        lookup(table_view(self.aliases@), k)
    }
}

proof fn lemma_lookup_some(t: Seq<(Seq<char>, (u32, u32, u32, Seq<char>))>, k: Seq<char>)
    ensures
        lookup(t, k) is Some <==> exists|j: int| 0 <= j < t.len() && t[j].0 == k,
    decreases t.len(),
{
    if t.len() > 0 {
        lemma_lookup_some(t.drop_last(), k);
        if lookup(t.drop_last(), k) is Some {
            let j = choose|j: int| 0 <= j < t.drop_last().len() && t.drop_last()[j].0 == k;
            assert(t[j].0 == k);
        }
        if exists|j: int| 0 <= j < t.len() && t[j].0 == k {
            let j = choose|j: int| 0 <= j < t.len() && t[j].0 == k;
            if j < t.len() - 1 {
                assert(t.drop_last()[j].0 == k);
            }
        }
    }
}

/// Whether the table holds key `k`.
fn holds_key(t: &Vec<(String, Version)>, k: &String) -> (r: bool)
    ensures
        r == (lookup(table_view(t@), k@) is Some),
{
    proof {
        lemma_lookup_some(table_view(t@), k@);
    }
    let mut j: usize = 0;
    while j < t.len()
        invariant
            j <= t@.len(),
            forall|i: int| 0 <= i < j ==> t@[i].0@ != k@,
        decreases t@.len() - j,
    {
        let key: &String = &t[j].0;
        if key.eq(k) {
            assert(table_view(t@).len() == t@.len());
            assert(table_view(t@)[j as int].0 == k@);
            proof {
                lemma_lookup_some(table_view(t@), k@);
            }
            return true;
        }
        j = j + 1;
    }
    assert forall|i: int| 0 <= i < table_view(t@).len() implies table_view(t@)[i].0 != k@ by {
        assert(t@[i].0@ != k@);
    }
    false
}

/// The index of the first entry whose version text does not parse.
pub open spec fn first_malformed(es: Seq<CatalogEntry>) -> Option<int>
    decreases es.len(),
{
    if es.len() == 0 {
        None
    } else {
        match first_malformed(es.drop_last()) {
            Some(i) => Some(i),
            None => if version_parse(stripped(es.last().version@)) is None {
                Some(es.len() - 1)
            } else {
                None
            },
        }
    }
}

/// Whether the version text of an entry fails to parse.
pub open spec fn malformed(e: CatalogEntry) -> bool {
    version_parse(stripped(e.version@)) is None
}

/// What a load of the catalog `es` returns.
pub open spec fn loaded(es: Seq<CatalogEntry>, out: LoadVersionsOutput) -> bool {
    &&& out.versions@.len() == es.len()
    &&& forall|i: int| 0 <= i < es.len() ==> parsed_as(stripped(#[trigger] es[i].version@), out.versions@[i])
    &&& out.latest@ == out.versions@[0]@
    &&& out.alias("latest"@) == Some(out.versions@[0]@)
    &&& forall|k: Seq<char>| k != "latest"@ ==> #[trigger] out.alias(k) == match first_filling(es, k) {
        Some(i) => Some(out.versions@[i]@),
        None => None,
    }
}

/// What `load_versions` returns for the catalog `es`.
pub open spec fn catalog_result(es: Seq<CatalogEntry>, r: Result<LoadVersionsOutput, PluginError>) -> bool {
    if es.len() == 0 {
        r matches Err(PluginError::CatalogUnavailable)
    } else if exists|j: int| 0 <= j < es.len() && #[trigger] malformed(es[j]) {
        match r {
            Err(PluginError::MalformedVersion(t)) => exists|i: int|
                0 <= i < es.len() && #[trigger] malformed(es[i]) && t@ == es[i].version@
                    && forall|j: int| 0 <= j < i ==> !#[trigger] malformed(es[j]),
            _ => false,
        }
    } else {
        match r {
            Ok(out) => loaded(es, out),
            _ => false,
        }
    }
}

/// `first_filling` gives the first entry that fills `k`, and `None` only
/// where no entry fills it.
pub proof fn lemma_first_filling(es: Seq<CatalogEntry>, k: Seq<char>)
    ensures
        match first_filling(es, k) {
            Some(i) => 0 <= i < es.len() && fills(es[i], k) && forall|j: int| 0 <= j < i ==> !#[trigger] fills(es[j], k),
            None => forall|j: int| 0 <= j < es.len() ==> !#[trigger] fills(es[j], k),
        },
    decreases es.len(),
{
    if es.len() > 0 {
        lemma_first_filling(es.drop_last(), k);
        match first_filling(es.drop_last(), k) {
            Some(i) => {
                assert forall|j: int| 0 <= j < i implies !#[trigger] fills(es[j], k) by {
                    assert(es[j] == es.drop_last()[j]);
                }
                assert(es[i] == es.drop_last()[i]);
            },
            None => {
                assert forall|j: int| 0 <= j < es.len() - 1 implies !#[trigger] fills(es[j], k) by {
                    assert(es[j] == es.drop_last()[j]);
                }
            },
        }
    }
}

proof fn lemma_lookup_push(t: Seq<(String, Version)>, x: (String, Version), k: Seq<char>)
    ensures
        lookup(table_view(t.push(x)), k) == match lookup(table_view(t), k) {
            Some(v) => Some(v),
            None => if x.0@ == k {
                Some(x.1@)
            } else {
                None
            },
        },
{
    assert(table_view(t.push(x)).drop_last() =~= table_view(t));
}

proof fn lemma_filling_step(es: Seq<CatalogEntry>, i: int, k: Seq<char>)
    requires
        0 <= i < es.len(),
    ensures
        first_filling(es.take(i + 1), k) == match first_filling(es.take(i), k) {
            Some(j) => Some(j),
            None => if fills(es[i], k) {
                Some(i)
            } else {
                None
            },
        },
{
    assert(es.take(i + 1).drop_last() =~= es.take(i));
}

/// Loads the catalog `entries`, newest first: parses each version after its
/// leading marker, and builds the alias table. `latest` names the first entry;
/// `stable` the first entry with a channel marker; each lower-cased channel
/// name the first entry of that channel.
pub fn load_versions(entries: &Vec<CatalogEntry>) -> (r: Result<LoadVersionsOutput, PluginError>)
    ensures
        catalog_result(entries@, r),
{
    let n = entries.len();
    if n == 0 {
        return Err(PluginError::CatalogUnavailable);
    }
    let ghost es = entries@;
    let mut versions: Vec<Version> = Vec::new();
    let mut table: Vec<(String, Version)> = Vec::new();
    let mut i: usize = 0;
    while i < n
        invariant
            n == es.len(),
            es == entries@,
            0 <= i <= n,
            versions@.len() == i,
            forall|j: int| 0 <= j < i ==> parsed_as(stripped(#[trigger] es[j].version@), versions@[j]),
            forall|j: int| 0 <= j < i ==> !#[trigger] malformed(es[j]),
            i == 0 ==> table@.len() == 0,
            i > 0 ==> lookup(table_view(table@), "latest"@) == Some(versions@[0]@),
            forall|k: Seq<char>| k != "latest"@ ==> #[trigger] lookup(table_view(table@), k) == match first_filling(es.take(i as int), k) {
                Some(j) => Some(versions@[j]@),
                None => None,
            },
        decreases n - i,
    {
        let entry = &entries[i];
        let v = match parse_version_text(strip_marker(entry.version.as_str())) {
            Some(v) => v,
            None => {
                assert(malformed(es[i as int]));
                return Err(PluginError::MalformedVersion(entry.version.clone()));
            },
        };
        let ghost t0 = table@;
        let ghost vs0 = versions@;
        if i == 0 {
            table.push((String::from_str("latest"), v.copy()));
            proof {
                assert forall|k: Seq<char>| k != "latest"@ implies #[trigger] lookup(table_view(table@), k) == lookup(table_view(t0), k) by {
                    lemma_lookup_push(t0, table@.last(), k);
                }
                lemma_lookup_push(t0, table@.last(), "latest"@);
            }
        }
        versions.push(v.copy());
        let ghost t1 = table@;
        match &entry.lts {
            Some(name) => {
                if !name.as_str().is_empty() {
                    let stable = String::from_str("stable");
                    if !holds_key(&table, &stable) {
                        table.push((stable, v.copy()));
                        proof {
                            assert forall|k: Seq<char>| #[trigger] lookup(table_view(table@), k) == (match lookup(table_view(t1), k) {
                                Some(w) => Some(w),
                                None => if "stable"@ == k {
                                    Some(v@)
                                } else {
                                    None
                                },
                            }) by {
                                lemma_lookup_push(t1, table@.last(), k);
                            }
                        }
                    }
                    let ghost t2 = table@;
                    let lower = lowercase(name.as_str());
                    let ghost lw = lower@;
                    if !holds_key(&table, &lower) {
                        table.push((lower, v.copy()));
                        proof {
                            assert forall|k: Seq<char>| #[trigger] lookup(table_view(table@), k) == (match lookup(table_view(t2), k) {
                                Some(w) => Some(w),
                                None => if lw == k {
                                    Some(v@)
                                } else {
                                    None
                                },
                            }) by {
                                lemma_lookup_push(t2, table@.last(), k);
                            }
                        }
                    }
                }
            },
            None => {},
        }
        proof {
            assert forall|k: Seq<char>| k != "latest"@ implies #[trigger] lookup(table_view(table@), k) == match first_filling(es.take(i + 1), k) {
                Some(j) => Some(versions@[j]@),
                None => None,
            } by {
                lemma_filling_step(es, i as int, k);
                match first_filling(es.take(i as int), k) {
                    Some(j) => {
                        lemma_first_filling(es.take(i as int), k);
                        assert(versions@[j] == vs0[j]);
                    },
                    None => {},
                }
            }
            if i > 0 {
                assert(versions@[0] == vs0[0]);
            }
        }
        i = i + 1;
    }
    assert(es.take(n as int) =~= es);
    let latest = versions[0].copy();
    Ok(LoadVersionsOutput { latest, versions, aliases: table })
}

/// Whatever the channel markers say, a successful load names the version
/// of the first entry `latest`.
pub proof fn lemma_latest_is_first_entry(es: Seq<CatalogEntry>, r: Result<LoadVersionsOutput, PluginError>)
    requires
        catalog_result(es, r),
        r is Ok,
    ensures
        es.len() > 0,
        parsed_as(stripped(es[0].version@), r->Ok_0.versions@[0]),
        r->Ok_0.alias("latest"@) == Some(r->Ok_0.versions@[0]@),
{
    let out = r->Ok_0;
    assert(parsed_as(stripped(es[0].version@), out.versions@[0]));
}

/// After a successful load, `stable` names the first entry with a channel
/// marker, and is absent where no entry has one.
pub proof fn lemma_stable_is_first_channelled(es: Seq<CatalogEntry>, r: Result<LoadVersionsOutput, PluginError>)
    requires
        catalog_result(es, r),
        r is Ok,
    ensures
        (forall|j: int| 0 <= j < es.len() ==> !#[trigger] has_channel(es[j])) ==> r->Ok_0.alias("stable"@) is None,
        forall|i: int|
            0 <= i < es.len() && #[trigger] has_channel(es[i]) && (forall|j: int| 0 <= j < i ==> !#[trigger] has_channel(es[j]))
                ==> r->Ok_0.alias("stable"@) == Some(r->Ok_0.versions@[i]@),
{
    let out = r->Ok_0;
    let k = "stable"@;
    assert(k != "latest"@) by {
        reveal_strlit("stable");
        reveal_strlit("latest");
        assert(k[0] != "latest"@[0]);
    }
    assert(out.alias(k) == match first_filling(es, k) {
        Some(i) => Some(out.versions@[i]@),
        None => None,
    });
    lemma_first_filling(es, k);
    assert forall|j: int| 0 <= j < es.len() implies #[trigger] fills(es[j], k) == has_channel(es[j]) by {}
    assert forall|i: int|
        0 <= i < es.len() && #[trigger] has_channel(es[i]) && (forall|j: int| 0 <= j < i ==> !#[trigger] has_channel(es[j]))
            implies out.alias(k) == Some(out.versions@[i]@) by {
        match first_filling(es, k) {
            Some(m) => {
                assert(fills(es[i], k));
                assert(!(m < i));
                assert(!(i < m));
            },
            None => {
                assert(fills(es[i], k));
            },
        }
    }
}

/// After a successful load, the alias of a channel name comes from an entry of
/// that channel at or before any other entry of it: a later entry with the
/// same channel never takes the name over.
pub proof fn lemma_channel_first_occurrence(es: Seq<CatalogEntry>, r: Result<LoadVersionsOutput, PluginError>, i: int)
    requires
        catalog_result(es, r),
        r is Ok,
        0 <= i < es.len(),
        has_channel(es[i]),
        lower_of(es[i].lts->0@) != "latest"@,
    ensures
        exists|m: int|
            0 <= m <= i && #[trigger] fills(es[m], lower_of(es[i].lts->0@))
                && r->Ok_0.alias(lower_of(es[i].lts->0@)) == Some(r->Ok_0.versions@[m]@),
{
    let out = r->Ok_0;
    let k = lower_of(es[i].lts->0@);
    assert(out.alias(k) == match first_filling(es, k) {
        Some(m) => Some(out.versions@[m]@),
        None => None,
    });
    lemma_first_filling(es, k);
    assert(fills(es[i], k));
    let m = first_filling(es, k)->0;
    assert(!(i < m));
    assert(fills(es[m], k));
}

} // verus!
