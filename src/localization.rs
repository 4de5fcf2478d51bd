//! Localization dictionaries: locale to text, where a later entry for a
//! locale replaces an earlier one.
use vstd::prelude::*;

use crate::chars::str_eq;

verus! {

/// The text of the last pair whose locale is `k`.
pub open spec fn pairs_lookup(s: Seq<(String, String)>, k: Seq<char>) -> Option<Seq<char>>
    decreases s.len(),
{
    if s.len() == 0 {
        None
    } else if s.last().0@ == k {
        Some(s.last().1@)
    } else {
        pairs_lookup(s.drop_last(), k)
    }
}

/// Whether no two pairs share a locale.
pub open spec fn unique_locales(s: Seq<(String, String)>) -> bool {
    forall|i: int, j: int| 0 <= i < j < s.len() ==> (#[trigger] s[i]).0@ != (#[trigger] s[j]).0@
}

proof fn lemma_lookup_at(s: Seq<(String, String)>, j: int)
    requires
        unique_locales(s),
        0 <= j < s.len(),
    ensures
        pairs_lookup(s, s[j].0@) == Some(s[j].1@),
    decreases s.len(),
{
    if j < s.len() - 1 {
        assert(s.last() == s[s.len() - 1]);
        assert(s.drop_last()[j] == s[j]);
        lemma_lookup_at(s.drop_last(), j);
    }
}

proof fn lemma_lookup_update_other(s: Seq<(String, String)>, j: int, p: (String, String), k: Seq<char>)
    requires
        0 <= j < s.len(),
        s[j].0@ == p.0@,
        k != p.0@,
    ensures
        pairs_lookup(s.update(j, p), k) == pairs_lookup(s, k),
    decreases s.len(),
{
    let t = s.update(j, p);
    if j < s.len() - 1 {
        assert(t.drop_last() =~= s.drop_last().update(j, p));
        lemma_lookup_update_other(s.drop_last(), j, p, k);
    } else {
        assert(t.drop_last() =~= s.drop_last());
    }
}

fn find_locale(entries: &Vec<(String, String)>, k: &str) -> (r: Option<usize>)
    ensures
        match r {
            Some(j) => j < entries@.len() && entries@[j as int].0@ == k@,
            None => forall|i: int| 0 <= i < entries@.len() ==> (#[trigger] entries@[i]).0@ != k@,
        },
{
    let mut j: usize = 0;
    while j < entries.len()
        invariant
            j <= entries@.len(),
            forall|i: int| 0 <= i < j ==> (#[trigger] entries@[i]).0@ != k@,
        decreases entries@.len() - j,
    {
        if str_eq(entries[j].0.as_str(), k) {
            return Some(j);
        }
        j += 1;
    }
    None
}

/// A localization dictionary.
#[derive(Debug)]
pub struct LocaleMap {
    entries: Vec<(String, String)>,
}

impl LocaleMap {
    /// The text for a locale.
    pub closed spec fn lookup(&self, k: Seq<char>) -> Option<Seq<char>> {
        pairs_lookup(self.entries@, k)
    }

    /// Whether each locale appears once.
    pub closed spec fn wf(&self) -> bool {
        unique_locales(self.entries@)
    }

    /// Build a dictionary from pairs; a later pair for a locale replaces an
    /// earlier one.
    pub fn from_pairs(pairs: Vec<(String, String)>) -> (r: LocaleMap)
        ensures
            r.wf(),
            forall|k: Seq<char>| #[trigger] r.lookup(k) == pairs_lookup(pairs@, k),
    {
        let ghost orig = pairs@;
        let total = pairs.len();
        let mut rest = pairs;
        let mut entries: Vec<(String, String)> = Vec::new();
        let mut n: usize = 0;
        while rest.len() > 0
            invariant
                orig == pairs@,
                total == orig.len(),
                n <= total,
                rest@ == orig.subrange(n as int, total as int),
                unique_locales(entries@),
                forall|k: Seq<char>| #[trigger] pairs_lookup(entries@, k) == pairs_lookup(orig.subrange(0, n as int), k),
            decreases rest@.len(),
        {
            let p = rest.remove(0);
            assert(p == orig[n as int]);
            let ghost before = entries@;
            let ghost pre = orig.subrange(0, n as int);
            let ghost post = orig.subrange(0, n + 1);
            assert(post.drop_last() =~= pre);
            assert(post.last() == p);
            let found_at = find_locale(&entries, p.0.as_str());
            if let Some(j) = found_at {
                let ghost pk = p.0@;
                let ghost pv = p.1@;
                entries.set(j, p);
                proof {
                    assert(entries@ == before.update(j as int, p));
                    assert forall|a: int, b: int| 0 <= a < b < entries@.len() implies (#[trigger] entries@[a]).0@ != (#[trigger] entries@[b]).0@ by {
                        if a != j && b != j {
                            assert(before[a] == entries@[a] && before[b] == entries@[b]);
                        } else if a == j {
                            assert(before[a].0@ == pk);
                            assert(before[b] == entries@[b]);
                        } else {
                            assert(before[b].0@ == pk);
                            assert(before[a] == entries@[a]);
                        }
                    }
                    assert forall|k: Seq<char>| #[trigger] pairs_lookup(entries@, k) == pairs_lookup(post, k) by {
                        if k == pk {
                            lemma_lookup_at(entries@, j as int);
                        } else {
                            lemma_lookup_update_other(before, j as int, p, k);
                        }
                    }
                }
            } else {
                entries.push(p);
                proof {
                    assert(entries@.drop_last() =~= before);
                    assert forall|a: int, b: int| 0 <= a < b < entries@.len() implies (#[trigger] entries@[a]).0@ != (#[trigger] entries@[b]).0@ by {
                        if b < before.len() {
                            assert(before[a] == entries@[a] && before[b] == entries@[b]);
                        } else {
                            assert(before[a] == entries@[a]);
                        }
                    }
                    assert forall|k: Seq<char>| #[trigger] pairs_lookup(entries@, k) == pairs_lookup(post, k) by {
                        assert(entries@.last() == p);
                        assert(pairs_lookup(before, k) == pairs_lookup(pre, k));
                    }
                }
            }
            n += 1;
            assert(rest@ =~= orig.subrange(n as int, total as int));
        }
        assert(orig.subrange(0, total as int) =~= orig);
        LocaleMap { entries }
    }

    /// The text for a locale.
    pub fn get(&self, k: &str) -> (r: Option<&String>)
        ensures
            match r {
                Some(v) => self.lookup(k@) == Some(v@),
                None => self.lookup(k@) is None,
            },
    {
        let mut i = self.entries.len();
        proof {
            assert(self.entries@.subrange(0, i as int) =~= self.entries@);
        }
        while i > 0
            invariant
                i <= self.entries@.len(),
                self.lookup(k@) == pairs_lookup(self.entries@.subrange(0, i as int), k@),
            decreases i,
        {
            let ghost s = self.entries@.subrange(0, i as int);
            assert(s.drop_last() =~= self.entries@.subrange(0, i - 1));
            if str_eq(self.entries[i - 1].0.as_str(), k) {
                return Some(&self.entries[i - 1].1);
            }
            i -= 1;
        }
        None
    }

    /// The pairs of the dictionary, one per locale.
    pub fn into_pairs(self) -> (r: Vec<(String, String)>)
        ensures
            self.wf() ==> unique_locales(r@),
            forall|k: Seq<char>| #[trigger] self.lookup(k) == pairs_lookup(r@, k),
    {
        self.entries
    }
}

/// Localizations of a name.
#[derive(Debug)]
pub struct NameLocalizations {
    pub localizations: LocaleMap,
}

impl NameLocalizations {
    /// Build name localizations from `(locale, text)` pairs.
    pub fn new(localizations: Vec<(String, String)>) -> (r: NameLocalizations)
        ensures
            r.localizations.wf(),
            forall|k: Seq<char>| #[trigger] r.localizations.lookup(k) == pairs_lookup(localizations@, k),
    {
        NameLocalizations { localizations: LocaleMap::from_pairs(localizations) }
    }
}

/// Localizations of a description, with the fallback text used where no
/// locale matches.
#[derive(Debug)]
pub struct DescriptionLocalizations {
    pub fallback: String,
    pub localizations: LocaleMap,
}

impl DescriptionLocalizations {
    /// Build description localizations from a fallback text and
    /// `(locale, text)` pairs.
    pub fn new(fallback: &str, localizations: Vec<(String, String)>) -> (r: DescriptionLocalizations)
        ensures
            r.fallback@ == fallback@,
            r.localizations.wf(),
            forall|k: Seq<char>| #[trigger] r.localizations.lookup(k) == pairs_lookup(localizations@, k),
    {
        DescriptionLocalizations { fallback: fallback.to_owned(), localizations: LocaleMap::from_pairs(localizations) }
    }
}

/// The values of the localization functions an element's attribute names.
#[derive(Debug)]
pub struct Localizations {
    /// Value of the function that `name_localizations` names.
    pub name: Option<NameLocalizations>,
    /// Value of the function that `desc_localizations` names.
    pub description: Option<DescriptionLocalizations>,
}

impl Localizations {
    /// No localization function values.
    pub fn none() -> (r: Localizations)
        ensures
            r.name is None,
            r.description is None,
    {
        Localizations { name: None, description: None }
    }
}

} // verus!
