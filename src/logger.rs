use crate::level::{admits, level_admitted, Level, LevelFilter};
use vstd::prelude::*;
use vstd::string::*;

verus! {

/// A module filter as the contracts see it: module name and level.
pub type FilterEntry = (Seq<char>, LevelFilter);

pub open spec fn entry_view(e: (String, LevelFilter)) -> FilterEntry {
    (e.0@, e.1)
}

/// A list of module filters as the contracts see it.
pub open spec fn view_entries(v: Seq<(String, LevelFilter)>) -> Seq<FilterEntry> {
    v.map_values(|e: (String, LevelFilter)| entry_view(e))
}

/// The level that the first entry for `module` gives, if any.
pub open spec fn lookup(s: Seq<FilterEntry>, module: Seq<char>) -> Option<LevelFilter>
    decreases s.len(),
{
    if s.len() == 0 {
        None
    } else if s[0].0 == module {
        Some(s[0].1)
    } else {
        lookup(s.drop_first(), module)
    }
}

/// The position `i` holds `::` in `t`.
pub open spec fn separator_at(t: Seq<char>, i: int) -> bool {
    0 <= i && i + 1 < t.len() && t[i] == ':' && t[i + 1] == ':'
}

/// Position of the first `::` in `t` at or after `i`, or the length of `t`.
pub open spec fn first_separator_from(t: Seq<char>, i: nat) -> nat
    decreases t.len() - i,
{
    if i + 1 >= t.len() {
        t.len()
    } else if separator_at(t, i as int) {
        i
    } else {
        first_separator_from(t, i + 1)
    }
}

/// The root module of a log target: the part before the first `::`.
pub open spec fn root_module(t: Seq<char>) -> Seq<char> {
    t.subrange(0, first_separator_from(t, 0) as int)
}

/// Decides which log records pass: a record whose target's root module has a
/// filter of its own is held to that filter, any other to the default level.
#[derive(Debug)]
pub struct Logger {
    /// Module filters, by root module name; the first entry for a name counts.
    pub module_filters: Vec<(String, LevelFilter)>,
    /// The filter for modules without a filter of their own.
    pub default_level: LevelFilter,
}

proof fn lemma_first_separator_bound(t: Seq<char>, i: nat)
    ensures
        first_separator_from(t, i) <= t.len(),
        i <= t.len() ==> i <= first_separator_from(t, i),
    decreases t.len() - i,
{
    if i + 1 < t.len() && !separator_at(t, i as int) {
        lemma_first_separator_bound(t, i + 1);
    }
}

proof fn lemma_lookup_push(s: Seq<FilterEntry>, e: FilterEntry, k: Seq<char>)
    ensures
        lookup(s.push(e), k) == (if lookup(s, k).is_some() {
            lookup(s, k)
        } else if e.0 == k {
            Some(e.1)
        } else {
            None
        }),
    decreases s.len(),
{
    if s.len() > 0 {
        assert(s.push(e).drop_first() =~= s.drop_first().push(e));
        lemma_lookup_push(s.drop_first(), e, k);
    } else {
        assert(s.push(e).drop_first() =~= s);
    }
}

proof fn lemma_lookup_absent(s: Seq<FilterEntry>, k: Seq<char>)
    requires
        forall|j: int| 0 <= j < s.len() ==> s[j].0 != k,
    ensures
        lookup(s, k).is_none(),
    decreases s.len(),
{
    if s.len() > 0 {
        lemma_lookup_absent(s.drop_first(), k);
    }
}

proof fn lemma_lookup_update(s: Seq<FilterEntry>, i: int, lv: LevelFilter, k: Seq<char>)
    requires
        0 <= i < s.len(),
        forall|j: int| 0 <= j < i ==> s[j].0 != s[i].0,
    ensures
        lookup(s.update(i, (s[i].0, lv)), k) == (if k == s[i].0 {
            Some(lv)
        } else {
            lookup(s, k)
        }),
    decreases s.len(),
{
    let t = s.update(i, (s[i].0, lv));
    if i > 0 {
        assert(t.drop_first() =~= s.drop_first().update(i - 1, (s[i].0, lv)));
        assert(s[0].0 != s[i].0);
        lemma_lookup_update(s.drop_first(), i - 1, lv, k);
    } else {
        assert(t.drop_first() =~= s.drop_first());
    }
}

impl Logger {
    /// The filters as the contracts see them.
    pub open spec fn entries(&self) -> Seq<FilterEntry> {
        view_entries(self.module_filters@)
    }

    /// The filter that applies to a root module.
    pub open spec fn filter_for(&self, module: Seq<char>) -> LevelFilter {
        match lookup(self.entries(), module) {
            Some(f) => f,
            None => self.default_level,
        }
    }

    /// A record of severity `level` from `target` passes.
    pub open spec fn accepts(&self, level: Level, target: Seq<char>) -> bool {
        admits(self.filter_for(root_module(target)), level)
    }

    /// A logger with no module filters.
    pub fn new(default_level: LevelFilter) -> (r: Logger)
        ensures
            r.entries().len() == 0,
            r.default_level == default_level,
            forall|m: Seq<char>| lookup(#[trigger] r.entries(), m).is_none(),
    {
        let r = Logger { module_filters: Vec::new(), default_level };
        assert(r.entries().len() == 0);
        r
    }

    /// Index of the first filter for `module`, if there is one.
    fn find(&self, module: &str) -> (r: Option<usize>)
        ensures
            match r {
                Some(i) => i < self.entries().len() && self.entries()[i as int].0 == module@
                    && forall|j: int| 0 <= j < i ==> self.entries()[j].0 != module@,
                None => forall|j: int|
                    0 <= j < self.entries().len() ==> self.entries()[j].0 != module@,
            },
    {
        let mut i: usize = 0;
        while i < self.module_filters.len()
            invariant
                i <= self.module_filters.len(),
                forall|j: int| 0 <= j < i ==> self.entries()[j].0 != module@,
            decreases self.module_filters.len() - i,
        {
            if crate::text::str_eq(self.module_filters[i].0.as_str(), module) {
                return Some(i);
            }
            i += 1;
        }
        None
    }

    /// Adds a filter for `module`, or replaces the level of the one it has.
    pub fn add_module_filter(&mut self, module: String, level: LevelFilter)
        ensures
            final(self).default_level == old(self).default_level,
            forall|m: Seq<char>|
                #![trigger lookup(final(self).entries(), m)]
                lookup(final(self).entries(), m) == (if m == module@ {
                    Some(level)
                } else {
                    lookup(old(self).entries(), m)
                }),
    {
        let ghost s = self.entries();
        match self.find(module.as_str()) {
            Some(i) => {
                let key = self.module_filters[i].0.clone();
                self.module_filters.set(i, (key, level));
                proof {
                    assert(self.entries() =~= s.update(i as int, (s[i as int].0, level)));
                    assert forall|m: Seq<char>| #[trigger]
                        lookup(self.entries(), m) == (if m == module@ {
                            Some(level)
                        } else {
                            lookup(s, m)
                        }) by {
                        lemma_lookup_update(s, i as int, level, m);
                    }
                }
            },
            None => {
                let ghost key = module@;
                self.module_filters.push((module, level));
                proof {
                    assert(self.entries() =~= s.push((key, level)));
                    lemma_lookup_absent(s, key);
                    assert forall|m: Seq<char>| #[trigger]
                        lookup(self.entries(), m) == (if m == key {
                            Some(level)
                        } else {
                            lookup(s, m)
                        }) by {
                        lemma_lookup_push(s, (key, level), m);
                    }
                }
            },
        }
    }

    /// Removes every filter for `module`.
    pub fn remove_module_filter(&mut self, module: &str)
        ensures
            final(self).default_level == old(self).default_level,
            forall|m: Seq<char>|
                #![trigger lookup(final(self).entries(), m)]
                lookup(final(self).entries(), m) == (if m == module@ {
                    None
                } else {
                    lookup(old(self).entries(), m)
                }),
    {
        let ghost s = self.entries();
        let mut kept: Vec<(String, LevelFilter)> = Vec::new();
        let mut i: usize = 0;
        while i < self.module_filters.len()
            invariant
                i <= self.module_filters.len(),
                s == self.entries(),
                forall|m: Seq<char>|
                    #![trigger lookup(view_entries(kept@), m)]
                    lookup(view_entries(kept@), m) == (
                    if m == module@ {
                        None
                    } else {
                        lookup(s.subrange(0, i as int), m)
                    }),
            decreases self.module_filters.len() - i,
        {
            let ghost before = view_entries(kept@);
            let name = self.module_filters[i].0.as_str();
            if !crate::text::str_eq(name, module) {
                let entry = (self.module_filters[i].0.clone(), self.module_filters[i].1);
                kept.push(entry);
            }
            proof {
                let after = view_entries(kept@);
                assert(s.subrange(0, i + 1) =~= s.subrange(0, i as int).push(s[i as int]));
                if s[i as int].0 != module@ {
                    assert(after =~= before.push(s[i as int]));
                } else {
                    assert(after =~= before);
                }
                assert forall|m: Seq<char>| #[trigger]
                    lookup(after, m) == (if m == module@ {
                        None
                    } else {
                        lookup(s.subrange(0, i + 1), m)
                    }) by {
                    lemma_lookup_push(s.subrange(0, i as int), s[i as int], m);
                    if s[i as int].0 != module@ {
                        lemma_lookup_push(before, s[i as int], m);
                    }
                }
            }
            i += 1;
        }
        assert(s.subrange(0, s.len() as int) =~= s);
        self.module_filters = kept;
    }

    /// Sets the filter for modules without a filter of their own.
    pub fn set_default_level(&mut self, level: LevelFilter)
        ensures
            final(self).default_level == level,
            final(self).entries() == old(self).entries(),
    {
        self.default_level = level;
    }

    /// The filter that applies to records whose root module is `module`.
    pub fn level_for(&self, module: &str) -> (r: LevelFilter)
        ensures
            r == self.filter_for(module@),
    {
        let ghost s = self.entries();
        match self.find(module) {
            Some(i) => {
                proof {
                    lemma_lookup_prefix(s, i as int, module@);
                }
                self.module_filters[i].1
            },
            None => {
                proof {
                    lemma_lookup_absent(s, module@);
                }
                self.default_level
            },
        }
    }

    /// Whether a record of severity `level` from `target` passes.
    pub fn enabled(&self, level: Level, target: &str) -> (r: bool)
        ensures
            r == self.accepts(level, target@),
    {
        let root = root_module_of(target);
        level_admitted(self.level_for(root), level)
    }
}

proof fn lemma_lookup_prefix(s: Seq<FilterEntry>, i: int, k: Seq<char>)
    requires
        0 <= i < s.len(),
        s[i].0 == k,
        forall|j: int| 0 <= j < i ==> s[j].0 != k,
    ensures
        lookup(s, k) == Some(s[i].1),
    decreases i,
{
    if i > 0 {
        lemma_lookup_prefix(s.drop_first(), i - 1, k);
    }
}

/// The part of a log target before its first `::` ("overtls::client" gives
/// "overtls"; a target without `::` is its own root).
pub fn root_module_of(target: &str) -> (r: &str)
    ensures
        r@ == root_module(target@),
{
    let n = target.unicode_len();
    let ghost t = target@;
    proof {
        lemma_first_separator_bound(t, 0);
    }
    if n < 2 {
        return target.substring_char(0, n);
    }
    let mut i: usize = 0;
    while i < n - 1
        invariant
            n == t.len(),
            n >= 2,
            t == target@,
            i <= n - 1,
            first_separator_from(t, 0) == first_separator_from(t, i as nat),
        decreases n - i,
    {
        if target.get_char(i) == ':' && target.get_char(i + 1) == ':' {
            return target.substring_char(0, i);
        }
        i += 1;
    }
    target.substring_char(0, n)
}

} // verus!
