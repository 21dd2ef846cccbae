use vstd::prelude::*;

verus! {

/// Name of the tray selection of the first screen.
pub const _NET_SYSTEM_TRAY_S0: &'static str = "_NET_SYSTEM_TRAY_S0";

/// Name of the tray orientation property.
pub const _NET_SYSTEM_TRAY_ORIENTATION: &'static str = "_NET_SYSTEM_TRAY_ORIENTATION";

/// Name of the window type property.
pub const _NET_WM_WINDOW_TYPE: &'static str = "_NET_WM_WINDOW_TYPE";

/// Name of the "dock" window type value.
pub const _NET_WM_WINDOW_TYPE_DOCK: &'static str = "_NET_WM_WINDOW_TYPE_DOCK";

/// Name of the message that announces a new selection owner.
pub const MANAGER: &'static str = "MANAGER";

/// Memo of the identifiers that the window server handed out for names.
///
/// Each name is stored at most once; the first identifier recorded for a
/// name is kept for the lifetime of the cache.
pub struct Atoms {
    cache: Vec<(String, u32)>,
}

/// The map from names to identifiers that a list of entries describes, the
/// earliest entry of a name deciding.
pub open spec fn entries_map(entries: Seq<(Seq<char>, u32)>) -> Map<Seq<char>, u32>
    decreases entries.len(),
{
    if entries.len() == 0 {
        Map::empty()
    } else {
        let last = entries.last();
        let rest = entries_map(entries.drop_last());
        if rest.contains_key(last.0) {
            rest
        } else {
            rest.insert(last.0, last.1)
        }
    }
}

impl Atoms {
    pub closed spec fn entries(&self) -> Seq<(Seq<char>, u32)> {
        self.cache@.map_values(|e: (String, u32)| (e.0@, e.1))
    }

    /// The names resolved so far, with their identifiers.
    pub closed spec fn view(&self) -> Map<Seq<char>, u32> {
        entries_map(self.entries())
    }

    /// An empty cache.
    pub fn new() -> (r: Atoms)
        ensures
            r@ == Map::<Seq<char>, u32>::empty(),
    {
        Atoms { cache: Vec::new() }
    }

    /// The identifier recorded for `name`, if it was resolved before.
    pub fn get(&self, name: &str) -> (r: Option<u32>)
        ensures
            r == (if self@.contains_key(name@) {
                Some(self@[name@])
            } else {
                None
            }),
    {
        let key = name.to_owned();
        let mut i: usize = 0;
        while i < self.cache.len()
            invariant
                i <= self.cache@.len(),
                key@ == name@,
                !entries_map(self.entries().take(i as int)).contains_key(name@),
            decreases self.cache@.len() - i,
        {
            proof {
                lemma_entries_map_prefix(self.entries(), i as int, name@);
            }
            if self.cache[i].0 == key {
                proof {
                    lemma_entries_map_extend(self.entries(), i as int + 1, name@);
                }
                return Some(self.cache[i].1);
            }
            i = i + 1;
        }
        proof {
            assert(self.entries().take(i as int) =~= self.entries());
        }
        None
    }

    /// Records `atom` as the identifier of `name`, unless the name was
    /// resolved before; returns the identifier the cache holds for it.
    pub fn insert(&mut self, name: &str, atom: u32) -> (r: u32)
        ensures
            final(self)@ == (if old(self)@.contains_key(name@) {
                old(self)@
            } else {
                old(self)@.insert(name@, atom)
            }),
            final(self)@.contains_key(name@),
            r == final(self)@[name@],
    {
        match self.get(name) {
            Some(known) => known,
            None => {
                let ghost before = self.entries();
                self.cache.push((name.to_owned(), atom));
                proof {
                    assert(self.entries().drop_last() =~= before);
                }
                atom
            },
        }
    }
}

/// Looking at one more entry of a list adds its name to the map only when
/// no earlier entry named it, and keeps every earlier identifier.
proof fn lemma_entries_map_prefix(entries: Seq<(Seq<char>, u32)>, i: int, name: Seq<char>)
    requires
        0 <= i < entries.len(),
        !entries_map(entries.take(i)).contains_key(name),
    ensures
        entries.take(i + 1).drop_last() =~= entries.take(i),
        entries[i].0 == name ==> entries_map(entries.take(i + 1)).contains_key(name)
            && entries_map(entries.take(i + 1))[name] == entries[i].1,
        entries[i].0 != name ==> !entries_map(entries.take(i + 1)).contains_key(name),
{
    assert(entries.take(i + 1).drop_last() =~= entries.take(i));
    assert(entries.take(i + 1).last() == entries[i]);
}

/// A name found in the map of a prefix keeps its identifier in the map of
/// the whole list.
proof fn lemma_entries_map_extend(entries: Seq<(Seq<char>, u32)>, j: int, name: Seq<char>)
    requires
        0 <= j <= entries.len(),
        entries_map(entries.take(j)).contains_key(name),
    ensures
        entries_map(entries).contains_key(name),
        entries_map(entries)[name] == entries_map(entries.take(j))[name],
    decreases entries.len() - j,
{
    if j == entries.len() {
        assert(entries.take(j) =~= entries);
    } else {
        let shorter = entries.drop_last();
        assert(shorter.take(j) =~= entries.take(j));
        lemma_entries_map_extend(shorter, j, name);
    }
}

} // verus!
