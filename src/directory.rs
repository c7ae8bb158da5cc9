use vstd::prelude::*;

use crate::entry::{check_raw, opt_view, ConfigError, EntryView, RawEntry, StreamEntry};

verus! {

/// The views of a sequence of entries, in the same order.
pub open spec fn entries_view(v: Seq<StreamEntry>) -> Seq<EntryView> {
    v.map_values(|e: StreamEntry| e@)
}

/// The names of a sequence of entry views, in the same order.
pub open spec fn names_of(v: Seq<EntryView>) -> Seq<Seq<char>> {
    v.map_values(|e: EntryView| e.name)
}

/// No name occurs at two positions.
pub open spec fn names_unique(names: Seq<Seq<char>>) -> bool {
    forall|i: int, j: int| 0 <= i < j < names.len() ==> names[i] != names[j]
}

/// Position `j` holds the first name that repeats an earlier one.
pub open spec fn first_repeat_at(names: Seq<Seq<char>>, j: int) -> bool {
    &&& 0 <= j < names.len()
    &&& names_unique(names.take(j))
    &&& exists|i: int| 0 <= i < j && names[i] == names[j]
}

/// Position `k` holds the first catalog record that fails its check.
pub open spec fn first_bad_at(v: Seq<RawEntry>, k: int) -> bool {
    &&& 0 <= k < v.len()
    &&& check_raw(v[k]) is Err
    &&& forall|i: int| 0 <= i < k ==> check_raw(v[i]) is Ok
}

/// Every catalog record passes its check.
pub open spec fn all_records_ok(v: Seq<RawEntry>) -> bool {
    forall|i: int| 0 <= i < v.len() ==> check_raw(v[i]) is Ok
}

/// The entries that checked records describe, in the same order.
pub open spec fn checked_views(v: Seq<RawEntry>) -> Seq<EntryView> {
    v.map_values(|raw: RawEntry| check_raw(raw)->Ok_0)
}

/// Two entries that share a name make the names not unique, so building a
/// directory from them fails.
pub proof fn shared_name_prevents_directory(entries: Seq<EntryView>, i: int, j: int)
    requires
        0 <= i < entries.len(),
        0 <= j < entries.len(),
        i != j,
        entries[i].name == entries[j].name,
    ensures
        !names_unique(names_of(entries)),
{
    let names = names_of(entries);
    if i < j {
        assert(names[i] == names[j]);
    } else {
        assert(names[j] == names[i]);
    }
}

/// Listing a directory gives the entries it was built from, in the order
/// they were given, and a second listing gives the same sequence again:
/// `built` is what `new` was given, `d` what it returned, `first` and
/// `second` what two calls of `all` returned.
pub proof fn listing_keeps_order(
    built: Seq<EntryView>,
    d: DirectoryView,
    first: Seq<EntryView>,
    second: Seq<EntryView>,
)
    requires
        d.entries == built,
        first == d.entries,
        second == d.entries,
    ensures
        first.len() == built.len(),
        forall|i: int| 0 <= i < built.len() ==> first[i] == built[i],
        first == second,
{
}

/// What a directory is: its title, if any, and its entries in catalog order.
pub struct DirectoryView {
    pub title: Option<Seq<char>>,
    pub entries: Seq<EntryView>,
}

/// An ordered catalog of streams in which no two entries share a name.
/// It is built once and never changed afterwards.
#[derive(Debug)]
pub struct StreamDirectory {
    title: Option<String>,
    entries: Vec<StreamEntry>,
}

impl View for StreamDirectory {
    type V = DirectoryView;

    closed spec fn view(&self) -> DirectoryView {
        DirectoryView { title: opt_view(self.title), entries: entries_view(self.entries@) }
    }
}

impl StreamDirectory {
    #[verifier::type_invariant]
    spec fn unique_names(self) -> bool {
        names_unique(names_of(entries_view(self.entries@)))
    }

    /// Builds a directory that keeps `entries` in the order given. It fails
    /// exactly when two entries share a name, and then reports the first
    /// name that repeats an earlier one.
    pub fn new(title: Option<String>, entries: Vec<StreamEntry>) -> (r: Result<
        StreamDirectory,
        ConfigError,
    >)
        ensures
            r is Ok <==> names_unique(names_of(entries_view(entries@))),
            r matches Ok(d) ==> d@ == (DirectoryView {
                title: opt_view(title),
                entries: entries_view(entries@),
            }),
            r matches Err(x) ==> (x matches ConfigError::DuplicateName(n) && exists|j: int|
                first_repeat_at(names_of(entries_view(entries@)), j)
                    && names_of(entries_view(entries@))[j] == n@),
    {
        let ghost names = names_of(entries_view(entries@));
        let n = entries.len();
        let mut j: usize = 0;
        while j < n
            invariant
                0 <= j <= n,
                n == entries@.len(),
                names == names_of(entries_view(entries@)),
                names_unique(names.take(j as int)),
            decreases n - j,
        {
            let mut i: usize = 0;
            while i < j
                invariant
                    0 <= i <= j < n,
                    n == entries@.len(),
                    names == names_of(entries_view(entries@)),
                    names_unique(names.take(j as int)),
                    forall|k: int| 0 <= k < i ==> names[k] != names[j as int],
                decreases j - i,
            {
                assert(names[i as int] == entries@[i as int]@.name);
                assert(names[j as int] == entries@[j as int]@.name);
                if entries[i].name().eq(entries[j].name()) {
                    assert(first_repeat_at(names, j as int));
                    return Err(ConfigError::DuplicateName(entries[j].name().clone()));
                }
                i = i + 1;
            }
            assert(names_unique(names.take(j + 1))) by {
                let t = names.take(j + 1);
                assert forall|a: int, b: int| 0 <= a < b < j + 1 implies #[trigger] t[a]
                    != #[trigger] t[b] by {
                    if b < j {
                        assert(names.take(j as int)[a] != names.take(j as int)[b]);
                    }
                }
            }
            j = j + 1;
        }
        assert(names.take(n as int) =~= names);
        Ok(StreamDirectory { title, entries })
    }

    /// Builds a directory from catalog records, in their order. It fails
    /// when the catalog holds no list of streams, then with the first record
    /// that fails its check, then as `new` does.
    pub fn from_config(title: Option<String>, streams: Option<Vec<RawEntry>>) -> (r: Result<
        StreamDirectory,
        ConfigError,
    >)
        ensures
            streams is None ==> r == Err::<StreamDirectory, ConfigError>(ConfigError::NoStreams),
            streams is Some && !all_records_ok(streams->0@) ==> exists|k: int|
                first_bad_at(streams->0@, k) && r == Err::<StreamDirectory, ConfigError>(
                    check_raw(streams->0@[k])->Err_0,
                ),
            streams is Some && all_records_ok(streams->0@) ==> {
                let views = checked_views(streams->0@);
                &&& r is Ok <==> names_unique(names_of(views))
                &&& r matches Ok(d) ==> d@ == (DirectoryView {
                    title: opt_view(title),
                    entries: views,
                })
                &&& r matches Err(x) ==> (x matches ConfigError::DuplicateName(n) && exists|
                    j: int,
                | first_repeat_at(names_of(views), j) && names_of(views)[j] == n@)
            },
    {
        let records = match streams {
            Some(v) => v,
            None => return Err(ConfigError::NoStreams),
        };
        let mut entries: Vec<StreamEntry> = Vec::new();
        let mut i: usize = 0;
        while i < records.len()
            invariant
                0 <= i <= records@.len(),
                streams == Some(records),
                forall|k: int| 0 <= k < i ==> check_raw(records@[k]) is Ok,
                entries_view(entries@) =~= checked_views(records@.take(i as int)),
            decreases records@.len() - i,
        {
            match StreamEntry::from_raw(&records[i]) {
                Ok(e) => {
                    let ghost before = entries@;
                    entries.push(e);
                    assert(entries@ == before.push(e));
                    assert(records@.take(i + 1) == records@.take(i as int).push(records@[i as int]));
                    let ghost next = records@.take(i + 1);
                    assert(entries_view(before).len() == i);
                    assert(next.len() == i + 1);
                    assert(check_raw(records@[i as int]) == Ok::<EntryView, ConfigError>(e@));
                    assert forall|k: int| 0 <= k < i + 1 implies #[trigger] entries_view(
                        entries@,
                    )[k] == checked_views(next)[k] by {
                        if k < i {
                            assert(entries_view(before)[k] == checked_views(
                                records@.take(i as int),
                            )[k]);
                            assert(records@.take(i as int)[k] == next[k]);
                        } else {
                            assert(next[k] == records@[i as int]);
                        }
                    }
                    assert(entries_view(entries@) =~= checked_views(next));
                },
                Err(x) => {
                    assert(first_bad_at(records@, i as int));
                    return Err(x);
                },
            }
            i = i + 1;
        }
        assert(records@.take(i as int) =~= records@);
        StreamDirectory::new(title, entries)
    }

    /// The entry whose name is exactly `name` (case counts), if there is one.
    pub fn find(&self, name: &str) -> (r: Option<&StreamEntry>)
        ensures
            r is None <==> forall|i: int|
                0 <= i < self@.entries.len() ==> self@.entries[i].name != name@,
            r matches Some(e) ==> (e@.name == name@ && exists|i: int|
                0 <= i < self@.entries.len() && self@.entries[i] == e@),
    {
        let wanted = String::from_str(name);
        let mut i: usize = 0;
        while i < self.entries.len()
            invariant
                0 <= i <= self.entries@.len(),
                wanted@ == name@,
                forall|k: int| 0 <= k < i ==> self@.entries[k].name != name@,
            decreases self.entries@.len() - i,
        {
            assert(self@.entries[i as int] == self.entries@[i as int]@);
            if self.entries[i].name().eq(&wanted) {
                return Some(&self.entries[i]);
            }
            i = i + 1;
        }
        None
    }

    /// Every entry, in catalog order. Calling it again gives the same
    /// entries in the same order.
    pub fn all(&self) -> (r: &Vec<StreamEntry>)
        ensures
            entries_view(r@) == self@.entries,
    {
        &self.entries
    }

    /// The catalog's title, if it has one.
    pub fn title(&self) -> (r: &Option<String>)
        ensures
            opt_view(*r) == self@.title,
    {
        &self.title
    }
}

} // verus!
