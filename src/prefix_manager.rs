//! The prefix table of the jurisdictions: which prefixes exist, what they
//! describe and which standard they belong to. Reading and decoding the
//! resource is left to the caller; this module builds and queries the table.

use vstd::prelude::*;
use crate::text::same_text;

verus! {

/// One prefix of a jurisdiction.
#[derive(Debug, Clone)]
pub struct PrefixInfo {
    pub prefix: String,
    pub description: String,
    pub standard: String,
}

/// A prefix entry as plain values.
pub struct PrefixInfoView {
    pub prefix: Seq<char>,
    pub description: Seq<char>,
    pub standard: Seq<char>,
}

impl View for PrefixInfo {
    type V = PrefixInfoView;

    open spec fn view(&self) -> PrefixInfoView {
        PrefixInfoView {
            prefix: self.prefix@,
            description: self.description@,
            standard: self.standard@,
        }
    }
}

/// The prefix entries grouped by jurisdiction name, in the resource's order.
#[derive(Debug, Clone)]
pub struct Jurisdictions {
    pub jurisdictions: Vec<(String, Vec<PrefixInfo>)>,
}

/// Why the prefix resource could not be loaded.
#[derive(Debug, Clone)]
pub enum PrefixError {
    /// The resource could not be read.
    Io(String),
    /// The resource was read but does not have the expected shape.
    Parse(String),
}

/// The views of a sequence of entries.
pub open spec fn info_views(v: Seq<PrefixInfo>) -> Seq<PrefixInfoView> {
    v.map_values(|i: PrefixInfo| i@)
}

/// All entries of all jurisdictions, one jurisdiction after the other.
pub open spec fn all_entries(groups: Seq<(String, Vec<PrefixInfo>)>) -> Seq<PrefixInfoView>
    decreases groups.len(),
{
    if groups.len() == 0 {
        Seq::empty()
    } else {
        all_entries(groups.drop_last()) + info_views(groups.last().1@)
    }
}

/// The table that the entries make: each prefix maps to its last entry.
pub open spec fn table_of(entries: Seq<PrefixInfoView>) -> Map<Seq<char>, PrefixInfoView>
    decreases entries.len(),
{
    if entries.len() == 0 {
        Map::empty()
    } else {
        table_of(entries.drop_last()).insert(entries.last().prefix, entries.last())
    }
}

/// Entries after index `j` that do not name `p` do not change what the
/// table says of `p`.
proof fn lemma_table_tail(entries: Seq<PrefixInfoView>, j: int, p: Seq<char>)
    requires
        0 <= j <= entries.len(),
        forall|k: int| j <= k < entries.len() ==> #[trigger] entries[k].prefix != p,
    ensures
        table_of(entries).contains_key(p) == table_of(entries.take(j)).contains_key(p),
        table_of(entries).contains_key(p) ==> table_of(entries)[p] == table_of(
            entries.take(j),
        )[p],
    decreases entries.len() - j,
{
    if j == entries.len() {
        assert(entries.take(j) =~= entries);
    } else {
        lemma_table_tail(entries.drop_last(), j, p);
        assert(entries.drop_last().take(j) =~= entries.take(j));
        assert(entries[entries.len() - 1].prefix != p);
    }
}

/// The prefix table, built once from the jurisdictions.
#[derive(Debug, Clone)]
pub struct PrefixTable {
    entries: Vec<PrefixInfo>,
}

impl PrefixTable {
    /// What the table maps each prefix to.
    pub closed spec fn map(&self) -> Map<Seq<char>, PrefixInfoView> {
        table_of(info_views(self.entries@))
    }

    /// The table of all the jurisdictions' entries; where a prefix occurs
    /// more than once, its last entry counts.
    pub fn from_jurisdictions(j: &Jurisdictions) -> (r: PrefixTable)
        ensures
            r.map() == table_of(all_entries(j.jurisdictions@)),
    {
        let groups = &j.jurisdictions;
        let mut entries: Vec<PrefixInfo> = Vec::new();
        let mut g: usize = 0;
        while g < groups.len()
            invariant
                g <= groups@.len(),
                info_views(entries@) == all_entries(groups@.take(g as int)),
            decreases groups@.len() - g,
        {
            let infos = &groups[g].1;
            let ghost before = info_views(entries@);
            let mut i: usize = 0;
            while i < infos.len()
                invariant
                    i <= infos@.len(),
                    info_views(entries@) == before + info_views(infos@.take(i as int)),
                decreases infos@.len() - i,
            {
                let ghost prev = info_views(entries@);
                let copy = infos[i].clone_info();
                entries.push(copy);
                assert(info_views(entries@) =~= prev.push(infos@[i as int]@));
                assert(info_views(infos@.take(i + 1)) =~= info_views(infos@.take(i as int)).push(
                    infos@[i as int]@,
                ));
                assert(info_views(entries@) =~= before + info_views(infos@.take(i + 1)));
                i = i + 1;
            }
            assert(infos@.take(i as int) =~= infos@);
            assert(groups@.take(g + 1).drop_last() =~= groups@.take(g as int));
            assert(info_views(entries@) =~= all_entries(groups@.take(g + 1)));
            g = g + 1;
        }
        assert(groups@.take(g as int) =~= groups@);
        PrefixTable { entries }
    }

    /// The entry for `prefix`, if the table has one.
    pub fn lookup(&self, prefix: &str) -> (r: Option<&PrefixInfo>)
        ensures
            r is Some <==> self.map().contains_key(prefix@),
            r is Some ==> r->0@ == self.map()[prefix@],
    {
        let ghost views = info_views(self.entries@);
        let mut i: usize = self.entries.len();
        while i > 0
            invariant
                i <= self.entries@.len(),
                views == info_views(self.entries@),
                forall|k: int| i <= k < views.len() ==> #[trigger] views[k].prefix != prefix@,
            decreases i,
        {
            let j = i - 1;
            if same_text(self.entries[j].prefix.as_str(), prefix) {
                proof {
                    lemma_table_tail(views, j + 1, prefix@);
                    assert(views.take(j + 1).drop_last() =~= views.take(j as int));
                    assert(views.take(j + 1).last() == views[j as int]);
                }
                return Some(&self.entries[j]);
            }
            i = j;
        }
        proof {
            lemma_table_tail(views, 0, prefix@);
            assert(views.take(0) =~= Seq::<PrefixInfoView>::empty());
        }
        None
    }

    /// Whether the table has an entry for `prefix`.
    pub fn contains(&self, prefix: &str) -> (r: bool)
        ensures
            r == self.map().contains_key(prefix@),
    {
        self.lookup(prefix).is_some()
    }
}

impl PrefixInfo {
    /// A copy with the same view.
    pub fn clone_info(&self) -> (r: PrefixInfo)
        ensures
            r@ == self@,
    {
        PrefixInfo {
            prefix: self.prefix.clone(),
            description: self.description.clone(),
            standard: self.standard.clone(),
        }
    }
}

} // verus!
