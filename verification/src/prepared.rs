//! The prepared appearances, kept by group and by id in hash maps for fast lookup.

use bevy::utils::HashMap;
use vstd::prelude::*;

use crate::appearance::{
    can_prepare, is_prepared_from, prepare_appearance, AppearanceGroup, PreparedAppearance,
    VisualElement, VisualElements,
};

verus! {

/// A table with no appearance in it.
pub open spec fn no_entries() -> Map<u32, PreparedAppearance> {
    Map::empty()
}

/// Prepared appearances with no group in them.
pub open spec fn no_tables() -> Map<AppearanceGroup, AppearanceTable> {
    Map::empty()
}

/// The prepared appearances of one group, by id, in a bevy `HashMap` (hashbrown with
/// a fixed hasher). The struct is opaque to proofs; what it holds is the map named
/// by `table_entries`, and only the methods below, whose contracts are believed, touch it.
/// Ids are `u32`, whose `Hash` and `Eq` tell keys apart as numbers.
#[verifier::external_body]
pub struct AppearanceTable {
    entries: HashMap<u32, PreparedAppearance>,
}

/// What an appearance table holds: the prepared appearance of each id in it.
pub uninterp spec fn table_entries(table: AppearanceTable) -> Map<u32, PreparedAppearance>;

impl AppearanceTable {
    /// An empty table: `HashMap::default`, which makes a map with no entries.
    #[verifier::external_body]
    fn empty() -> (t: AppearanceTable)
        ensures
            table_entries(t) == no_entries(),
    {
        AppearanceTable { entries: HashMap::default() }
    }

    /// `HashMap::insert`: afterwards `id` maps to `appearance`, whatever it mapped to
    /// before, and every other id is left as it was.
    #[verifier::external_body]
    fn put(&mut self, id: u32, appearance: PreparedAppearance)
        ensures
            table_entries(*final(self)) == table_entries(*old(self)).insert(id, appearance),
    {
        self.entries.insert(id, appearance);
    }

    /// `HashMap::get`: a reference to the appearance under `id`, `None` exactly when the
    /// table has no entry for `id`.
    #[verifier::external_body]
    fn find(&self, id: u32) -> (r: Option<&PreparedAppearance>)
        ensures
            match r {
                Some(a) => table_entries(*self).contains_key(id) && *a == table_entries(*self)[id],
                None => !table_entries(*self).contains_key(id),
            },
    {
        self.entries.get(&id)
    }

    /// The prepared appearance with this id, if the table holds one.
    pub fn get(&self, id: u32) -> (r: Option<&PreparedAppearance>)
        ensures
            match r {
                Some(a) => table_entries(*self).contains_key(id) && *a == table_entries(*self)[id],
                None => !table_entries(*self).contains_key(id),
            },
    {
        self.find(id)
    }
}

impl Default for AppearanceTable {
    fn default() -> (t: AppearanceTable)
        ensures
            table_entries(t) == no_entries(),
    {
        AppearanceTable::empty()
    }
}

/// The prepared appearances by group, each group a table by id, in a bevy `HashMap`.
/// The struct is opaque to proofs; what it holds is the map named by
/// `group_tables`, and only the methods below, whose contracts are believed, touch it.
/// Groups are a field-less enum whose derived `Hash` and `Eq` tell its variants apart.
#[verifier::external_body]
pub struct PreparedAppearances {
    groups: HashMap<AppearanceGroup, AppearanceTable>,
}

/// What the prepared appearances hold: the table of each group that has one.
pub uninterp spec fn group_tables(p: PreparedAppearances) -> Map<AppearanceGroup, AppearanceTable>;

impl View for PreparedAppearances {
    type V = Map<AppearanceGroup, Map<u32, PreparedAppearance>>;

    /// For each group that has a table, its prepared appearances by id.
    open spec fn view(&self) -> Map<AppearanceGroup, Map<u32, PreparedAppearance>> {
        group_tables(*self).map_values(|t: AppearanceTable| table_entries(t))
    }
}

/// The appearances of `group` in `m` by id; nothing where the group has no table.
pub open spec fn entries_of(
    m: Map<AppearanceGroup, Map<u32, PreparedAppearance>>,
    group: AppearanceGroup,
) -> Map<u32, PreparedAppearance> {
    if m.contains_key(group) {
        m[group]
    } else {
        Map::empty()
    }
}

/// Every group that has a table holds at least one appearance: a group appears only
/// once an appearance of it is kept.
pub open spec fn groups_hold_appearances(m: Map<AppearanceGroup, Map<u32, PreparedAppearance>>) -> bool {
    forall|g: AppearanceGroup| #[trigger] m.contains_key(g) ==> exists|id: u32| #[trigger] m[g].contains_key(id)
}

/// Whether `m` holds no appearance in any group.
pub open spec fn holds_no_appearance(m: Map<AppearanceGroup, Map<u32, PreparedAppearance>>) -> bool {
    forall|g: AppearanceGroup, id: u32| !(#[trigger] m.contains_key(g) && #[trigger] m[g].contains_key(id))
}

impl PreparedAppearances {
    /// `HashMap::default`: a map with no group in it.
    #[verifier::external_body]
    fn empty() -> (p: PreparedAppearances)
        ensures
            group_tables(p) == no_tables(),
    {
        PreparedAppearances { groups: HashMap::default() }
    }

    /// `HashMap::is_empty`: true exactly when the map has no entry.
    #[verifier::external_body]
    fn has_no_group(&self) -> (r: bool)
        ensures
            r <==> group_tables(*self) == no_tables(),
    {
        self.groups.is_empty()
    }

    /// `HashMap::get`: a reference to the table of `group`, `None` exactly when the map
    /// has no entry for it.
    #[verifier::external_body]
    fn table(&self, group: AppearanceGroup) -> (r: Option<&AppearanceTable>)
        ensures
            match r {
                Some(t) => group_tables(*self).contains_key(group) && *t == group_tables(*self)[group],
                None => !group_tables(*self).contains_key(group),
            },
    {
        self.groups.get(&group)
    }

    /// `HashMap::entry` followed by `Entry::or_default`: a mutable reference to the table
    /// of `group`, which is the table it had, or a new empty table (the `Default` of
    /// `AppearanceTable`) put in for it where it had none; once the reference is given
    /// up, the map holds what was left behind it for `group` and is otherwise unchanged.
    #[verifier::external_body]
    fn table_mut(&mut self, group: AppearanceGroup) -> (t: &mut AppearanceTable)
        ensures
            group_tables(*old(self)).contains_key(group) ==> *t == group_tables(*old(self))[group],
            !group_tables(*old(self)).contains_key(group) ==> table_entries(*t) == no_entries(),
            group_tables(*final(self)) == group_tables(*old(self)).insert(group, *final(t)),
    {
        self.groups.entry(group).or_default()
    }

    /// Whether no appearance has been prepared yet: no group has a table, which, as long
    /// as every group that has a table holds an appearance, is when every lookup fails.
    pub fn is_empty(&self) -> (r: bool)
        ensures
            r <==> self@.dom() =~= Set::<AppearanceGroup>::empty(),
            groups_hold_appearances(self@) ==> (r <==> holds_no_appearance(self@)),
    {
        let r = self.has_no_group();
        proof {
            if groups_hold_appearances(self@) {
                lemma_empty_exactly_when_nothing_kept(self@);
            }
        }
        assert(self@ =~= Map::<AppearanceGroup, Map<u32, PreparedAppearance>>::empty()
            ==> group_tables(*self) =~= Map::<AppearanceGroup, AppearanceTable>::empty());
        r
    }

    /// Prepares `appearance` and keeps it under `group` and `id`, in place of what was
    /// there. An appearance that cannot be prepared (no id or no main sprite) is
    /// dropped and nothing changes.
    pub fn insert(&mut self, group: AppearanceGroup, id: u32, appearance: VisualElement)
        ensures
            !can_prepare(appearance) ==> final(self)@ == old(self)@,
            can_prepare(appearance) ==> {
                &&& final(self)@ == old(self)@.insert(
                    group,
                    entries_of(old(self)@, group).insert(id, final(self)@[group][id]),
                )
                &&& is_prepared_from(appearance, final(self)@[group][id])
            },
            groups_hold_appearances(old(self)@) ==> groups_hold_appearances(final(self)@),
    {
        let prepared = prepare_appearance(appearance);
        if let Some(prepared) = prepared {
            let ghost before = self@;
            let table = self.table_mut(group);
            table.put(id, prepared);
            proof {
                assert(self@[group].contains_key(id));
                if groups_hold_appearances(before) {
                    assert forall|g: AppearanceGroup| #[trigger] self@.contains_key(g) implies exists|i: u32|
                        #[trigger] self@[g].contains_key(i) by {
                        if g == group {
                            assert(self@[g].contains_key(id));
                        } else {
                            let i = choose|i: u32| #[trigger] before[g].contains_key(i);
                            assert(self@[g] == before[g]);
                            assert(self@[g].contains_key(i));
                        }
                    }
                }
            }
        }
    }

    /// The table of prepared appearances of `group`, if any appearance of it was kept.
    pub fn get_group(&self, group: AppearanceGroup) -> (r: Option<&AppearanceTable>)
        ensures
            match r {
                Some(t) => self@.contains_key(group) && table_entries(*t) == self@[group],
                None => !self@.contains_key(group),
            },
    {
        self.table(group)
    }

    /// The prepared appearance of `group` with this id, if one was kept.
    pub fn get_for_group(&self, group: AppearanceGroup, id: u32) -> (r: Option<&PreparedAppearance>)
        ensures
            match r {
                Some(a) => self@.contains_key(group) && self@[group].contains_key(id) && *a == self@[group][id],
                None => !(self@.contains_key(group) && self@[group].contains_key(id)),
            },
    {
        match self.table(group) {
            Some(table) => table.get(id),
            None => None,
        }
    }
}

impl Default for PreparedAppearances {
    fn default() -> (p: PreparedAppearances)
        ensures
            p@.dom() =~= Set::<AppearanceGroup>::empty(),
            groups_hold_appearances(p@),
    {
        let p = PreparedAppearances::empty();
        p
    }
}


/// The index of the last appearance of `items` that can be prepared and has id `id`;
/// -1 where there is none.
pub open spec fn last_prepared_index(items: Seq<VisualElement>, id: u32) -> int
    decreases items.len(),
{
    if items.len() == 0 {
        -1
    } else if can_prepare(items.last()) && items.last().id == Some(id) {
        items.len() - 1
    } else {
        last_prepared_index(items.drop_last(), id)
    }
}

/// `after` holds for `group` what `before` held, with the appearances of `items` that
/// can be prepared kept in order, a later one in place of an earlier one with the same
/// id: the group has a table when it had one or some item can be prepared, an id whose
/// last such item is `items[k]` holds what preparing `items[k]` gives, and every other
/// id holds what it held.
pub open spec fn group_filled(
    before: Map<AppearanceGroup, Map<u32, PreparedAppearance>>,
    group: AppearanceGroup,
    items: Seq<VisualElement>,
    after: Map<AppearanceGroup, Map<u32, PreparedAppearance>>,
) -> bool {
    &&& after.contains_key(group) <==> (before.contains_key(group) || exists|i: int|
        0 <= i < items.len() && can_prepare(#[trigger] items[i]))
    &&& forall|id: u32|
        {
            let k = #[trigger] last_prepared_index(items, id);
            if k >= 0 {
                &&& entries_of(after, group).contains_key(id)
                &&& is_prepared_from(items[k], entries_of(after, group)[id])
            } else {
                &&& entries_of(after, group).contains_key(id) == entries_of(before, group).contains_key(id)
                &&& entries_of(before, group).contains_key(id) ==> entries_of(after, group)[id]
                    == entries_of(before, group)[id]
            }
        }
}

/// `after` holds for every group other than `group` what `before` held.
pub open spec fn other_groups_kept(
    before: Map<AppearanceGroup, Map<u32, PreparedAppearance>>,
    group: AppearanceGroup,
    after: Map<AppearanceGroup, Map<u32, PreparedAppearance>>,
) -> bool {
    forall|g: AppearanceGroup|
        g != group ==> (#[trigger] after.contains_key(g) == before.contains_key(g) && (before.contains_key(g)
            ==> after[g] == before[g]))
}

/// Prepares the appearances of `items` and keeps them in `group` by id, in order.
/// Appearances without frames or without an id are passed over, and so are those that
/// cannot be prepared.
fn process_appearances(
    prepared: &mut PreparedAppearances,
    group: AppearanceGroup,
    items: Vec<VisualElement>,
)
    ensures
        group_filled(old(prepared)@, group, items@, final(prepared)@),
        other_groups_kept(old(prepared)@, group, final(prepared)@),
        groups_hold_appearances(old(prepared)@) ==> groups_hold_appearances(final(prepared)@),
{
    let ghost before = prepared@;
    let ghost all = items@;
    for item in it: items.into_iter()
        invariant
            it.seq() == all,
            group_filled(before, group, all.take(it.index() as int), prepared@),
            other_groups_kept(before, group, prepared@),
            groups_hold_appearances(before) ==> groups_hold_appearances(prepared@),
    {
        let ghost i = it.index() as int;
        proof {
            assert(all.take(i + 1).drop_last() =~= all.take(i));
        }
        if item.frames.len() > 0 {
            if let Some(id) = item.id {
                prepared.insert(group, id, item);
            }
        }
        proof {
            assert forall|j: int| 0 <= j < i + 1 implies all.take(i + 1)[j] == all[j] by {}
            assert forall|j: int| 0 <= j < i implies all.take(i)[j] == all[j] by {}
            assert forall|id: u32| true implies {
                let k = #[trigger] last_prepared_index(all.take(i + 1), id);
                if k >= 0 {
                    &&& entries_of(prepared@, group).contains_key(id)
                    &&& is_prepared_from(all.take(i + 1)[k], entries_of(prepared@, group)[id])
                } else {
                    &&& entries_of(prepared@, group).contains_key(id) == entries_of(before, group).contains_key(id)
                    &&& entries_of(before, group).contains_key(id) ==> entries_of(prepared@, group)[id]
                        == entries_of(before, group)[id]
                }
            } by {
                let k0 = last_prepared_index(all.take(i), id);
                assert(k0 < i) by { lemma_last_prepared_index_bound(all.take(i), id); }
            }
        }
    }
    proof {
        assert(all.take(all.len() as int) =~= all);
    }
}

/// Prepares the appearances of the appearance file into `prepared`, keeping the four
/// groups (objects, outfits, effects, missiles) apart. Within a group the appearances
/// are kept by id in file order, a later one in place of an earlier one with the same
/// id; appearances without frames, without an id or without a main sprite are passed over.
pub fn prepare_appearances(prepared: &mut PreparedAppearances, appearances: VisualElements)
    ensures
        group_filled(old(prepared)@, AppearanceGroup::Object, appearances.objects@, final(prepared)@),
        group_filled(old(prepared)@, AppearanceGroup::Outfit, appearances.outfits@, final(prepared)@),
        group_filled(old(prepared)@, AppearanceGroup::Effect, appearances.effects@, final(prepared)@),
        group_filled(old(prepared)@, AppearanceGroup::Missile, appearances.missiles@, final(prepared)@),
        groups_hold_appearances(old(prepared)@) ==> groups_hold_appearances(final(prepared)@),
{
    let ghost m0 = prepared@;
    let VisualElements { objects, outfits, effects, missiles } = appearances;
    let ghost (o, u, e, m) = (objects@, outfits@, effects@, missiles@);
    process_appearances(prepared, AppearanceGroup::Object, objects);
    let ghost m1 = prepared@;
    process_appearances(prepared, AppearanceGroup::Outfit, outfits);
    let ghost m2 = prepared@;
    process_appearances(prepared, AppearanceGroup::Effect, effects);
    let ghost m3 = prepared@;
    process_appearances(prepared, AppearanceGroup::Missile, missiles);
    let ghost m4 = prepared@;
    proof {
        assert(m2.contains_key(AppearanceGroup::Object) == m1.contains_key(AppearanceGroup::Object));
        assert(m3.contains_key(AppearanceGroup::Object) == m2.contains_key(AppearanceGroup::Object));
        assert(m4.contains_key(AppearanceGroup::Object) == m3.contains_key(AppearanceGroup::Object));
        assert(m3.contains_key(AppearanceGroup::Outfit) == m2.contains_key(AppearanceGroup::Outfit));
        assert(m4.contains_key(AppearanceGroup::Outfit) == m3.contains_key(AppearanceGroup::Outfit));
        assert(m4.contains_key(AppearanceGroup::Effect) == m3.contains_key(AppearanceGroup::Effect));
        lemma_group_filled_on_group(m0, m0, AppearanceGroup::Object, o, m1, m4);
        lemma_group_filled_on_group(m1, m0, AppearanceGroup::Outfit, u, m2, m4);
        lemma_group_filled_on_group(m2, m0, AppearanceGroup::Effect, e, m3, m4);
        lemma_group_filled_on_group(m3, m0, AppearanceGroup::Missile, m, m4, m4);
    }
}

/// Whether `group_filled` holds depends only on what the two maps hold for the group.
proof fn lemma_group_filled_on_group(
    before: Map<AppearanceGroup, Map<u32, PreparedAppearance>>,
    before2: Map<AppearanceGroup, Map<u32, PreparedAppearance>>,
    group: AppearanceGroup,
    items: Seq<VisualElement>,
    after: Map<AppearanceGroup, Map<u32, PreparedAppearance>>,
    after2: Map<AppearanceGroup, Map<u32, PreparedAppearance>>,
)
    requires
        group_filled(before, group, items, after),
        before.contains_key(group) == before2.contains_key(group),
        before.contains_key(group) ==> before[group] == before2[group],
        after.contains_key(group) == after2.contains_key(group),
        after.contains_key(group) ==> after[group] == after2[group],
    ensures
        group_filled(before2, group, items, after2),
{
}

// Laws of the prepared appearances.

/// As long as every group that has a table holds an appearance, there is no group at
/// all exactly when no lookup finds an appearance.
pub proof fn lemma_empty_exactly_when_nothing_kept(m: Map<AppearanceGroup, Map<u32, PreparedAppearance>>)
    requires
        groups_hold_appearances(m),
    ensures
        (m.dom() =~= Set::<AppearanceGroup>::empty()) <==> holds_no_appearance(m),
{
    if holds_no_appearance(m) {
        assert forall|g: AppearanceGroup| !m.contains_key(g) by {
            if m.contains_key(g) {
                let id = choose|id: u32| #[trigger] m[g].contains_key(id);
                assert(m.contains_key(g) && m[g].contains_key(id));
            }
        }
    }
}

/// A lookup after keeping an appearance gives back what preparing it gave, and every
/// other group and id gives what it gave before.
pub proof fn lemma_lookup_after_insert(
    before: Map<AppearanceGroup, Map<u32, PreparedAppearance>>,
    after: Map<AppearanceGroup, Map<u32, PreparedAppearance>>,
    group: AppearanceGroup,
    id: u32,
    item: VisualElement,
    other_group: AppearanceGroup,
    other_id: u32,
)
    requires
        after == before.insert(group, entries_of(before, group).insert(id, after[group][id])),
        is_prepared_from(item, after[group][id]),
    ensures
        entries_of(after, group).contains_key(id),
        is_prepared_from(item, entries_of(after, group)[id]),
        (other_group, other_id) != (group, id) ==> {
            &&& entries_of(after, other_group).contains_key(other_id) == entries_of(before, other_group).contains_key(other_id)
            &&& entries_of(before, other_group).contains_key(other_id) ==> entries_of(after, other_group)[other_id]
                == entries_of(before, other_group)[other_id]
        },
{
}

/// Every appearance that preparation keeps in a group that held nothing before has a
/// main sprite and an id, the id it is kept under: it is what preparing the last item
/// with that id gives.
pub proof fn lemma_kept_appearances_are_prepared(
    before: Map<AppearanceGroup, Map<u32, PreparedAppearance>>,
    group: AppearanceGroup,
    items: Seq<VisualElement>,
    after: Map<AppearanceGroup, Map<u32, PreparedAppearance>>,
    id: u32,
)
    requires
        group_filled(before, group, items, after),
        !before.contains_key(group),
        entries_of(after, group).contains_key(id),
    ensures
        0 <= last_prepared_index(items, id) < items.len(),
        is_prepared_from(items[last_prepared_index(items, id)], after[group][id]),
        after[group][id].id == id,
{
    lemma_last_prepared_index_bound(items, id);
    lemma_last_prepared_index_names_id(items, id);
}

/// The item that `last_prepared_index` picks can be prepared and has the id asked for.
proof fn lemma_last_prepared_index_names_id(items: Seq<VisualElement>, id: u32)
    ensures
        last_prepared_index(items, id) >= 0 ==> {
            &&& can_prepare(items[last_prepared_index(items, id)])
            &&& items[last_prepared_index(items, id)].id == Some(id)
        },
    decreases items.len(),
{
    if items.len() > 0 {
        lemma_last_prepared_index_names_id(items.drop_last(), id);
        lemma_last_prepared_index_bound(items.drop_last(), id);
    }
}

/// The index that `last_prepared_index` gives lies within `items`.
proof fn lemma_last_prepared_index_bound(items: Seq<VisualElement>, id: u32)
    ensures
        -1 <= last_prepared_index(items, id) < items.len(),
    decreases items.len(),
{
    if items.len() > 0 {
        lemma_last_prepared_index_bound(items.drop_last(), id);
    }
}


/// The item that `last_prepared_index` picks is the last one: no later item can be
/// prepared with the same id, and where it picks none, no item can be.
pub proof fn lemma_last_prepared_index_is_last(items: Seq<VisualElement>, id: u32, j: int)
    requires
        last_prepared_index(items, id) < j < items.len(),
    ensures
        !(can_prepare(items[j]) && items[j].id == Some(id)),
    decreases items.len(),
{
    if j < items.len() - 1 {
        lemma_last_prepared_index_bound(items.drop_last(), id);
        lemma_last_prepared_index_is_last(items.drop_last(), id, j);
    }
}

} // verus!
