//! The flags of a whole tile (visible, walkable, blocking sight), kept per position in
//! a cache so that a tile's things need not be visited to know them.

use bevy::utils::HashMap;
use vstd::prelude::*;

use crate::appearance::{flag_is_set, is_true, AppearanceGroup, Flags};
use crate::appearance::PreparedAppearance;
use crate::prepared::PreparedAppearances;

verus! {

/// The position of a tile in the world: x, y and floor z.
#[derive(Debug, Clone, Copy, PartialEq, Eq, Structural, Hash, Default)]
pub struct TilePosition {
    pub x: i32,
    pub y: i32,
    pub z: i32,
}

/// Whether a thing is drawn: as its parent says, hidden, or visible.
#[derive(Debug, Clone, Copy, PartialEq, Eq, Structural, Hash)]
pub enum TileVisibility {
    Inherited,
    Hidden,
    Visible,
}

impl Default for TileVisibility {
    fn default() -> (v: TileVisibility)
        ensures
            v == TileVisibility::Inherited,
    {
        TileVisibility::Inherited
    }
}

/// The state of a tile: whether players see it, whether it can be walked on, and
/// whether it blocks the line of sight.
#[derive(Debug, Clone, Copy, PartialEq, Eq, Structural)]
pub struct TileFlags {
    pub visible: bool,
    pub walkable: bool,
    pub blocks_sight: bool,
}

/// The flags of a tile about which nothing is known yet: visible, walkable, not
/// blocking sight.
pub open spec fn default_tile_flags() -> TileFlags {
    TileFlags { visible: true, walkable: true, blocks_sight: false }
}

impl Default for TileFlags {
    fn default() -> (f: TileFlags)
        ensures
            f == default_tile_flags(),
    {
        TileFlags { visible: true, walkable: true, blocks_sight: false }
    }
}

/// The flags `f` once the appearance flags `flags` are taken into account:
/// walkable unless the appearance is not walkable, blocking sight when it does;
/// visibility is kept.
pub open spec fn with_appearance_flags(f: TileFlags, flags: Flags) -> TileFlags {
    TileFlags {
        visible: f.visible,
        walkable: !flag_is_set(flags.is_not_walkable),
        blocks_sight: flag_is_set(flags.blocks_sight),
    }
}

impl TileFlags {
    /// Updates the flags from the appearance flags of a thing on the tile.
    pub fn for_appearance_flags(&mut self, flags: Flags)
        ensures
            *final(self) == with_appearance_flags(*old(self), flags),
    {
        self.walkable = !is_true(flags.is_not_walkable);
        self.blocks_sight = is_true(flags.blocks_sight);
    }
}

/// The cached flags of tiles, by position, in a bevy `HashMap`. The struct is opaque to
/// proofs; what it holds is the map named by `cached_flags`, and only the methods
/// below, whose contracts are believed, touch it. Positions are plain integer triples
/// whose derived `Hash` and `Eq` compare them field by field.
#[verifier::external_body]
pub struct TileFlagCache {
    flags: HashMap<TilePosition, TileFlags>,
}

/// What the cache holds: the flags of each position in it.
pub uninterp spec fn cached_flags(cache: TileFlagCache) -> Map<TilePosition, TileFlags>;

/// A cache with no position in it.
pub open spec fn no_cached_flags() -> Map<TilePosition, TileFlags> {
    Map::empty()
}

impl View for TileFlagCache {
    type V = Map<TilePosition, TileFlags>;

    open spec fn view(&self) -> Map<TilePosition, TileFlags> {
        cached_flags(*self)
    }
}

/// The flags that `m` holds for `pos`, or those of an unknown tile.
pub open spec fn flags_or_default(m: Map<TilePosition, TileFlags>, pos: TilePosition) -> TileFlags {
    if m.contains_key(pos) {
        m[pos]
    } else {
        default_tile_flags()
    }
}

impl TileFlagCache {
    /// `HashMap::default`: a map with no entries.
    #[verifier::external_body]
    fn empty() -> (c: TileFlagCache)
        ensures
            cached_flags(c) == no_cached_flags(),
    {
        TileFlagCache { flags: HashMap::default() }
    }

    /// `HashMap::get`, copied out: the flags under `pos`, `None` exactly when the map has
    /// no entry for it.
    #[verifier::external_body]
    fn lookup(&self, pos: TilePosition) -> (r: Option<TileFlags>)
        ensures
            match r {
                Some(f) => cached_flags(*self).contains_key(pos) && f == cached_flags(*self)[pos],
                None => !cached_flags(*self).contains_key(pos),
            },
    {
        self.flags.get(&pos).copied()
    }

    /// `HashMap::insert`: afterwards `pos` maps to `flags`, whatever it mapped to before,
    /// and every other position is left as it was.
    #[verifier::external_body]
    fn store(&mut self, pos: TilePosition, flags: TileFlags)
        ensures
            cached_flags(*final(self)) == cached_flags(*old(self)).insert(pos, flags),
    {
        self.flags.insert(pos, flags);
    }

    /// The flags cached for `pos`, if any.
    pub fn get(&self, pos: TilePosition) -> (r: Option<TileFlags>)
        ensures
            r == (if self@.contains_key(pos) {
                Some(self@[pos])
            } else {
                None::<TileFlags>
            }),
    {
        self.lookup(pos)
    }

    /// The flags of `pos`, those of an unknown tile where the cache has none
    /// (the cache is left as it is).
    fn get_or_default(&self, pos: TilePosition) -> (f: TileFlags)
        ensures
            f == flags_or_default(self@, pos),
    {
        match self.lookup(pos) {
            Some(f) => f,
            None => TileFlags::default(),
        }
    }

    /// Records whether the tile at `pos` is visible, starting from the flags of an
    /// unknown tile where the cache has none.
    pub fn set_visible(&mut self, pos: TilePosition, visible: bool)
        ensures
            final(self)@ == old(self)@.insert(
                pos,
                TileFlags { visible, ..flags_or_default(old(self)@, pos) },
            ),
    {
        let mut flags = self.get_or_default(pos);
        flags.visible = visible;
        self.store(pos, flags);
    }

    /// Takes the appearance flags of a thing at `pos` into account, starting from the
    /// flags of an unknown tile where the cache has none.
    pub fn apply_appearance_flags(&mut self, pos: TilePosition, appearance_flags: Flags)
        ensures
            final(self)@ == old(self)@.insert(
                pos,
                with_appearance_flags(flags_or_default(old(self)@, pos), appearance_flags),
            ),
    {
        let mut flags = self.get_or_default(pos);
        flags.for_appearance_flags(appearance_flags);
        self.store(pos, flags);
    }
}

impl Default for TileFlagCache {
    fn default() -> (c: TileFlagCache)
        ensures
            c@ == no_cached_flags(),
    {
        TileFlagCache::empty()
    }
}


/// The cache `m` after recording, in order, the visibility of each change: a tile is
/// visible unless it is hidden.
pub open spec fn after_visibility_changes(
    m: Map<TilePosition, TileFlags>,
    changes: Seq<(TilePosition, TileVisibility)>,
) -> Map<TilePosition, TileFlags>
    decreases changes.len(),
{
    if changes.len() == 0 {
        m
    } else {
        let prev = after_visibility_changes(m, changes.drop_last());
        let (pos, visibility) = changes.last();
        prev.insert(
            pos,
            TileFlags { visible: visibility != TileVisibility::Hidden, ..flags_or_default(prev, pos) },
        )
    }
}

/// The appearance flags of the thing that `object` names (group and id), where the
/// prepared appearances hold it and it has flags.
pub open spec fn appearance_flags_of(
    appearances: Map<AppearanceGroup, Map<u32, PreparedAppearance>>,
    object: Option<(AppearanceGroup, u32)>,
) -> Option<Flags> {
    match object {
        Some((group, id)) => if appearances.contains_key(group) && appearances[group].contains_key(id) {
            appearances[group][id].flags
        } else {
            None
        },
        None => None,
    }
}

/// The cache `m` after taking into account, in order, the appearance flags of the thing
/// that each change names; a change whose thing has no known flags is passed over.
pub open spec fn after_object_changes(
    m: Map<TilePosition, TileFlags>,
    appearances: Map<AppearanceGroup, Map<u32, PreparedAppearance>>,
    changes: Seq<(TilePosition, Option<(AppearanceGroup, u32)>)>,
) -> Map<TilePosition, TileFlags>
    decreases changes.len(),
{
    if changes.len() == 0 {
        m
    } else {
        let prev = after_object_changes(m, appearances, changes.drop_last());
        let (pos, object) = changes.last();
        match appearance_flags_of(appearances, object) {
            Some(flags) => prev.insert(pos, with_appearance_flags(flags_or_default(prev, pos), flags)),
            None => prev,
        }
    }
}

/// Brings the cache up to date: first the tiles whose visibility changed, then the
/// tiles on which a thing changed (given by its group and id, `None` for a thing that
/// has no appearance), both in order.
pub fn update_tile_flag_cache(
    cache: &mut TileFlagCache,
    appearances: &PreparedAppearances,
    visibility_changes: &Vec<(TilePosition, TileVisibility)>,
    object_changes: &Vec<(TilePosition, Option<(AppearanceGroup, u32)>)>,
)
    ensures
        final(cache)@ == after_object_changes(
            after_visibility_changes(old(cache)@, visibility_changes@),
            appearances@,
            object_changes@,
        ),
{
    let ghost start = cache@;
    let mut i: usize = 0;
    while i < visibility_changes.len()
        invariant
            i <= visibility_changes@.len(),
            cache@ == after_visibility_changes(start, visibility_changes@.take(i as int)),
        decreases visibility_changes@.len() - i,
    {
        let (pos, visibility) = visibility_changes[i];
        cache.set_visible(pos, visibility != TileVisibility::Hidden);
        proof {
            assert(visibility_changes@.take(i + 1).drop_last() =~= visibility_changes@.take(i as int));
        }
        i = i + 1;
    }
    proof {
        assert(visibility_changes@.take(i as int) =~= visibility_changes@);
    }
    let ghost seen = cache@;
    let mut j: usize = 0;
    while j < object_changes.len()
        invariant
            j <= object_changes@.len(),
            cache@ == after_object_changes(seen, appearances@, object_changes@.take(j as int)),
        decreases object_changes@.len() - j,
    {
        let (pos, object) = object_changes[j];
        proof {
            assert(object_changes@.take(j + 1).drop_last() =~= object_changes@.take(j as int));
        }
        if let Some((group, id)) = object {
            if let Some(appearance) = appearances.get_for_group(group, id) {
                if let Some(flags) = appearance.flags {
                    cache.apply_appearance_flags(pos, flags);
                }
            }
        }
        j = j + 1;
    }
    proof {
        assert(object_changes@.take(j as int) =~= object_changes@);
    }
}


// Laws of the tile flag cache.

/// The visibility that the last change for `pos` records, if any change is for `pos`.
pub open spec fn last_visibility(
    changes: Seq<(TilePosition, TileVisibility)>,
    pos: TilePosition,
) -> Option<TileVisibility>
    decreases changes.len(),
{
    if changes.len() == 0 {
        None
    } else if changes.last().0 == pos {
        Some(changes.last().1)
    } else {
        last_visibility(changes.drop_last(), pos)
    }
}

/// The last visibility change of a tile decides whether it is visible, and visibility
/// changes leave whether it is walkable and whether it blocks sight as they were; a tile
/// that no change names keeps its cached flags (or stays out of the cache).
pub proof fn lemma_last_visibility_change_wins(
    m: Map<TilePosition, TileFlags>,
    changes: Seq<(TilePosition, TileVisibility)>,
    pos: TilePosition,
)
    ensures
        match last_visibility(changes, pos) {
            Some(v) => {
                &&& after_visibility_changes(m, changes).contains_key(pos)
                &&& after_visibility_changes(m, changes)[pos] == TileFlags {
                    visible: v != TileVisibility::Hidden,
                    ..flags_or_default(m, pos)
                }
            },
            None => {
                &&& after_visibility_changes(m, changes).contains_key(pos) == m.contains_key(pos)
                &&& m.contains_key(pos) ==> after_visibility_changes(m, changes)[pos] == m[pos]
            },
        },
    decreases changes.len(),
{
    if changes.len() > 0 {
        lemma_last_visibility_change_wins(m, changes.drop_last(), pos);
    }
}

/// Taking the appearance flags of things into account never changes whether a tile is
/// visible, and a tile that no change names keeps its cached flags.
pub proof fn lemma_thing_changes_keep_visibility(
    m: Map<TilePosition, TileFlags>,
    appearances: Map<AppearanceGroup, Map<u32, PreparedAppearance>>,
    changes: Seq<(TilePosition, Option<(AppearanceGroup, u32)>)>,
    pos: TilePosition,
)
    ensures
        flags_or_default(after_object_changes(m, appearances, changes), pos).visible
            == flags_or_default(m, pos).visible,
        (forall|i: int| 0 <= i < changes.len() ==> (#[trigger] changes[i]).0 != pos) ==> {
            &&& after_object_changes(m, appearances, changes).contains_key(pos) == m.contains_key(pos)
            &&& m.contains_key(pos) ==> after_object_changes(m, appearances, changes)[pos] == m[pos]
        },
    decreases changes.len(),
{
    if changes.len() > 0 {
        lemma_thing_changes_keep_visibility(m, appearances, changes.drop_last(), pos);
        if forall|i: int| 0 <= i < changes.len() ==> (#[trigger] changes[i]).0 != pos {
            assert forall|i: int| 0 <= i < changes.drop_last().len() implies (#[trigger] changes.drop_last()[i]).0 != pos by {}
        }
    }
}


/// A tile about which nothing is known is visible, walkable and does not block sight;
/// taking the appearance flags of a thing into account makes the tile walkable exactly
/// when the thing is not marked not walkable, makes it block sight exactly when the
/// thing is marked as blocking sight, each from its own flag alone, and keeps whether
/// the tile is visible.
pub proof fn lemma_appearance_flags_set_each_flag(f: TileFlags, flags: Flags)
    ensures
        default_tile_flags().visible && default_tile_flags().walkable && !default_tile_flags().blocks_sight,
        with_appearance_flags(f, flags).walkable == (flags.is_not_walkable != Some(true)),
        with_appearance_flags(f, flags).blocks_sight == (flags.blocks_sight == Some(true)),
        with_appearance_flags(f, flags).visible == f.visible,
{
}

/// A visibility change sets whether its tile is visible (visible unless hidden), keeps
/// what was known of walking and sight on the tile (walkable and see-through where
/// nothing was known), caches the tile whether or not it was cached before, and leaves
/// every other tile as it was.
pub proof fn lemma_visibility_change_sets_tile(
    m: Map<TilePosition, TileFlags>,
    changes: Seq<(TilePosition, TileVisibility)>,
    pos: TilePosition,
    visibility: TileVisibility,
)
    ensures
        ({
            let prev = after_visibility_changes(m, changes);
            let after = after_visibility_changes(m, changes.push((pos, visibility)));
            &&& after.contains_key(pos)
            &&& after[pos].visible == (visibility != TileVisibility::Hidden)
            &&& after[pos].walkable == (if prev.contains_key(pos) { prev[pos].walkable } else { true })
            &&& after[pos].blocks_sight == (if prev.contains_key(pos) { prev[pos].blocks_sight } else { false })
            &&& forall|q: TilePosition| q != pos ==> (#[trigger] after.contains_key(q) == prev.contains_key(q)
                && (prev.contains_key(q) ==> after[q] == prev[q]))
        }),
{
    let pushed = changes.push((pos, visibility));
    assert(pushed.drop_last() =~= changes);
}

/// A change of the thing on a tile whose prepared appearance has flags sets the tile's
/// walking and sight from those flags, keeps whether it is visible (visible where
/// nothing was known), and caches the tile whether or not it was cached before; every
/// other tile is left as it was.
pub proof fn lemma_thing_change_sets_tile(
    m: Map<TilePosition, TileFlags>,
    appearances: Map<AppearanceGroup, Map<u32, PreparedAppearance>>,
    changes: Seq<(TilePosition, Option<(AppearanceGroup, u32)>)>,
    pos: TilePosition,
    group: AppearanceGroup,
    id: u32,
    flags: Flags,
)
    requires
        appearances.contains_key(group),
        appearances[group].contains_key(id),
        appearances[group][id].flags == Some(flags),
    ensures
        ({
            let prev = after_object_changes(m, appearances, changes);
            let after = after_object_changes(m, appearances, changes.push((pos, Some((group, id)))));
            &&& after.contains_key(pos)
            &&& after[pos].walkable == (flags.is_not_walkable != Some(true))
            &&& after[pos].blocks_sight == (flags.blocks_sight == Some(true))
            &&& after[pos].visible == (if prev.contains_key(pos) { prev[pos].visible } else { true })
            &&& forall|q: TilePosition| q != pos ==> (#[trigger] after.contains_key(q) == prev.contains_key(q)
                && (prev.contains_key(q) ==> after[q] == prev[q]))
        }),
{
    let pushed = changes.push((pos, Some((group, id))));
    assert(pushed.drop_last() =~= changes);
}

/// A change of the thing on a tile whose thing has no appearance, is not prepared, or
/// has no flags leaves the cache as it was.
pub proof fn lemma_thing_without_flags_changes_nothing(
    m: Map<TilePosition, TileFlags>,
    appearances: Map<AppearanceGroup, Map<u32, PreparedAppearance>>,
    changes: Seq<(TilePosition, Option<(AppearanceGroup, u32)>)>,
    pos: TilePosition,
    object: Option<(AppearanceGroup, u32)>,
)
    requires
        object matches Some((group, id)) ==> !(appearances.contains_key(group)
            && appearances[group].contains_key(id) && appearances[group][id].flags is Some),
    ensures
        after_object_changes(m, appearances, changes.push((pos, object)))
            == after_object_changes(m, appearances, changes),
{
    let pushed = changes.push((pos, object));
    assert(pushed.drop_last() =~= changes);
}

} // verus!
