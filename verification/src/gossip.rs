//! Gossip menus, their options, the localized option texts and the menu
//! addons.
//!
//! The conditions attached to a menu or an option are held by a reference of
//! the caller's choosing (`R`).
use std::collections::HashMap;
use vstd::prelude::*;
use vstd::multiset::Multiset;
use crate::predicates::is_default_value;
use crate::text::same_text;

verus! {

broadcast use {vstd::std_specs::hash::group_hash_axioms, vstd::multiset::group_multiset_axioms};

/// A client locale.
#[derive(Debug, Clone, Copy, PartialEq, Eq, Hash, Structural)]
pub enum Locale {
    EnUS,
    KoKR,
    FrFR,
    DeDE,
    ZhCN,
    ZhTW,
    EsES,
    EsMX,
    RuRU,
    Unset,
    PtBR,
    ItIT,
}

/// The slot of a locale in per-locale tables.
pub open spec fn locale_slot(l: Locale) -> u32 {
    match l {
        Locale::EnUS => 0u32,
        Locale::KoKR => 1u32,
        Locale::FrFR => 2u32,
        Locale::DeDE => 3u32,
        Locale::ZhCN => 4u32,
        Locale::ZhTW => 5u32,
        Locale::EsES => 6u32,
        Locale::EsMX => 7u32,
        Locale::RuRU => 8u32,
        Locale::Unset => 9u32,
        Locale::PtBR => 10u32,
        Locale::ItIT => 11u32,
    }
}

pub(crate) fn slot_of(l: Locale) -> (s: u32)
    ensures
        s == locale_slot(l),
{
    match l {
        Locale::EnUS => 0,
        Locale::KoKR => 1,
        Locale::FrFR => 2,
        Locale::DeDE => 3,
        Locale::ZhCN => 4,
        Locale::ZhTW => 5,
        Locale::EsES => 6,
        Locale::EsMX => 7,
        Locale::RuRU => 8,
        Locale::Unset => 9,
        Locale::PtBR => 10,
        Locale::ItIT => 11,
    }
}

/// The locale a name stands for, if any.
pub open spec fn locale_named(name: Seq<char>) -> Option<Locale> {
    if name == "enUS"@ {
        Some(Locale::EnUS)
    } else if name == "koKR"@ {
        Some(Locale::KoKR)
    } else if name == "frFR"@ {
        Some(Locale::FrFR)
    } else if name == "deDE"@ {
        Some(Locale::DeDE)
    } else if name == "zhCN"@ {
        Some(Locale::ZhCN)
    } else if name == "zhTW"@ {
        Some(Locale::ZhTW)
    } else if name == "esES"@ {
        Some(Locale::EsES)
    } else if name == "esMX"@ {
        Some(Locale::EsMX)
    } else if name == "ruRU"@ {
        Some(Locale::RuRU)
    } else if name == "none"@ {
        Some(Locale::Unset)
    } else if name == "ptBR"@ {
        Some(Locale::PtBR)
    } else if name == "itIT"@ {
        Some(Locale::ItIT)
    } else {
        None
    }
}

pub(crate) fn locale_from_name_like_cpp(name: &str) -> (r: Option<Locale>)
    ensures
        r == locale_named(name@),
{
    if same_text(name, "enUS") {
        Some(Locale::EnUS)
    } else if same_text(name, "koKR") {
        Some(Locale::KoKR)
    } else if same_text(name, "frFR") {
        Some(Locale::FrFR)
    } else if same_text(name, "deDE") {
        Some(Locale::DeDE)
    } else if same_text(name, "zhCN") {
        Some(Locale::ZhCN)
    } else if same_text(name, "zhTW") {
        Some(Locale::ZhTW)
    } else if same_text(name, "esES") {
        Some(Locale::EsES)
    } else if same_text(name, "esMX") {
        Some(Locale::EsMX)
    } else if same_text(name, "ruRU") {
        Some(Locale::RuRU)
    } else if same_text(name, "none") {
        Some(Locale::Unset)
    } else if same_text(name, "ptBR") {
        Some(Locale::PtBR)
    } else if same_text(name, "itIT") {
        Some(Locale::ItIT)
    } else {
        None
    }
}

/// A gossip menu: the text it shows, and its conditions.
#[derive(Debug, Clone)]
pub struct GossipMenu<R> {
    pub menu_id: u32,
    pub text_id: u32,
    pub conditions: R,
}

/// A gossip menu option.
#[derive(Debug, Clone)]
pub struct GossipMenuItem<R> {
    pub menu_id: u32,
    pub gossip_option_id: i32,
    pub order_index: u32,
    pub option_npc: u8,
    pub option_text: String,
    pub option_broadcast_text_id: u32,
    pub language: u32,
    pub flags: i32,
    pub action_menu_id: u32,
    pub action_poi_id: u32,
    pub gossip_npc_option_id: Option<i32>,
    pub box_coded: bool,
    pub box_money: u32,
    pub box_text: String,
    pub box_broadcast_text_id: u32,
    pub spell_id: Option<i32>,
    pub override_icon_id: Option<i32>,
    pub conditions: R,
}

/// The localized texts of a gossip menu option, by locale slot.
pub struct GossipMenuItemsLocaleLikeCpp {
    option_text: HashMap<u32, String>,
    box_text: HashMap<u32, String>,
}

/// A row of the gossip option locale table.
#[derive(Debug, Clone, PartialEq, Eq)]
pub struct GossipMenuItemsLocaleRowLikeCpp {
    pub menu_id: u32,
    pub option_id: u32,
    pub locale: String,
    pub option_text: String,
    pub box_text: String,
}

/// The addon of a gossip menu.
#[derive(Debug, Clone, Copy, Default, PartialEq, Eq, Structural)]
pub struct GossipMenuAddonLikeCpp {
    pub friendship_faction_id: i32,
}

/// A row of the gossip menu addon table.
#[derive(Debug, Clone, Copy, PartialEq, Eq, Structural)]
pub struct GossipMenuAddonRowLikeCpp {
    pub menu_id: u32,
    pub friendship_faction_id: i32,
}

/// What loading the gossip tables did.
#[derive(Debug, Clone, Copy, Default, PartialEq, Eq)]
pub struct GossipLoadReport {
    pub menu_rows: usize,
    pub menu_item_rows: usize,
    pub locale_rows_seen: usize,
    pub locale_entries: usize,
    pub addon_rows: usize,
}

/// What attaching conditions to gossip menus or options did.
#[derive(Debug, Clone, Default, PartialEq, Eq)]
pub struct GossipConditionAttachmentReport {
    pub attached_condition_count: usize,
    pub missing_menus: Vec<(u32, i32, u32)>,
    pub missing_menu_items: Vec<(u32, i32, u32)>,
}

/// The texts stored for a locale slot, by slot.
pub open spec fn texts_view(m: Map<u32, String>) -> Map<u32, Seq<char>> {
    m.map_values(|s: String| s@)
}

impl GossipMenuItemsLocaleLikeCpp {
    /// The option texts by locale slot.
    pub closed spec fn option_texts(&self) -> Map<u32, Seq<char>> {
        texts_view(self.option_text@)
    }

    /// The box texts by locale slot.
    pub closed spec fn box_texts(&self) -> Map<u32, Seq<char>> {
        texts_view(self.box_text@)
    }

    fn empty() -> (e: Self)
        ensures
            e.option_texts().is_empty(),
            e.box_texts().is_empty(),
    {
        let e = GossipMenuItemsLocaleLikeCpp { option_text: HashMap::new(), box_text: HashMap::new() };
        proof {
            assert(e.option_texts() =~= Map::empty());
            assert(e.box_texts() =~= Map::empty());
        }
        e
    }

    /// The option text in `locale`.
    pub fn option_text_like_cpp(&self, locale: Locale) -> (r: Option<&str>)
        ensures
            r matches Some(s) ==> self.option_texts().contains_key(locale_slot(locale)) && s@
                == self.option_texts()[locale_slot(locale)],
            r is None ==> !self.option_texts().contains_key(locale_slot(locale)),
    {
        match self.option_text.get(&slot_of(locale)) {
            Some(s) => Some(s.as_str()),
            None => None,
        }
    }

    /// The box text in `locale`.
    pub fn box_text_like_cpp(&self, locale: Locale) -> (r: Option<&str>)
        ensures
            r matches Some(s) ==> self.box_texts().contains_key(locale_slot(locale)) && s@
                == self.box_texts()[locale_slot(locale)],
            r is None ==> !self.box_texts().contains_key(locale_slot(locale)),
    {
        match self.box_text.get(&slot_of(locale)) {
            Some(s) => Some(s.as_str()),
            None => None,
        }
    }
}

/// The key of a (menu, option) pair.
pub open spec fn option_key(menu_id: u32, option_id: u32) -> u64 {
    (menu_id * 0x1_0000_0000 + option_id) as u64
}

fn option_key_of(menu_id: u32, option_id: u32) -> (k: u64)
    ensures
        k == option_key(menu_id, option_id),
{
    (menu_id as u64) * 0x1_0000_0000 + option_id as u64
}

/// The entries of `m` under `k`, none where `k` is absent.
pub open spec fn listed_at<T>(m: Map<u32, Seq<T>>, k: u32) -> Seq<T> {
    if m.contains_key(k) {
        m[k]
    } else {
        seq![]
    }
}

/// Menus, options, option locales and menu addons.
pub struct GossipStore<R> {
    menus_by_id: HashMap<u32, Vec<GossipMenu<R>>>,
    items_by_menu_id: HashMap<u32, Vec<GossipMenuItem<R>>>,
    locales_by_menu_option: HashMap<u64, GossipMenuItemsLocaleLikeCpp>,
    addons_by_menu_id: HashMap<u32, GossipMenuAddonLikeCpp>,
    menu_rows: usize,
    item_rows: usize,
    menu_ids: Ghost<Multiset<u32>>,
    item_menu_ids: Ghost<Multiset<u32>>,
}

/// Appends `v` to the list stored under `k`.
fn push_under<T>(m: &mut HashMap<u32, Vec<T>>, k: u32, v: T)
    ensures
        final(m)@.dom() == old(m)@.dom().insert(k),
        forall|j: u32| j != k && old(m)@.contains_key(j) ==> #[trigger] final(m)@[j] == old(m)@[j],
        final(m)@[k]@ == (if old(m)@.contains_key(k) {
            old(m)@[k]@
        } else {
            seq![]
        }).push(v),
{
    match m.remove(&k) {
        Some(mut list) => {
            list.push(v);
            m.insert(k, list);
        },
        None => {
            let mut list: Vec<T> = Vec::new();
            list.push(v);
            m.insert(k, list);
        },
    }
}

impl<R> GossipStore<R> {
    /// The menus by menu id, in the order they were added.
    pub closed spec fn menus(&self) -> Map<u32, Seq<GossipMenu<R>>> {
        self.menus_by_id@.map_values(|v: Vec<GossipMenu<R>>| v@)
    }

    /// The options by menu id, in the order they were added.
    pub closed spec fn items(&self) -> Map<u32, Seq<GossipMenuItem<R>>> {
        self.items_by_menu_id@.map_values(|v: Vec<GossipMenuItem<R>>| v@)
    }

    /// The option locales by (menu, option) key.
    pub closed spec fn locales(&self) -> Map<u64, GossipMenuItemsLocaleLikeCpp> {
        self.locales_by_menu_option@
    }

    /// The menu addons by menu id.
    pub closed spec fn addons(&self) -> Map<u32, GossipMenuAddonLikeCpp> {
        self.addons_by_menu_id@
    }

    /// One menu id for each stored menu.
    pub closed spec fn menu_id_bag(&self) -> Multiset<u32> {
        self.menu_ids@
    }

    /// One menu id for each stored option.
    pub closed spec fn item_menu_id_bag(&self) -> Multiset<u32> {
        self.item_menu_ids@
    }

    /// The counters agree with what is stored.
    pub closed spec fn wf(&self) -> bool {
        &&& forall|id: u32| #[trigger] self.menu_ids@.count(id) == listed_at(self.menus(), id).len()
        &&& forall|id: u32| #[trigger] self.item_menu_ids@.count(id) == listed_at(self.items(), id).len()
        &&& self.menu_rows == self.menu_ids@.len()
        &&& self.item_rows == self.item_menu_ids@.len()
    }

    /// A store with nothing in it.
    pub fn new() -> (s: Self)
        ensures
            s.wf(),
            s.menus().is_empty(),
            s.items().is_empty(),
            s.locales().is_empty(),
            s.addons().is_empty(),
    {
        let s = GossipStore {
            menus_by_id: HashMap::new(),
            items_by_menu_id: HashMap::new(),
            locales_by_menu_option: HashMap::new(),
            addons_by_menu_id: HashMap::new(),
            menu_rows: 0,
            item_rows: 0,
            menu_ids: Ghost(Multiset::empty()),
            item_menu_ids: Ghost(Multiset::empty()),
        };
        proof {
            assert(s.menus() =~= Map::empty());
            assert(s.items() =~= Map::empty());
        }
        s
    }

    /// Number of menus stored, over all menu ids.
    pub fn menu_row_count(&self) -> (n: usize)
        requires
            self.wf(),
        ensures
            n == self.menu_id_bag().len(),
            forall|id: u32| #[trigger] self.menu_id_bag().count(id) == listed_at(self.menus(), id).len(),
    {
        self.menu_rows
    }

    /// Number of options stored, over all menu ids.
    pub fn menu_item_row_count(&self) -> (n: usize)
        requires
            self.wf(),
        ensures
            n == self.item_menu_id_bag().len(),
            forall|id: u32| #[trigger] self.item_menu_id_bag().count(id) == listed_at(self.items(), id).len(),
    {
        self.item_rows
    }

    /// Number of (menu, option) pairs with localized texts.
    pub fn menu_item_locale_count(&self) -> (n: usize)
        ensures
            n == self.locales().len(),
    {
        self.locales_by_menu_option.len()
    }

    /// Number of menus with an addon.
    pub fn menu_addon_count(&self) -> (n: usize)
        ensures
            n == self.addons().len(),
    {
        self.addons_by_menu_id.len()
    }

    /// Adds the option `item` after the options already stored for its menu.
    pub fn add_menu_item_full_like_cpp(&mut self, item: GossipMenuItem<R>)
        requires
            old(self).wf(),
            old(self).item_menu_id_bag().len() < usize::MAX,
        ensures
            final(self).wf(),
            final(self).items() == old(self).items().insert(
                item.menu_id,
                listed_at(old(self).items(), item.menu_id).push(item),
            ),
            final(self).menus() == old(self).menus(),
            final(self).menu_id_bag() == old(self).menu_id_bag(),
            final(self).item_menu_id_bag() == old(self).item_menu_id_bag().insert(item.menu_id),
            final(self).locales() == old(self).locales(),
            final(self).addons() == old(self).addons(),
    {
        let menu_id = item.menu_id;
        let ghost item_copy = item;
        let ghost before = self.items();
        push_under(&mut self.items_by_menu_id, menu_id, item);
        self.item_rows = self.item_rows + 1;
        proof {
            self.item_menu_ids@ = self.item_menu_ids@.insert(menu_id);
            assert(self.items() =~= before.insert(menu_id, listed_at(before, menu_id).push(item_copy)));
        }
    }
}

impl<R: Default> GossipStore<R> {
    /// Adds a menu showing `text_id`, with no conditions, after the menus
    /// already stored for `menu_id`.
    pub fn add_menu_like_cpp(&mut self, menu_id: u32, text_id: u32)
        requires
            old(self).wf(),
            old(self).menu_id_bag().len() < usize::MAX,
        ensures
            final(self).wf(),
            final(self).menus().dom() == old(self).menus().dom().insert(menu_id),
            forall|id: u32| id != menu_id ==> #[trigger] listed_at(final(self).menus(), id) == listed_at(
                old(self).menus(),
                id,
            ),
            listed_at(final(self).menus(), menu_id).len() == listed_at(old(self).menus(), menu_id).len() + 1,
            listed_at(final(self).menus(), menu_id).drop_last() == listed_at(old(self).menus(), menu_id),
            listed_at(final(self).menus(), menu_id).last().menu_id == menu_id,
            listed_at(final(self).menus(), menu_id).last().text_id == text_id,
            is_default_value(listed_at(final(self).menus(), menu_id).last().conditions),
            final(self).items() == old(self).items(),
            final(self).menu_id_bag() == old(self).menu_id_bag().insert(menu_id),
            final(self).item_menu_id_bag() == old(self).item_menu_id_bag(),
            final(self).locales() == old(self).locales(),
            final(self).addons() == old(self).addons(),
    {
        let ghost before = self.menus();
        let conditions = R::default();
        push_under(&mut self.menus_by_id, menu_id, GossipMenu { menu_id, text_id, conditions });
        self.menu_rows = self.menu_rows + 1;
        proof {
            self.menu_ids@ = self.menu_ids@.insert(menu_id);
            assert(self.menus().dom() =~= before.dom().insert(menu_id));
            assert(listed_at(self.menus(), menu_id).drop_last() =~= listed_at(before, menu_id));
        }
    }

    /// Adds an option of `menu_id` at `order_index`, every other field empty,
    /// after the options already stored for that menu.
    pub fn add_menu_item_like_cpp(&mut self, menu_id: u32, order_index: u32)
        requires
            old(self).wf(),
            old(self).item_menu_id_bag().len() < usize::MAX,
        ensures
            final(self).wf(),
            final(self).items().dom() == old(self).items().dom().insert(menu_id),
            forall|id: u32| id != menu_id ==> #[trigger] listed_at(final(self).items(), id) == listed_at(
                old(self).items(),
                id,
            ),
            listed_at(final(self).items(), menu_id).drop_last() == listed_at(old(self).items(), menu_id),
            ({
                let it = listed_at(final(self).items(), menu_id).last();
                &&& listed_at(final(self).items(), menu_id).len() == listed_at(old(self).items(), menu_id).len() + 1
                &&& it.menu_id == menu_id
                &&& it.order_index == order_index
                &&& it.gossip_option_id == 0
                &&& it.option_npc == 0
                &&& it.option_text@ == Seq::<char>::empty()
                &&& it.option_broadcast_text_id == 0
                &&& it.language == 0
                &&& it.flags == 0
                &&& it.action_menu_id == 0
                &&& it.action_poi_id == 0
                &&& it.gossip_npc_option_id is None
                &&& !it.box_coded
                &&& it.box_money == 0
                &&& it.box_text@ == Seq::<char>::empty()
                &&& it.box_broadcast_text_id == 0
                &&& it.spell_id is None
                &&& it.override_icon_id is None
                &&& is_default_value(it.conditions)
            }),
            final(self).menus() == old(self).menus(),
            final(self).menu_id_bag() == old(self).menu_id_bag(),
            final(self).item_menu_id_bag() == old(self).item_menu_id_bag().insert(menu_id),
            final(self).locales() == old(self).locales(),
            final(self).addons() == old(self).addons(),
    {
        let conditions = R::default();
        let item = GossipMenuItem {
            menu_id,
            gossip_option_id: 0,
            order_index,
            option_npc: 0,
            option_text: String::new(),
            option_broadcast_text_id: 0,
            language: 0,
            flags: 0,
            action_menu_id: 0,
            action_poi_id: 0,
            gossip_npc_option_id: None,
            box_coded: false,
            box_money: 0,
            box_text: String::new(),
            box_broadcast_text_id: 0,
            spell_id: None,
            override_icon_id: None,
            conditions,
        };
        let ghost before = self.items();
        self.add_menu_item_full_like_cpp(item);
        proof {
            assert(self.items().dom() =~= before.dom().insert(menu_id));
            assert(listed_at(self.items(), menu_id).drop_last() =~= listed_at(before, menu_id));
        }
    }
}

impl<R> GossipStore<R> {
    /// Stores the localized texts of a row under its (menu, option) pair.
    ///
    /// A row whose locale name is unknown, or is the default locale, is
    /// passed over.
    pub fn add_menu_item_locale_like_cpp(&mut self, row: GossipMenuItemsLocaleRowLikeCpp)
        ensures
            final(self).menus() == old(self).menus(),
            final(self).items() == old(self).items(),
            final(self).addons() == old(self).addons(),
            final(self).menu_id_bag() == old(self).menu_id_bag(),
            final(self).item_menu_id_bag() == old(self).item_menu_id_bag(),
            old(self).wf() ==> final(self).wf(),
            ({
                let key = option_key(row.menu_id, row.option_id);
                match locale_named(row.locale@) {
                    Some(l) => if l == Locale::EnUS {
                        final(self).locales() == old(self).locales()
                    } else {
                        &&& final(self).locales().dom() == old(self).locales().dom().insert(key)
                        &&& forall|k: u64| k != key && old(self).locales().contains_key(k)
                            ==> #[trigger] final(self).locales()[k] == old(self).locales()[k]
                        &&& final(self).locales()[key].option_texts() == (if old(self).locales().contains_key(
                            key,
                        ) {
                            old(self).locales()[key].option_texts()
                        } else {
                            Map::empty()
                        }).insert(locale_slot(l), row.option_text@)
                        &&& final(self).locales()[key].box_texts() == (if old(self).locales().contains_key(key) {
                            old(self).locales()[key].box_texts()
                        } else {
                            Map::empty()
                        }).insert(locale_slot(l), row.box_text@)
                    },
                    None => final(self).locales() == old(self).locales(),
                }
            }),
    {
        let locale = match locale_from_name_like_cpp(row.locale.as_str()) {
            Some(l) => l,
            None => {
                return;
            },
        };
        if locale == Locale::EnUS {
            return;
        }
        let key = option_key_of(row.menu_id, row.option_id);
        let slot = slot_of(locale);
        let mut entry = match self.locales_by_menu_option.remove(&key) {
            Some(e) => e,
            None => GossipMenuItemsLocaleLikeCpp::empty(),
        };
        let ghost old_option = entry.option_texts();
        let ghost old_box = entry.box_texts();
        entry.option_text.insert(slot, row.option_text);
        entry.box_text.insert(slot, row.box_text);
        proof {
            assert(entry.option_texts() =~= old_option.insert(slot, row.option_text@));
            assert(entry.box_texts() =~= old_box.insert(slot, row.box_text@));
        }
        self.locales_by_menu_option.insert(key, entry);
    }

    /// Stores the addon of a menu, replacing an earlier one.
    pub fn add_menu_addon_like_cpp(&mut self, row: GossipMenuAddonRowLikeCpp)
        ensures
            final(self).addons() == old(self).addons().insert(
                row.menu_id,
                GossipMenuAddonLikeCpp { friendship_faction_id: row.friendship_faction_id },
            ),
            final(self).menus() == old(self).menus(),
            final(self).items() == old(self).items(),
            final(self).locales() == old(self).locales(),
            final(self).menu_id_bag() == old(self).menu_id_bag(),
            final(self).item_menu_id_bag() == old(self).item_menu_id_bag(),
            old(self).wf() ==> final(self).wf(),
    {
        self.addons_by_menu_id.insert(
            row.menu_id,
            GossipMenuAddonLikeCpp { friendship_faction_id: row.friendship_faction_id },
        );
    }

    /// The menus of a menu id, in the order they were added.
    pub fn menus_for_id(&self, menu_id: u32) -> (r: Option<&[GossipMenu<R>]>)
        ensures
            r matches Some(s) ==> self.menus().contains_key(menu_id) && s@ == self.menus()[menu_id],
            r is None ==> !self.menus().contains_key(menu_id),
    {
        match self.menus_by_id.get(&menu_id) {
            Some(v) => Some(v.as_slice()),
            None => None,
        }
    }

    /// The options of a menu id, in the order they were added.
    pub fn menu_items_for_id(&self, menu_id: u32) -> (r: Option<&[GossipMenuItem<R>]>)
        ensures
            r matches Some(s) ==> self.items().contains_key(menu_id) && s@ == self.items()[menu_id],
            r is None ==> !self.items().contains_key(menu_id),
    {
        match self.items_by_menu_id.get(&menu_id) {
            Some(v) => Some(v.as_slice()),
            None => None,
        }
    }

    /// The localized texts of a (menu, option) pair.
    pub fn menu_item_locale_like_cpp(&self, menu_id: u32, option_id: u32) -> (r: Option<
        &GossipMenuItemsLocaleLikeCpp,
    >)
        ensures
            r == (if self.locales().contains_key(option_key(menu_id, option_id)) {
                Some(&self.locales()[option_key(menu_id, option_id)])
            } else {
                None
            }),
    {
        self.locales_by_menu_option.get(&option_key_of(menu_id, option_id))
    }

    /// The addon of a menu.
    pub fn menu_addon_like_cpp(&self, menu_id: u32) -> (r: Option<&GossipMenuAddonLikeCpp>)
        ensures
            r == (if self.addons().contains_key(menu_id) {
                Some(&self.addons()[menu_id])
            } else {
                None
            }),
    {
        self.addons_by_menu_id.get(&menu_id)
    }
}

impl<R> Default for GossipStore<R> {
    fn default() -> (s: Self)
        ensures
            s.wf(),
            s.menus().is_empty(),
            s.items().is_empty(),
            s.locales().is_empty(),
            s.addons().is_empty(),
    {
        Self::new()
    }
}

/// Distinct locales have distinct slots, and a locale is read back from its
/// name.
pub proof fn lemma_locale_slots_distinct(a: Locale, b: Locale)
    ensures
        locale_slot(a) < 12,
        locale_slot(a) == locale_slot(b) ==> a == b,
{
}

} // verus!
