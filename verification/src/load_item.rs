//! The item table: which items can be bought, and their ids by name.
use crate::fixed::Fixed;
use vstd::prelude::*;

verus! {

/// What an item adds to each statistic, where it adds anything.
#[derive(Clone, Copy, Debug)]
pub struct ItemStatChanges {
    pub armor: Option<Fixed>,
    pub crit_chance: Option<Fixed>,
    pub health: Option<Fixed>,
    pub health_regen: Option<Fixed>,
    pub ability_power: Option<Fixed>,
    pub flat_movement_speed: Option<Fixed>,
    pub mana: Option<Fixed>,
    pub attack_damage: Option<Fixed>,
    pub magic_resist: Option<Fixed>,
    pub bonus_attack_speed: Option<Fixed>,
    pub life_steal: Option<Fixed>,
    pub percent_movement_speed: Option<Fixed>,
}

/// One item of the table: its id, its name, whether it can be bought, and
/// whether it is enabled on the main map.
#[derive(Debug)]
pub struct ItemEntry {
    pub id: String,
    pub name: String,
    pub purchasable: bool,
    pub enabled: bool,
}

impl ItemEntry {
    /// The item can be bought on the main map.
    pub open spec fn offered(&self) -> bool {
        self.purchasable && self.enabled
    }
}

/// The first `n` entries without those that are not offered, order kept.
pub open spec fn offered_entries(entries: Seq<ItemEntry>, n: nat) -> Seq<ItemEntry>
    decreases n,
{
    if n == 0 {
        Seq::empty()
    } else {
        let before = offered_entries(entries, (n - 1) as nat);
        if entries[n - 1].offered() {
            before.push(entries[n - 1])
        } else {
            before
        }
    }
}

/// Some pair of `pairs` is for `name`.
pub open spec fn has_name(pairs: Seq<(Seq<char>, Seq<char>)>, name: Seq<char>) -> bool {
    exists|i: int| 0 <= i < pairs.len() && (#[trigger] pairs[i]).0 == name
}

/// Name and id of the offered items among the first `n` entries, one pair
/// for each name: that of the first entry with the name.
pub open spec fn ids_by_name(entries: Seq<ItemEntry>, n: nat) -> Seq<(Seq<char>, Seq<char>)>
    decreases n,
{
    if n == 0 {
        Seq::empty()
    } else {
        let before = ids_by_name(entries, (n - 1) as nat);
        let entry = entries[n - 1];
        if entry.offered() && !has_name(before, entry.name@) {
            before.push((entry.name@, entry.id@))
        } else {
            before
        }
    }
}

/// The pairs of strings as plain sequences of characters.
pub open spec fn pairs_view(pairs: Seq<(String, String)>) -> Seq<(Seq<char>, Seq<char>)> {
    Seq::new(pairs.len(), |i: int| (pairs[i].0@, pairs[i].1@))
}

/// Keeps the items that can be bought on the main map, in their order.
pub fn load_items(entries: &Vec<ItemEntry>) -> (r: Vec<ItemEntry>)
    ensures
        r@ == offered_entries(entries@, entries@.len()),
{
    let mut filtered_items: Vec<ItemEntry> = Vec::new();
    let mut i: usize = 0;
    while i < entries.len()
        invariant
            i <= entries.len(),
            filtered_items@ == offered_entries(entries@, i as nat),
        decreases entries.len() - i,
    {
        let entry = &entries[i];
        if entry.purchasable && entry.enabled {
            filtered_items.push(
                ItemEntry {
                    id: entry.id.clone(),
                    name: entry.name.clone(),
                    purchasable: entry.purchasable,
                    enabled: entry.enabled,
                },
            );
        }
        i += 1;
    }
    filtered_items
}

/// Whether some pair of `pairs` is for `name`.
fn contains_name(pairs: &Vec<(String, String)>, name: &String) -> (r: bool)
    ensures
        r == has_name(pairs_view(pairs@), name@),
{
    let mut i: usize = 0;
    while i < pairs.len()
        invariant
            i <= pairs.len(),
            forall|j: int| 0 <= j < i ==> (#[trigger] pairs_view(pairs@)[j]).0 != name@,
        decreases pairs.len() - i,
    {
        if pairs[i].0 == *name {
            assert(pairs_view(pairs@)[i as int].0 == name@);
            return true;
        }
        i += 1;
    }
    false
}

/// Maps the name of each item that can be bought on the main map to its
/// id. Where several items share a name, the first of them gives the id.
/// The pairs stand in the order in which the names first occur.
pub fn name_to_id_map(entries: &Vec<ItemEntry>) -> (r: Vec<(String, String)>)
    ensures
        pairs_view(r@) == ids_by_name(entries@, entries@.len()),
{
    let mut output_map: Vec<(String, String)> = Vec::new();
    let mut i: usize = 0;
    while i < entries.len()
        invariant
            i <= entries.len(),
            pairs_view(output_map@) == ids_by_name(entries@, i as nat),
        decreases entries.len() - i,
    {
        let entry = &entries[i];
        if entry.purchasable && entry.enabled && !contains_name(&output_map, &entry.name) {
            let ghost before = pairs_view(output_map@);
            output_map.push((entry.name.clone(), entry.id.clone()));
            assert(pairs_view(output_map@) =~= before.push((entry.name@, entry.id@)));
        }
        i += 1;
    }
    output_map
}

} // verus!
