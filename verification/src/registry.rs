//! The registry of time zones: which identifiers are supported, and in what
//! order they are listed.
//!
//! The four identifiers of the menu's control entries are reserved: no
//! registry lists one of them as a zone.

use vstd::prelude::*;
use crate::menu::{control_of, control_with_id};
use crate::text::texts;

verus! {

/// The name under which the zone database lists its entry number `index`, or
/// `None` where its table has no entry of that number.
pub uninterp spec fn zone_name_at(index: int) -> Option<Seq<char>>;

/// Whether `ids` is the zone database's table: every entry, in table order,
/// and nothing else.
pub open spec fn is_zone_table(ids: Seq<Seq<char>>) -> bool {
    forall|i: int|
        #[trigger] zone_name_at(i) == (if 0 <= i < ids.len() {
            Some(ids[i])
        } else {
            None
        })
}

/// The selection as far as the registry knows it: an identifier that is not in
/// the registry counts as no selection.
pub open spec fn valid_selection(registry: Seq<Seq<char>>, selected: Option<Seq<char>>) -> Option<
    Seq<char>,
> {
    match selected {
        Some(id) => if registry.contains(id) {
            Some(id)
        } else {
            None
        },
        None => None,
    }
}

/// Whether an identifier may name a zone: the identifiers of the control
/// entries may not.
pub open spec fn is_zone_id(id: Seq<char>) -> bool {
    control_with_id(id) is None
}

/// Picks the identifiers that may name zones.
pub open spec fn zone_id_filter() -> spec_fn(Seq<char>) -> bool {
    |id: Seq<char>| is_zone_id(id)
}

/// The identifiers of a list that may name zones, in the order of the list.
pub open spec fn zone_ids(ids: Seq<Seq<char>>) -> Seq<Seq<char>> {
    ids.filter(zone_id_filter())
}

/// Whether a list of identifiers is free of the reserved ones. Every
/// registry is.
pub open spec fn lists_no_control(registry: Seq<Seq<char>>) -> bool {
    forall|i: int| 0 <= i < registry.len() ==> is_zone_id(#[trigger] registry[i])
}

/// One more identifier of a list adds itself to the zone identifiers where it
/// may name a zone, and nothing where it may not.
proof fn zone_ids_step(ids: Seq<Seq<char>>, i: int)
    requires
        0 <= i < ids.len(),
    ensures
        zone_ids(ids.take(i + 1)) == (if is_zone_id(ids[i]) {
            zone_ids(ids.take(i)).push(ids[i])
        } else {
            zone_ids(ids.take(i))
        }),
{
    reveal(Seq::filter);
    assert(ids.take(i + 1).drop_last() =~= ids.take(i));
}

/// The zone identifiers of any list are free of the reserved ones.
pub proof fn zone_ids_list_no_control(ids: Seq<Seq<char>>)
    ensures
        lists_no_control(zone_ids(ids)),
    decreases ids.len(),
{
    reveal(Seq::filter);
    if ids.len() > 0 {
        zone_ids_list_no_control(ids.drop_last());
    }
}

/// Reads `chrono_tz::TZ_VARIANTS`, the array of every zone that the database
/// knows, and hands out each entry's `Tz::name`, in the array's order. The
/// contract only names the entries by their position; which names they are is
/// the database's business.
#[verifier::external_body]
fn zone_names() -> (names: Vec<String>)
    ensures
        forall|i: int|
            #[trigger] zone_name_at(i) == (if 0 <= i < names@.len() {
                Some(names@[i]@)
            } else {
                None
            }),
{
    chrono_tz::TZ_VARIANTS.iter().map(|zone| zone.name().to_string()).collect()
}

/// An ordered list of supported time zone identifiers, none of them
/// reserved.
pub struct Registry {
    ids: Vec<String>,
}

/// Copies the identifiers that may name zones, in order.
fn keep_zone_ids(ids: &Vec<String>) -> (kept: Vec<String>)
    ensures
        texts(kept@) == zone_ids(texts(ids@)),
{
    let mut kept: Vec<String> = Vec::new();
    let mut i: usize = 0;
    proof {
        reveal(Seq::filter);
        assert(texts(kept@) =~= zone_ids(texts(ids@).take(0)));
    }
    while i < ids.len()
        invariant
            i <= ids.len(),
            texts(kept@) =~= zone_ids(texts(ids@).take(i as int)),
        decreases ids.len() - i,
    {
        proof {
            zone_ids_step(texts(ids@), i as int);
        }
        if control_of(ids[i].as_str()).is_none() {
            let ghost before = kept@;
            kept.push(ids[i].clone());
            assert(texts(kept@) =~= texts(before).push(ids@[i as int]@));
        }
        i += 1;
    }
    assert(texts(ids@).take(ids@.len() as int) =~= texts(ids@));
    kept
}

impl View for Registry {
    type V = Seq<Seq<char>>;

    closed spec fn view(&self) -> Seq<Seq<char>> {
        texts(self.ids@)
    }
}

impl Registry {
    #[verifier::type_invariant]
    spec fn free_of_controls(self) -> bool {
        lists_no_control(self@)
    }

    /// The registry of the zone database: the zones of its table, in the
    /// table's order. Were a zone named like a control entry, it would be
    /// left out.
    pub fn builtin() -> (registry: Registry)
        ensures
            exists|table: Seq<Seq<char>>| #[trigger]
                is_zone_table(table) && registry@ == zone_ids(table),
            lists_no_control(registry@),
    {
        let names = zone_names();
        let kept = keep_zone_ids(&names);
        proof {
            zone_ids_list_no_control(texts(names@));
            assert(is_zone_table(texts(names@)));
        }
        Registry { ids: kept }
    }

    /// A registry of the given identifiers, in the given order. A reserved
    /// identifier among them is left out.
    pub fn from_ids(ids: Vec<String>) -> (registry: Registry)
        ensures
            registry@ == zone_ids(texts(ids@)),
            lists_no_control(registry@),
    {
        let kept = keep_zone_ids(&ids);
        proof {
            zone_ids_list_no_control(texts(ids@));
        }
        Registry { ids: kept }
    }

    /// Whether `id` is one of the registry's identifiers. A reserved
    /// identifier never is.
    pub fn is_valid(&self, id: &str) -> (valid: bool)
        ensures
            valid == self@.contains(id@),
            lists_no_control(self@),
    {
        proof {
            use_type_invariant(self);
        }
        let wanted = id.to_owned();
        let mut i: usize = 0;
        while i < self.ids.len()
            invariant
                i <= self.ids.len(),
                wanted@ == id@,
                lists_no_control(self@),
                forall|j: int| 0 <= j < i ==> self@[j] != id@,
            decreases self.ids.len() - i,
        {
            if self.ids[i] == wanted {
                assert(self@[i as int] == id@);
                return true;
            }
            i += 1;
        }
        false
    }

    /// Does nothing when run. It tells the caller's proof what holds of every
    /// registry: none of its identifiers is reserved.
    pub fn lists_zones_only(&self)
        ensures
            lists_no_control(self@),
    {
        proof {
            use_type_invariant(self);
        }
    }

    /// The number of identifiers.
    pub fn len(&self) -> (n: usize)
        ensures
            n == self@.len(),
    {
        self.ids.len()
    }

    /// The identifier at position `index`.
    pub fn id_at(&self, index: usize) -> (id: &str)
        requires
            index < self@.len(),
        ensures
            id@ == self@[index as int],
    {
        self.ids[index].as_str()
    }

    /// All identifiers, in registry order.
    pub fn all_ids(&self) -> (ids: Vec<String>)
        ensures
            texts(ids@) == self@,
    {
        let mut ids: Vec<String> = Vec::new();
        let mut i: usize = 0;
        while i < self.ids.len()
            invariant
                i <= self.ids.len(),
                ids@.len() == i,
                forall|j: int| 0 <= j < i ==> ids@[j]@ == self@[j],
            decreases self.ids.len() - i,
        {
            ids.push(self.ids[i].clone());
            i += 1;
        }
        assert(texts(ids@) =~= self@);
        ids
    }
}

} // verus!
