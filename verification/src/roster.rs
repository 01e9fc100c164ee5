//! The profile list: labelled, keyed by object path, and sorted for the menu.

use crate::dbus::{profiles_view, Profile, ProfileView};
use crate::profile::{display_name, display_text};
use crate::text::{
    law_the_first_difference_decides, lemma_no_later_total, lemma_no_later_transitive, no_later,
    sorts_no_later,
};
use vstd::hash_map::StringHashMap;
use vstd::prelude::*;
use vstd::string::*;

verus! {

/// A profile as openvpn3 lists it. The name is blank where it could not be read.
#[derive(Debug, Clone, PartialEq, Eq)]
pub struct ListedProfile {
    pub config_path: String,
    pub raw_name: String,
}

/// A `ListedProfile` with its texts as sequences of characters.
pub struct ListedProfileView {
    pub config_path: Seq<char>,
    pub raw_name: Seq<char>,
}

impl View for ListedProfile {
    type V = ListedProfileView;

    open spec fn view(&self) -> ListedProfileView {
        ListedProfileView { config_path: self.config_path@, raw_name: self.raw_name@ }
    }
}

/// Listed profiles as their views.
pub open spec fn listed_profiles_view(items: Seq<ListedProfile>) -> Seq<ListedProfileView> {
    items.map_values(|item: ListedProfile| item@)
}

impl ListedProfileView {
    /// The row that this profile becomes.
    pub open spec fn labelled(self) -> ProfileView {
        ProfileView {
            config_path: self.config_path,
            name: display_text(self.raw_name, self.config_path),
        }
    }
}

/// The rows of a listing, in the order of the listing.
pub open spec fn labelled_all(listed: Seq<ListedProfileView>) -> Seq<ProfileView> {
    listed.map_values(|item: ListedProfileView| item.labelled())
}

/// The label of each profile, by object path.
///
/// Profiles are keyed by object path, never by name: openvpn3 permits duplicate
/// names and the menu has to stay unambiguous.
pub open spec fn names_by_path(listed: Seq<ListedProfileView>) -> Map<Seq<char>, Seq<char>>
    decreases listed.len(),
{
    if listed.len() == 0 {
        Map::empty()
    } else {
        names_by_path(listed.drop_last()).insert(
            listed.last().config_path,
            listed.last().labelled().name,
        )
    }
}

/// `rows` with `row` put behind the last one that sorts no later than it.
pub open spec fn inserted(rows: Seq<ProfileView>, row: ProfileView) -> Seq<ProfileView>
    decreases rows.len(),
{
    if rows.len() > 0 && !no_later(rows.last().name, row.name) {
        inserted(rows.drop_last(), row).push(rows.last())
    } else {
        rows.push(row)
    }
}

/// `rows` sorted by name. Rows with the same name keep their order.
pub open spec fn sorted_by_name(rows: Seq<ProfileView>) -> Seq<ProfileView>
    decreases rows.len(),
{
    if rows.len() == 0 {
        Seq::empty()
    } else {
        inserted(sorted_by_name(rows.drop_last()), rows.last())
    }
}

/// No row's name sorts later than that of a row below it.
pub open spec fn in_name_order(rows: Seq<ProfileView>) -> bool {
    forall|i: int, j: int|
        0 <= i < j < rows.len() ==> no_later((#[trigger] rows[i]).name, (#[trigger] rows[j]).name)
}

/// Labels as their characters.
pub open spec fn names_view(names: Map<Seq<char>, String>) -> Map<Seq<char>, Seq<char>> {
    names.map_values(|name: String| name@)
}

/// Put a row where it belongs in sorted rows.
fn insert_row(rows: &mut Vec<Profile>, row: Profile)
    ensures
        profiles_view(final(rows)@) == inserted(profiles_view(old(rows)@), row@),
{
    let ghost before = profiles_view(rows@);
    let mut at: usize = rows.len();
    assert(before.take(at as int) == before);
    assert(before.skip(at as int) == Seq::<ProfileView>::empty());
    assert(inserted(before, row@) == inserted(before.take(at as int), row@) + before.skip(
        at as int,
    ));
    while at > 0 && !sorts_no_later(rows[at - 1].name.as_str(), row.name.as_str())
        invariant
            at <= rows.len(),
            before == profiles_view(rows@),
            inserted(before, row@) == inserted(before.take(at as int), row@) + before.skip(
                at as int,
            ),
        decreases at,
    {
        proof {
            let head = before.take(at as int);
            assert(head.drop_last() == before.take(at - 1));
            assert(inserted(head, row@) == inserted(before.take(at - 1), row@).push(
                before[at - 1],
            ));
            assert(inserted(before.take(at - 1), row@).push(before[at - 1]) + before.skip(
                at as int,
            ) =~= inserted(before.take(at - 1), row@) + before.skip(at - 1));
        }
        at = at - 1;
    }
    assert(inserted(before.take(at as int), row@) == before.take(at as int).push(row@));
    let ghost view = row@;
    rows.insert(at, row);
    assert(profiles_view(rows@) =~= before.take(at as int).push(view) + before.skip(at as int));
}

/// Label the listed profiles and sort them for the menu.
pub fn arrange(listed: Vec<ListedProfile>) -> (arranged: (Vec<Profile>, StringHashMap<String>))
    ensures
        profiles_view(arranged.0@) == sorted_by_name(
            labelled_all(listed_profiles_view(listed@)),
        ),
        names_view(arranged.1@) == names_by_path(listed_profiles_view(listed@)),
{
    let ghost views = listed_profiles_view(listed@);
    let mut rows: Vec<Profile> = Vec::new();
    let mut names: StringHashMap<String> = StringHashMap::new();
    let mut i: usize = 0;
    assert(profiles_view(rows@) =~= sorted_by_name(labelled_all(views.take(0))));
    assert(names_view(names@) =~= names_by_path(views.take(0)));
    while i < listed.len()
        invariant
            i <= listed.len(),
            views == listed_profiles_view(listed@),
            profiles_view(rows@) == sorted_by_name(labelled_all(views.take(i as int))),
            names_view(names@) == names_by_path(views.take(i as int)),
        decreases listed.len() - i,
    {
        let item = &listed[i];
        let name = display_name(item.raw_name.as_str(), item.config_path.as_str());
        let ghost known = names@;
        names.insert(item.config_path.clone(), name.clone());
        insert_row(&mut rows, Profile { config_path: item.config_path.clone(), name });
        proof {
            let next = views.take(i + 1);
            assert(next.drop_last() == views.take(i as int));
            assert(next.last() == views[i as int]);
            assert(labelled_all(next).drop_last() =~= labelled_all(views.take(i as int)));
            assert(names_view(names@) =~= names_view(known).insert(
                item.config_path@,
                views[i as int].labelled().name,
            ));
        }
        i = i + 1;
    }
    assert(views.take(listed.len() as int) == views);
    (rows, names)
}

/// Sorting in a row keeps the others and their order.
proof fn lemma_inserted(rows: Seq<ProfileView>, row: ProfileView)
    requires
        in_name_order(rows),
    ensures
        in_name_order(inserted(rows, row)),
        inserted(rows, row).to_multiset() == rows.to_multiset().insert(row),
        inserted(rows, row).len() == rows.len() + 1,
    decreases rows.len(),
{
    broadcast use vstd::seq_lib::group_to_multiset_ensures;

    if rows.len() > 0 && !no_later(rows.last().name, row.name) {
        let front = rows.drop_last();
        let last = rows.last();
        lemma_inserted(front, row);
        lemma_no_later_total(last.name, row.name);
        let inner = inserted(front, row);
        let outer = inserted(rows, row);
        assert forall|i: int, j: int| 0 <= i < j < outer.len() implies no_later(
            (#[trigger] outer[i]).name,
            (#[trigger] outer[j]).name,
        ) by {
            if j < inner.len() {
                assert(outer[i] == inner[i] && outer[j] == inner[j]);
            } else {
                assert(outer[j] == last);
                assert(inner.to_multiset().count(inner[i]) > 0);
                if inner[i] != row {
                    assert(front.to_multiset().count(inner[i]) > 0);
                    assert(front.contains(inner[i]));
                    let k = choose|k: int| 0 <= k < front.len() && front[k] == inner[i];
                    assert(rows[k] == inner[i]);
                    assert(no_later(rows[k].name, rows[rows.len() - 1].name));
                }
            }
        }
        assert(rows =~= front.push(last));
        assert(outer.to_multiset() =~= rows.to_multiset().insert(row));
    } else {
        let outer = rows.push(row);
        assert forall|i: int, j: int| 0 <= i < j < outer.len() implies no_later(
            (#[trigger] outer[i]).name,
            (#[trigger] outer[j]).name,
        ) by {
            if j < rows.len() {
                assert(outer[i] == rows[i] && outer[j] == rows[j]);
            } else if i < rows.len() - 1 {
                assert(no_later(rows[i].name, rows[rows.len() - 1].name));
                lemma_no_later_transitive(rows[i].name, rows.last().name, row.name);
            }
        }
    }
}

/// The menu lists exactly the profiles there are, in the order of their names.
pub proof fn law_the_menu_is_sorted_and_complete(rows: Seq<ProfileView>)
    ensures
        in_name_order(sorted_by_name(rows)),
        sorted_by_name(rows).to_multiset() == rows.to_multiset(),
        sorted_by_name(rows).len() == rows.len(),
    decreases rows.len(),
{
    broadcast use vstd::seq_lib::group_to_multiset_ensures;

    if rows.len() > 0 {
        law_the_menu_is_sorted_and_complete(rows.drop_last());
        lemma_inserted(sorted_by_name(rows.drop_last()), rows.last());
        assert(rows =~= rows.drop_last().push(rows.last()));
    } else {
        assert(rows =~= Seq::<ProfileView>::empty());
    }
}

/// The rows that bear this name.
pub open spec fn named(rows: Seq<ProfileView>, name: Seq<char>) -> Seq<ProfileView>
    decreases rows.len(),
{
    if rows.len() == 0 {
        Seq::empty()
    } else if rows.last().name == name {
        named(rows.drop_last(), name).push(rows.last())
    } else {
        named(rows.drop_last(), name)
    }
}

/// Sorting in a row puts it behind every row of the same name.
proof fn lemma_inserted_behind(rows: Seq<ProfileView>, row: ProfileView, name: Seq<char>)
    ensures
        named(inserted(rows, row), name) == (if row.name == name {
            named(rows, name).push(row)
        } else {
            named(rows, name)
        }),
    decreases rows.len(),
{
    if rows.len() > 0 && !no_later(rows.last().name, row.name) {
        let front = rows.drop_last();
        lemma_inserted_behind(front, row, name);
        lemma_no_later_reflexive(row.name);
        assert(inserted(rows, row).drop_last() =~= inserted(front, row));
    } else {
        assert(rows.push(row).drop_last() =~= rows);
    }
}

/// A text sorts no later than itself.
proof fn lemma_no_later_reflexive(name: Seq<char>)
    ensures
        no_later(name, name),
    decreases name.len(),
{
    if name.len() > 0 {
        lemma_no_later_reflexive(name.drop_first());
    }
}

/// Profiles that share a name stay in the order in which openvpn3 lists them.
pub proof fn law_namesakes_keep_their_order(rows: Seq<ProfileView>, name: Seq<char>)
    ensures
        named(sorted_by_name(rows), name) == named(rows, name),
    decreases rows.len(),
{
    if rows.len() > 0 {
        law_namesakes_keep_their_order(rows.drop_last(), name);
        lemma_inserted_behind(sorted_by_name(rows.drop_last()), rows.last(), name);
    }
}

/// Every listed profile can be looked up by its object path, and nothing else
/// can.
pub proof fn law_names_are_keyed_by_path(listed: Seq<ListedProfileView>, path: Seq<char>)
    ensures
        names_by_path(listed).dom().contains(path) <==> exists|i: int|
            0 <= i < listed.len() && (#[trigger] listed[i]).config_path == path,
    decreases listed.len(),
{
    if listed.len() > 0 {
        let front = listed.drop_last();
        law_names_are_keyed_by_path(front, path);
        if names_by_path(listed).dom().contains(path) {
            if listed.last().config_path == path {
                assert(listed[listed.len() - 1].config_path == path);
            } else {
                let i = choose|i: int|
                    0 <= i < front.len() && (#[trigger] front[i]).config_path == path;
                assert(listed[i].config_path == path);
            }
        }
        if exists|i: int| 0 <= i < listed.len() && (#[trigger] listed[i]).config_path == path {
            let i = choose|i: int|
                0 <= i < listed.len() && (#[trigger] listed[i]).config_path == path;
            if i < front.len() {
                assert(front[i].config_path == path);
            }
        }
    }
}

/// Every row is the profile that it names: it keeps its object path and is labelled
/// from that profile's own name and path.
pub proof fn law_rows_keep_their_profile(listed: Seq<ListedProfileView>, i: int)
    requires
        0 <= i < listed.len(),
    ensures
        labelled_all(listed).len() == listed.len(),
        labelled_all(listed)[i].config_path == listed[i].config_path,
        labelled_all(listed)[i].name == display_text(listed[i].raw_name, listed[i].config_path),
{
}

/// A profile is looked up under the label of its own row. Of two entries with one path
/// the later holds.
pub proof fn law_names_are_those_of_the_rows(listed: Seq<ListedProfileView>, i: int)
    requires
        0 <= i < listed.len(),
        forall|k: int| i < k < listed.len() ==> (#[trigger] listed[k]).config_path
            != listed[i].config_path,
    ensures
        names_by_path(listed).dom().contains(listed[i].config_path),
        names_by_path(listed)[listed[i].config_path] == display_text(
            listed[i].raw_name,
            listed[i].config_path,
        ),
    decreases listed.len(),
{
    if i < listed.len() - 1 {
        let front = listed.drop_last();
        assert(listed[listed.len() - 1].config_path != listed[i].config_path);
        assert forall|k: int| i < k < front.len() implies (#[trigger] front[k]).config_path
            != front[i].config_path by {
            assert(listed[k].config_path != listed[i].config_path);
        }
        law_names_are_those_of_the_rows(front, i);
    }
}

/// Of two names in the menu the one that differs first by the smaller character stands
/// first, and so does one that the other begins with.
pub proof fn law_names_ascend_in_the_menu(rows: Seq<ProfileView>, i: int, j: int, k: int)
    requires
        0 <= i < j < rows.len(),
        0 <= k <= sorted_by_name(rows)[i].name.len(),
        k <= sorted_by_name(rows)[j].name.len(),
        forall|n: int|
            0 <= n < k ==> sorted_by_name(rows)[i].name[n] == sorted_by_name(rows)[j].name[n],
    ensures
        ({
            let first = sorted_by_name(rows)[i].name;
            let second = sorted_by_name(rows)[j].name;
            &&& k == second.len() ==> k == first.len()
            &&& k < first.len() && k < second.len() ==> first[k] <= second[k]
        }),
{
    law_the_menu_is_sorted_and_complete(rows);
    let sorted = sorted_by_name(rows);
    law_the_first_difference_decides(sorted[i].name, sorted[j].name, k);
}

} // verus!
