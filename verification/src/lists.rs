//! Keeping the loaded lists in step with the server: dropping a deleted
//! item or library, and which library folder and playlist stay selected.

use vstd::prelude::*;

use crate::text::opt_text;
use crate::jellyfin::models::{BaseItemDto, VirtualFolderInfo};
use crate::text::str_eq;

verus! {

/// `item` has the id `id`.
pub open spec fn item_has_id(item: BaseItemDto, id: Seq<char>) -> bool {
    item.id matches Some(i) && i@ == id
}

/// The items of `s` without those whose id is `id`, in order.
pub open spec fn without_id(s: Seq<BaseItemDto>, id: Seq<char>) -> Seq<BaseItemDto>
    decreases s.len(),
{
    if s.len() == 0 {
        s
    } else if item_has_id(s.last(), id) {
        without_id(s.drop_last(), id)
    } else {
        without_id(s.drop_last(), id).push(s.last())
    }
}

/// The folder `f` is named `name`.
pub open spec fn folder_named(f: VirtualFolderInfo, name: Seq<char>) -> bool {
    f.name matches Some(n) && n@ == name
}

/// The folders of `s` without those named `name`, in order.
pub open spec fn without_name(s: Seq<VirtualFolderInfo>, name: Seq<char>) -> Seq<VirtualFolderInfo>
    decreases s.len(),
{
    if s.len() == 0 {
        s
    } else if folder_named(s.last(), name) {
        without_name(s.drop_last(), name)
    } else {
        without_name(s.drop_last(), name).push(s.last())
    }
}

fn has_id_exec(item: &BaseItemDto, id: &str) -> (b: bool)
    ensures
        b == item_has_id(*item, id@),
{
    match &item.id {
        Some(i) => str_eq(i.as_str(), id),
        None => false,
    }
}

fn named_exec(f: &VirtualFolderInfo, name: &str) -> (b: bool)
    ensures
        b == folder_named(*f, name@),
{
    match &f.name {
        Some(n) => str_eq(n.as_str(), name),
        None => false,
    }
}

proof fn without_id_split(s: Seq<BaseItemDto>, k: int, id: Seq<char>)
    requires
        0 <= k < s.len(),
    ensures
        without_id(s.take(k + 1), id) == if item_has_id(s[k], id) {
            without_id(s.take(k), id)
        } else {
            without_id(s.take(k), id).push(s[k])
        },
{
    assert(s.take(k + 1).drop_last() =~= s.take(k));
}

proof fn without_name_split(s: Seq<VirtualFolderInfo>, k: int, name: Seq<char>)
    requires
        0 <= k < s.len(),
    ensures
        without_name(s.take(k + 1), name) == if folder_named(s[k], name) {
            without_name(s.take(k), name)
        } else {
            without_name(s.take(k), name).push(s[k])
        },
{
    assert(s.take(k + 1).drop_last() =~= s.take(k));
}

/// Drops every item with the id `id` from `items`, keeping the others in
/// order.
pub fn remove_items_with_id(items: &mut Vec<BaseItemDto>, id: &str)
    ensures
        final(items)@ == without_id(old(items)@, id@),
{
    let ghost orig = items@;
    let mut i: usize = 0;
    let ghost mut k: int = 0;
    assert(orig.take(0) =~= Seq::<BaseItemDto>::empty());
    assert(items@.skip(0) =~= orig.skip(0));
    while i < items.len()
        invariant
            0 <= k <= orig.len(),
            i <= items.len(),
            items@.take(i as int) == without_id(orig.take(k), id@),
            items@.skip(i as int) == orig.skip(k),
            items@.len() - i == orig.len() - k,
        decreases items.len() - i,
    {
        proof {
            assert(items@[i as int] == orig[k]) by {
                assert(items@.skip(i as int)[0] == orig.skip(k)[0]);
            }
            without_id_split(orig, k, id@);
        }
        if has_id_exec(&items[i], id) {
            let ghost before = items@;
            items.remove(i);
            proof {
                assert(items@.take(i as int) =~= before.take(i as int));
                assert(items@.skip(i as int) =~= before.skip(i as int).skip(1));
                assert(orig.skip(k + 1) =~= orig.skip(k).skip(1));
            }
        } else {
            proof {
                assert(items@.take(i + 1) =~= items@.take(i as int).push(items@[i as int]));
                assert(items@.skip(i + 1) =~= items@.skip(i as int).skip(1));
                assert(orig.skip(k + 1) =~= orig.skip(k).skip(1));
            }
            i = i + 1;
        }
        proof {
            k = k + 1;
        }
    }
    proof {
        assert(orig.skip(k).len() == 0);
        assert(k == orig.len());
        assert(orig.take(k) =~= orig);
        assert(items@.take(i as int) =~= items@);
    }
}

/// Drops every folder named `name` from `folders`, keeping the others in
/// order.
pub fn remove_folders_named(folders: &mut Vec<VirtualFolderInfo>, name: &str)
    ensures
        final(folders)@ == without_name(old(folders)@, name@),
{
    let ghost orig = folders@;
    let mut i: usize = 0;
    let ghost mut k: int = 0;
    assert(orig.take(0) =~= Seq::<VirtualFolderInfo>::empty());
    assert(folders@.skip(0) =~= orig.skip(0));
    while i < folders.len()
        invariant
            0 <= k <= orig.len(),
            i <= folders.len(),
            folders@.take(i as int) == without_name(orig.take(k), name@),
            folders@.skip(i as int) == orig.skip(k),
            folders@.len() - i == orig.len() - k,
        decreases folders.len() - i,
    {
        proof {
            assert(folders@[i as int] == orig[k]) by {
                assert(folders@.skip(i as int)[0] == orig.skip(k)[0]);
            }
            without_name_split(orig, k, name@);
        }
        if named_exec(&folders[i], name) {
            let ghost before = folders@;
            folders.remove(i);
            proof {
                assert(folders@.take(i as int) =~= before.take(i as int));
                assert(folders@.skip(i as int) =~= before.skip(i as int).skip(1));
                assert(orig.skip(k + 1) =~= orig.skip(k).skip(1));
            }
        } else {
            proof {
                assert(folders@.take(i + 1) =~= folders@.take(i as int).push(folders@[i as int]));
                assert(folders@.skip(i + 1) =~= folders@.skip(i as int).skip(1));
                assert(orig.skip(k + 1) =~= orig.skip(k).skip(1));
            }
            i = i + 1;
        }
        proof {
            k = k + 1;
        }
    }
    proof {
        assert(orig.skip(k).len() == 0);
        assert(k == orig.len());
        assert(orig.take(k) =~= orig);
        assert(folders@.take(i as int) =~= folders@);
    }
}

/// After removal no item with the id is left, and every item left was
/// there before.
pub proof fn removal_removes(s: Seq<BaseItemDto>, id: Seq<char>)
    ensures
        forall|i: int| 0 <= i < without_id(s, id).len() ==> !item_has_id(#[trigger] without_id(s, id)[i], id),
        forall|i: int| 0 <= i < without_id(s, id).len() ==> s.contains(#[trigger] without_id(s, id)[i]),
        without_id(s, id).len() <= s.len(),
    decreases s.len(),
{
    if s.len() > 0 {
        removal_removes(s.drop_last(), id);
        let r = without_id(s.drop_last(), id);
        assert forall|i: int| 0 <= i < r.len() implies s.contains(#[trigger] r[i]) by {
            assert(s.drop_last().contains(r[i]));
            let k = choose_position(s.drop_last(), r[i]);
            assert(s[k] == s.drop_last()[k]);
        }
        assert(s[s.len() - 1] == s.last());
    }
}

proof fn choose_position(s: Seq<BaseItemDto>, x: BaseItemDto) -> (k: int)
    requires
        s.contains(x),
    ensures
        0 <= k < s.len(),
        s[k] == x,
    decreases s.len(),
{
    if s[0] == x {
        0
    } else {
        assert(s.drop_first().contains(x)) by {
            assert forall|j: int| 0 <= j < s.len() && s[j] == x implies j > 0 && s.drop_first()[j - 1] == x by {}
        }
        choose_position(s.drop_first(), x) + 1
    }
}

/// The first folder with the given name.
pub open spec fn folder_name_listed(s: Seq<VirtualFolderInfo>, name: Seq<char>) -> bool {
    exists|k: int| 0 <= k < s.len() && folder_named(#[trigger] s[k], name)
}

/// The name of the first folder, if it has one.
pub open spec fn first_folder_name(s: Seq<VirtualFolderInfo>) -> Option<Seq<char>> {
    if s.len() == 0 {
        None
    } else {
        opt_text(s[0].name)
    }
}

/// The folder that stays selected when the folder list is replaced: the one
/// selected, if the list still has it, else the first one.
pub open spec fn folder_selection_spec(s: Seq<VirtualFolderInfo>, selected: Option<Seq<char>>) -> Option<
    Seq<char>,
> {
    match selected {
        Some(name) => if folder_name_listed(s, name) {
            Some(name)
        } else {
            first_folder_name(s)
        },
        None => first_folder_name(s),
    }
}

fn first_name(folders: &Vec<VirtualFolderInfo>) -> (r: Option<String>)
    ensures
        opt_text(r) == first_folder_name(folders@),
{
    if folders.len() == 0 {
        None
    } else {
        match &folders[0].name {
            Some(n) => Some(n.clone()),
            None => None,
        }
    }
}

/// The folder selected after the folder list was loaded.
pub fn folder_selection_after_load(folders: &Vec<VirtualFolderInfo>, selected: &Option<String>) -> (r:
    Option<String>)
    ensures
        opt_text(r) == folder_selection_spec(folders@, opt_text(*selected)),
{
    if let Some(name) = selected {
        let mut i: usize = 0;
        while i < folders.len()
            invariant
                i <= folders.len(),
                opt_text(*selected) == Some(name@),
                forall|k: int| 0 <= k < i ==> !folder_named(#[trigger] folders@[k], name@),
            decreases folders.len() - i,
        {
            if named_exec(&folders[i], name.as_str()) {
                assert(folder_named(folders@[i as int], name@));
                return Some(name.clone());
            }
            i = i + 1;
        }
    }
    first_name(folders)
}

/// The folder selected after the library `deleted` was removed from the
/// list: the first folder where the deleted one was selected, else the
/// selection as it was.
pub fn folder_selection_after_delete(
    folders: &Vec<VirtualFolderInfo>,
    selected: Option<String>,
    deleted: &str,
) -> (r: Option<String>)
    ensures
        opt_text(r) == (if opt_text(selected) == Some(deleted@) {
            first_folder_name(folders@)
        } else {
            opt_text(selected)
        }),
{
    let was_deleted = match &selected {
        Some(s) => str_eq(s.as_str(), deleted),
        None => false,
    };
    if was_deleted {
        first_name(folders)
    } else {
        selected
    }
}

/// The playlist selected after the playlists were loaded, and whether its
/// items are to be loaded: with none selected, the first playlist (if it has
/// an id) is selected and loaded; a selection is kept as it is.
pub fn playlist_selection_after_load(playlists: &Vec<BaseItemDto>, selected: Option<String>) -> (r: (
    Option<String>,
    bool,
))
    ensures
        selected is Some ==> opt_text(r.0) == opt_text(selected) && !r.1,
        selected is None ==> opt_text(r.0) == (if playlists@.len() == 0 {
            None
        } else {
            opt_text(playlists@[0].id)
        }) && r.1 == r.0 is Some,
{
    if selected.is_some() {
        return (selected, false);
    }
    if playlists.len() == 0 {
        return (None, false);
    }
    match &playlists[0].id {
        Some(id) => (Some(id.clone()), true),
        None => (None, false),
    }
}

} // verus!
