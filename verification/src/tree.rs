//! The decoded database hierarchy and its flattening.
//!
//! A decoded database is a tree of named groups; each group holds entries
//! and child groups, both in the order the decoder delivered them. The
//! projector walks the tree depth-first, entries of a group before its
//! children, and emits one display record per entry whose title carries
//! the slash-delimited navigation path from the root.

use vstd::assert_seqs_equal;
use vstd::prelude::*;
use vstd::string::StringExecFns;

verus! {

/// One credential entry as it appears inside a decoded group: each
/// attribute of interest kept optional, so that an absent attribute stays
/// distinguishable from one that is present but empty.
#[derive(Debug)]
pub struct EntryNode {
    pub title: Option<String>,
    pub username: Option<String>,
    pub password: Option<String>,
    pub url: Option<String>,
    pub notes: Option<String>,
}

/// One node of the decoded hierarchy: the group's name, the entries stored
/// directly in it, and its child groups, each sequence in decoder order.
#[derive(Debug)]
pub struct GroupNode {
    pub name: String,
    pub entries: Vec<EntryNode>,
    pub child_groups: Vec<GroupNode>,
}

/// The display record for one entry. `title` is the entry's own title
/// prefixed with the slash-delimited navigation path of every enclosing
/// group; the four other attributes are copied verbatim from the entry.
#[derive(Debug, PartialEq)]
pub struct KeePassEntry {
    pub title: String,
    pub username: Option<String>,
    pub password: Option<String>,
    pub url: Option<String>,
    pub notes: Option<String>,
}

/// The ghost shape of a [`KeePassEntry`].
pub ghost struct EntryRecordView {
    pub title: Seq<char>,
    pub username: Option<Seq<char>>,
    pub password: Option<Seq<char>>,
    pub url: Option<Seq<char>>,
    pub notes: Option<Seq<char>>,
}

/// The character sequence of an optional string, kept optional.
pub open spec fn opt_view(o: Option<String>) -> Option<Seq<char>> {
    match o {
        Some(s) => Some(s@),
        None => None,
    }
}

impl View for KeePassEntry {
    type V = EntryRecordView;

    open spec fn view(&self) -> EntryRecordView {
        EntryRecordView {
            title: self.title@,
            username: opt_view(self.username),
            password: opt_view(self.password),
            url: opt_view(self.url),
            notes: opt_view(self.notes),
        }
    }
}

/// The views of a sequence of records, element by element.
pub open spec fn views_of(s: Seq<KeePassEntry>) -> Seq<EntryRecordView> {
    s.map_values(|e: KeePassEntry| e@)
}

/// The navigation path of a group whose enclosing groups contribute
/// `prefix`: the prefix, a slash, then the group's name.
pub open spec fn nav_path(prefix: Seq<char>, name: Seq<char>) -> Seq<char> {
    prefix + seq!['/'] + name
}

/// An entry's own title; an absent title counts as the empty string.
pub open spec fn title_or_empty(t: Option<String>) -> Seq<char> {
    match t {
        Some(s) => s@,
        None => Seq::empty(),
    }
}

/// The record emitted for one entry of a group whose navigation path is
/// `navpath`: the title gains the path prefix, the other attributes are
/// copied unchanged.
pub open spec fn project_entry(navpath: Seq<char>, e: EntryNode) -> EntryRecordView {
    EntryRecordView {
        title: navpath + seq!['/'] + title_or_empty(e.title),
        username: opt_view(e.username),
        password: opt_view(e.password),
        url: opt_view(e.url),
        notes: opt_view(e.notes),
    }
}

/// The records of a group's own entries, in decoder order.
pub open spec fn entry_records(navpath: Seq<char>, es: Seq<EntryNode>) -> Seq<EntryRecordView> {
    Seq::new(es.len(), |i: int| project_entry(navpath, es[i]))
}

/// The depth-first flattening of a group under the accumulated prefix:
/// its navigation path is computed first, then its own entries' records,
/// then the flattening of each child group left to right.
pub open spec fn flatten_group(prefix: Seq<char>, g: GroupNode) -> Seq<EntryRecordView>
    decreases g, 0int,
{
    let navpath = nav_path(prefix, g.name@);
    entry_records(navpath, g.entries@) + flatten_children(navpath, g.child_groups, 0)
}

/// The concatenated flattenings of `children[i..]`, each under `navpath`.
pub open spec fn flatten_children(navpath: Seq<char>, children: Vec<GroupNode>, i: int) -> Seq<
    EntryRecordView,
>
    decreases children, children.len() - i,
{
    if 0 <= i < children.len() {
        flatten_group(navpath, children[i]) + flatten_children(navpath, children, i + 1)
    } else {
        Seq::empty()
    }
}

/// A group with no entries and no child groups contributes no records to
/// the flattened output, whatever its name and position in the tree.
pub proof fn lemma_empty_group_contributes_nothing(prefix: Seq<char>, g: GroupNode)
    requires
        g.entries@.len() == 0,
        g.child_groups@.len() == 0,
    ensures
        flatten_group(prefix, g) =~= Seq::<EntryRecordView>::empty(),
{
}

/// An entry that lacks an attribute is projected with that attribute still
/// absent: a missing URL is never turned into an error or an empty string,
/// and likewise for the username, password and notes.
pub proof fn lemma_absent_attributes_stay_absent(navpath: Seq<char>, e: EntryNode)
    ensures
        e.url is None <==> project_entry(navpath, e).url is None,
        e.username is None <==> project_entry(navpath, e).username is None,
        e.password is None <==> project_entry(navpath, e).password is None,
        e.notes is None <==> project_entry(navpath, e).notes is None,
{
}

/// A fresh copy of an optional string.
fn clone_opt(o: &Option<String>) -> (r: Option<String>)
    ensures
        r == *o,
{
    match o {
        Some(s) => Some(s.clone()),
        None => None,
    }
}

/// Walks a group depth-first and returns one record per entry it encloses,
/// in traversal order: the group's own entries first, then each child
/// group's records, children left to right. `rootnavpath` is the navigation
/// path accumulated by the enclosing groups (empty at the database root).
pub fn find_entries(rootnavpath: &str, group: &GroupNode) -> (r: Vec<KeePassEntry>)
    ensures
        views_of(r@) == flatten_group(rootnavpath@, *group),
    decreases *group,
{
    let mut navpath = String::from_str(rootnavpath);
    navpath.append("/");
    navpath.append(group.name.as_str());
    proof {
        reveal_strlit("/");
        assert(navpath@ =~= nav_path(rootnavpath@, group.name@));
    }
    let mut r: Vec<KeePassEntry> = Vec::new();
    let ne = group.entries.len();
    proof {
        assert(views_of(r@) =~= entry_records(navpath@, group.entries@.take(0)));
    }
    for j in 0..ne
        invariant
            ne == group.entries.len(),
            navpath@ == nav_path(rootnavpath@, group.name@),
            views_of(r@) == entry_records(navpath@, group.entries@.take(j as int)),
    {
        let ghost r_before = r@;
        let e = &group.entries[j];
        let mut title = String::from_str(navpath.as_str());
        title.append("/");
        match &e.title {
            Some(t) => title.append(t.as_str()),
            None => {},
        }
        proof {
            reveal_strlit("/");
            assert(title@ =~= navpath@ + seq!['/'] + title_or_empty(e.title));
        }
        r.push(
            KeePassEntry {
                title,
                username: clone_opt(&e.username),
                password: clone_opt(&e.password),
                url: clone_opt(&e.url),
                notes: clone_opt(&e.notes),
            },
        );
        proof {
            let es = group.entries@;
            let k = j as int;
            assert(views_of(r_before).len() == r_before.len());
            assert(r_before.len() == k);
            assert(r@[k]@ == project_entry(navpath@, es[k]));
            assert_seqs_equal!(views_of(r@) == entry_records(navpath@, es.take(k + 1)), i => {
                if i < k {
                    assert(r@[i] == r_before[i]);
                    assert(views_of(r_before)[i] == entry_records(navpath@, es.take(k))[i]);
                }
            });
        }
    }
    let nc = group.child_groups.len();
    proof {
        assert(group.entries@.take(ne as int) =~= group.entries@);
        assert(views_of(r@) + flatten_children(navpath@, group.child_groups, 0) =~= flatten_group(
            rootnavpath@,
            *group,
        ));
    }
    for j in 0..nc
        invariant
            nc == group.child_groups.len(),
            navpath@ == nav_path(rootnavpath@, group.name@),
            views_of(r@) + flatten_children(navpath@, group.child_groups, j as int)
                == flatten_group(rootnavpath@, *group),
    {
        let mut sub = find_entries(navpath.as_str(), &group.child_groups[j]);
        let ghost r_old = r@;
        let ghost sub_old = sub@;
        r.append(&mut sub);
        proof {
            assert(views_of(r_old + sub_old) =~= views_of(r_old) + views_of(sub_old));
            assert((views_of(r_old) + views_of(sub_old)) + flatten_children(
                navpath@,
                group.child_groups,
                j as int + 1,
            ) =~= views_of(r_old) + (views_of(sub_old) + flatten_children(
                navpath@,
                group.child_groups,
                j as int + 1,
            )));
        }
    }
    proof {
        assert(views_of(r@) + flatten_children(navpath@, group.child_groups, nc as int)
            =~= views_of(r@));
    }
    r
}

} // verus!
