//! Configuration documents: the tree that a document holds, the source paths
//! that it refers to, and the parser that reads a document.
//!
//! A document maps the name of a group to the group's definition. A group
//! may hold a table `files`, whose keys are source paths relative to the
//! repository root.

use vstd::prelude::*;
use vstd::string::*;

verus! {

/// A value of a configuration document, as far as the rules look at it: a
/// table with its members in the order of the document's own map, or
/// anything else.
#[derive(Debug)]
pub enum ConfigValue {
    Table(Vec<(String, ConfigValue)>),
    Other,
}

/// A `ConfigValue` with its texts as sequences of characters.
pub ghost enum ConfigTree {
    Table(Seq<(Seq<char>, ConfigTree)>),
    Other,
}

/// The tree that `value` holds.
pub open spec fn tree_view(value: ConfigValue) -> ConfigTree
    decreases value,
{
    match value {
        ConfigValue::Table(entries) => ConfigTree::Table(
            Seq::new(
                entries@.len(),
                |i: int|
                    if 0 <= i < entries@.len() {
                        (entries@[i].0@, tree_view(entries@[i].1))
                    } else {
                        (Seq::empty(), ConfigTree::Other)
                    },
            ),
        ),
        ConfigValue::Other => ConfigTree::Other,
    }
}

impl View for ConfigValue {
    type V = ConfigTree;

    open spec fn view(&self) -> ConfigTree {
        tree_view(*self)
    }
}

/// The members of a table, in order; none for a value that is no table.
pub open spec fn members(tree: ConfigTree) -> Seq<(Seq<char>, ConfigTree)> {
    match tree {
        ConfigTree::Table(entries) => entries,
        ConfigTree::Other => Seq::empty(),
    }
}

/// The value of the first of `entries` that is called `name`.
pub open spec fn find_member(entries: Seq<(Seq<char>, ConfigTree)>, name: Seq<char>) -> Option<
    ConfigTree,
>
    decreases entries.len(),
{
    if entries.len() == 0 {
        None
    } else if entries[0].0 == name {
        Some(entries[0].1)
    } else {
        find_member(entries.skip(1), name)
    }
}

/// The member `name` of a table; none where the value is no table or has no
/// such member.
pub open spec fn member(tree: ConfigTree, name: Seq<char>) -> Option<ConfigTree> {
    find_member(members(tree), name)
}

/// The names of the members of a table, in order.
pub open spec fn member_names(tree: ConfigTree) -> Seq<Seq<char>> {
    members(tree).map_values(|entry: (Seq<char>, ConfigTree)| entry.0)
}

/// The source paths of one group: the keys of its table `files`. A group
/// that is no table, has no `files`, or whose `files` is no table has none.
pub open spec fn group_sources(group: ConfigTree) -> Seq<Seq<char>> {
    match member(group, "files"@) {
        Some(files) => member_names(files),
        None => Seq::empty(),
    }
}

/// The source paths that a document refers to: those of its groups, group
/// after group. A path that two groups name occurs twice.
pub open spec fn referenced_sources(document: ConfigTree) -> Seq<Seq<char>> {
    members(document).map_values(|entry: (Seq<char>, ConfigTree)| group_sources(entry.1)).flatten()
}

/// `items` without repetitions: of equal items the first one stays.
pub open spec fn distinct(items: Seq<Seq<char>>) -> Seq<Seq<char>>
    decreases items.len(),
{
    if items.len() == 0 {
        items
    } else if distinct(items.drop_last()).contains(items.last()) {
        distinct(items.drop_last())
    } else {
        distinct(items.drop_last()).push(items.last())
    }
}

/// `distinct` holds no item twice, and holds exactly the items of the
/// sequence that it was made from.
pub proof fn lemma_distinct(items: Seq<Seq<char>>)
    ensures
        distinct(items).no_duplicates(),
        forall|item: Seq<char>| distinct(items).contains(item) <==> items.contains(item),
    decreases items.len(),
{
    if items.len() > 0 {
        let rest = items.drop_last();
        let last = items.last();
        let kept = distinct(rest);
        lemma_distinct(rest);
        assert forall|item: Seq<char>| distinct(items).contains(item) <==> items.contains(
            item,
        ) by {
            assert(items.contains(item) <==> rest.contains(item) || item == last) by {
                if rest.contains(item) {
                    let i = choose|i: int| 0 <= i < rest.len() && rest[i] == item;
                    assert(items[i] == item);
                }
                if item == last {
                    assert(items[items.len() - 1] == item);
                }
                if items.contains(item) && item != last {
                    let i = choose|i: int| 0 <= i < items.len() && items[i] == item;
                    assert(rest[i] == item);
                }
            }
            assert(distinct(items).contains(item) <==> kept.contains(item) || item == last) by {
                if kept.contains(item) {
                    let j = choose|j: int| 0 <= j < kept.len() && kept[j] == item;
                    assert(distinct(items)[j] == item);
                }
                if item == last && !kept.contains(last) {
                    assert(distinct(items)[kept.len() as int] == item);
                }
                if distinct(items).contains(item) && item != last {
                    let j = choose|j: int|
                        0 <= j < distinct(items).len() && distinct(items)[j] == item;
                    assert(kept[j] == item);
                }
            }
            assert(kept.contains(item) <==> rest.contains(item));
        }
    }
}

impl ConfigValue {
    /// The member `name` of a table.
    pub fn member(&self, name: &str) -> (found: Option<&ConfigValue>)
        ensures
            match found {
                Some(value) => member(self@, name@) == Some(value@),
                None => member(self@, name@) is None,
            },
    {
        match self {
            ConfigValue::Table(entries) => {
                let wanted = String::from_str(name);
                let mut i: usize = 0;
                assert(members(self@).skip(0) =~= members(self@));
                while i < entries.len()
                    invariant
                        i <= entries.len(),
                        *self == ConfigValue::Table(*entries),
                        wanted@ == name@,
                        member(self@, name@) == find_member(members(self@).skip(i as int), name@),
                    decreases entries.len() - i,
                {
                    let ghost rest = members(self@).skip(i as int);
                    assert(rest[0] == members(self@)[i as int]);
                    assert(rest.skip(1) =~= members(self@).skip(i + 1));
                    if entries[i].0 == wanted {
                        return Some(&entries[i].1);
                    }
                    i += 1;
                }
                None
            },
            ConfigValue::Other => None,
        }
    }

    /// The names of the members of a table, in order.
    pub fn member_names(&self) -> (names: Vec<String>)
        ensures
            names.deep_view() == member_names(self@),
    {
        let mut names: Vec<String> = Vec::new();
        match self {
            ConfigValue::Table(entries) => {
                let mut i: usize = 0;
                while i < entries.len()
                    invariant
                        i <= entries.len(),
                        *self == ConfigValue::Table(*entries),
                        names.deep_view() == member_names(self@).take(i as int),
                    decreases entries.len() - i,
                {
                    let ghost before = names.deep_view();
                    names.push(entries[i].0.clone());
                    assert(names.deep_view() =~= before.push(entries@[i as int].0@));
                    assert(names.deep_view() =~= member_names(self@).take(i + 1));
                    i += 1;
                }
                assert(member_names(self@).take(entries.len() as int) =~= member_names(self@));
            },
            ConfigValue::Other => {
                assert(names.deep_view() =~= member_names(self@));
            },
        }
        names
    }
}

/// The source paths of one group.
pub fn sources_of_group(group: &ConfigValue) -> (sources: Vec<String>)
    ensures
        sources.deep_view() == group_sources(group@),
{
    match group.member("files") {
        Some(files) => files.member_names(),
        None => {
            let sources: Vec<String> = Vec::new();
            assert(sources.deep_view() =~= Seq::<Seq<char>>::empty());
            sources
        },
    }
}

/// Moves the items of `more` to the end of `all`.
pub fn append_all(all: &mut Vec<String>, more: Vec<String>)
    ensures
        final(all).deep_view() == old(all).deep_view() + more.deep_view(),
{
    let mut more = more;
    let ghost added = more.deep_view();
    let ghost start = all.deep_view();
    let mut i: usize = 0;
    while i < more.len()
        invariant
            i <= more.len(),
            more.deep_view() == added,
            all.deep_view() == start + added.take(i as int),
        decreases more.len() - i,
    {
        let ghost before = all.deep_view();
        all.push(more[i].clone());
        assert(all.deep_view() =~= before.push(added[i as int]));
        assert(all.deep_view() =~= start + added.take(i + 1));
        i += 1;
    }
    assert(added.take(more.len() as int) =~= added);
}

/// The source paths that `document` refers to, group after group.
pub fn sources_of_document(document: &ConfigValue) -> (sources: Vec<String>)
    ensures
        sources.deep_view() == referenced_sources(document@),
{
    let mut sources: Vec<String> = Vec::new();
    match document {
        ConfigValue::Table(groups) => {
            let ghost per_group = members(document@).map_values(
                |entry: (Seq<char>, ConfigTree)| group_sources(entry.1),
            );
            let mut i: usize = 0;
            assert(sources.deep_view() =~= per_group.take(0).flatten());
            while i < groups.len()
                invariant
                    i <= groups.len(),
                    *document == ConfigValue::Table(*groups),
                    per_group == members(document@).map_values(
                        |entry: (Seq<char>, ConfigTree)| group_sources(entry.1),
                    ),
                    sources.deep_view() == per_group.take(i as int).flatten(),
                decreases groups.len() - i,
            {
                let found = sources_of_group(&groups[i].1);
                proof {
                    assert(per_group.take(i + 1) =~= per_group.take(i as int).push(
                        found.deep_view(),
                    ));
                    per_group.take(i as int).lemma_flatten_push(found.deep_view());
                }
                append_all(&mut sources, found);
                i += 1;
            }
            assert(per_group.take(groups.len() as int) =~= per_group);
        },
        ConfigValue::Other => {
            assert(members(document@).map_values(
                |entry: (Seq<char>, ConfigTree)| group_sources(entry.1),
            ) =~= Seq::empty());
            assert(sources.deep_view() =~= Seq::<Seq<char>>::empty());
        },
    }
    sources
}

/// Whether `item` is one of `items`.
pub fn holds(items: &Vec<String>, item: &String) -> (found: bool)
    ensures
        found == items.deep_view().contains(item@),
{
    let mut i: usize = 0;
    while i < items.len()
        invariant
            i <= items.len(),
            forall|k: int| 0 <= k < i ==> items.deep_view()[k] != item@,
        decreases items.len() - i,
    {
        if items[i] == *item {
            assert(items.deep_view()[i as int] == item@);
            return true;
        }
        i += 1;
    }
    false
}

/// `items` without repetitions: of equal items the first one stays.
pub fn unique(items: &Vec<String>) -> (kept: Vec<String>)
    ensures
        kept.deep_view() == distinct(items.deep_view()),
{
    let mut kept: Vec<String> = Vec::new();
    let mut i: usize = 0;
    assert(items.deep_view().take(0) =~= Seq::<Seq<char>>::empty());
    while i < items.len()
        invariant
            i <= items.len(),
            kept.deep_view() == distinct(items.deep_view().take(i as int)),
        decreases items.len() - i,
    {
        let ghost next = items.deep_view().take(i + 1);
        assert(next.drop_last() =~= items.deep_view().take(i as int));
        assert(next.last() == items@[i as int]@);
        if !holds(&kept, &items[i]) {
            let ghost before = kept.deep_view();
            kept.push(items[i].clone());
            assert(kept.deep_view() =~= before.push(items@[i as int]@));
        }
        i += 1;
    }
    assert(items.deep_view().take(items.len() as int) =~= items.deep_view());
    kept
}

/// A value of the crate `toml`. Nothing of its inside is known here.
#[verifier::external_type_specification]
#[verifier::external_body]
pub struct ExTomlValue(toml::Value);

/// The tree that `toml::from_str::<toml::Value>` reads from `text`; none
/// where it rejects the text.
pub uninterp spec fn toml_document(text: Seq<char>) -> Option<ConfigTree>;

/// The tree that a `toml::Value` holds: for a table its members, each with
/// the tree of its value, in the order in which the table hands them out.
pub uninterp spec fn toml_tree(value: toml::Value) -> ConfigTree;

/// Calls `toml::from_str::<toml::Value>`, which reads `content` as one
/// document: it gives the document's value, or nothing where the crate
/// returns an error. The result depends on the text alone, and the parser
/// gives up on input that is nested too deep rather than following it.
#[verifier::external_body]
fn read_toml(content: &str) -> (value: Option<toml::Value>)
    ensures
        match value {
            Some(v) => toml_document(content@) == Some(toml_tree(v)),
            None => toml_document(content@) is None,
        },
{
    toml::from_str::<toml::Value>(content).ok()
}

/// Copies a `toml::Value` into the library's tree, level by level:
/// `toml::Value::Table` becomes a table whose members come in the order of
/// the crate's `iter`, every other variant becomes `Other`. It goes as deep
/// as the value is nested, as the crate's own `Clone` does.
#[verifier::external_body]
fn tree_of(value: &toml::Value) -> (tree: ConfigValue)
    ensures
        tree@ == toml_tree(*value),
{
    match value {
        toml::Value::Table(table) => ConfigValue::Table(
            table.iter().map(|(name, inner)| (name.clone(), tree_of(inner))).collect(),
        ),
        _ => ConfigValue::Other,
    }
}

/// Reads `content` as a configuration document.
pub fn parse_document(content: &str) -> (document: Option<ConfigValue>)
    ensures
        match document {
            Some(d) => toml_document(content@) == Some(d@),
            None => toml_document(content@) is None,
        },
{
    match read_toml(content) {
        Some(value) => Some(tree_of(&value)),
        None => None,
    }
}

} // verus!
