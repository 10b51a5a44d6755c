//! The sourcemap: a tree that says how the files below the script root map
//! onto the editor's object hierarchy.

use crate::listing::{entry_views, find_entry, first_entry, Entry, EntryKind, EntryView};
use crate::text::{chars_of, ends_with, same, starts_with, strip_suffix};
use vstd::prelude::*;

verus! {

/// The name of the directory below the project root that holds the scripts.
pub const SCRIPT_ROOT: &'static str = "game";

/// One container or script of the editor's hierarchy.
#[derive(Debug)]
pub struct SourcemapNode {
    /// The directory's name, or the script file's name without its suffix.
    pub name: String,
    /// The kind of container or script that the node stands for.
    pub class_name: String,
    /// The files behind the node; `None` for a container without a script.
    pub file_paths: Option<Vec<String>>,
    /// The nodes below, in the order in which the directory listed them.
    pub children: Vec<SourcemapNode>,
}

/// The mathematical value of a [`SourcemapNode`].
pub ghost struct NodeView {
    pub name: Seq<char>,
    pub class_name: Seq<char>,
    pub file_paths: Option<Seq<Seq<char>>>,
    pub children: Seq<NodeView>,
}

/// The values of a sequence of nodes.
pub open spec fn node_views(nodes: Seq<SourcemapNode>) -> Seq<NodeView>
    decreases nodes,
{
    Seq::new(
        nodes.len(),
        |i: int|
            if 0 <= i < nodes.len() {
                nodes[i]@
            } else {
                arbitrary()
            },
    )
}

impl View for SourcemapNode {
    type V = NodeView;

    open spec fn view(&self) -> NodeView
        decreases self,
    {
        NodeView {
            name: self.name@,
            class_name: self.class_name@,
            file_paths: match self.file_paths {
                Some(paths) => Some(Seq::new(paths@.len(), |i: int| paths@[i]@)),
                None => None,
            },
            children: node_views(self.children@),
        }
    }
}

impl SourcemapNode {
    /// The value of a node lists the values of the nodes below it.
    pub proof fn lemma_view_children(&self)
        ensures
            self@.children == node_views(self.children@),
    {
    }

    /// A node without files and without children.
    pub fn new(name: &str, class_name: &str) -> (node: Self)
        ensures
            node@ == (NodeView {
                name: name@,
                class_name: class_name@,
                file_paths: None,
                children: Seq::empty(),
            }),
    {
        let node = SourcemapNode {
            name: name.to_owned(),
            class_name: class_name.to_owned(),
            file_paths: None,
            children: Vec::new(),
        };
        assert(node@.children =~= Seq::empty());
        node
    }
}

/// The node name and the class that a script file's name stands for: the
/// name without its suffix, and the class that the suffix selects.
pub open spec fn script_name(filename: Seq<char>) -> (Seq<char>, Seq<char>) {
    match strip_suffix(filename, ".server.luau"@) {
        Some(stem) => (stem, "Script"@),
        None => match strip_suffix(filename, ".client.luau"@) {
            Some(stem) => (stem, "LocalScript"@),
            None => match strip_suffix(filename, ".luau"@) {
                Some(stem) => (stem, "ModuleScript"@),
                None => (filename, "Folder"@),
            },
        },
    }
}

/// `filename` without `suffix`, where it ends with it.
fn stem_before(filename: &str, chars: &[char], suffix: &str) -> (stem: Option<String>)
    requires
        chars@ == filename@,
    ensures
        match strip_suffix(filename@, suffix@) {
            Some(expected) => stem matches Some(s) && s@ == expected,
            None => stem is None,
        },
{
    if ends_with(chars, suffix) {
        let kept = chars.len() - suffix.unicode_len();
        Some(filename.substring_char(0, kept).to_owned())
    } else {
        None
    }
}

/// Splits a script file's name into the node's name and its class.
pub fn parse_script_name(filename: &str) -> (parsed: (String, String))
    ensures
        parsed.0@ == script_name(filename@).0,
        parsed.1@ == script_name(filename@).1,
{
    let chars = chars_of(filename);
    if let Some(stem) = stem_before(filename, chars.as_slice(), ".server.luau") {
        (stem, "Script".to_owned())
    } else if let Some(stem) = stem_before(filename, chars.as_slice(), ".client.luau") {
        (stem, "LocalScript".to_owned())
    } else if let Some(stem) = stem_before(filename, chars.as_slice(), ".luau") {
        (stem, "ModuleScript".to_owned())
    } else {
        (filename.to_owned(), "Folder".to_owned())
    }
}

/// Whether `name` is one of the editor's well-known containers.
pub open spec fn is_container_name(name: Seq<char>) -> bool {
    ||| name == "ServerScriptService"@
    ||| name == "ReplicatedStorage"@
    ||| name == "StarterPlayer"@
    ||| name == "StarterGui"@
    ||| name == "ReplicatedFirst"@
    ||| name == "SoundService"@
    ||| name == "Chat"@
    ||| name == "Lighting"@
    ||| name == "MaterialService"@
    ||| name == "HttpService"@
    ||| name == "Workspace"@
}

/// The class of a directory directly below the script root: its own name
/// where that names a well-known container, `Folder` otherwise.
pub open spec fn container_class(name: Seq<char>) -> Seq<char> {
    if is_container_name(name) {
        name
    } else {
        "Folder"@
    }
}

/// The class of a directory `name` inside the directory `parent`: the two
/// script containers of `StarterPlayer` keep their own name, every other
/// directory is a `Folder`.
pub open spec fn child_class(parent: Seq<char>, name: Seq<char>) -> Seq<char> {
    if parent == "StarterPlayer"@ && (name == "StarterPlayerScripts"@ || name
        == "StarterCharacterScripts"@) {
        name
    } else {
        "Folder"@
    }
}

/// The script that turns a directory into a script node.
pub ghost struct InitScript {
    /// The class that a plain folder takes on.
    pub class_name: Seq<char>,
    /// Where the script file lies.
    pub path: Seq<char>,
}

/// The init script of a directory with the given entries: a server script
/// before a client script before a module script.
pub open spec fn init_script(entries: Seq<EntryView>) -> Option<InitScript> {
    match first_entry(entries, "init.server.luau"@, EntryKind::File) {
        Some(file) => Some(InitScript { class_name: "Script"@, path: file.path }),
        None => match first_entry(entries, "init.client.luau"@, EntryKind::File) {
            Some(file) => Some(InitScript { class_name: "LocalScript"@, path: file.path }),
            None => match first_entry(entries, "init.luau"@, EntryKind::File) {
                Some(file) => Some(InitScript { class_name: "ModuleScript"@, path: file.path }),
                None => None,
            },
        },
    }
}

/// The node of a script file that is no init script.
pub open spec fn script_node(file: EntryView) -> NodeView {
    NodeView {
        name: script_name(file.name).0,
        class_name: script_name(file.name).1,
        file_paths: Some(seq![file.path]),
        children: Seq::empty(),
    }
}

/// The node that an entry of the directory `parent` contributes, if any: a
/// directory its own subtree, a script file that is no init script a leaf,
/// anything else nothing.
pub open spec fn child_node(parent: Seq<char>, entry: EntryView) -> Option<NodeView>
    decreases entry, 1nat,
{
    match entry.kind {
        EntryKind::Directory => Some(directory_node(entry, child_class(parent, entry.name))),
        EntryKind::File => if !"init."@.is_prefix_of(entry.name) && ".luau"@.is_suffix_of(
            entry.name,
        ) {
            Some(script_node(entry))
        } else {
            None
        },
        EntryKind::Other => None,
    }
}

/// The nodes that the first `upto` entries of the directory `parent`
/// contribute, in the order of the entries.
pub open spec fn child_nodes(parent: Seq<char>, entries: Seq<EntryView>, upto: nat) -> Seq<
    NodeView,
>
    decreases entries, upto,
{
    if upto == 0 || upto > entries.len() {
        Seq::empty()
    } else {
        let before = child_nodes(parent, entries, (upto - 1) as nat);
        match child_node(parent, entries[upto - 1]) {
            Some(node) => before.push(node),
            None => before,
        }
    }
}

/// The node of the directory `dir`, which enters the walk with the class
/// `class_name`.
///
/// An init script among the entries becomes the node's one file, and gives a
/// plain `Folder` its class; a class other than `Folder` stays.
pub open spec fn directory_node(dir: EntryView, class_name: Seq<char>) -> NodeView
    decreases dir, 0nat,
{
    let init = init_script(dir.entries);
    NodeView {
        name: dir.name,
        class_name: match init {
            Some(script) => if class_name == "Folder"@ {
                script.class_name
            } else {
                class_name
            },
            None => class_name,
        },
        file_paths: match init {
            Some(script) => Some(seq![script.path]),
            None => None,
        },
        children: child_nodes(dir.name, dir.entries, dir.entries.len()),
    }
}

/// The node that an entry of the script root contributes, if any: a
/// directory its subtree, under the class that its name selects.
pub open spec fn container_node(entry: EntryView) -> Option<NodeView> {
    if entry.kind == EntryKind::Directory {
        Some(directory_node(entry, container_class(entry.name)))
    } else {
        None
    }
}

/// The nodes that the entries of the script root contribute, in the order of
/// the entries.
pub open spec fn container_nodes(entries: Seq<EntryView>) -> Seq<NodeView> {
    entries.filter_map(|entry: EntryView| container_node(entry))
}

/// The sourcemap of the project whose root directory is `root`: the project
/// node, and below it one node for each directory of the script root `game`,
/// in the order of the listing. Without a script root the project node has no
/// children.
pub open spec fn project_node(root: EntryView) -> NodeView {
    NodeView {
        name: "Project"@,
        class_name: "Project"@,
        file_paths: None,
        children: match first_entry(root.entries, SCRIPT_ROOT@, EntryKind::Directory) {
            Some(game) => container_nodes(game.entries),
            None => Seq::empty(),
        },
    }
}

/// The children of a directory's node are what its entries contribute, one
/// by one and in the order of the listing.
pub proof fn lemma_children_follow_entries(dir: EntryView, class_name: Seq<char>)
    ensures
        directory_node(dir, class_name).children == dir.entries.filter_map(
            |entry: EntryView| child_node(dir.name, entry),
        ),
{
    lemma_child_nodes_of_prefix(dir.name, dir.entries, dir.entries.len());
    assert(dir.entries.take(dir.entries.len() as int) =~= dir.entries);
}

/// The first `upto` entries contribute what `filter_map` collects from them.
proof fn lemma_child_nodes_of_prefix(parent: Seq<char>, entries: Seq<EntryView>, upto: nat)
    requires
        upto <= entries.len(),
    ensures
        child_nodes(parent, entries, upto) == entries.take(upto as int).filter_map(
            |entry: EntryView| child_node(parent, entry),
        ),
    decreases upto,
{
    if upto > 0 {
        lemma_child_nodes_of_prefix(parent, entries, (upto - 1) as nat);
        assert(entries.take(upto as int).drop_last() =~= entries.take(upto - 1));
    }
}

/// A class other than `Folder` survives the walk: an init script adds its
/// file to the node and leaves the class alone.
pub proof fn lemma_given_class_survives(dir: EntryView, class_name: Seq<char>)
    requires
        class_name != "Folder"@,
    ensures
        directory_node(dir, class_name).class_name == class_name,
        init_script(dir.entries) matches Some(script) ==> directory_node(
            dir,
            class_name,
        ).file_paths == Some(seq![script.path]),
{
}

/// A plain folder takes the class of its init script, and stays a `Folder`
/// without files where it has none.
pub proof fn lemma_folder_takes_script_class(dir: EntryView)
    ensures
        match init_script(dir.entries) {
            Some(script) => {
                &&& directory_node(dir, "Folder"@).class_name == script.class_name
                &&& directory_node(dir, "Folder"@).file_paths == Some(seq![script.path])
            },
            None => {
                &&& directory_node(dir, "Folder"@).class_name == "Folder"@
                &&& directory_node(dir, "Folder"@).file_paths is None
            },
        },
{
}

/// A file whose name does not end in `.luau` leaves no trace: it is taken for
/// no init script, whatever its name begins with, and gives no child. A
/// folder that holds nothing else stays a bare `Folder`.
pub proof fn lemma_other_files_leave_no_trace(dir: EntryView, file: EntryView)
    requires
        dir.entries == seq![file],
        file.kind == EntryKind::File,
        !".luau"@.is_suffix_of(file.name),
    ensures
        directory_node(dir, "Folder"@) == (NodeView {
            name: dir.name,
            class_name: "Folder"@,
            file_paths: None,
            children: Seq::empty(),
        }),
{
    reveal_strlit(".luau");
    reveal_strlit("init.server.luau");
    reveal_strlit("init.client.luau");
    reveal_strlit("init.luau");
    assert("init.server.luau"@.subrange(11, 16) =~= ".luau"@);
    assert("init.client.luau"@.subrange(11, 16) =~= ".luau"@);
    assert("init.luau"@.subrange(4, 9) =~= ".luau"@);
    assert(init_script(dir.entries) is None) by {
        reveal_with_fuel(first_entry, 2);
    }
    assert(child_node(dir.name, file) is None);
    assert(child_nodes(dir.name, dir.entries, 1) =~= child_nodes(dir.name, dir.entries, 0));
}

/// Files mark scripts: a directory's node has a file exactly where the
/// directory holds an init script, a script file's node has that file and no
/// other, and the project node has none.
pub proof fn lemma_files_mark_scripts(root: EntryView, entry: EntryView, class_name: Seq<char>)
    ensures
        project_node(root).class_name == "Project"@,
        project_node(root).file_paths is None,
        directory_node(entry, class_name).file_paths is Some <==> init_script(entry.entries) is Some,
        script_node(entry).file_paths == Some(seq![entry.path]),
{
}

/// Two listings of an unchanged directory tree give the same sourcemap:
/// names, classes, files and the order of the children.
pub proof fn lemma_same_listing_same_sourcemap(first: Entry, second: Entry)
    requires
        first@ == second@,
    ensures
        project_node(first@) == project_node(second@),
{
}

/// Picks the class of a directory directly below the script root.
fn classify_container(name: &str) -> (class_name: &'static str)
    ensures
        class_name@ == container_class(name@),
{
    if same(name, "ServerScriptService") {
        "ServerScriptService"
    } else if same(name, "ReplicatedStorage") {
        "ReplicatedStorage"
    } else if same(name, "StarterPlayer") {
        "StarterPlayer"
    } else if same(name, "StarterGui") {
        "StarterGui"
    } else if same(name, "ReplicatedFirst") {
        "ReplicatedFirst"
    } else if same(name, "SoundService") {
        "SoundService"
    } else if same(name, "Chat") {
        "Chat"
    } else if same(name, "Lighting") {
        "Lighting"
    } else if same(name, "MaterialService") {
        "MaterialService"
    } else if same(name, "HttpService") {
        "HttpService"
    } else if same(name, "Workspace") {
        "Workspace"
    } else {
        "Folder"
    }
}

/// Picks the class of the directory `name` inside the directory `parent`.
fn classify_child(parent: &str, name: &str) -> (class_name: &'static str)
    ensures
        class_name@ == child_class(parent@, name@),
{
    if same(parent, "StarterPlayer") && same(name, "StarterPlayerScripts") {
        "StarterPlayerScripts"
    } else if same(parent, "StarterPlayer") && same(name, "StarterCharacterScripts") {
        "StarterCharacterScripts"
    } else {
        "Folder"
    }
}

/// Finds the init script among the entries of a directory: its position, and
/// the class that it gives to a plain folder.
fn find_init_script(entries: &Vec<Entry>) -> (found: Option<(usize, &'static str)>)
    ensures
        match init_script(entry_views(entries@)) {
            Some(script) => found matches Some((at, class_name)) && at < entries@.len()
                && entries@[at as int]@.path == script.path && class_name@ == script.class_name,
            None => found is None,
        },
{
    if let Some(at) = find_entry(entries, "init.server.luau", EntryKind::File) {
        Some((at, "Script"))
    } else if let Some(at) = find_entry(entries, "init.client.luau", EntryKind::File) {
        Some((at, "LocalScript"))
    } else if let Some(at) = find_entry(entries, "init.luau", EntryKind::File) {
        Some((at, "ModuleScript"))
    } else {
        None
    }
}

/// A leaf for the script file `file`.
fn script_leaf(file: &Entry) -> (node: SourcemapNode)
    ensures
        node@ == script_node(file@),
{
    let (name, class_name) = parse_script_name(file.name.as_str());
    let node = SourcemapNode {
        name,
        class_name,
        file_paths: Some(vec![file.path.clone()]),
        children: Vec::new(),
    };
    proof {
        assert(node@.children =~= Seq::empty());
        assert(node@.file_paths->0 =~= seq![file@.path]);
    }
    node
}

/// Builds the node of the directory `dir`, which enters the walk with the
/// class `class_name`, and the nodes of everything below it.
///
/// Returns `None` exactly where `dir` is no directory.
pub fn walk_directory(dir: &Entry, class_name: &str) -> (node: Option<SourcemapNode>)
    ensures
        match node {
            Some(node) => dir@.kind == EntryKind::Directory && node@ == directory_node(
                dir@,
                class_name@,
            ),
            None => dir@.kind != EntryKind::Directory,
        },
    decreases dir,
{
    if dir.kind != EntryKind::Directory {
        return None;
    }
    proof {
        dir.lemma_view_entries();
    }
    let mut node = SourcemapNode::new(dir.name.as_str(), class_name);
    if let Some((at, script_class)) = find_init_script(&dir.entries) {
        node.file_paths = Some(vec![dir.entries[at].path.clone()]);
        if same(class_name, "Folder") {
            node.class_name = script_class.to_owned();
        }
    }
    let mut children: Vec<SourcemapNode> = Vec::new();
    let mut at: usize = 0;
    while at < dir.entries.len()
        invariant
            at <= dir.entries@.len(),
            dir@.entries == entry_views(dir.entries@),
            node_views(children@) == child_nodes(dir@.name, dir@.entries, at as nat),
        decreases dir.entries@.len() - at,
    {
        let entry = &dir.entries[at];
        let ghost before = node_views(children@);
        match entry.kind {
            EntryKind::Directory => {
                let child_class = classify_child(dir.name.as_str(), entry.name.as_str());
                if let Some(child) = walk_directory(entry, child_class) {
                    children.push(child);
                }
            },
            EntryKind::File => {
                let chars = chars_of(entry.name.as_str());
                if !starts_with(chars.as_slice(), "init.") && ends_with(chars.as_slice(), ".luau") {
                    let child = script_leaf(entry);
                    children.push(child);
                }
            },
            EntryKind::Other => {},
        }
        assert(child_nodes(dir@.name, dir@.entries, (at + 1) as nat) == match child_node(
            dir@.name,
            entry@,
        ) {
            Some(child) => before.push(child),
            None => before,
        });
        at = at + 1;
    }
    node.children = children;
    proof {
        node.lemma_view_children();
        let init = init_script(dir@.entries);
        if init is Some {
            assert(node@.file_paths->0 =~= seq![init->0.path]);
        }
    }
    Some(node)
}

/// Builds the sourcemap of the project whose root directory is `root`.
pub fn generate_sourcemap(root: &Entry) -> (project: SourcemapNode)
    ensures
        project@ == project_node(root@),
{
    let mut project = SourcemapNode::new("Project", "Project");
    let mut children: Vec<SourcemapNode> = Vec::new();
    if let Some(found) = find_entry(&root.entries, SCRIPT_ROOT, EntryKind::Directory) {
        let game = &root.entries[found];
        let ghost listed = game@.entries;
        proof {
            game.lemma_view_entries();
        }
        let mut at: usize = 0;
        while at < game.entries.len()
            invariant
                at <= game.entries@.len(),
                listed == entry_views(game.entries@),
                node_views(children@) == container_nodes(listed.take(at as int)),
            decreases game.entries@.len() - at,
        {
            let entry = &game.entries[at];
            assert(listed.take(at + 1).drop_last() =~= listed.take(at as int));
            if entry.kind == EntryKind::Directory {
                let class_name = classify_container(entry.name.as_str());
                if let Some(node) = walk_directory(entry, class_name) {
                    children.push(node);
                }
            }
            at = at + 1;
        }
        assert(listed.take(at as int) =~= listed);
    } else {
        assert(node_views(children@) =~= Seq::empty());
    }
    project.children = children;
    proof {
        root.lemma_view_entries();
        project.lemma_view_children();
    }
    project
}

} // verus!
