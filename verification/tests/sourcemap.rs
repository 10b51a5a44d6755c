use carbon_core::listing::{Entry, EntryKind};
use carbon_core::sourcemap::{
    generate_sourcemap, parse_script_name, walk_directory, SourcemapNode, SCRIPT_ROOT,
};

fn file(name: &str, path: &str) -> Entry {
    Entry { name: name.to_string(), path: path.to_string(), kind: EntryKind::File, entries: vec![] }
}

fn other(name: &str, path: &str) -> Entry {
    Entry { name: name.to_string(), path: path.to_string(), kind: EntryKind::Other, entries: vec![] }
}

fn dir(name: &str, path: &str, entries: Vec<Entry>) -> Entry {
    Entry { name: name.to_string(), path: path.to_string(), kind: EntryKind::Directory, entries }
}

fn project(containers: Vec<Entry>) -> Entry {
    dir("project", "/project", vec![dir("game", "/project/game", containers)])
}

fn names(nodes: &[SourcemapNode]) -> Vec<&str> {
    nodes.iter().map(|node| node.name.as_str()).collect()
}

#[test]
fn new_node_has_no_files_and_no_children() {
    let node = SourcemapNode::new("Utils", "ModuleScript");
    assert_eq!(node.name, "Utils");
    assert_eq!(node.class_name, "ModuleScript");
    assert_eq!(node.file_paths, None);
    assert!(node.children.is_empty());
}

#[test]
fn script_root_is_named_game() {
    assert_eq!(SCRIPT_ROOT, "game");
}

#[test]
fn container_name_wins_over_init_script() {
    let init = "/project/game/ServerScriptService/init.server.luau";
    let root = project(vec![dir(
        "ServerScriptService",
        "/project/game/ServerScriptService",
        vec![file("init.server.luau", init)],
    )]);
    let map = generate_sourcemap(&root);
    assert_eq!(map.children.len(), 1);
    let node = &map.children[0];
    assert_eq!(node.name, "ServerScriptService");
    assert_eq!(node.class_name, "ServerScriptService");
    assert_eq!(node.file_paths, Some(vec![init.to_string()]));
    assert!(node.children.is_empty());
}

#[test]
fn plain_folder_takes_class_of_client_init_script() {
    let init = "/project/game/MyFolder/init.client.luau";
    let root = project(vec![dir(
        "MyFolder",
        "/project/game/MyFolder",
        vec![file("init.client.luau", init)],
    )]);
    let map = generate_sourcemap(&root);
    assert_eq!(map.children.len(), 1);
    let node = &map.children[0];
    assert_eq!(node.name, "MyFolder");
    assert_eq!(node.class_name, "LocalScript");
    assert_eq!(node.file_paths, Some(vec![init.to_string()]));
    assert!(node.children.is_empty());
}

#[test]
fn plain_folder_takes_class_of_server_and_module_init_scripts() {
    let server = dir("A", "/g/A", vec![file("init.server.luau", "/g/A/init.server.luau")]);
    let module = dir("B", "/g/B", vec![file("init.luau", "/g/B/init.luau")]);
    let a = walk_directory(&server, "Folder").unwrap();
    let b = walk_directory(&module, "Folder").unwrap();
    assert_eq!(a.class_name, "Script");
    assert_eq!(a.file_paths, Some(vec!["/g/A/init.server.luau".to_string()]));
    assert_eq!(b.class_name, "ModuleScript");
    assert_eq!(b.file_paths, Some(vec!["/g/B/init.luau".to_string()]));
}

#[test]
fn module_file_becomes_child_of_its_container() {
    let path = "/project/game/ReplicatedStorage/Utils.luau";
    let root = project(vec![dir(
        "ReplicatedStorage",
        "/project/game/ReplicatedStorage",
        vec![file("Utils.luau", path)],
    )]);
    let map = generate_sourcemap(&root);
    let container = &map.children[0];
    assert_eq!(container.name, "ReplicatedStorage");
    assert_eq!(container.class_name, "ReplicatedStorage");
    assert_eq!(container.file_paths, None);
    assert_eq!(container.children.len(), 1);
    let child = &container.children[0];
    assert_eq!(child.name, "Utils");
    assert_eq!(child.class_name, "ModuleScript");
    assert_eq!(child.file_paths, Some(vec![path.to_string()]));
    assert!(child.children.is_empty());
}

#[test]
fn starter_player_children_keep_their_own_class() {
    let root = project(vec![dir(
        "StarterPlayer",
        "/project/game/StarterPlayer",
        vec![
            dir("StarterPlayerScripts", "/project/game/StarterPlayer/StarterPlayerScripts", vec![]),
            dir(
                "StarterCharacterScripts",
                "/project/game/StarterPlayer/StarterCharacterScripts",
                vec![],
            ),
            dir("Extras", "/project/game/StarterPlayer/Extras", vec![]),
        ],
    )]);
    let map = generate_sourcemap(&root);
    let player = &map.children[0];
    assert_eq!(player.class_name, "StarterPlayer");
    assert_eq!(player.children.len(), 3);
    assert_eq!(player.children[0].name, "StarterPlayerScripts");
    assert_eq!(player.children[0].class_name, "StarterPlayerScripts");
    assert_eq!(player.children[1].class_name, "StarterCharacterScripts");
    assert_eq!(player.children[2].class_name, "Folder");
}

#[test]
fn starter_player_scripts_elsewhere_is_a_folder() {
    let root = project(vec![dir(
        "Workspace",
        "/project/game/Workspace",
        vec![dir("StarterPlayerScripts", "/project/game/Workspace/StarterPlayerScripts", vec![])],
    )]);
    let map = generate_sourcemap(&root);
    assert_eq!(map.children[0].children[0].class_name, "Folder");
}

#[test]
fn special_child_with_init_script_keeps_its_class() {
    let init = "/g/StarterPlayer/StarterPlayerScripts/init.client.luau";
    let player = dir(
        "StarterPlayer",
        "/g/StarterPlayer",
        vec![dir(
            "StarterPlayerScripts",
            "/g/StarterPlayer/StarterPlayerScripts",
            vec![file("init.client.luau", init)],
        )],
    );
    let node = walk_directory(&player, "StarterPlayer").unwrap();
    assert_eq!(node.children[0].class_name, "StarterPlayerScripts");
    assert_eq!(node.children[0].file_paths, Some(vec![init.to_string()]));
}

#[test]
fn building_twice_gives_the_same_tree() {
    let root = project(vec![
        dir(
            "ReplicatedStorage",
            "/project/game/ReplicatedStorage",
            vec![
                file("Utils.luau", "/project/game/ReplicatedStorage/Utils.luau"),
                dir(
                    "Shared",
                    "/project/game/ReplicatedStorage/Shared",
                    vec![file("init.luau", "/project/game/ReplicatedStorage/Shared/init.luau")],
                ),
            ],
        ),
        dir("Zeta", "/project/game/Zeta", vec![file("a.client.luau", "/project/game/Zeta/a.client.luau")]),
    ]);
    let first = generate_sourcemap(&root);
    let second = generate_sourcemap(&root);
    assert_eq!(format!("{:?}", first), format!("{:?}", second));
    assert_eq!(format!("{:?}", first.to_json()), format!("{:?}", second.to_json()));
}

#[test]
fn init_file_with_wrong_extension_is_ignored() {
    let folder = dir("MyFolder", "/g/MyFolder", vec![file("init.module.txt", "/g/MyFolder/init.module.txt")]);
    let node = walk_directory(&folder, "Folder").unwrap();
    assert_eq!(node.class_name, "Folder");
    assert_eq!(node.file_paths, None);
    assert!(node.children.is_empty());
}

#[test]
fn root_without_script_root_has_no_children() {
    let root = dir("project", "/project", vec![dir("src", "/project/src", vec![])]);
    let map = generate_sourcemap(&root);
    assert_eq!(map.name, "Project");
    assert_eq!(map.class_name, "Project");
    assert_eq!(map.file_paths, None);
    assert!(map.children.is_empty());
}

#[test]
fn script_root_that_is_a_file_is_passed_over() {
    let root = dir("project", "/project", vec![file("game", "/project/game")]);
    let map = generate_sourcemap(&root);
    assert_eq!(map.class_name, "Project");
    assert!(map.children.is_empty());
}

#[test]
fn empty_script_root_gives_bare_project() {
    let map = generate_sourcemap(&project(vec![]));
    assert_eq!(map.name, "Project");
    assert_eq!(map.class_name, "Project");
    assert_eq!(map.file_paths, None);
    assert!(map.children.is_empty());
}

#[test]
fn files_directly_below_script_root_are_passed_over() {
    let root = project(vec![
        file("Loose.luau", "/project/game/Loose.luau"),
        other("socket", "/project/game/socket"),
        dir("Lighting", "/project/game/Lighting", vec![]),
    ]);
    let map = generate_sourcemap(&root);
    assert_eq!(names(&map.children), vec!["Lighting"]);
}

#[test]
fn every_well_known_container_keeps_its_name_as_class() {
    let known = [
        "ServerScriptService",
        "ReplicatedStorage",
        "StarterPlayer",
        "StarterGui",
        "ReplicatedFirst",
        "SoundService",
        "Chat",
        "Lighting",
        "MaterialService",
        "HttpService",
        "Workspace",
    ];
    let containers = known.iter().map(|name| dir(name, &format!("/project/game/{}", name), vec![])).collect();
    let map = generate_sourcemap(&project(containers));
    assert_eq!(map.children.len(), known.len());
    for (node, name) in map.children.iter().zip(known.iter()) {
        assert_eq!(node.name, *name);
        assert_eq!(node.class_name, *name);
        assert_eq!(node.file_paths, None);
    }
}

#[test]
fn container_names_are_case_sensitive() {
    let root = project(vec![
        dir("workspace", "/project/game/workspace", vec![]),
        dir("Workspaces", "/project/game/Workspaces", vec![]),
        dir("", "/project/game/", vec![]),
    ]);
    let map = generate_sourcemap(&root);
    assert_eq!(map.children[0].class_name, "Folder");
    assert_eq!(map.children[1].class_name, "Folder");
    assert_eq!(map.children[2].class_name, "Folder");
}

#[test]
fn init_scripts_are_taken_in_priority_order() {
    let all = dir(
        "A",
        "/g/A",
        vec![
            file("init.luau", "/g/A/init.luau"),
            file("init.client.luau", "/g/A/init.client.luau"),
            file("init.server.luau", "/g/A/init.server.luau"),
        ],
    );
    let node = walk_directory(&all, "Folder").unwrap();
    assert_eq!(node.class_name, "Script");
    assert_eq!(node.file_paths, Some(vec!["/g/A/init.server.luau".to_string()]));
    assert!(node.children.is_empty());

    let two = dir(
        "B",
        "/g/B",
        vec![file("init.luau", "/g/B/init.luau"), file("init.client.luau", "/g/B/init.client.luau")],
    );
    let node = walk_directory(&two, "Folder").unwrap();
    assert_eq!(node.class_name, "LocalScript");
    assert_eq!(node.file_paths, Some(vec!["/g/B/init.client.luau".to_string()]));
}

#[test]
fn directory_named_like_an_init_script_is_no_init_script() {
    let folder = dir("A", "/g/A", vec![dir("init.luau", "/g/A/init.luau", vec![])]);
    let node = walk_directory(&folder, "Folder").unwrap();
    assert_eq!(node.class_name, "Folder");
    assert_eq!(node.file_paths, None);
    assert_eq!(names(&node.children), vec!["init.luau"]);
    assert_eq!(node.children[0].class_name, "Folder");
}

#[test]
fn children_keep_the_order_of_the_listing() {
    let folder = dir(
        "Mixed",
        "/g/Mixed",
        vec![
            file("zeta.luau", "/g/Mixed/zeta.luau"),
            dir("beta", "/g/Mixed/beta", vec![]),
            file("notes.txt", "/g/Mixed/notes.txt"),
            file("alpha.server.luau", "/g/Mixed/alpha.server.luau"),
            other("pipe", "/g/Mixed/pipe"),
            file("init.extra.luau", "/g/Mixed/init.extra.luau"),
            file("gamma.client.luau", "/g/Mixed/gamma.client.luau"),
        ],
    );
    let node = walk_directory(&folder, "Folder").unwrap();
    assert_eq!(node.class_name, "Folder");
    assert_eq!(node.file_paths, None);
    assert_eq!(names(&node.children), vec!["zeta", "beta", "alpha", "gamma"]);
    let classes: Vec<&str> = node.children.iter().map(|child| child.class_name.as_str()).collect();
    assert_eq!(classes, vec!["ModuleScript", "Folder", "Script", "LocalScript"]);
    assert_eq!(node.children[2].file_paths, Some(vec!["/g/Mixed/alpha.server.luau".to_string()]));
}

#[test]
fn nested_directories_are_walked() {
    let root = project(vec![dir(
        "ReplicatedStorage",
        "/p/game/ReplicatedStorage",
        vec![dir(
            "Outer",
            "/p/game/ReplicatedStorage/Outer",
            vec![dir(
                "Inner",
                "/p/game/ReplicatedStorage/Outer/Inner",
                vec![
                    file("init.luau", "/p/game/ReplicatedStorage/Outer/Inner/init.luau"),
                    file("Leaf.luau", "/p/game/ReplicatedStorage/Outer/Inner/Leaf.luau"),
                ],
            )],
        )],
    )]);
    let map = generate_sourcemap(&root);
    let outer = &map.children[0].children[0];
    assert_eq!(outer.name, "Outer");
    assert_eq!(outer.class_name, "Folder");
    assert_eq!(outer.file_paths, None);
    let inner = &outer.children[0];
    assert_eq!(inner.name, "Inner");
    assert_eq!(inner.class_name, "ModuleScript");
    assert_eq!(
        inner.file_paths,
        Some(vec!["/p/game/ReplicatedStorage/Outer/Inner/init.luau".to_string()])
    );
    assert_eq!(names(&inner.children), vec!["Leaf"]);
}

#[test]
fn walk_refuses_what_is_no_directory() {
    assert!(walk_directory(&file("a.luau", "/g/a.luau"), "Folder").is_none());
    assert!(walk_directory(&other("a", "/g/a"), "Folder").is_none());
}

#[test]
fn walk_keeps_the_given_class_without_init_script() {
    let node = walk_directory(&dir("Anything", "/g/Anything", vec![]), "Lighting").unwrap();
    assert_eq!(node.name, "Anything");
    assert_eq!(node.class_name, "Lighting");
    assert_eq!(node.file_paths, None);
}

#[test]
fn script_names_are_split_by_suffix() {
    assert_eq!(parse_script_name("Main.server.luau"), ("Main".to_string(), "Script".to_string()));
    assert_eq!(parse_script_name("Hud.client.luau"), ("Hud".to_string(), "LocalScript".to_string()));
    assert_eq!(parse_script_name("Utils.luau"), ("Utils".to_string(), "ModuleScript".to_string()));
    assert_eq!(parse_script_name("notes.txt"), ("notes.txt".to_string(), "Folder".to_string()));
    assert_eq!(parse_script_name(""), ("".to_string(), "Folder".to_string()));
}

#[test]
fn script_names_at_the_edges() {
    assert_eq!(parse_script_name(".luau"), ("".to_string(), "ModuleScript".to_string()));
    assert_eq!(parse_script_name(".server.luau"), ("".to_string(), "Script".to_string()));
    assert_eq!(parse_script_name("a.b.client.luau"), ("a.b".to_string(), "LocalScript".to_string()));
    assert_eq!(parse_script_name("server.luau"), ("server".to_string(), "ModuleScript".to_string()));
    assert_eq!(parse_script_name("x.Server.luau"), ("x.Server".to_string(), "ModuleScript".to_string()));
    assert_eq!(parse_script_name("Utils.luau.bak"), ("Utils.luau.bak".to_string(), "Folder".to_string()));
    assert_eq!(parse_script_name("héllo.luau"), ("héllo".to_string(), "ModuleScript".to_string()));
}
