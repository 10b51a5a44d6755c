//! The manifest: the sourcemap as the JSON document that the language
//! tooling reads.

use crate::json::{
    first_member, json_views, member_of, member_views, JsonMember, JsonValue, JsonView, MemberView,
};
use crate::sourcemap::{node_views, NodeView, SourcemapNode};
use vstd::prelude::*;

verus! {

/// The file, in the working directory, that holds the sourcemap.
pub const MANIFEST_FILE: &'static str = "sourcemap.json";

/// The documents of a node's files: one string for each path.
pub open spec fn path_documents(paths: Seq<Seq<char>>) -> Seq<JsonView> {
    Seq::new(paths.len(), |i: int| JsonView::String(paths[i]))
}

/// The documents of a sequence of nodes.
pub open spec fn node_documents(nodes: Seq<NodeView>) -> Seq<JsonView>
    decreases nodes,
{
    Seq::new(
        nodes.len(),
        |i: int|
            if 0 <= i < nodes.len() {
                node_document(nodes[i])
            } else {
                arbitrary()
            },
    )
}

/// The document that is written for a node: an object with the members
/// `name` and `className`, then `filePaths` where the node has files, then
/// `children` where it has any.
pub open spec fn node_document(node: NodeView) -> JsonView
    decreases node,
{
    let naming = seq![
        MemberView { key: "name"@, value: JsonView::String(node.name) },
        MemberView { key: "className"@, value: JsonView::String(node.class_name) },
    ];
    let files = match node.file_paths {
        Some(paths) => seq![
            MemberView { key: "filePaths"@, value: JsonView::Array(path_documents(paths)) },
        ],
        None => Seq::empty(),
    };
    let below = if node.children.len() > 0 {
        seq![
            MemberView {
                key: "children"@,
                value: JsonView::Array(node_documents(node.children)),
            },
        ]
    } else {
        Seq::empty()
    };
    JsonView::Object(naming + files + below)
}

/// A node's document names the node and its class, holds the member
/// `filePaths` exactly where the node has a list of files, and the member
/// `children` exactly where the node has children: neither is ever written
/// empty-handed as null.
pub proof fn lemma_members_follow_node(node: NodeView)
    ensures
        member_of(node_document(node), "name"@) == Some(JsonView::String(node.name)),
        member_of(node_document(node), "className"@) == Some(JsonView::String(node.class_name)),
        member_of(node_document(node), "filePaths"@) == match node.file_paths {
            Some(paths) => Some(JsonView::Array(path_documents(paths))),
            None => None,
        },
        member_of(node_document(node), "children"@) == if node.children.len() > 0 {
            Some(JsonView::Array(node_documents(node.children)))
        } else {
            None
        },
{
    reveal_strlit("name");
    reveal_strlit("className");
    reveal_strlit("filePaths");
    reveal_strlit("children");
    reveal_with_fuel(first_member, 5);
    let members = node_document(node)->Object_0;
    let second = members.drop_first();
    let third = second.drop_first();
    let fourth = third.drop_first();
    assert("name"@.len() == 4 && "className"@.len() == 9 && "filePaths"@.len() == 9
        && "children"@.len() == 8);
    assert("className"@[0] != "filePaths"@[0]);
    assert(members[0].key == "name"@);
    assert(second[0].key == "className"@);
    if node.file_paths is Some {
        assert(third[0].key == "filePaths"@);
        if node.children.len() > 0 {
            assert(fourth[0].key == "children"@);
            assert(fourth.drop_first().len() == 0);
        } else {
            assert(fourth.len() == 0);
        }
    } else {
        if node.children.len() > 0 {
            assert(third[0].key == "children"@);
            assert(fourth.len() == 0);
        } else {
            assert(third.len() == 0);
        }
    }
}

impl SourcemapNode {
    /// The document that is written for this node and the nodes below it.
    pub fn to_json(&self) -> (document: JsonValue)
        ensures
            document@ == node_document(self@),
        decreases self,
    {
        proof {
            self.lemma_view_children();
        }
        let ghost naming = seq![
            MemberView { key: "name"@, value: JsonView::String(self@.name) },
            MemberView { key: "className"@, value: JsonView::String(self@.class_name) },
        ];
        let name = JsonMember { key: "name".to_owned(), value: JsonValue::String(self.name.clone()) };
        let class_name = JsonMember {
            key: "className".to_owned(),
            value: JsonValue::String(self.class_name.clone()),
        };
        let mut members: Vec<JsonMember> = Vec::new();
        members.push(name);
        members.push(class_name);
        let ghost mut files = Seq::<MemberView>::empty();
        if let Some(paths) = &self.file_paths {
            let mut items: Vec<JsonValue> = Vec::new();
            let mut at: usize = 0;
            while at < paths.len()
                invariant
                    at <= paths@.len(),
                    self@.file_paths matches Some(listed) && listed.len() == paths@.len()
                        && json_views(items@) == path_documents(listed).take(at as int)
                        && forall|i: int| 0 <= i < paths@.len() ==> listed[i] == paths@[i]@,
                decreases paths@.len() - at,
            {
                let ghost before = json_views(items@);
                let item = JsonValue::String(paths[at].clone());
                items.push(item);
                assert(json_views(items@) =~= before.push(item@));
                at = at + 1;
            }
            let ghost listed = path_documents(self@.file_paths->0);
            assert(listed.take(at as int) =~= listed);
            let member = JsonMember { key: "filePaths".to_owned(), value: JsonValue::Array(items) };
            proof {
                files = seq![member@];
            }
            members.push(member);
        }
        let ghost mut below = Seq::<MemberView>::empty();
        if self.children.len() > 0 {
            let mut items: Vec<JsonValue> = Vec::new();
            let mut at: usize = 0;
            while at < self.children.len()
                invariant
                    at <= self.children@.len(),
                    self@.children == node_views(self.children@),
                    json_views(items@) == node_documents(self@.children).take(at as int),
                decreases self.children@.len() - at,
            {
                let ghost before = json_views(items@);
                let item = self.children[at].to_json();
                items.push(item);
                assert(json_views(items@) =~= before.push(item@));
                at = at + 1;
            }
            let ghost listed = node_documents(self@.children);
            assert(listed.take(at as int) =~= listed);
            let member = JsonMember { key: "children".to_owned(), value: JsonValue::Array(items) };
            proof {
                below = seq![member@];
            }
            members.push(member);
        }
        assert(member_views(members@) =~= naming + files + below);
        JsonValue::Object(members)
    }
}

} // verus!
