//! A tree of names, as the deployed files of a state form one.
//!
//! The entries of a state are spread over its host and groups. To see which
//! files a deployment has left behind, its entries are to be laid out as the
//! one tree that they form on the target system. This is the tree and the
//! way into it; nothing lays entries out in it yet.

use vstd::prelude::*;

use crate::state::directory::Directory;
use crate::state::State;
use crate::text::texts;

verus! {

/// A node of the tree: a directory with named nodes in it, or a file.
#[derive(Debug)]
pub enum Node {
    Directory(Vec<(String, Node)>),
    File(String),
}

/// The mathematical value of a [`Node`].
pub enum NodeView {
    Directory(Seq<(Seq<char>, NodeView)>),
    File(Seq<char>),
}

/// The value of a node.
pub open spec fn node_view(node: Node) -> NodeView
    decreases node,
{
    match node {
        Node::File(name) => NodeView::File(name@),
        Node::Directory(children) => NodeView::Directory(
            Seq::new(
                children@.len(),
                |i: int|
                    if 0 <= i < children@.len() {
                        (children@[i].0@, node_view(children@[i].1))
                    } else {
                        arbitrary()
                    },
            ),
        ),
    }
}

impl View for Node {
    type V = NodeView;

    open spec fn view(&self) -> NodeView {
        node_view(*self)
    }
}

/// The names and values of the nodes in a directory.
pub open spec fn children_view(children: Seq<(String, Node)>) -> Seq<(Seq<char>, NodeView)> {
    Seq::new(children.len(), |i: int| (children[i].0@, children[i].1@))
}

/// The value of a directory is made of the values of the nodes in it.
pub proof fn lemma_directory_view(children: Vec<(String, Node)>)
    ensures
        Node::Directory(children)@ == NodeView::Directory(children_view(children@)),
{
    let view = node_view(Node::Directory(children));
    assert(view->Directory_0 =~= children_view(children@));
}

/// The place of the first node of a name among those from `from` on.
pub open spec fn position(children: Seq<(Seq<char>, NodeView)>, name: Seq<char>, from: int) -> Option<
    int,
>
    decreases children.len() - from,
{
    if from < 0 || from >= children.len() {
        None
    } else if children[from].0 == name {
        Some(from)
    } else {
        position(children, name, from + 1)
    }
}

/// The place that is found holds a node of the name.
pub proof fn lemma_position(children: Seq<(Seq<char>, NodeView)>, name: Seq<char>, from: int)
    requires
        0 <= from,
    ensures
        position(children, name, from) matches Some(place) ==> from <= place < children.len()
            && children[place].0 == name,
    decreases children.len() - from,
{
    if from < children.len() && children[from].0 != name {
        lemma_position(children, name, from + 1);
    }
}

/// The node that a path leads to from a node, name after name. A path
/// leads nowhere where a name is missing, or where it tries to pass through a
/// file.
pub open spec fn node_at(node: NodeView, parts: Seq<Seq<char>>) -> Option<NodeView>
    decreases parts.len(),
{
    if parts.len() == 0 {
        Some(node)
    } else {
        match node {
            NodeView::File(_) => None,
            NodeView::Directory(children) => match position(children, parts[0], 0) {
                Some(place) => node_at(children[place].1, parts.skip(1)),
                None => None,
            },
        }
    }
}

/// A node with every directory in it that a path needs. Directories that
/// are there stay as they are, those that are missing are added, empty, at
/// the end of their directory. There is no such node where the path tries to
/// pass through a file.
pub open spec fn with_path(node: NodeView, parts: Seq<Seq<char>>) -> Option<NodeView>
    decreases parts.len(),
{
    if parts.len() == 0 {
        Some(node)
    } else {
        match node {
            NodeView::File(_) => None,
            NodeView::Directory(children) => match position(children, parts[0], 0) {
                Some(place) => match with_path(children[place].1, parts.skip(1)) {
                    Some(child) => Some(
                        NodeView::Directory(children.update(place, (parts[0], child))),
                    ),
                    None => None,
                },
                None => match with_path(NodeView::Directory(Seq::empty()), parts.skip(1)) {
                    Some(child) => Some(NodeView::Directory(children.push((parts[0], child)))),
                    None => None,
                },
            },
        }
    }
}

/// The tree of the files that a state deploys.
#[derive(Debug)]
pub struct Tree {
    pub root: Node,
}

impl View for Tree {
    type V = NodeView;

    open spec fn view(&self) -> NodeView {
        self.root@
    }
}

/// The place of the first node of a name in a directory.
fn find_child(children: &Vec<(String, Node)>, name: &String) -> (place: Option<usize>)
    ensures
        match place {
            Some(place) => position(children_view(children@), name@, 0) == Some(place as int)
                && place < children.len(),
            None => position(children_view(children@), name@, 0) is None,
        },
{
    let mut at: usize = 0;
    while at < children.len()
        invariant
            at <= children.len(),
            position(children_view(children@), name@, at as int) == position(
                children_view(children@),
                name@,
                0,
            ),
        decreases children.len() - at,
    {
        if children[at].0 == *name {
            return Some(at);
        }
        at += 1;
    }
    None
}

/// The node that the names from `at` on lead to.
fn get_node_inner<'a>(sub_tree: &'a Node, parts: &Vec<String>, at: usize) -> (found: Option<&'a Node>)
    requires
        at <= parts.len(),
    ensures
        match node_at(sub_tree@, texts(parts@).skip(at as int)) {
            Some(node) => found matches Some(found) && found@ == node,
            None => found is None,
        },
    decreases parts.len() - at,
{
    let ghost rest = texts(parts@).skip(at as int);
    if at >= parts.len() {
        return Some(sub_tree);
    }
    proof {
        assert(rest[0] == parts@[at as int]@);
        assert(rest.skip(1) =~= texts(parts@).skip(at + 1));
    }
    match sub_tree {
        Node::File(_) => None,
        Node::Directory(children) => {
            proof {
                lemma_directory_view(*children);
            }
            match find_child(children, &parts[at]) {
                Some(place) => get_node_inner(&children[place].1, parts, at + 1),
                None => None,
            }
        },
    }
}

/// The node with every directory in it that the names from `at` on need,
/// and whether there is one: the node itself where there is not.
fn create_nodes_inner(sub_tree: Node, parts: &Vec<String>, at: usize) -> (made: (Node, bool))
    requires
        at <= parts.len(),
    ensures
        match with_path(sub_tree@, texts(parts@).skip(at as int)) {
            Some(node) => made.1 && made.0@ == node,
            None => !made.1 && made.0@ == sub_tree@,
        },
    decreases parts.len() - at,
{
    let ghost rest = texts(parts@).skip(at as int);
    if at >= parts.len() {
        return (sub_tree, true);
    }
    proof {
        assert(rest[0] == parts@[at as int]@);
        assert(rest.skip(1) =~= texts(parts@).skip(at + 1));
    }
    match sub_tree {
        Node::File(name) => (Node::File(name), false),
        Node::Directory(children) => {
            let mut children = children;
            let ghost before = children_view(children@);
            proof {
                lemma_directory_view(children);
            }
            match find_child(&children, &parts[at]) {
                Some(place) => {
                    proof {
                        lemma_position(before, rest[0], 0);
                    }
                    let ghost all = children@;
                    let (name, child) = children.remove(place);
                    let ghost old_child = child@;
                    let ghost others = children@;
                    let (child, made) = create_nodes_inner(child, parts, at + 1);
                    let ghost new_child = child@;
                    children.insert(place, (name, child));
                    proof {
                        lemma_directory_view(children);
                        assert(name@ == rest[0]);
                        assert forall|i: int| 0 <= i < all.len() implies children_view(
                            children@,
                        )[i] == before.update(place as int, (rest[0], new_child))[i] by {
                            if i < place {
                                assert(children@[i] == others[i]);
                                assert(others[i] == all[i]);
                            } else if i > place {
                                assert(children@[i] == others[i - 1]);
                                assert(others[i - 1] == all[i]);
                            }
                        }
                        assert(children_view(children@) =~= before.update(
                            place as int,
                            (rest[0], new_child),
                        ));
                        if !made {
                            assert(before.update(place as int, (rest[0], old_child)) =~= before);
                        }
                    }
                    (Node::Directory(children), made)
                },
                None => {
                    let empty: Vec<(String, Node)> = Vec::new();
                    proof {
                        lemma_directory_view(empty);
                        assert(children_view(empty@) =~= Seq::empty());
                    }
                    let (child, made) = create_nodes_inner(Node::Directory(empty), parts, at + 1);
                    if made {
                        let ghost new_child = child@;
                        children.push((parts[at].clone(), child));
                        proof {
                            lemma_directory_view(children);
                            assert(children_view(children@) =~= before.push((rest[0], new_child)));
                        }
                    }
                    (Node::Directory(children), made)
                },
            }
        },
    }
}

impl Tree {
    /// The tree of a state. It starts out as an empty directory: the
    /// entries of the state are not laid out in it.
    pub fn from_state(state: &State) -> (tree: Tree)
        ensures
            tree@ == NodeView::Directory(Seq::empty()),
    {
        let root: Vec<(String, Node)> = Vec::new();
        proof {
            lemma_directory_view(root);
            assert(children_view(root@) =~= Seq::empty());
        }
        let mut tree = Tree { root: Node::Directory(root) };
        tree.add_directory(&state.host.directory);
        let mut index: usize = 0;
        while index < state.host.groups.len()
            invariant
                tree@ == NodeView::Directory(Seq::empty()),
            decreases state.host.groups.len() - index,
        {
            tree.add_directory(&state.host.groups[index].directory);
            index += 1;
        }
        tree
    }

    /// Takes note of a directory of a state. Nothing of it is kept so far.
    pub fn add_directory(&mut self, dir: &Directory)
        ensures
            final(self)@ == old(self)@,
    {
    }

    /// The node at a path, given name by name; `None` where the path leads nowhere.
    pub fn get_node(&self, parts: &Vec<String>) -> (found: Option<&Node>)
        ensures
            match node_at(self@, texts(parts@)) {
                Some(node) => found matches Some(found) && found@ == node,
                None => found is None,
            },
    {
        proof {
            assert(texts(parts@).skip(0) =~= texts(parts@));
        }
        get_node_inner(&self.root, parts, 0)
    }

    /// Makes every directory that a path, given name by name, needs, and
    /// says whether that could be done. It cannot where a file stands in the
    /// way; the tree is then left as it is.
    pub fn create_nodes(&mut self, parts: &Vec<String>) -> (made: bool)
        ensures
            match with_path(old(self)@, texts(parts@)) {
                Some(node) => made && final(self)@ == node,
                None => !made && final(self)@ == old(self)@,
            },
    {
        proof {
            assert(texts(parts@).skip(0) =~= texts(parts@));
        }
        let mut root = Node::File(String::new());
        core::mem::swap(&mut self.root, &mut root);
        let (root, made) = create_nodes_inner(root, parts, 0);
        self.root = root;
        made
    }
}

} // verus!
