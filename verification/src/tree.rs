//! An arena-backed tree of files and directories.

use vstd::prelude::*;

verus! {

/// A node of the tree. `parent` and `children` are positions in the arena.
#[derive(Debug)]
pub enum Node<T> where T: PartialEq {
    File { idx: i64, val: T, parent: Option<usize> },
    Dir { idx: i64, val: T, parent: Option<usize>, children: Vec<usize> },
}

/// A tree whose nodes live side by side in `arena`.
#[derive(Debug)]
pub struct Tree<T> where T: PartialEq {
    pub arena: Vec<Node<T>>,
}

impl<T> Tree<T> where T: PartialEq {
    /// The empty tree.
    pub fn new() -> (tree: Tree<T>)
        ensures
            tree.arena@.len() == 0,
    {
        Tree { arena: Vec::new() }
    }
}

impl<T> Node<T> where T: PartialEq {
    /// A file node that has not been attached to a parent yet.
    pub fn new_file(idx: i64, val: T) -> (node: Node<T>)
        ensures
            node == (Node::File { idx, val, parent: None::<usize> }),
    {
        Node::File { idx, val, parent: None }
    }
}

} // verus!
