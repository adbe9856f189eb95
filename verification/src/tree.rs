//! Nodes of the leaf tree.

use vstd::prelude::*;

use crate::keys::PublicKey;
use crate::transaction::{Transaction, TransactionView};

verus! {

/// The id of a node of the tree.
#[derive(Debug, PartialEq, Eq)]
pub struct TreeNodeId {
    pub id: String,
}

impl View for TreeNodeId {
    type V = Seq<char>;

    open spec fn view(&self) -> Seq<char> {
        self.id@
    }
}

impl Clone for TreeNodeId {
    fn clone(&self) -> (copy: Self)
        ensures
            copy == *self,
    {
        TreeNodeId { id: self.id.clone() }
    }
}

/// Whether a list of ids holds an id.
pub fn contains_id(ids: &Vec<TreeNodeId>, id: &TreeNodeId) -> (found: bool)
    ensures
        found == crate::model::views(ids@).contains(id@),
        found <==> exists|i: int| 0 <= i < ids@.len() && (#[trigger] ids@[i])@ == id@,
{
    let mut i: usize = 0;
    while i < ids.len()
        invariant
            i <= ids@.len(),
            forall|j: int| 0 <= j < i ==> (#[trigger] ids@[j])@ != id@,
        decreases ids@.len() - i,
    {
        if ids[i].id == id.id {
            assert(crate::model::views(ids@)[i as int] == id@);
            return true;
        }
        i = i + 1;
    }
    false
}

/// What may be done with a leaf.
#[derive(Debug, PartialEq, Eq, Clone, Copy, Structural)]
pub enum TreeNodeStatus {
    /// Free to spend or split.
    Available,
    /// Anything else: locked, spent, exited or still being created.
    Unavailable,
}

/// A node of the tree, as far as the wallet's decisions look into it.
#[derive(Debug, PartialEq, Eq)]
pub struct TreeNode {
    pub id: TreeNodeId,
    pub value: u64,
    pub status: TreeNodeStatus,
    pub verifying_public_key: PublicKey,
    pub node_tx: Transaction,
}

impl Clone for TreeNode {
    fn clone(&self) -> (copy: Self)
        ensures
            copy@ == self@,
    {
        TreeNode {
            id: self.id.clone(),
            value: self.value,
            status: self.status,
            verifying_public_key: self.verifying_public_key,
            node_tx: self.node_tx.clone(),
        }
    }
}

/// The view of a `TreeNode`.
pub struct TreeNodeView {
    pub id: Seq<char>,
    pub value: u64,
    pub status: TreeNodeStatus,
    pub verifying_public_key: Seq<u8>,
    pub node_tx: TransactionView,
}

impl View for TreeNode {
    type V = TreeNodeView;

    open spec fn view(&self) -> TreeNodeView {
        TreeNodeView {
            id: self.id@,
            value: self.value,
            status: self.status,
            verifying_public_key: self.verifying_public_key@,
            node_tx: self.node_tx@,
        }
    }
}

} // verus!
