//! Questions to the signer, and its answers.

use vstd::prelude::*;

use crate::keys::PublicKey;
use crate::model::views;
use crate::tree::TreeNodeId;

verus! {

/// Asks for the keys of the children of a leaf that is to be split.
#[derive(Debug, PartialEq, Eq)]
pub struct PrepareLeafSplitKeysRequest {
    pub operation_id: String,
    pub parent_leaf_id: TreeNodeId,
    pub child_count: usize,
}

/// The view of a `PrepareLeafSplitKeysRequest`.
pub struct PrepareLeafSplitKeysRequestView {
    pub operation_id: Seq<char>,
    pub parent_leaf_id: Seq<char>,
    pub child_count: nat,
}

impl View for PrepareLeafSplitKeysRequest {
    type V = PrepareLeafSplitKeysRequestView;

    open spec fn view(&self) -> PrepareLeafSplitKeysRequestView {
        PrepareLeafSplitKeysRequestView {
            operation_id: self.operation_id@,
            parent_leaf_id: self.parent_leaf_id@,
            child_count: self.child_count as nat,
        }
    }
}

impl Clone for PrepareLeafSplitKeysRequest {
    fn clone(&self) -> (copy: Self)
        ensures
            copy == *self,
    {
        PrepareLeafSplitKeysRequest {
            operation_id: self.operation_id.clone(),
            parent_leaf_id: self.parent_leaf_id.clone(),
            child_count: self.child_count,
        }
    }
}

/// The public keys of the children of a leaf that is to be split, in order.
#[derive(Debug, PartialEq, Eq)]
pub struct PreparedLeafSplitKeys {
    pub child_public_keys: Vec<PublicKey>,
}

impl View for PreparedLeafSplitKeys {
    type V = Seq<Seq<u8>>;

    open spec fn view(&self) -> Seq<Seq<u8>> {
        views(self.child_public_keys@)
    }
}

/// Gives the prepared keys of a split to the leaves that it created, in order.
#[derive(Debug, PartialEq, Eq)]
pub struct BindLeafSplitKeysRequest {
    pub operation_id: String,
    pub child_node_ids: Vec<TreeNodeId>,
}

/// The view of a `BindLeafSplitKeysRequest`.
pub struct BindLeafSplitKeysRequestView {
    pub operation_id: Seq<char>,
    pub child_node_ids: Seq<Seq<char>>,
}

impl View for BindLeafSplitKeysRequest {
    type V = BindLeafSplitKeysRequestView;

    open spec fn view(&self) -> BindLeafSplitKeysRequestView {
        BindLeafSplitKeysRequestView {
            operation_id: self.operation_id@,
            child_node_ids: views(self.child_node_ids@),
        }
    }
}

impl Clone for BindLeafSplitKeysRequest {
    fn clone(&self) -> (copy: Self)
        ensures
            copy@ == self@,
    {
        let child_node_ids = self.child_node_ids.clone();
        assert(views(child_node_ids@) =~= views(self.child_node_ids@));
        BindLeafSplitKeysRequest { operation_id: self.operation_id.clone(), child_node_ids }
    }
}

} // verus!
