//! The data carried by the block stream: actions, block metadata, and blocks.

use vstd::prelude::*;

verus! {

/// A single action carried by a block: a tag naming what kind of action it
/// is, and the action's structured payload, held as raw text. The reader
/// never inspects either; it only moves them through.
#[derive(Debug, PartialEq, Eq)]
pub struct Action {
    pub kind: String,
    pub payload: String,
}

impl Clone for Action {
    fn clone(&self) -> (res: Self)
        ensures
            res == *self,
    {
        Action { kind: self.kind.clone(), payload: self.payload.clone() }
    }
}

/// A block's metadata: its own hash, the hash of the block it extends, its
/// position in the chain, and its timestamp in seconds since the epoch.
#[derive(Debug, PartialEq, Eq)]
pub struct BlockInfo {
    pub block_hash: String,
    pub block_number: i64,
    pub previous_block_hash: String,
    pub timestamp: i64,
}

impl Clone for BlockInfo {
    fn clone(&self) -> (res: Self)
        ensures
            res == *self,
    {
        BlockInfo {
            block_hash: self.block_hash.clone(),
            block_number: self.block_number,
            previous_block_hash: self.previous_block_hash.clone(),
            timestamp: self.timestamp,
        }
    }
}

/// A block as fetched from the chain: an ordered sequence of actions and the
/// block's metadata. Immutable once fetched.
#[derive(Debug, PartialEq, Eq)]
pub struct Block {
    pub actions: Vec<Action>,
    pub block_info: BlockInfo,
}

impl View for Block {
    type V = (BlockInfo, Seq<Action>);

    open spec fn view(&self) -> (BlockInfo, Seq<Action>) {
        (self.block_info, self.actions@)
    }
}

impl Clone for Block {
    fn clone(&self) -> (res: Self)
        ensures
            res@ == self@,
    {
        let mut actions: Vec<Action> = Vec::new();
        let mut i: usize = 0;
        while i < self.actions.len()
            invariant
                i <= self.actions.len(),
                actions@.len() == i as int,
                forall|j: int| 0 <= j < i ==> actions@[j] == self.actions@[j],
            decreases self.actions.len() - i,
        {
            actions.push(self.actions[i].clone());
            i = i + 1;
        }
        proof {
            assert(actions@ =~= self.actions@);
        }
        Block { actions, block_info: self.block_info.clone() }
    }
}

} // verus!
