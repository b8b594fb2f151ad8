//! The action reader: the block-reading and fork-resolution state machine.

use vstd::prelude::*;
use crate::action::Block;
use crate::chain::{ChainError, ChainInterface};

verus! {

/// A failure of the reader. The first three mirror the chain interface's
/// failures; `HistoryExhausted` means a fork ran deeper than the history
/// window; `InvalidSeekError` rejects a seek before the configured start.
#[derive(Clone, Copy, Debug, PartialEq, Eq)]
pub enum ReadError {
    NetworkError,
    DecodeError,
    NotFound,
    HistoryExhausted,
    InvalidSeekError,
}

impl ReadError {
    /// How each chain interface failure surfaces from the reader.
    pub open spec fn from_chain_spec(e: ChainError) -> ReadError {
        match e {
            ChainError::NetworkError => ReadError::NetworkError,
            ChainError::DecodeError => ReadError::DecodeError,
            ChainError::NotFound => ReadError::NotFound,
        }
    }

    /// Carries a chain interface failure over into a reader failure.
    pub fn from_chain(e: ChainError) -> (r: ReadError)
        ensures
            r == Self::from_chain_spec(e),
    {
        match e {
            ChainError::NetworkError => ReadError::NetworkError,
            ChainError::DecodeError => ReadError::DecodeError,
            ChainError::NotFound => ReadError::NotFound,
        }
    }
}

/// Block `b` extends the chain that ends in block `a`: it sits one position
/// later and names `a`'s hash as the hash of the block it builds on.
pub open spec fn linked(a: Block, b: Block) -> bool {
    &&& b.block_info.previous_block_hash@ == a.block_info.block_hash@
    &&& b.block_info.block_number == a.block_info.block_number + 1
}

/// The history window after `b` is appended to `h` under capacity `max`:
/// the oldest entry is evicted as soon as the window would exceed `max`.
pub open spec fn push_bounded(h: Seq<Block>, b: Block, max: int) -> Seq<Block> {
    let grown = h.push(b);
    if grown.len() > max {
        grown.subrange(grown.len() - max, grown.len() as int)
    } else {
        grown
    }
}

/// Reads a chain's blocks in order through a [`ChainInterface`], validating
/// that each delivered block extends the previous one, and rolling back
/// through a bounded history window when the chain reorganizes.
///
/// `block_history` holds the most recently validated blocks, oldest first,
/// not counting `current_block_data`, which is the newest validated block,
/// kept out of the window for direct access.
pub struct ActionReader {
    /// Where the chain lives; informational — the chain interface that uses
    /// it is passed into each call.
    pub endpoint: String,
    /// The chain's head block number as last observed; 0 means "not yet
    /// observed", and forces a refresh on the next advance.
    pub head_block_number: i64,
    /// The number of the newest delivered block; one less than the next
    /// block to fetch.
    pub current_block_number: i64,
    /// Whether the block delivered last is the earliest one this reader
    /// will ever deliver.
    pub is_first_block: bool,
    /// The newest validated block, if any block has been delivered.
    pub current_block_data: Option<Block>,
    /// The bounded window of validated blocks before the current one.
    pub block_history: Vec<Block>,
    /// The first block number this reader delivers; at or below 0 it is an
    /// offset back from the head observed on the first advance.
    pub start_at_block: i64,
    /// Whether head queries ask for the last irreversible block only.
    pub only_irreversible: bool,
    /// Capacity of `block_history`: the deepest fork that can be resolved.
    pub max_history_length: usize,
}

impl ActionReader {
    /// The reader's consistency invariant: the history window and the
    /// current block form one contiguous, hash-linked run of validated
    /// blocks, the window respects its capacity, and a current block is
    /// held whenever the window is non-empty.
    pub open spec fn wf(&self) -> bool {
        &&& self.max_history_length >= 1
        &&& self.head_block_number >= 0
        &&& self.block_history@.len() <= self.max_history_length
        &&& forall|i: int|
            #![trigger self.block_history@[i]]
            1 <= i < self.block_history@.len() ==> linked(
                self.block_history@[i - 1],
                self.block_history@[i],
            )
        &&& match self.current_block_data {
            Some(c) => {
                &&& c.block_info.block_number == self.current_block_number
                &&& self.block_history@.len() > 0 ==> linked(self.block_history@.last(), c)
            },
            None => self.block_history@.len() == 0,
        }
    }

    /// A reader configured from scratch: it has observed nothing yet, and
    /// will deliver its first block at `start_at_block` — or, when that is
    /// at or below 0, that many blocks before the head it first observes.
    pub fn new(
        endpoint: String,
        start_at_block: i64,
        only_irreversible: bool,
        max_history_length: usize,
    ) -> (r: ActionReader)
        requires
            max_history_length >= 1,
        ensures
            r.wf(),
            r.endpoint@ == endpoint@,
            r.head_block_number == 0,
            r.current_block_number == if start_at_block >= 1 {
                (start_at_block - 1) as int
            } else {
                start_at_block as int
            },
            r.is_first_block == true,
            r.current_block_data is None,
            r.block_history@.len() == 0,
            r.start_at_block == start_at_block,
            r.only_irreversible == only_irreversible,
            r.max_history_length == max_history_length,
    {
        let current_block_number: i64 = if start_at_block >= 1 {
            start_at_block - 1
        } else {
            start_at_block
        };
        ActionReader {
            endpoint,
            head_block_number: 0,
            current_block_number,
            is_first_block: true,
            current_block_data: None,
            block_history: Vec::new(),
            start_at_block,
            only_irreversible,
            max_history_length,
        }
    }

    /// Walks the history window from newest to oldest, re-fetching the
    /// block the chain now reports at each entry's number, and answers the
    /// position of the newest entry whose hash still matches — the last
    /// block of ours that is still canonical. Read-only: committing the
    /// rollback it finds is [`Self::next_block`]'s job.
    ///
    /// Fails with `HistoryExhausted` when no entry matches (in particular
    /// when the window is empty), or with the chain's own failure if a
    /// probe fails.
    pub fn resolve_fork<C: ChainInterface>(&self, chain: &C) -> (r: Result<usize, ReadError>)
        ensures
            r matches Ok(i) ==> i < self.block_history@.len(),
            self.block_history@.len() == 0 ==> r == Err::<usize, ReadError>(
                ReadError::HistoryExhausted,
            ),
            r matches Err(e) ==> e != ReadError::InvalidSeekError,
    {
        let mut j: usize = self.block_history.len();
        while j > 0
            invariant
                j <= self.block_history@.len(),
            decreases j,
        {
            j = j - 1;
            let entry_number = self.block_history[j].block_info.block_number;
            match chain.get_block(entry_number) {
                Ok(probe) => {
                    if probe.block_info.block_hash == self.block_history[j].block_info.block_hash {
                        return Ok(j);
                    }
                },
                Err(e) => {
                    return Err(ReadError::from_chain(e));
                },
            }
        }
        Err(ReadError::HistoryExhausted)
    }

    /// Advances the stream by one block, or reports that it is already at
    /// the chain's head. Returns the delivered block together with
    /// `(is_rollback, is_new_block)`:
    ///
    /// - `(_, false, false)`: a no-op poll — the reader is at the head, and
    ///   the unchanged current block is handed back;
    /// - `(_, false, true)`: a validated advance — the delivered block
    ///   extends the one delivered before it;
    /// - `(_, true, true)`: a rollback — the chain reorganized, and the
    ///   delivered block is the newest one still canonical; the caller must
    ///   undo effects back to it.
    ///
    /// A fetched block is adopted only if it names the current block's hash
    /// as its predecessor's — or, when nothing has been delivered yet,
    /// unconditionally (bootstrap trust). A block whose reported number is
    /// not the one asked for is rejected as a malformed response. Every
    /// call commits fully or not at all: on any error the reader is exactly
    /// as it was.
    pub fn next_block<C: ChainInterface>(&mut self, chain: &C) -> (r: Result<
        (Block, bool, bool),
        ReadError,
    >)
        requires
            old(self).wf(),
        ensures
            final(self).wf(),
            final(self).endpoint == old(self).endpoint,
            final(self).only_irreversible == old(self).only_irreversible,
            final(self).max_history_length == old(self).max_history_length,
            // commit-or-nothing: a failed call changes nothing at all
            r matches Err(e) ==> *final(self) == *old(self) && e != ReadError::InvalidSeekError,
            // a poll strictly above an already-observed head consults
            // nothing that could fail, so success is owed
            old(self).head_block_number != 0 && old(self).current_block_number > old(
                self,
            ).head_block_number && old(self).current_block_data is Some ==> r matches Ok(_t),
            r matches Ok(t) ==> ({
                let s0 = *old(self);
                let s1 = *final(self);
                let (block, is_rollback, is_new_block) = t;
                // what is delivered is the (new) current block, at the current position
                &&& s1.current_block_data matches Some(c) && block@ == c@
                    && c.block_info.block_number == s1.current_block_number
                &&& s1.is_first_block == (s1.current_block_number == s1.start_at_block)
                // only a position at or above the recorded head may be
                // reported as a no-op, and an advance never passes the head
                &&& !is_new_block ==> s1.current_block_number >= s1.head_block_number
                &&& is_new_block && !is_rollback ==> s1.current_block_number
                    <= s1.head_block_number
                // a no-op poll at the head: nothing observable moves
                &&& !is_new_block ==> {
                    &&& !is_rollback
                    &&& s1.current_block_data == s0.current_block_data
                    &&& s1.block_history == s0.block_history
                    &&& s1.current_block_number == s0.current_block_number
                    &&& s1.start_at_block == s0.start_at_block
                }
                // a validated advance from a held block: the position moves
                // by exactly one, the delivered block extends the previous
                // one, and the previous one enters the history window
                &&& s0.current_block_data matches Some(c0) ==> (is_new_block && !is_rollback
                    ==> {
                    &&& s1.current_block_number == s0.current_block_number + 1
                    &&& linked(c0, s1.current_block_data.unwrap())
                    &&& s1.block_history@ == push_bounded(
                        s0.block_history@,
                        c0,
                        s0.max_history_length as int,
                    )
                    &&& s1.start_at_block == s0.start_at_block
                })
                // a bootstrap advance: nothing was held, so the fetched
                // block is trusted; a configured negative start is resolved
                // against the head observed on this very call
                &&& is_new_block && !is_rollback && s0.current_block_data is None ==> {
                    &&& s1.block_history@ == s0.block_history@
                    &&& s0.current_block_number >= 0 ==> s1.current_block_number
                        == s0.current_block_number + 1 && s1.start_at_block == s0.start_at_block
                    &&& s0.current_block_number < 0 ==> s1.current_block_number
                        == s1.head_block_number + s0.current_block_number + 1 && s1.start_at_block
                        == s1.current_block_number && s1.is_first_block
                }
                // a rollback: the new current block is some entry of the old
                // history window, and everything newer than it is dropped
                &&& is_rollback ==> {
                    &&& is_new_block
                    &&& s0.block_history@.len() > 0
                    &&& s0.current_block_data matches Some(_c0)
                    &&& s1.start_at_block == s0.start_at_block
                    &&& exists|i: int|
                        0 <= i < s0.block_history@.len() && s1.current_block_data == Some(
                            #[trigger] s0.block_history@[i],
                        ) && s1.block_history@ == s0.block_history@.subrange(0, i)
                            && s1.current_block_number
                            == s0.block_history@[i].block_info.block_number
                }
            }),
    {
        // step a: refresh the head when sitting at it, or when it is unset
        let mut head: i64 = self.head_block_number;
        if self.current_block_number == head || head == 0 {
            match chain.get_head_block_number(self.only_irreversible) {
                Ok(h) => {
                    if h < 0 {
                        // a negative head is a malformed answer
                        return Err(ReadError::DecodeError);
                    }
                    head = h;
                },
                Err(e) => {
                    return Err(ReadError::from_chain(e));
                },
            }
        }
        // step b: before anything is delivered, a negative position is an
        // offset back from the head that has just been observed
        let mut current_number: i64 = self.current_block_number;
        let mut start_at: i64 = self.start_at_block;
        if current_number < 0 && self.current_block_data.is_none() {
            current_number = head + current_number;
            start_at = current_number + 1;
        }
        // step c: behind the head — fetch the next block and validate it
        if current_number < head {
            let next_number = current_number + 1;
            let candidate = match chain.get_block(next_number) {
                Ok(b) => b,
                Err(e) => {
                    return Err(ReadError::from_chain(e));
                },
            };
            if candidate.block_info.block_number != next_number {
                // the chain answered with some other block than asked for
                return Err(ReadError::DecodeError);
            }
            let extends_current = match &self.current_block_data {
                Some(c) => candidate.block_info.previous_block_hash == c.block_info.block_hash,
                None => true,
            };
            if extends_current {
                // commit the validated advance
                let previous = self.current_block_data.take();
                if let Some(p) = previous {
                    self.block_history.push(p);
                    if self.block_history.len() > self.max_history_length {
                        let _evicted = self.block_history.remove(0);
                    }
                }
                let delivered = candidate.clone();
                self.current_block_data = Some(candidate);
                self.current_block_number = next_number;
                self.head_block_number = head;
                self.start_at_block = start_at;
                self.is_first_block = next_number == start_at;
                Ok((delivered, false, true))
            } else {
                // the fetched block does not extend what we hold: a fork;
                // find the newest still-canonical history entry, learn where
                // the head has moved, and only then commit the rollback
                let index = match self.resolve_fork(chain) {
                    Ok(i) => i,
                    Err(e) => {
                        return Err(e);
                    },
                };
                let new_head = match chain.get_head_block_number(self.only_irreversible) {
                    Ok(h) => {
                        if h < 0 {
                            return Err(ReadError::DecodeError);
                        }
                        h
                    },
                    Err(e) => {
                        return Err(ReadError::from_chain(e));
                    },
                };
                self.block_history.truncate(index + 1);
                let resolved = self.block_history.pop().unwrap();
                let delivered = resolved.clone();
                self.current_block_number = resolved.block_info.block_number;
                self.current_block_data = Some(resolved);
                self.head_block_number = new_head;
                self.is_first_block = self.current_block_number == start_at;
                Ok((delivered, true, true))
            }
        } else {
            // step e: at the head — a legitimate no-op poll
            if let Some(c) = &self.current_block_data {
                let delivered = c.clone();
                self.head_block_number = head;
                self.is_first_block = self.current_block_number == start_at;
                Ok((delivered, false, false))
            } else {
                // nothing has been delivered and the chain offers nothing
                Err(ReadError::NotFound)
            }
        }
    }

    /// Moves the reader so that the next delivered block is `block_number`.
    /// The cached head is invalidated, forcing a refresh on the next
    /// advance. Seeking to block 1 starts the stream over. Otherwise the
    /// history window is searched for the target: if it is there, the
    /// target and everything newer are dropped and the entry before it —
    /// if any — becomes current again, so the re-fetched target is
    /// validated against it; if it is not, the whole window is dropped and
    /// the next fetched block is trusted without backward validation, as at
    /// bootstrap.
    ///
    /// Fails with `InvalidSeekError`, changing nothing, exactly when the
    /// target precedes the configured start.
    pub fn seek_to_block(&mut self, block_number: i64) -> (r: Result<(), ReadError>)
        requires
            old(self).wf(),
            block_number > i64::MIN,
        ensures
            final(self).wf(),
            r matches Err(e) ==> e == ReadError::InvalidSeekError && *final(self) == *old(self)
                && block_number < old(self).start_at_block,
            block_number < old(self).start_at_block ==> r matches Err(_e),
            r matches Ok(_u) ==> ({
                let s0 = *old(self);
                let s1 = *final(self);
                &&& s1.endpoint == s0.endpoint
                &&& s1.head_block_number == 0
                &&& s1.start_at_block == s0.start_at_block
                &&& s1.only_irreversible == s0.only_irreversible
                &&& s1.max_history_length == s0.max_history_length
                &&& s1.is_first_block == s0.is_first_block
                // starting over: nothing is held, position before block 1
                &&& block_number == 1 ==> s1.block_history@.len() == 0
                    && s1.current_block_data is None && s1.current_block_number == 0
                &&& block_number != 1 ==> ({
                    &&& s1.current_block_number == block_number - 1
                    // the target was in the window: it and everything newer
                    // are gone, and its predecessor, if any, is current
                    &&& (exists|i: int|
                        0 <= i < s0.block_history@.len()
                            && (#[trigger] s0.block_history@[i]).block_info.block_number
                            == block_number) ==> exists|i: int|
                        {
                            &&& 0 <= i < s0.block_history@.len()
                            &&& (#[trigger] s0.block_history@[i]).block_info.block_number
                                == block_number
                            &&& i == 0 ==> s1.block_history@.len() == 0
                                && s1.current_block_data is None
                            &&& i > 0 ==> s1.block_history@ == s0.block_history@.subrange(0, i - 1)
                                && s1.current_block_data == Some(s0.block_history@[i - 1])
                        }
                    // the target was not in the window: a cold seek — the
                    // window is cleared and nothing is current
                    &&& (forall|i: int|
                        0 <= i < s0.block_history@.len()
                            ==> (#[trigger] s0.block_history@[i]).block_info.block_number
                            != block_number) ==> s1.block_history@.len() == 0
                        && s1.current_block_data is None
                })
            }),
    {
        if block_number < self.start_at_block {
            return Err(ReadError::InvalidSeekError);
        }
        self.head_block_number = 0;
        if block_number == 1 {
            self.block_history.clear();
            self.current_block_data = None;
            self.current_block_number = 0;
            return Ok(());
        }
        // search the window, newest first, for the seek target
        let mut j: usize = self.block_history.len();
        let mut found: bool = false;
        let mut found_index: usize = 0;
        while j > 0 && !found
            invariant
                j <= self.block_history@.len(),
                !found ==> forall|k: int|
                    j <= k < self.block_history@.len()
                        ==> (#[trigger] self.block_history@[k]).block_info.block_number
                        != block_number,
                found ==> found_index < self.block_history@.len()
                    && self.block_history@[found_index as int].block_info.block_number
                    == block_number,
            decreases j,
        {
            j = j - 1;
            if self.block_history[j].block_info.block_number == block_number {
                found = true;
                found_index = j;
            }
        }
        if found {
            // drop the target and everything after it; what was just before
            // it, if anything, becomes the current block again
            self.block_history.truncate(found_index);
            self.current_block_data = self.block_history.pop();
        } else {
            // cold seek: the window cannot vouch for the target's
            // predecessor, so the next fetched block is taken on trust
            self.block_history.clear();
            self.current_block_data = None;
        }
        self.current_block_number = block_number - 1;
        Ok(())
    }
}

impl Default for ActionReader {
    /// The prototype configuration: a local node, an absolute start at
    /// block 1, reversible blocks included, and a window of 600 blocks.
    fn default() -> (r: ActionReader)
        ensures
            r.wf(),
            r.endpoint@ == "http://127.0.0.1:8888"@,
            r.head_block_number == 0,
            r.current_block_number == 0,
            r.is_first_block == true,
            r.current_block_data is None,
            r.block_history@.len() == 0,
            r.start_at_block == 1,
            r.only_irreversible == false,
            r.max_history_length == 600,
    {
        ActionReader::new("http://127.0.0.1:8888".to_owned(), 1, false, 600)
    }
}

} // verus!


