//! The node: its chain, its identity, and how it reacts to each event.

use vstd::prelude::*;

use crate::block::{hash_input, meets_difficulty, unminable, unminable_at, Block};
use crate::digest::{hex_chars, sha256_of};
use crate::command::{create_payload, parse_command, Command};
use crate::fork_choice::{is_better_than, local_preferred};
use crate::tetherion::{block_check, InvalidBlockError, Tetherion};

verus! {

/// The topic that chain requests and responses travel on.
pub const CHAIN_TOPIC: &'static str = "chains";

/// The topic that new blocks travel on.
pub const BLOCK_TOPIC: &'static str = "blocks";

/// A peer asks the node named `from_peer_id` for its chain.
#[derive(Debug)]
pub struct LocalChainRequest {
    pub from_peer_id: String,
}

/// A chain sent to the peer named `receiver`.
#[derive(Debug)]
pub struct ChainResponse {
    pub tetherion: Tetherion<String>,
    pub receiver: String,
}

/// A local event for the node.
#[derive(Debug)]
pub enum EventType {
    /// A response that the node queued earlier, now to be sent.
    LocalChainResponse(ChainResponse),
    /// A line from the operator.
    Input(String),
    /// The node has started listening and peers may be known.
    Init,
}

/// A message from the network, decoded.
#[derive(Debug)]
pub enum Message {
    Response(ChainResponse),
    Request(LocalChainRequest),
    NewBlock(Block<String>),
}

/// What the node asks its surroundings to do after an event.
#[derive(Debug)]
pub enum Action {
    /// Nothing to do.
    Nothing,
    /// Publish a chain request on the chains topic.
    PublishRequest(LocalChainRequest),
    /// Queue a response, to come back later as an event.
    QueueResponse(ChainResponse),
    /// Publish a response on the chains topic.
    PublishResponse(ChainResponse),
    /// Publish a newly mined block on the blocks topic.
    PublishBlock(Block<String>),
    /// Print the known peers.
    PrintPeers,
    /// Print the local chain.
    PrintChain,
    /// A block was turned down, for the reason given.
    Rejected(InvalidBlockError),
    /// The operator's line was not understood.
    UnknownCommand,
}

/// What the node does with an operator's line: the command is read by
/// `parse_command`; only `create b` touches the chain, and only by appending
/// the block it mined and hands back.
pub open spec fn input_outcome(before: App, after: App, line: Seq<char>, r: Action) -> bool {
    let last = before.spec_tetherion().spec_blocks().last();
    let creates = line != "ls p"@ && !"ls c"@.is_prefix_of(line) && "create b"@.is_prefix_of(line);
    &&& after.wf()
    &&& after.spec_peer_id() == before.spec_peer_id()
    &&& (r is PrintPeers <==> line == "ls p"@)
    &&& (r is PrintChain <==> line != "ls p"@ && "ls c"@.is_prefix_of(line))
    &&& (r is PublishBlock || r is Rejected <==> creates)
    &&& (r is UnknownCommand <==> line != "ls p"@ && !"ls c"@.is_prefix_of(line)
        && !"create b"@.is_prefix_of(line))
    &&& (!(r is PublishBlock) ==> after.spec_tetherion() == before.spec_tetherion())
    &&& (r matches Action::PublishBlock(b) ==> {
        &&& b.id == last.id + 1
        &&& b.previous_hash@ == last.hash@
        &&& b.data@ == create_payload(line)
        &&& b.mined(before.spec_tetherion().spec_difficulty() as nat)
        &&& b.is_valid_spec(before.spec_tetherion().spec_difficulty())
        &&& after.spec_tetherion().spec_blocks() == before.spec_tetherion().spec_blocks().push(b)
    })
    &&& (creates && last.id < u64::MAX && before.spec_tetherion().spec_difficulty() == 0
        ==> r is PublishBlock)
    &&& (r matches Action::Rejected(InvalidBlockError::InvalidDifficulty { .. }) ==> unminable(
        (last.id + 1) as u64,
        last.hash@,
        create_payload(line),
        before.spec_tetherion().spec_difficulty() as nat,
    ))
    &&& (r matches Action::Rejected(e) ==> if last.id == u64::MAX {
        e == InvalidBlockError::InvalidBlockId { id: 0, previous_id: u64::MAX }
    } else {
        e == InvalidBlockError::InvalidDifficulty {
            id: (last.id + 1) as u64,
            difficulty: before.spec_tetherion().spec_difficulty(),
        }
    })
}

/// A node: its identity and the chain it holds, which is always valid.
pub struct App {
    tetherion: Tetherion<String>,
    peer_id: String,
}

impl App {
    pub closed spec fn spec_tetherion(&self) -> Tetherion<String> {
        self.tetherion
    }

    pub closed spec fn spec_peer_id(&self) -> Seq<char> {
        self.peer_id@
    }

    /// The node's chain is never empty and always valid.
    pub open spec fn wf(&self) -> bool {
        self.spec_tetherion().wf() && self.spec_tetherion().valid()
    }

    /// A node named `peer_id` holding a freshly mined genesis block.
    pub fn new(peer_id: String, genesis_data: String, difficulty: usize) -> (r: Self)
        ensures
            r.wf(),
            r.spec_peer_id() == peer_id@,
            r.spec_tetherion().spec_blocks().len() == 1,
            r.spec_tetherion().spec_blocks()[0].data == genesis_data,
            r.spec_tetherion().spec_blocks()[0].id == 0,
            r.spec_tetherion().spec_blocks()[0].previous_hash@ == "genesis"@,
            r.spec_tetherion().spec_blocks()[0].hash@.len() == 64,
            r.spec_tetherion().spec_blocks()[0].mined(difficulty as nat),
            r.spec_tetherion().spec_difficulty() == difficulty,
    {
        App { tetherion: Tetherion::new(genesis_data, difficulty), peer_id }
    }

    /// The chain the node holds.
    pub fn tetherion(&self) -> (r: &Tetherion<String>)
        ensures
            *r == self.spec_tetherion(),
    {
        &self.tetherion
    }

    /// The node's own identity.
    pub fn peer_id(&self) -> (r: &String)
        ensures
            r@ == self.spec_peer_id(),
    {
        &self.peer_id
    }

    /// Appends a block received from the network, if it follows the last one.
    pub fn try_add_block(&mut self, block: Block<String>) -> (r: Result<(), InvalidBlockError>)
        requires
            old(self).wf(),
        ensures
            final(self).wf(),
            final(self).spec_peer_id() == old(self).spec_peer_id(),
            r == block_check(
                old(self).spec_tetherion().spec_blocks().last(),
                block,
                old(self).spec_tetherion().spec_difficulty(),
            ),
            r is Ok ==> final(self).spec_tetherion().spec_blocks() == old(
                self,
            ).spec_tetherion().spec_blocks().push(block),
            r is Err ==> final(self).spec_tetherion() == old(self).spec_tetherion(),
            final(self).spec_tetherion().spec_difficulty() == old(
                self,
            ).spec_tetherion().spec_difficulty(),
    {
        let r = self.tetherion.add_block(block);
        proof {
            if r is Err {
                assert(self.tetherion == old(self).tetherion);
            }
        }
        r
    }

    /// Mines a block carrying `data` on top of the last block and appends it.
    /// On success the block is handed back, to be published.
    pub fn create_block(&mut self, data: String) -> (r: Result<Block<String>, InvalidBlockError>)
        requires
            old(self).wf(),
        ensures
            final(self).wf(),
            final(self).spec_peer_id() == old(self).spec_peer_id(),
            final(self).spec_tetherion().spec_difficulty() == old(
                self,
            ).spec_tetherion().spec_difficulty(),
            r is Err ==> final(self).spec_tetherion() == old(self).spec_tetherion(),
            r matches Ok(b) ==> {
                let last = old(self).spec_tetherion().spec_blocks().last();
                &&& b.id == last.id + 1
                &&& b.previous_hash@ == last.hash@
                &&& b.data == data
                &&& b.mined(old(self).spec_tetherion().spec_difficulty() as nat)
                &&& b.is_valid_spec(old(self).spec_tetherion().spec_difficulty())
                &&& final(self).spec_tetherion().spec_blocks() == old(
                    self,
                ).spec_tetherion().spec_blocks().push(b)
            },
            old(self).spec_tetherion().spec_blocks().last().id == u64::MAX ==> r == Err::<
                Block<String>,
                InvalidBlockError,
            >(InvalidBlockError::InvalidBlockId { id: 0, previous_id: u64::MAX }),
            old(self).spec_tetherion().spec_blocks().last().id < u64::MAX ==> (r is Ok || r
                == Err::<Block<String>, InvalidBlockError>(
                InvalidBlockError::InvalidDifficulty {
                    id: (old(self).spec_tetherion().spec_blocks().last().id + 1) as u64,
                    difficulty: old(self).spec_tetherion().spec_difficulty(),
                },
            )),
            old(self).spec_tetherion().spec_blocks().last().id < u64::MAX && old(
                self,
            ).spec_tetherion().spec_difficulty() == 0 ==> r is Ok,
            r matches Err(InvalidBlockError::InvalidDifficulty { .. }) ==> unminable(
                (old(self).spec_tetherion().spec_blocks().last().id + 1) as u64,
                old(self).spec_tetherion().spec_blocks().last().hash@,
                data@,
                old(self).spec_tetherion().spec_difficulty() as nat,
            ),
    {
        let difficulty = self.tetherion.difficulty();
        let blocks = self.tetherion.blocks();
        let last = &blocks[blocks.len() - 1];
        if last.id == u64::MAX {
            return Err(InvalidBlockError::InvalidBlockId { id: 0, previous_id: u64::MAX });
        }
        let block = Block::new(last.id + 1, last.hash.as_str(), data, difficulty);
        proof {
            if !block.is_valid_spec(difficulty) {
                assert forall|n: u64|
                    !meets_difficulty(
                        #[trigger] hex_chars(
                            sha256_of(hash_input(block.id, block.previous_hash@, block.timestamp, n, block.data@)),
                        ),
                        difficulty as nat,
                    ) by {
                    if meets_difficulty(block.hash_with_nonce(n), difficulty as nat) {
                        assert(block.minable(difficulty as nat));
                    }
                }
                assert(unminable_at(
                    block.id,
                    block.previous_hash@,
                    block.timestamp,
                    block.data@,
                    difficulty as nat,
                ));
            }
        }
        let published = block.duplicate();
        match self.try_add_block(block) {
            Ok(()) => Ok(published),
            Err(e) => Err(e),
        }
    }

    /// On start-up: asks the most recently discovered peer, if any, for its
    /// chain.
    pub fn handle_init(&self, peers: &Vec<String>) -> (r: Action)
        ensures
            peers@.len() == 0 ==> r is Nothing,
            peers@.len() > 0 ==> r == Action::PublishRequest(
                LocalChainRequest { from_peer_id: peers@.last() },
            ),
    {
        if peers.len() == 0 {
            Action::Nothing
        } else {
            let from_peer_id = peers[peers.len() - 1].clone();
            Action::PublishRequest(LocalChainRequest { from_peer_id })
        }
    }

    /// Reacts to an operator's line.
    pub fn handle_input(&mut self, line: &str) -> (r: Action)
        requires
            old(self).wf(),
        ensures
            final(self).wf(),
            final(self).spec_peer_id() == old(self).spec_peer_id(),
            input_outcome(*old(self), *final(self), line@, r),
    {
        match parse_command(line) {
            Command::ListPeers => Action::PrintPeers,
            Command::ListChain => Action::PrintChain,
            Command::CreateBlock(data) => match self.create_block(data) {
                Ok(block) => Action::PublishBlock(block),
                Err(e) => Action::Rejected(e),
            },
            Command::Unknown => Action::UnknownCommand,
        }
    }

    /// Reacts to a local event; `peers` are the peers known at this moment.
    pub fn handle_event(&mut self, event: EventType, peers: &Vec<String>) -> (r: Action)
        requires
            old(self).wf(),
        ensures
            final(self).wf(),
            final(self).spec_peer_id() == old(self).spec_peer_id(),
            (event is Init || event is LocalChainResponse) ==> final(self).spec_tetherion() == old(
                self,
            ).spec_tetherion(),
            event is Init && peers@.len() == 0 ==> r is Nothing,
            event is Init && peers@.len() > 0 ==> r == Action::PublishRequest(
                LocalChainRequest { from_peer_id: peers@.last() },
            ),
            event matches EventType::LocalChainResponse(resp) ==> r == Action::PublishResponse(
                resp,
            ),
            event matches EventType::Input(line) ==> input_outcome(
                *old(self),
                *final(self),
                line@,
                r,
            ),
    {
        match event {
            EventType::Init => self.handle_init(peers),
            EventType::LocalChainResponse(resp) => Action::PublishResponse(resp),
            EventType::Input(line) => self.handle_input(line.as_str()),
        }
    }

    /// Reacts to a message from the peer `source`.
    pub fn handle_message(&mut self, message: Message, source: &String) -> (r: Action)
        requires
            old(self).wf(),
        ensures
            final(self).wf(),
            final(self).spec_peer_id() == old(self).spec_peer_id(),
            message matches Message::Response(resp) ==> {
                let adopt = resp.receiver@ == old(self).spec_peer_id() && resp.tetherion.wf()
                    && !local_preferred(old(self).spec_tetherion(), resp.tetherion);
                &&& r is Nothing
                &&& adopt ==> final(self).spec_tetherion() == resp.tetherion
                &&& !adopt ==> final(self).spec_tetherion() == old(self).spec_tetherion()
            },
            message matches Message::Request(req) ==> {
                &&& final(self).spec_tetherion() == old(self).spec_tetherion()
                &&& req.from_peer_id@ != old(self).spec_peer_id() ==> r is Nothing
                &&& req.from_peer_id@ == old(self).spec_peer_id() ==> r is QueueResponse
                &&& r matches Action::QueueResponse(resp) ==> {
                    &&& resp.receiver@ == source@
                    &&& resp.tetherion.wf()
                    &&& resp.tetherion.spec_blocks() == old(self).spec_tetherion().spec_blocks()
                    &&& resp.tetherion.spec_difficulty() == old(
                        self,
                    ).spec_tetherion().spec_difficulty()
                }
            },
            message matches Message::NewBlock(b) ==> {
                let checked = block_check(
                    old(self).spec_tetherion().spec_blocks().last(),
                    b,
                    old(self).spec_tetherion().spec_difficulty(),
                );
                &&& checked is Ok ==> r is Nothing && final(self).spec_tetherion().spec_blocks()
                    == old(self).spec_tetherion().spec_blocks().push(b)
                &&& checked matches Err(e) ==> r == Action::Rejected(e)
                    && final(self).spec_tetherion() == old(self).spec_tetherion()
            },
    {
        match message {
            Message::Response(resp) => {
                if resp.receiver == self.peer_id && resp.tetherion.blocks().len() > 0 {
                    if !is_better_than(&self.tetherion, &resp.tetherion) {
                        self.tetherion = resp.tetherion;
                    }
                }
                Action::Nothing
            },
            Message::Request(req) => {
                if req.from_peer_id == self.peer_id {
                    Action::QueueResponse(
                        ChainResponse { tetherion: self.tetherion.duplicate(), receiver: source.clone() },
                    )
                } else {
                    Action::Nothing
                }
            },
            Message::NewBlock(block) => match self.try_add_block(block) {
                Ok(()) => Action::Nothing,
                Err(e) => Action::Rejected(e),
            },
        }
    }
}

} // verus!
