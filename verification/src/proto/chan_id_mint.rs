//! Minting of local channel IDs.
use crate::frame::common::{ChanId, Dir, Side, CHAN_IDX_LIMIT};
use crate::frame::typed_chan_id::{
    ChanIdLocalReceiverLocallyMintedMultishot, ChanIdLocalReceiverLocallyMintedOneshot,
    ChanIdLocalSenderLocallyMintedMultishot, ChanIdLocalSenderLocallyMintedOneshot,
};
use vstd::prelude::*;

verus! {

/// Mints the channel IDs of one side of a connection, with a counter per direction and per
/// oneshot flag, so that no ID is minted twice.
pub struct ChanIdMint {
    side: Side,
    to_server_multishot: u64,
    to_server_oneshot: u64,
    to_client_multishot: u64,
    to_client_oneshot: u64,
}

impl ChanIdMint {
    /// The side whose channels this mints.
    pub closed spec fn side(&self) -> Side {
        self.side
    }

    /// The next index that will be minted for channels in direction `dir` with the given oneshot
    /// flag.
    pub closed spec fn next_idx(&self, dir: Dir, is_oneshot: bool) -> u64 {
        match (dir, is_oneshot) {
            (Dir::ToServer, false) => self.to_server_multishot,
            (Dir::ToServer, true) => self.to_server_oneshot,
            (Dir::ToClient, false) => self.to_client_multishot,
            (Dir::ToClient, true) => self.to_client_oneshot,
        }
    }

    /// Construct a mint for `side`. The client's first multishot channel towards the server is
    /// the entrypoint, so the client starts that counter at 1.
    pub fn new(side: Side) -> (r: Self)
        ensures
            r.side() == side,
            r.next_idx(Dir::ToServer, false) == (if side.0 { 0u64 } else { 1u64 }),
            r.next_idx(Dir::ToServer, true) == 0,
            r.next_idx(Dir::ToClient, false) == 0,
            r.next_idx(Dir::ToClient, true) == 0,
    {
        ChanIdMint {
            side,
            to_server_multishot: if side.0 { 0 } else { 1 },
            to_server_oneshot: 0,
            to_client_multishot: 0,
            to_client_oneshot: 0,
        }
    }

    /// Mint the next channel ID created by this side in direction `dir`.
    fn mint(&mut self, dir: Dir, is_oneshot: bool) -> (r: ChanId)
        requires
            old(self).next_idx(dir, is_oneshot) < CHAN_IDX_LIMIT,
        ensures
            r.creator_bit() == old(self).side().0,
            r.sender_bit() == !(dir == Dir::ToServer),
            r.oneshot_bit() == is_oneshot,
            r.idx_part() == old(self).next_idx(dir, is_oneshot),
            final(self).side() == old(self).side(),
            final(self).next_idx(dir, is_oneshot) == old(self).next_idx(dir, is_oneshot) + 1,
            forall|d: Dir, o: bool|
                (d != dir || o != is_oneshot) ==> #[trigger] final(self).next_idx(d, o) == old(
                    self,
                ).next_idx(d, o),
    {
        let idx = match (dir, is_oneshot) {
            (Dir::ToServer, false) => {
                let i = self.to_server_multishot;
                self.to_server_multishot = i + 1;
                i
            },
            (Dir::ToServer, true) => {
                let i = self.to_server_oneshot;
                self.to_server_oneshot = i + 1;
                i
            },
            (Dir::ToClient, false) => {
                let i = self.to_client_multishot;
                self.to_client_multishot = i + 1;
                i
            },
            (Dir::ToClient, true) => {
                let i = self.to_client_oneshot;
                self.to_client_oneshot = i + 1;
                i
            },
        };
        ChanId::new(self.side, dir.side_to().opposite(), is_oneshot, idx)
    }

    /// The side whose channels this mints.
    pub fn get_side(&self) -> (r: Side)
        ensures
            r == self.side(),
    {
        self.side
    }

    /// Whether this side has minted `chan_id`: it is created by this side and its index is below
    /// the counter for its direction and oneshot flag.
    pub fn has_minted(&self, chan_id: ChanId) -> (r: bool)
        ensures
            r == (chan_id.creator_bit() == self.side().0 && chan_id.idx_part() < self.next_idx(
                if chan_id.sender_bit() { Dir::ToClient } else { Dir::ToServer },
                chan_id.oneshot_bit(),
            )),
    {
        if chan_id.creator().0 != self.side.0 {
            return false;
        }
        let idx = chan_id.idx();
        let next = match (chan_id.dir(), chan_id.is_oneshot()) {
            (Dir::ToServer, false) => self.to_server_multishot,
            (Dir::ToServer, true) => self.to_server_oneshot,
            (Dir::ToClient, false) => self.to_client_multishot,
            (Dir::ToClient, true) => self.to_client_oneshot,
        };
        idx < next
    }

    /// Mint the ID of a new multishot channel that this side sends on.
    pub fn mint_local_sender(&mut self) -> (r: ChanIdLocalSenderLocallyMintedMultishot)
        requires
            old(self).next_idx(old(self).side().opposite_spec().dir_to_spec(), false) < CHAN_IDX_LIMIT,
        ensures
            minted(*old(self), *final(self), r.id(), old(self).side().opposite_spec().dir_to_spec(), false),
            r.id().sender_bit() == old(self).side().0,
    {
        let dir = self.side.opposite().dir_to();
        let chan_id = self.mint(dir, false);
        ChanIdLocalSenderLocallyMintedMultishot::new_unchecked(chan_id)
    }

    /// Mint the ID of a new multishot channel that this side receives on.
    pub fn mint_local_receiver(&mut self) -> (r: ChanIdLocalReceiverLocallyMintedMultishot)
        requires
            old(self).next_idx(old(self).side().dir_to_spec(), false) < CHAN_IDX_LIMIT,
        ensures
            minted(*old(self), *final(self), r.id(), old(self).side().dir_to_spec(), false),
            r.id().sender_bit() == !old(self).side().0,
    {
        let dir = self.side.dir_to();
        let chan_id = self.mint(dir, false);
        ChanIdLocalReceiverLocallyMintedMultishot::new_unchecked(chan_id)
    }

    /// Mint the ID of a new oneshot channel that this side sends on.
    pub fn mint_local_sender_oneshot(&mut self) -> (r: ChanIdLocalSenderLocallyMintedOneshot)
        requires
            old(self).next_idx(old(self).side().opposite_spec().dir_to_spec(), true) < CHAN_IDX_LIMIT,
        ensures
            minted(*old(self), *final(self), r.id(), old(self).side().opposite_spec().dir_to_spec(), true),
            r.id().sender_bit() == old(self).side().0,
    {
        let dir = self.side.opposite().dir_to();
        let chan_id = self.mint(dir, true);
        ChanIdLocalSenderLocallyMintedOneshot::new_unchecked(chan_id)
    }

    /// Mint the ID of a new oneshot channel that this side receives on.
    pub fn mint_local_receiver_oneshot(&mut self) -> (r: ChanIdLocalReceiverLocallyMintedOneshot)
        requires
            old(self).next_idx(old(self).side().dir_to_spec(), true) < CHAN_IDX_LIMIT,
        ensures
            minted(*old(self), *final(self), r.id(), old(self).side().dir_to_spec(), true),
            r.id().sender_bit() == !old(self).side().0,
    {
        let dir = self.side.dir_to();
        let chan_id = self.mint(dir, true);
        ChanIdLocalReceiverLocallyMintedOneshot::new_unchecked(chan_id)
    }
}

/// `id` was minted by `before` for direction `dir` and the oneshot flag, leaving `after`: it was
/// created by the mint's side, its index is the counter's value, and only that counter advanced.
pub open spec fn minted(before: ChanIdMint, after: ChanIdMint, id: ChanId, dir: Dir, is_oneshot: bool) -> bool {
    &&& id.creator_bit() == before.side().0
    &&& id.sender_bit() == !(dir == Dir::ToServer)
    &&& id.oneshot_bit() == is_oneshot
    &&& id.idx_part() == before.next_idx(dir, is_oneshot)
    &&& after.side() == before.side()
    &&& after.next_idx(dir, is_oneshot) == before.next_idx(dir, is_oneshot) + 1
    &&& forall|d: Dir, o: bool|
        (d != dir || o != is_oneshot) ==> #[trigger] after.next_idx(d, o) == before.next_idx(d, o)
}

/// The client's mint never again hands out index 0 of the client-to-server multishot channels,
/// which is the entrypoint.
pub open spec fn mint_inv(m: ChanIdMint) -> bool {
    !m.side().0 ==> m.next_idx(Dir::ToServer, false) >= 1
}

/// A new mint keeps the entrypoint reserved.
pub proof fn lemma_new_mint_inv(m: ChanIdMint, side: Side)
    requires
        m.side() == side,
        m.next_idx(Dir::ToServer, false) == (if side.0 { 0u64 } else { 1u64 }),
    ensures
        mint_inv(m),
{
}

/// Minting never produces the entrypoint channel ID, and keeps it reserved.
pub proof fn lemma_minted_not_entrypoint(
    before: ChanIdMint,
    after: ChanIdMint,
    id: ChanId,
    dir: Dir,
    is_oneshot: bool,
)
    requires
        mint_inv(before),
        minted(before, after, id, dir, is_oneshot),
    ensures
        id != ChanId::entrypoint_spec(),
        mint_inv(after),
{
    assert(after.next_idx(Dir::ToServer, false) >= before.next_idx(Dir::ToServer, false));
    if id == ChanId::entrypoint_spec() {
        assert(id.0 == 0);
        assert(!id.creator_bit() && !id.sender_bit() && !id.oneshot_bit() && id.idx_part() == 0);
    }
}

/// An ID minted after another from the same mint differs from it: equal IDs have the same
/// direction, oneshot flag and index, and each mint advances the counter it draws from.
pub proof fn lemma_minted_distinct(
    b1: ChanIdMint,
    a1: ChanIdMint,
    id1: ChanId,
    d1: Dir,
    o1: bool,
    b2: ChanIdMint,
    a2: ChanIdMint,
    id2: ChanId,
    d2: Dir,
    o2: bool,
)
    requires
        minted(b1, a1, id1, d1, o1),
        minted(b2, a2, id2, d2, o2),
        forall|d: Dir, o: bool| #[trigger] a1.next_idx(d, o) <= b2.next_idx(d, o),
    ensures
        id1 != id2,
{
    if id1 == id2 {
        assert(d1 == d2);
        assert(a1.next_idx(d1, o1) <= b2.next_idx(d1, o1));
    }
}

/// A run of mints: step `i` mints `ids[i]` for direction `dirs[i]` and oneshot flag
/// `oneshots[i]`, taking the mint from `states[i]` to `states[i + 1]`.
pub open spec fn mint_run(
    states: Seq<ChanIdMint>,
    ids: Seq<ChanId>,
    dirs: Seq<Dir>,
    oneshots: Seq<bool>,
) -> bool {
    &&& states.len() == ids.len() + 1
    &&& dirs.len() == ids.len()
    &&& oneshots.len() == ids.len()
    &&& forall|i: int|
        0 <= i < ids.len() ==> #[trigger] minted(states[i], states[i + 1], ids[i], dirs[i], oneshots[i])
}

/// How many of the first `i` steps minted for direction `d` and oneshot flag `o`.
pub open spec fn count_before(dirs: Seq<Dir>, oneshots: Seq<bool>, i: int, d: Dir, o: bool) -> int
    decreases i,
{
    if i <= 0 {
        0
    } else {
        count_before(dirs, oneshots, i - 1, d, o) + if dirs[i - 1] == d && oneshots[i - 1] == o {
            1int
        } else {
            0int
        }
    }
}

/// After `i` steps, each counter has advanced by the number of steps that drew from it.
proof fn lemma_run_counters(states: Seq<ChanIdMint>, ids: Seq<ChanId>, dirs: Seq<Dir>, oneshots: Seq<bool>, i: int)
    requires
        mint_run(states, ids, dirs, oneshots),
        0 <= i <= ids.len(),
    ensures
        states[i].side() == states[0].side(),
        mint_inv(states[0]) ==> mint_inv(states[i]),
        forall|d: Dir, o: bool|
            #[trigger] states[i].next_idx(d, o) == states[0].next_idx(d, o) + count_before(dirs, oneshots, i, d, o),
    decreases i,
{
    if i > 0 {
        lemma_run_counters(states, ids, dirs, oneshots, i - 1);
        let k = i - 1;
        assert(minted(states[k], states[k + 1], ids[k], dirs[k], oneshots[k]));
        assert(states[k + 1] == states[i]);
        if mint_inv(states[0]) {
            lemma_minted_not_entrypoint(states[i - 1], states[i], ids[i - 1], dirs[i - 1], oneshots[i - 1]);
        }
        assert forall|d: Dir, o: bool|
            #[trigger] states[i].next_idx(d, o) == states[0].next_idx(d, o) + count_before(dirs, oneshots, i, d, o) by {
            assert(states[i - 1].next_idx(d, o) == states[0].next_idx(d, o) + count_before(dirs, oneshots, i - 1, d, o));
        }
    }
}

/// Later steps for the same counter have counted strictly more steps before them.
proof fn lemma_count_before_grows(dirs: Seq<Dir>, oneshots: Seq<bool>, i: int, j: int)
    requires
        0 <= i < j <= dirs.len(),
        dirs.len() == oneshots.len(),
    ensures
        count_before(dirs, oneshots, j, dirs[i], oneshots[i]) >= count_before(dirs, oneshots, i, dirs[i], oneshots[i]) + 1,
    decreases j,
{
    if j > i + 1 {
        lemma_count_before_grows(dirs, oneshots, i, j - 1);
    }
}

/// Over any run of mints, each minted ID has the index its counter started at plus the number of
/// earlier mints that drew from the same counter; all the IDs differ; and a mint that started out
/// keeping the entrypoint reserved never produces it.
pub proof fn lemma_mint_run(states: Seq<ChanIdMint>, ids: Seq<ChanId>, dirs: Seq<Dir>, oneshots: Seq<bool>)
    requires
        mint_run(states, ids, dirs, oneshots),
    ensures
        forall|i: int|
            0 <= i < ids.len() ==> (#[trigger] ids[i]).idx_part() == states[0].next_idx(dirs[i], oneshots[i])
                + count_before(dirs, oneshots, i, dirs[i], oneshots[i]),
        forall|i: int, j: int| 0 <= i < j < ids.len() ==> #[trigger] ids[i] != #[trigger] ids[j],
        mint_inv(states[0]) ==> forall|i: int| 0 <= i < ids.len() ==> #[trigger] ids[i] != ChanId::entrypoint_spec(),
{
    assert forall|i: int| 0 <= i < ids.len() implies (#[trigger] ids[i]).idx_part() == states[0].next_idx(dirs[i], oneshots[i])
        + count_before(dirs, oneshots, i, dirs[i], oneshots[i]) by {
        lemma_run_counters(states, ids, dirs, oneshots, i);
        assert(minted(states[i], states[i + 1], ids[i], dirs[i], oneshots[i]));
    }
    assert forall|i: int, j: int| 0 <= i < j < ids.len() implies #[trigger] ids[i] != #[trigger] ids[j] by {
        assert(minted(states[i], states[i + 1], ids[i], dirs[i], oneshots[i]));
        assert(minted(states[j], states[j + 1], ids[j], dirs[j], oneshots[j]));
        lemma_run_counters(states, ids, dirs, oneshots, i);
        lemma_run_counters(states, ids, dirs, oneshots, j);
        if dirs[i] == dirs[j] && oneshots[i] == oneshots[j] {
            lemma_count_before_grows(dirs, oneshots, i, j);
        }
        if ids[i] == ids[j] {
            assert(ids[i].sender_bit() == ids[j].sender_bit());
            assert(ids[i].oneshot_bit() == ids[j].oneshot_bit());
            assert(dirs[i] == dirs[j]);
        }
    }
    if mint_inv(states[0]) {
        assert forall|i: int| 0 <= i < ids.len() implies #[trigger] ids[i] != ChanId::entrypoint_spec() by {
            lemma_run_counters(states, ids, dirs, oneshots, i);
            assert(minted(states[i], states[i + 1], ids[i], dirs[i], oneshots[i]));
            lemma_minted_not_entrypoint(states[i], states[i + 1], ids[i], dirs[i], oneshots[i]);
        }
    }
}

/// Over any run of mints by `side`'s mint, starting with no receiver channel minted, the `k`-th
/// multishot receiver ID minted (counting from zero, whatever other mints come between) is
/// created by `side`, sent on by the other side, multishot, and has index `k`.
pub proof fn lemma_receiver_mint_run(
    side: Side,
    states: Seq<ChanIdMint>,
    ids: Seq<ChanId>,
    dirs: Seq<Dir>,
    oneshots: Seq<bool>,
)
    requires
        mint_run(states, ids, dirs, oneshots),
        states[0].side() == side,
        states[0].next_idx(side.dir_to_spec(), false) == 0,
    ensures
        forall|i: int|
            0 <= i < ids.len() && dirs[i] == side.dir_to_spec() && !oneshots[i] ==> {
                &&& (#[trigger] ids[i]).idx_part() == count_before(dirs, oneshots, i, side.dir_to_spec(), false)
                &&& ids[i].creator_bit() == side.0
                &&& ids[i].sender_bit() == !side.0
                &&& !ids[i].oneshot_bit()
            },
{
    lemma_mint_run(states, ids, dirs, oneshots);
    assert forall|i: int|
        0 <= i < ids.len() && dirs[i] == side.dir_to_spec() && !oneshots[i] implies {
            &&& (#[trigger] ids[i]).idx_part() == count_before(dirs, oneshots, i, side.dir_to_spec(), false)
            &&& ids[i].creator_bit() == side.0
            &&& ids[i].sender_bit() == !side.0
            &&& !ids[i].oneshot_bit()
        } by {
        lemma_run_counters(states, ids, dirs, oneshots, i);
        assert(minted(states[i], states[i + 1], ids[i], dirs[i], oneshots[i]));
    }
}

} // verus!
